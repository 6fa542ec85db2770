use authorization_flow::callback::CallbackAuth;
use authorization_flow::config::ClientConfig;
use authorization_flow::error::{AuthError, StoreError};
use authorization_flow::exchange::{
    interpret_outcome, AuthResponse, TokenRequest, TransportOutcome,
};
use authorization_flow::finalize::{check_clock_in_range, finalize, finalize_as};
use authorization_flow::flow::{
    begin_callback, begin_login, begin_login_with_state, complete_callback, reply_to,
    CallbackReply, CallbackStep,
};
use authorization_flow::redirect::build_redirect;
use authorization_flow::session::{AuthorizedSession, PendingAuthorization};
use authorization_flow::store::SessionStore;

const PAYLOAD: &str =
    r#"{"access_token":"T","token_type":"Bearer","scope":"read","expires_in":3600,"refresh_token":"R"}"#;

fn config() -> ClientConfig {
    ClientConfig {
        client_id: String::from("cid"),
        client_secret: String::from("secret"),
        redirect_uri: String::from("https://a/cb"),
        scope: String::from("read"),
    }
}

fn pending() -> PendingAuthorization {
    PendingAuthorization {
        state: String::from("S1"),
        created_at: 1_000,
        redirect_uri: String::from("https://a/cb"),
    }
}

fn token(expires_in: i32) -> AuthResponse {
    AuthResponse {
        access_token: String::from("T"),
        token_type: String::from("Bearer"),
        scope: String::from("read"),
        expires_in,
        refresh_token: String::from("R"),
    }
}

fn callback(code: Option<&str>, error: Option<&str>, state: Option<&str>) -> CallbackAuth {
    CallbackAuth {
        code: code.map(String::from),
        error: error.map(String::from),
        state: state.map(String::from),
    }
}

#[test]
fn exchange_then_finalize_expires_after_the_lifetime() {
    let now = 1_700_000_000;
    let mut store = SessionStore::new(600);
    let answered = TransportOutcome::Answered { status: 200, body: String::from(PAYLOAD) };
    let auth_response = interpret_outcome(answered).unwrap();
    let session = finalize(pending(), auth_response, now, &mut store);
    assert_eq!(session.expires_at, now + 3600);
    assert_eq!(session.access_token, "T");
    assert_eq!(session.refresh_token, "R");
    assert_eq!(session.token_type, "Bearer");
    assert_eq!(session.scope, "read");
    assert_eq!(store.get_authorized(&session.session_id, now), Ok(session));
}

#[test]
fn finalize_as_stores_the_session_under_the_identifier() {
    let mut store = SessionStore::new(600);
    let session = finalize_as(pending(), token(3600), String::from("id-1"), 5_000, &mut store);
    assert_eq!(
        session,
        AuthorizedSession {
            session_id: String::from("id-1"),
            access_token: String::from("T"),
            refresh_token: String::from("R"),
            token_type: String::from("Bearer"),
            scope: String::from("read"),
            expires_at: 8_600,
        }
    );
    assert_eq!(store.get_authorized("id-1", 8_599), Ok(session));
    assert_eq!(store.get_authorized("id-1", 8_600), Err(StoreError::Expired));
}

#[test]
fn finalize_as_with_a_lifetime_that_is_not_positive() {
    let mut store = SessionStore::new(600);
    let at_once = finalize_as(pending(), token(0), String::from("zero"), 5_000, &mut store);
    assert_eq!(at_once.expires_at, 5_000);
    assert_eq!(store.get_authorized("zero", 5_000), Err(StoreError::Expired));
    let before = finalize_as(pending(), token(-10), String::from("past"), 5_000, &mut store);
    assert_eq!(before.expires_at, 4_990);
}

#[test]
fn finalize_as_at_the_ends_of_the_clock() {
    let mut store = SessionStore::new(600);
    let highest = i64::MAX - i32::MAX as i64;
    let lowest = i64::MIN - i32::MIN as i64;
    assert!(check_clock_in_range(highest));
    assert!(check_clock_in_range(lowest));
    assert!(!check_clock_in_range(highest + 1));
    assert!(!check_clock_in_range(lowest - 1));
    assert!(check_clock_in_range(0));
    let late = finalize_as(pending(), token(i32::MAX), String::from("late"), highest, &mut store);
    assert_eq!(late.expires_at, i64::MAX);
    let early = finalize_as(pending(), token(i32::MIN), String::from("early"), lowest, &mut store);
    assert_eq!(early.expires_at, i64::MIN);
}

#[test]
fn finalize_draws_a_fresh_identifier_each_time() {
    let mut store = SessionStore::new(600);
    let first = finalize(pending(), token(3600), 5_000, &mut store);
    let second = finalize(pending(), token(3600), 5_000, &mut store);
    assert_eq!(first.session_id.chars().count(), 36);
    assert_eq!(second.session_id.chars().count(), 36);
    assert_ne!(first.session_id, second.session_id);
    assert!(store.get_authorized(&first.session_id, 5_000).is_ok());
    assert!(store.get_authorized(&second.session_id, 5_000).is_ok());
}

#[test]
fn begin_login_with_state_records_and_redirects() {
    let mut store = SessionStore::new(600);
    let login = begin_login_with_state(&config(), "S1", &mut store, 1_000).unwrap();
    assert_eq!(login.pending, pending());
    assert_eq!(login.url, build_redirect("cid", "read", "https://a/cb", "S1"));
    assert_eq!(
        begin_login_with_state(&config(), "S1", &mut store, 1_001),
        Err(StoreError::DuplicateState)
    );
    assert_eq!(store.take_pending("S1", 1_001), Ok(pending()));
}

#[test]
fn begin_login_draws_a_state_of_sixteen_characters() {
    let mut store = SessionStore::new(600);
    let login = begin_login(&config(), &mut store, 1_000).unwrap();
    let state = login.pending.state.clone();
    assert_eq!(state.chars().count(), 16);
    assert!(state.chars().all(|c| c.is_ascii_uppercase() || c.is_ascii_digit()));
    assert_eq!(login.url, build_redirect("cid", "read", "https://a/cb", &state));
    assert_eq!(login.pending.created_at, 1_000);
    assert_eq!(login.pending.redirect_uri, "https://a/cb");
    assert_eq!(store.take_pending(&state, 1_000), Ok(login.pending));
}

#[test]
fn begin_callback_refuses_an_unknown_state() {
    let mut store = SessionStore::new(600);
    let step = begin_callback(&callback(Some("abc"), None, Some("S1")), &config(), &mut store, 1_000);
    assert_eq!(
        step,
        CallbackStep::Refused { error: AuthError::InvalidState { state: Some(String::from("S1")) } }
    );
}

#[test]
fn begin_callback_refuses_a_code_without_state() {
    let mut store = SessionStore::new(600);
    let step = begin_callback(&callback(Some("abc"), None, None), &config(), &mut store, 1_000);
    assert_eq!(step, CallbackStep::Refused { error: AuthError::InvalidState { state: None } });
}

#[test]
fn begin_callback_answers_a_denial() {
    let mut store = SessionStore::new(600);
    store.put_pending("S1", "https://a/cb", 1_000).unwrap();
    let step = begin_callback(
        &callback(None, Some("access_denied"), Some("S1")),
        &config(),
        &mut store,
        1_000,
    );
    let error = AuthError::ProviderDenied { reason: String::from("access_denied") };
    assert_eq!(error.status_code(), 401);
    assert_eq!(step, CallbackStep::Refused { error });
    assert!(store.take_pending("S1", 1_000).is_ok());
}

#[test]
fn begin_callback_names_the_request_for_a_redeemed_code() {
    let mut store = SessionStore::new(600);
    store.put_pending("S1", "https://login/cb", 1_000).unwrap();
    let step = begin_callback(&callback(Some("abc"), None, Some("S1")), &config(), &mut store, 1_001);
    assert_eq!(
        step,
        CallbackStep::Exchange {
            request: TokenRequest {
                url: String::from("https://accounts.spotify.com/api/token"),
                authorization: String::from("Basic Y2lkOnNlY3JldA=="),
                content_type: String::from("application/x-www-form-urlencoded"),
                accept: String::from("application/json"),
                body: String::from(
                    "grant_type=authorization_code&code=abc&redirect_uri=https%3A%2F%2Flogin%2Fcb"
                ),
            },
            pending: PendingAuthorization {
                state: String::from("S1"),
                created_at: 1_000,
                redirect_uri: String::from("https://login/cb"),
            },
        }
    );
    let replay = begin_callback(&callback(Some("abc"), None, Some("S1")), &config(), &mut store, 1_001);
    assert_eq!(
        replay,
        CallbackStep::Refused { error: AuthError::InvalidState { state: Some(String::from("S1")) } }
    );
}

#[test]
fn complete_callback_creates_the_session() {
    let now = 1_700_000_000;
    let mut store = SessionStore::new(600);
    let answered = TransportOutcome::Answered { status: 200, body: String::from(PAYLOAD) };
    let session = complete_callback(pending(), answered, now, &mut store).unwrap();
    assert_eq!(session.expires_at, now + 3600);
    assert_eq!(session.session_id.chars().count(), 36);
    assert_eq!(store.get_authorized(&session.session_id, now + 3599), Ok(session.clone()));
    assert_eq!(store.get_authorized(&session.session_id, now + 3600), Err(StoreError::Expired));
}

#[test]
fn complete_callback_of_a_rejection_creates_no_session() {
    let mut store = SessionStore::new(600);
    store.put_authorized(AuthorizedSession {
        session_id: String::from("earlier"),
        access_token: String::from("T0"),
        refresh_token: String::from("R0"),
        token_type: String::from("Bearer"),
        scope: String::from("read"),
        expires_at: 10_000,
    });
    let body = r#"{"error":"invalid_grant"}"#;
    let rejected = TransportOutcome::Answered { status: 400, body: String::from(body) };
    let ended = complete_callback(pending(), rejected, 5_000, &mut store);
    assert_eq!(ended, Err(AuthError::ProviderRejected { status: 400, body: String::from(body) }));
    store.evict_expired(9_999);
    assert!(store.get_authorized("earlier", 9_999).is_ok());
    store.evict_expired(10_000);
    assert_eq!(store.get_authorized("earlier", 10_000), Err(StoreError::NotFound));
}

#[test]
fn complete_callback_of_no_answer_is_a_network_error() {
    let mut store = SessionStore::new(600);
    let failed = TransportOutcome::Failed { detail: String::from("connection refused") };
    let ended = complete_callback(pending(), failed, 5_000, &mut store);
    let error = AuthError::NetworkError { detail: String::from("connection refused") };
    assert_eq!(error.status_code(), 500);
    assert_eq!(ended, Err(error));
}

#[test]
fn complete_callback_of_a_malformed_payload_is_a_parse_error() {
    let mut store = SessionStore::new(600);
    let answered = TransportOutcome::Answered { status: 200, body: String::from("{}") };
    let ended = complete_callback(pending(), answered, 5_000, &mut store);
    assert_eq!(ended, Err(AuthError::TokenParseError));
    assert_eq!(AuthError::TokenParseError.status_code(), 500);
}

#[test]
fn a_whole_login() {
    let mut store = SessionStore::new(600);
    let login = begin_login(&config(), &mut store, 1_000).unwrap();
    let state = login.pending.state.clone();
    let step = begin_callback(&callback(Some("abc"), None, Some(&state)), &config(), &mut store, 1_060);
    let taken = match step {
        CallbackStep::Exchange { request, pending } => {
            assert_eq!(
                request.body,
                "grant_type=authorization_code&code=abc&redirect_uri=https%3A%2F%2Fa%2Fcb"
            );
            pending
        }
        CallbackStep::Refused { error } => panic!("refused: {:?}", error),
    };
    let answered = TransportOutcome::Answered { status: 200, body: String::from(PAYLOAD) };
    let session = complete_callback(taken, answered, 1_061, &mut store).unwrap();
    assert_eq!(session.expires_at, 4_661);
    assert_eq!(store.get_authorized(&session.session_id, 1_061), Ok(session));
}

#[test]
fn reply_to_a_session_is_a_success() {
    let session = AuthorizedSession {
        session_id: String::from("id-1"),
        access_token: String::from("T"),
        refresh_token: String::from("R"),
        token_type: String::from("Bearer"),
        scope: String::from("read"),
        expires_at: 8_600,
    };
    let reply = reply_to(Ok(session.clone()));
    assert_eq!(reply, CallbackReply::Success { session });
    assert_eq!(reply.status(), 200);
    assert_eq!(reply.label(), "success");
}

#[test]
fn reply_to_a_failure_holds_status_and_fixed_message() {
    let denied = reply_to(Err(AuthError::ProviderDenied { reason: String::from("access_denied") }));
    assert_eq!(
        denied,
        CallbackReply::Failure { status: 401, message: String::from("Authorization denied") }
    );
    assert_eq!(denied.status(), 401);
    assert_eq!(denied.label(), "error");
    let invalid = reply_to(Err(AuthError::InvalidState { state: Some(String::from("S1")) }));
    assert_eq!(
        invalid,
        CallbackReply::Failure { status: 401, message: String::from("Invalid state") }
    );
    let network = reply_to(Err(AuthError::NetworkError { detail: String::from("10.0.0.1 down") }));
    assert_eq!(
        network,
        CallbackReply::Failure { status: 500, message: String::from("Provider unreachable") }
    );
    let parse = reply_to(Err(AuthError::TokenParseError));
    assert_eq!(
        parse,
        CallbackReply::Failure { status: 500, message: String::from("Unexpected provider response") }
    );
    let rejected =
        reply_to(Err(AuthError::ProviderRejected { status: 400, body: String::from("{}") }));
    assert_eq!(
        rejected,
        CallbackReply::Failure { status: 401, message: String::from("Authorization rejected") }
    );
    let missing = reply_to(Err(AuthError::MissingCredentials));
    assert_eq!(
        missing,
        CallbackReply::Failure { status: 400, message: String::from("Missing credentials") }
    );
}

#[test]
fn a_session_is_a_bearer_session() {
    let mut store = SessionStore::new(600);
    let mut response = token(3600);
    response.token_type = String::from("bearer");
    let session = finalize_as(pending(), response, String::from("id-1"), 5_000, &mut store);
    assert_eq!(session.token_type, "Bearer");
    assert_eq!(authorization_flow::finalize::BEARER, "Bearer");
}

#[test]
fn refusal_reply_holds_status_and_fixed_message() {
    let reply = authorization_flow::flow::refusal_reply(StoreError::DuplicateState);
    assert_eq!(
        reply,
        CallbackReply::Failure { status: 500, message: String::from("Login could not be started") }
    );
    assert_eq!(reply.label(), "error");
}
