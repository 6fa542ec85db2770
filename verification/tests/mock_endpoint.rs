use std::cell::RefCell;

use authorization_flow::callback::CallbackAuth;
use authorization_flow::config::ClientConfig;
use authorization_flow::error::{AuthError, StoreError};
use authorization_flow::exchange::{exchange, AuthResponse, TokenRequest, TransportOutcome};
use authorization_flow::finalize::{finalize, finalize_as};
use authorization_flow::flow::{begin_login_with_state, handle_callback};
use authorization_flow::session::PendingAuthorization;
use authorization_flow::store::SessionStore;

const PAYLOAD: &str =
    r#"{"access_token":"T","token_type":"Bearer","scope":"read","expires_in":3600,"refresh_token":"R"}"#;

fn config() -> ClientConfig {
    ClientConfig {
        client_id: String::from("cid"),
        client_secret: String::from("secret"),
        redirect_uri: String::from("https://a/cb"),
        scope: String::from("read"),
    }
}

fn pending() -> PendingAuthorization {
    PendingAuthorization {
        state: String::from("S1"),
        created_at: 1_000,
        redirect_uri: String::from("https://a/cb"),
    }
}

fn callback(code: Option<&str>, error: Option<&str>, state: Option<&str>) -> CallbackAuth {
    CallbackAuth {
        code: code.map(String::from),
        error: error.map(String::from),
        state: state.map(String::from),
    }
}

fn answering(status: u16, body: &str) -> impl FnOnce(TokenRequest) -> TransportOutcome {
    let body = String::from(body);
    move |_request| TransportOutcome::Answered { status, body }
}

#[test]
fn exchange_with_a_mock_then_finalize_expires_after_an_hour() {
    let call_time = 1_700_000_000;
    let mut store = SessionStore::new(600);
    let auth_response =
        exchange("abc", "https://a/cb", "cid", "secret", answering(200, PAYLOAD)).unwrap();
    assert_eq!(
        auth_response,
        AuthResponse {
            access_token: String::from("T"),
            token_type: String::from("Bearer"),
            scope: String::from("read"),
            expires_in: 3600,
            refresh_token: String::from("R"),
        }
    );
    let session = finalize(pending(), auth_response, call_time, &mut store);
    assert_eq!(session.expires_at, call_time + 3600);
}

#[test]
fn exchange_with_a_mock_that_rejects() {
    let mut store = SessionStore::new(600);
    let body = r#"{"error":"invalid_grant"}"#;
    let result = exchange("abc", "https://a/cb", "cid", "secret", answering(400, body));
    assert_eq!(
        result,
        Err(AuthError::ProviderRejected { status: 400, body: String::from(body) })
    );
    store.evict_expired(0);
    assert_eq!(store.remove_authorized("any"), Err(StoreError::NotFound));
}

#[test]
fn exchange_hands_the_request_to_the_transport_once() {
    let seen: RefCell<Vec<TokenRequest>> = RefCell::new(Vec::new());
    let result = exchange("a b", "https://a/cb", "cid", "secret", |request| {
        seen.borrow_mut().push(request);
        TransportOutcome::Failed { detail: String::from("timed out") }
    });
    assert_eq!(result, Err(AuthError::NetworkError { detail: String::from("timed out") }));
    let seen = seen.into_inner();
    assert_eq!(seen.len(), 1);
    assert_eq!(seen[0].url, "https://accounts.spotify.com/api/token");
    assert_eq!(seen[0].authorization, "Basic Y2lkOnNlY3JldA==");
    assert_eq!(seen[0].content_type, "application/x-www-form-urlencoded");
    assert_eq!(seen[0].accept, "application/json");
    assert_eq!(
        seen[0].body,
        "grant_type=authorization_code&code=a%20b&redirect_uri=https%3A%2F%2Fa%2Fcb"
    );
}

#[test]
fn handle_callback_with_a_mock_creates_the_session() {
    let mut store = SessionStore::new(600);
    begin_login_with_state(&config(), "S1", &mut store, 1_000).unwrap();
    let ended = handle_callback(
        &callback(Some("abc"), None, Some("S1")),
        &config(),
        &mut store,
        1_030,
        answering(200, PAYLOAD),
    );
    let session = ended.unwrap();
    assert_eq!(session.expires_at, 4_630);
    assert_eq!(session.access_token, "T");
    assert_eq!(store.get_authorized(&session.session_id, 1_030), Ok(session));
    assert_eq!(store.take_pending("S1", 1_030), Err(StoreError::NotFound));
}

#[test]
fn handle_callback_with_a_mock_that_rejects_creates_no_session() {
    let mut store = SessionStore::new(600);
    finalize_as(
        pending(),
        AuthResponse {
            access_token: String::from("T0"),
            token_type: String::from("Bearer"),
            scope: String::from("read"),
            expires_in: 10,
            refresh_token: String::from("R0"),
        },
        String::from("earlier"),
        1_000,
        &mut store,
    );
    begin_login_with_state(&config(), "S1", &mut store, 1_000).unwrap();
    let body = r#"{"error":"invalid_grant"}"#;
    let ended = handle_callback(
        &callback(Some("abc"), None, Some("S1")),
        &config(),
        &mut store,
        1_005,
        answering(400, body),
    );
    assert_eq!(ended, Err(AuthError::ProviderRejected { status: 400, body: String::from(body) }));
    assert!(store.remove_authorized("earlier").is_ok());
    store.evict_expired(i64::MIN);
    assert_eq!(store.get_authorized("earlier", 1_005), Err(StoreError::NotFound));
}

#[test]
fn handle_callback_sends_nothing_for_a_refused_callback() {
    let mut store = SessionStore::new(600);
    begin_login_with_state(&config(), "S1", &mut store, 1_000).unwrap();
    let sent = RefCell::new(0u32);
    let count = |_request: TokenRequest| {
        *sent.borrow_mut() += 1;
        TransportOutcome::Answered { status: 200, body: String::from(PAYLOAD) }
    };
    let unknown = handle_callback(&callback(Some("abc"), None, Some("S2")), &config(), &mut store, 1_001, &count);
    assert_eq!(unknown, Err(AuthError::InvalidState { state: Some(String::from("S2")) }));
    let stateless = handle_callback(&callback(Some("abc"), None, None), &config(), &mut store, 1_001, &count);
    assert_eq!(stateless, Err(AuthError::InvalidState { state: None }));
    let denied = handle_callback(
        &callback(None, Some("access_denied"), Some("S1")),
        &config(),
        &mut store,
        1_001,
        &count,
    );
    assert_eq!(denied, Err(AuthError::ProviderDenied { reason: String::from("access_denied") }));
    assert_eq!(*sent.borrow(), 0);
    let accepted = handle_callback(&callback(Some("abc"), None, Some("S1")), &config(), &mut store, 1_001, &count);
    assert!(accepted.is_ok());
    assert_eq!(*sent.borrow(), 1);
    let replayed = handle_callback(&callback(Some("abc"), None, Some("S1")), &config(), &mut store, 1_001, &count);
    assert_eq!(replayed, Err(AuthError::InvalidState { state: Some(String::from("S1")) }));
    assert_eq!(*sent.borrow(), 1);
}
