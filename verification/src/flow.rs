//! The two requests of a login, as steps between which the caller does the
//! sending.
//!
//! A login starts with `begin_login`, whose address the browser is sent to.
//! The provider's callback goes to `begin_callback`, which either refuses
//! or names the request to send to the token endpoint. What came of that
//! request goes to `complete_callback`, which gives the session or the
//! failure.

use vstd::prelude::*;

use crate::callback::{
    pending_after_callback, validate, validated, CallbackAuth, CallbackModel, CallbackParameters,
    CallbackResult,
};
use crate::config::{ClientConfig, ConfigModel};
use crate::error::{
    message_of, status_of, store_message_of, store_status_of, AuthError, AuthErrorModel,
    StoreError, STATUS_OK,
};
use crate::exchange::{
    build_token_request, check_credentials_fit, credentials_fit, exchanged, interpret_outcome,
    token_request, TokenModel, TokenRequest, TokenRequestModel, TransportOutcome,
};
use crate::finalize::{clock_in_range, finalize, session_of};
use crate::redirect::{build_redirect, redirect_url};
use crate::session::{AuthorizedSession, PendingAuthorization, PendingModel, SessionModel};
use crate::state_token::{generate, is_token, STATE_LENGTH};
use crate::store::SessionStore;

verus! {

/// A login that was started: where to send the browser, and the record that
/// waits for the callback.
#[derive(Clone, Debug, PartialEq, Eq)]
pub struct LoginRedirect {
    pub url: String,
    pub pending: PendingAuthorization,
}

/// What the handler of a callback does next.
#[derive(Clone, Debug, PartialEq, Eq)]
pub enum CallbackStep {
    /// Answer with the failure; nothing goes to the provider.
    Refused { error: AuthError },
    /// Send the request to the token endpoint, and go on to
    /// `complete_callback` with what came of it.
    Exchange { request: TokenRequest, pending: PendingAuthorization },
}

/// What a `CallbackStep` holds.
pub enum CallbackStepModel {
    Refused { error: AuthErrorModel },
    Exchange { request: TokenRequestModel, pending: PendingModel },
}

impl View for CallbackStep {
    type V = CallbackStepModel;

    open spec fn view(&self) -> CallbackStepModel {
        match *self {
            CallbackStep::Refused { error } => CallbackStepModel::Refused { error: error@ },
            CallbackStep::Exchange { request, pending } => CallbackStepModel::Exchange {
                request: request@,
                pending: pending@,
            },
        }
    }
}

/// Starts a login with the given state: records the pending authorization
/// and builds the address of the authorization request. A state that is
/// already pending is refused, and nothing is recorded.
pub fn begin_login_with_state(
    config: &ClientConfig,
    state: &str,
    store: &mut SessionStore,
    now: i64,
) -> (started: Result<LoginRedirect, StoreError>)
    requires
        old(store).well_formed(),
    ensures
        final(store).well_formed(),
        final(store).authorized() == old(store).authorized(),
        final(store).ttl() == old(store).ttl(),
        match started {
            Ok(login) => {
                &&& !old(store).pending().contains_key(state@)
                &&& login.pending@ == (PendingModel {
                    state: state@,
                    created_at: now as int,
                    redirect_uri: config.redirect_uri@,
                })
                &&& login.url@ == redirect_url(
                    config.client_id@,
                    config.scope@,
                    config.redirect_uri@,
                    state@,
                )
                &&& final(store).pending() == old(store).pending().insert(
                    state@,
                    login.pending@,
                )
            },
            Err(e) => {
                &&& e == StoreError::DuplicateState
                &&& old(store).pending().contains_key(state@)
                &&& final(store).pending() == old(store).pending()
            },
        },
{
    match store.put_pending(state, config.redirect_uri.as_str(), now) {
        Err(e) => Err(e),
        Ok(pending) => {
            let url = build_redirect(
                config.client_id.as_str(),
                config.scope.as_str(),
                config.redirect_uri.as_str(),
                state,
            );
            Ok(LoginRedirect { url, pending })
        },
    }
}

/// Starts a login under a fresh random state of `STATE_LENGTH` characters.
/// Should the state that was drawn be pending already, the login is refused
/// with `DuplicateState` and nothing is recorded; so a store without
/// pending state values refuses no login.
pub fn begin_login(config: &ClientConfig, store: &mut SessionStore, now: i64) -> (started: Result<
    LoginRedirect,
    StoreError,
>)
    requires
        old(store).well_formed(),
    ensures
        final(store).well_formed(),
        final(store).authorized() == old(store).authorized(),
        final(store).ttl() == old(store).ttl(),
        match started {
            Ok(login) => {
                let state = login.pending@.state;
                &&& is_token(state, STATE_LENGTH as int)
                &&& !old(store).pending().contains_key(state)
                &&& login.pending@ == (PendingModel {
                    state,
                    created_at: now as int,
                    redirect_uri: config.redirect_uri@,
                })
                &&& login.url@ == redirect_url(
                    config.client_id@,
                    config.scope@,
                    config.redirect_uri@,
                    state,
                )
                &&& final(store).pending() == old(store).pending().insert(state, login.pending@)
            },
            Err(e) => {
                &&& e == StoreError::DuplicateState
                &&& final(store).pending() == old(store).pending()
                &&& exists|state: Seq<char>|
                    is_token(state, STATE_LENGTH as int) && #[trigger] old(
                        store,
                    ).pending().contains_key(state)
            },
        },
{
    let state = generate(STATE_LENGTH);
    let started = begin_login_with_state(config, state.as_str(), store, now);
    proof {
        if started is Err {
            assert(is_token(state@, STATE_LENGTH as int) && old(store).pending().contains_key(
                state@,
            ));
        }
    }
    started
}

/// The next step for a callback, given what `validate` made of it: a
/// redeemed code is exchanged, with the redirect address that the login was
/// started with; a denial and a refusal are answered at once, and so is a
/// callback that could not be read, as one without a valid state.
pub open spec fn callback_step(
    judged: Result<CallbackModel, AuthErrorModel>,
    client_id: Seq<char>,
    client_secret: Seq<char>,
) -> CallbackStepModel {
    match judged {
        Ok(CallbackModel::Success { code, pending }) => CallbackStepModel::Exchange {
            request: token_request(code, pending.redirect_uri, client_id, client_secret),
            pending,
        },
        Ok(CallbackModel::ProviderError { reason, state }) => CallbackStepModel::Refused {
            error: AuthErrorModel::ProviderDenied { reason },
        },
        Ok(CallbackModel::Malformed) => CallbackStepModel::Refused {
            error: AuthErrorModel::InvalidState { state: None },
        },
        Err(error) => CallbackStepModel::Refused { error },
    }
}

/// What `begin_callback` makes of a callback. Credentials too long to be
/// encoded count as missing, whatever the callback brings.
pub open spec fn begun(
    params: CallbackParameters,
    config: ConfigModel,
    pending: Map<Seq<char>, PendingModel>,
    now: int,
    ttl: int,
) -> CallbackStepModel {
    if credentials_fit(config.client_id, config.client_secret) {
        callback_step(
            validated(params, pending, now, ttl),
            config.client_id,
            config.client_secret,
        )
    } else {
        CallbackStepModel::Refused { error: AuthErrorModel::MissingCredentials }
    }
}

/// The pending authorizations after `begin_callback`.
pub open spec fn pending_after_begin(
    params: CallbackParameters,
    config: ConfigModel,
    pending: Map<Seq<char>, PendingModel>,
) -> Map<Seq<char>, PendingModel> {
    if credentials_fit(config.client_id, config.client_secret) {
        pending_after_callback(params, pending)
    } else {
        pending
    }
}

/// Whether a callback ended as the outcome of its exchange says: tokens
/// gave a session under an identifier of 36 characters, which was stored;
/// a failure was handed on and the sessions stayed as they were.
pub open spec fn completed(
    ended: Result<AuthorizedSession, AuthError>,
    outcome: TransportOutcome,
    before: Map<Seq<char>, SessionModel>,
    after: Map<Seq<char>, SessionModel>,
    now: int,
) -> bool {
    match ended {
        Ok(session) => {
            &&& exchanged(outcome) matches Ok(token)
            &&& session@ == session_of(session@.session_id, token, now)
            &&& session@.session_id.len() == 36
            &&& after == before.insert(session@.session_id, session@)
        },
        Err(error) => {
            &&& exchanged(outcome) == Err::<TokenModel, AuthErrorModel>(error@)
            &&& after == before
        },
    }
}

/// Handles the provider's callback at time `now`, up to the point where a
/// request has to be sent. The callback is judged by `validate`, and the
/// store changes as it does there: a callback that is refused starts no
/// exchange. Credentials too long to be encoded are refused before the
/// callback is looked at, and the store stays as it is.
pub fn begin_callback(
    params: &CallbackAuth,
    config: &ClientConfig,
    store: &mut SessionStore,
    now: i64,
) -> (step: CallbackStep)
    requires
        old(store).well_formed(),
    ensures
        final(store).well_formed(),
        step@ == begun(params@, config@, old(store).pending(), now as int, old(store).ttl()),
        final(store).pending() == pending_after_begin(params@, config@, old(store).pending()),
        final(store).authorized() == old(store).authorized(),
        final(store).ttl() == old(store).ttl(),
{
    if !check_credentials_fit(config.client_id.as_str(), config.client_secret.as_str()) {
        return CallbackStep::Refused { error: AuthError::MissingCredentials };
    }
    match validate(params, store, now) {
        Ok(CallbackResult::Success { code, pending }) => {
            let request = build_token_request(
                code.as_str(),
                pending.redirect_uri.as_str(),
                config.client_id.as_str(),
                config.client_secret.as_str(),
            );
            CallbackStep::Exchange { request, pending }
        },
        Ok(CallbackResult::ProviderError { reason, state }) => CallbackStep::Refused {
            error: AuthError::ProviderDenied { reason },
        },
        Ok(CallbackResult::Malformed) => CallbackStep::Refused {
            error: AuthError::InvalidState { state: None },
        },
        Err(error) => CallbackStep::Refused { error },
    }
}

/// Ends the handling of a callback with what came of the exchange. Tokens
/// become a session, which is stored; a failure leaves the store as it was.
pub fn complete_callback(
    pending: PendingAuthorization,
    outcome: TransportOutcome,
    now: i64,
    store: &mut SessionStore,
) -> (ended: Result<AuthorizedSession, AuthError>)
    requires
        old(store).well_formed(),
        clock_in_range(now),
    ensures
        final(store).well_formed(),
        completed(ended, outcome, old(store).authorized(), final(store).authorized(), now as int),
        final(store).pending() == old(store).pending(),
        final(store).ttl() == old(store).ttl(),
{
    match interpret_outcome(outcome) {
        Ok(auth_response) => Ok(finalize(pending, auth_response, now, store)),
        Err(error) => Err(error),
    }
}

/// Handles the provider's callback from its arrival to its end, with
/// `send` for the one request that goes to the token endpoint: the steps
/// of `begin_callback` and `complete_callback` in a row. A callback that is
/// refused is not sent anything for.
pub fn handle_callback<F: FnOnce(TokenRequest) -> TransportOutcome>(
    params: &CallbackAuth,
    config: &ClientConfig,
    store: &mut SessionStore,
    now: i64,
    send: F,
) -> (ended: Result<AuthorizedSession, AuthError>)
    requires
        old(store).well_formed(),
        clock_in_range(now),
        forall|request: TokenRequest| #[trigger] call_requires(send, (request,)),
    ensures
        final(store).well_formed(),
        final(store).pending() == pending_after_begin(params@, config@, old(store).pending()),
        final(store).ttl() == old(store).ttl(),
        match begun(params@, config@, old(store).pending(), now as int, old(store).ttl()) {
            CallbackStepModel::Refused { error } => {
                &&& ended matches Err(e)
                &&& e@ == error
                &&& final(store).authorized() == old(store).authorized()
            },
            CallbackStepModel::Exchange { request, pending } => exists|
                sent: TokenRequest,
                outcome: TransportOutcome,
            |
                {
                    &&& sent@ == request
                    &&& #[trigger] call_ensures(send, (sent,), outcome)
                    &&& completed(
                        ended,
                        outcome,
                        old(store).authorized(),
                        final(store).authorized(),
                        now as int,
                    )
                },
        },
{
    match begin_callback(params, config, store, now) {
        CallbackStep::Refused { error } => Err(error),
        CallbackStep::Exchange { request, pending } => {
            let ghost sent = request;
            let ghost before = store.authorized();
            let outcome = send(request);
            let ended = complete_callback(pending, outcome, now, store);
            proof {
                assert(call_ensures(send, (sent,), outcome) && completed(
                    ended,
                    outcome,
                    before,
                    store.authorized(),
                    now as int,
                ));
            }
            ended
        },
    }
}

/// The answer to the browser.
#[derive(Clone, Debug, PartialEq, Eq)]
pub enum CallbackReply {
    /// The login succeeded: the session is the answer's data.
    Success { session: AuthorizedSession },
    /// The login failed: the answer holds a message and nothing else.
    Failure { status: u16, message: String },
}

/// What a `CallbackReply` holds.
pub enum CallbackReplyModel {
    Success { session: SessionModel },
    Failure { status: u16, message: Seq<char> },
}

impl View for CallbackReply {
    type V = CallbackReplyModel;

    open spec fn view(&self) -> CallbackReplyModel {
        match *self {
            CallbackReply::Success { session } => CallbackReplyModel::Success {
                session: session@,
            },
            CallbackReply::Failure { status, message } => CallbackReplyModel::Failure {
                status,
                message: message@,
            },
        }
    }
}

/// The HTTP status of an answer: 200 for a success, the status of the
/// failure otherwise.
pub open spec fn reply_status(reply: CallbackReplyModel) -> u16 {
    match reply {
        CallbackReplyModel::Success { .. } => STATUS_OK,
        CallbackReplyModel::Failure { status, .. } => status,
    }
}

/// The word under `status` in the body of an answer.
pub open spec fn reply_label(reply: CallbackReplyModel) -> Seq<char> {
    match reply {
        CallbackReplyModel::Success { .. } => "success"@,
        CallbackReplyModel::Failure { .. } => "error"@,
    }
}

impl CallbackReply {
    /// The HTTP status of the answer.
    pub fn status(&self) -> (status: u16)
        ensures
            status == reply_status(self@),
    {
        match self {
            CallbackReply::Success { .. } => STATUS_OK,
            CallbackReply::Failure { status, .. } => *status,
        }
    }

    /// The word under `status` in the body of the answer.
    pub fn label(&self) -> (label: &'static str)
        ensures
            label@ == reply_label(self@),
    {
        match self {
            CallbackReply::Success { .. } => "success",
            CallbackReply::Failure { .. } => "error",
        }
    }
}

/// The answer for a login that could not be started: the status and the
/// fixed message of the store's refusal.
pub fn refusal_reply(refusal: StoreError) -> (reply: CallbackReply)
    ensures
        reply@ == (CallbackReplyModel::Failure {
            status: store_status_of(refusal),
            message: store_message_of(refusal),
        }),
{
    CallbackReply::Failure {
        status: refusal.status_code(),
        message: refusal.client_message().to_owned(),
    }
}

/// The answer for the end of a callback: the session, or the status and the
/// fixed message of the failure. What the failure holds besides stays with
/// the caller, for its log.
pub fn reply_to(ended: Result<AuthorizedSession, AuthError>) -> (reply: CallbackReply)
    ensures
        match ended {
            Ok(session) => reply@ == (CallbackReplyModel::Success { session: session@ }),
            Err(error) => reply@ == (CallbackReplyModel::Failure {
                status: status_of(error@),
                message: message_of(error@),
            }),
        },
{
    match ended {
        Ok(session) => CallbackReply::Success { session },
        Err(error) => CallbackReply::Failure {
            status: error.status_code(),
            message: error.client_message().to_owned(),
        },
    }
}

} // verus!
