//! The provider's callback: what it brings and whether it is accepted.

use vstd::prelude::*;

use crate::error::{AuthError, AuthErrorModel};
use crate::query::{parse_query, parsed_query, string_pairs};
use crate::session::{PendingAuthorization, PendingModel};
use crate::store::{redeemable, SessionStore};
use crate::text::{optional_text, str_eq};

verus! {

/// The query parameters of the callback.
#[derive(Clone, Debug, PartialEq, Eq)]
pub struct CallbackAuth {
    /// The authorization code, where the provider granted one.
    pub code: Option<String>,
    /// The provider's reason, where it granted none.
    pub error: Option<String>,
    /// The state that the login was started with.
    pub state: Option<String>,
}

/// What the parameters of a callback hold.
pub struct CallbackParameters {
    pub code: Option<Seq<char>>,
    pub error: Option<Seq<char>>,
    pub state: Option<Seq<char>>,
}

impl View for CallbackAuth {
    type V = CallbackParameters;

    open spec fn view(&self) -> CallbackParameters {
        CallbackParameters {
            code: optional_text(self.code),
            error: optional_text(self.error),
            state: optional_text(self.state),
        }
    }
}

/// The value of the first pair with the key.
pub open spec fn first_value(pairs: Seq<(Seq<char>, Seq<char>)>, key: Seq<char>) -> Option<
    Seq<char>,
>
    decreases pairs.len(),
{
    if pairs.len() == 0 {
        None
    } else if pairs[0].0 == key {
        Some(pairs[0].1)
    } else {
        first_value(pairs.drop_first(), key)
    }
}

/// The parameters of a callback in the query of its address: `code`,
/// `error` and `state`, each where the query has it; none where the query
/// cannot be decoded.
pub open spec fn callback_in_query(query: Seq<char>) -> Option<CallbackParameters> {
    match parsed_query(query) {
        Some(pairs) => Some(
            CallbackParameters {
                code: first_value(pairs, "code"@),
                error: first_value(pairs, "error"@),
                state: first_value(pairs, "state"@),
            },
        ),
        None => None,
    }
}

fn value_of(pairs: &Vec<(String, String)>, key: &str) -> (value: Option<String>)
    ensures
        optional_text(value) == first_value(string_pairs(pairs@), key@),
{
    let n: usize = pairs.len();
    let mut i: usize = 0;
    assert(string_pairs(pairs@).skip(0) =~= string_pairs(pairs@));
    while i < n
        invariant
            i <= n,
            n == pairs@.len(),
            first_value(string_pairs(pairs@), key@) == first_value(
                string_pairs(pairs@).skip(i as int),
                key@,
            ),
        decreases n - i,
    {
        let ghost tail = string_pairs(pairs@).skip(i as int);
        assert(tail[0] == (pairs@[i as int].0@, pairs@[i as int].1@));
        assert(tail.drop_first() =~= string_pairs(pairs@).skip(i + 1));
        if str_eq(pairs[i].0.as_str(), key) {
            return Some(pairs[i].1.clone());
        }
        i = i + 1;
    }
    None
}

impl CallbackAuth {
    /// Reads the parameters of a callback out of the query of its address.
    pub fn from_query(query: &str) -> (params: Option<CallbackAuth>)
        ensures
            match params {
                Some(p) => callback_in_query(query@) == Some(p@),
                None => callback_in_query(query@) is None,
            },
    {
        match parse_query(query) {
            None => None,
            Some(pairs) => Some(
                CallbackAuth {
                    code: value_of(&pairs, "code"),
                    error: value_of(&pairs, "error"),
                    state: value_of(&pairs, "state"),
                },
            ),
        }
    }
}

/// What a callback amounts to.
#[derive(Clone, Debug, PartialEq, Eq)]
pub enum CallbackResult {
    /// A code came with the state of a pending authorization, which is
    /// hereby consumed.
    Success { code: String, pending: PendingAuthorization },
    /// No code came.
    ProviderError { reason: String, state: Option<String> },
    /// The query of the callback's address cannot be decoded.
    Malformed,
}

/// What a `CallbackResult` holds.
pub enum CallbackModel {
    Success { code: Seq<char>, pending: PendingModel },
    ProviderError { reason: Seq<char>, state: Option<Seq<char>> },
    Malformed,
}

impl View for CallbackResult {
    type V = CallbackModel;

    open spec fn view(&self) -> CallbackModel {
        match *self {
            CallbackResult::Success { code, pending } => CallbackModel::Success {
                code: code@,
                pending: pending@,
            },
            CallbackResult::ProviderError { reason, state } => CallbackModel::ProviderError {
                reason: reason@,
                state: optional_text(state),
            },
            CallbackResult::Malformed => CallbackModel::Malformed,
        }
    }
}

/// The reason given where the provider sent neither a code nor an error.
pub const UNSPECIFIED_REASON: &'static str = "authentication failed for unspecified reason";

/// The provider's reason for sending no code.
pub open spec fn denial_reason(error: Option<Seq<char>>) -> Seq<char> {
    match error {
        Some(reason) => reason,
        None => UNSPECIFIED_REASON@,
    }
}

/// What `validate` returns for a callback, given the pending authorizations
/// before the call.
pub open spec fn validated(
    params: CallbackParameters,
    pending: Map<Seq<char>, PendingModel>,
    now: int,
    ttl: int,
) -> Result<CallbackModel, AuthErrorModel> {
    match params.code {
        None => Ok(
            CallbackModel::ProviderError {
                reason: denial_reason(params.error),
                state: params.state,
            },
        ),
        Some(code) => match params.state {
            None => Err(AuthErrorModel::InvalidState { state: None }),
            Some(s) => match redeemable(pending, s, now, ttl) {
                Some(record) => Ok(CallbackModel::Success { code, pending: record }),
                None => Err(AuthErrorModel::InvalidState { state: Some(s) }),
            },
        },
    }
}

/// The pending authorizations after `validate`: a callback that brings a code
/// and a state uses that state up, whether it was accepted or not; any other
/// callback leaves the store alone.
pub open spec fn pending_after_callback(
    params: CallbackParameters,
    pending: Map<Seq<char>, PendingModel>,
) -> Map<Seq<char>, PendingModel> {
    if params.code is Some && params.state is Some {
        pending.remove(params.state->0)
    } else {
        pending
    }
}

/// The view of a validation's outcome.
pub open spec fn outcome_view(outcome: Result<CallbackResult, AuthError>) -> Result<
    CallbackModel,
    AuthErrorModel,
> {
    match outcome {
        Ok(result) => Ok(result@),
        Err(error) => Err(error@),
    }
}

/// No state is accepted twice: once a callback has brought a code with a
/// state, whatever came of it, no later callback with that state succeeds,
/// whatever else it brings and whenever it comes.
pub proof fn lemma_state_is_accepted_once(
    first: CallbackParameters,
    second: CallbackParameters,
    pending: Map<Seq<char>, PendingModel>,
    later: int,
    ttl: int,
)
    requires
        first.code is Some,
        first.state is Some,
        second.state == first.state,
    ensures
        !(validated(second, pending_after_callback(first, pending), later, ttl) matches Ok(
            CallbackModel::Success { .. },
        )),
{
}

fn copy_of(text: &Option<String>) -> (copy: Option<String>)
    ensures
        optional_text(copy) == optional_text(*text),
{
    match text {
        Some(s) => Some(s.clone()),
        None => None,
    }
}

/// Judges a callback at time `now`.
///
/// Without a code the callback is a denial, with the provider's reason, and
/// the store is not touched. With a code the state must be that of a pending
/// authorization that has not expired: that authorization is taken out of
/// the store and handed over with the code. A code with no state, or with a
/// state that is unknown, expired or was used before, is refused as
/// `InvalidState`.
pub fn validate(params: &CallbackAuth, store: &mut SessionStore, now: i64) -> (outcome: Result<
    CallbackResult,
    AuthError,
>)
    requires
        old(store).well_formed(),
    ensures
        final(store).well_formed(),
        outcome_view(outcome) == validated(
            params@,
            old(store).pending(),
            now as int,
            old(store).ttl(),
        ),
        final(store).pending() == pending_after_callback(params@, old(store).pending()),
        final(store).authorized() == old(store).authorized(),
        final(store).ttl() == old(store).ttl(),
{
    match &params.code {
        None => {
            let reason = match &params.error {
                Some(reason) => reason.clone(),
                None => UNSPECIFIED_REASON.to_owned(),
            };
            Ok(CallbackResult::ProviderError { reason, state: copy_of(&params.state) })
        },
        Some(code) => match &params.state {
            None => Err(AuthError::InvalidState { state: None }),
            Some(state) => match store.take_pending(state.as_str(), now) {
                Ok(pending) => Ok(CallbackResult::Success { code: code.clone(), pending }),
                Err(_) => Err(AuthError::InvalidState { state: Some(state.clone()) }),
            },
        },
    }
}

/// What `validate_query` returns for the query of a callback's address.
pub open spec fn validated_query(
    query: Seq<char>,
    pending: Map<Seq<char>, PendingModel>,
    now: int,
    ttl: int,
) -> Result<CallbackModel, AuthErrorModel> {
    match callback_in_query(query) {
        Some(params) => validated(params, pending, now, ttl),
        None => Ok(CallbackModel::Malformed),
    }
}

/// The pending authorizations after `validate_query`.
pub open spec fn pending_after_query(
    query: Seq<char>,
    pending: Map<Seq<char>, PendingModel>,
) -> Map<Seq<char>, PendingModel> {
    match callback_in_query(query) {
        Some(params) => pending_after_callback(params, pending),
        None => pending,
    }
}

/// Judges a callback by the query of its address. A query that cannot be
/// decoded is `Malformed`, and the store is not touched; any other is read
/// and judged as `validate` does.
pub fn validate_query(query: &str, store: &mut SessionStore, now: i64) -> (outcome: Result<
    CallbackResult,
    AuthError,
>)
    requires
        old(store).well_formed(),
    ensures
        final(store).well_formed(),
        outcome_view(outcome) == validated_query(
            query@,
            old(store).pending(),
            now as int,
            old(store).ttl(),
        ),
        final(store).pending() == pending_after_query(query@, old(store).pending()),
        final(store).authorized() == old(store).authorized(),
        final(store).ttl() == old(store).ttl(),
{
    match CallbackAuth::from_query(query) {
        Some(params) => validate(&params, store, now),
        None => Ok(CallbackResult::Malformed),
    }
}

} // verus!
