//! The end of a login: the tokens become an authorized session.

use vstd::prelude::*;

use crate::exchange::{AuthResponse, TokenModel};
use crate::session::{AuthorizedSession, PendingAuthorization, SessionModel};
use crate::store::SessionStore;

verus! {

/// The one type of token that a session holds.
pub const BEARER: &'static str = "Bearer";

/// Whether the clock's reading leaves room to add a token's lifetime: the
/// sum of `now` and any `i32` must fit `i64`.
pub open spec fn clock_in_range(now: i64) -> bool {
    i64::MIN - i32::MIN <= now <= i64::MAX - i32::MAX
}

/// The session that the tokens give at `now`: a bearer session that
/// expires `expires_in` seconds after `now`.
pub open spec fn session_of(session_id: Seq<char>, token: TokenModel, now: int) -> SessionModel {
    SessionModel {
        session_id,
        access_token: token.access_token,
        refresh_token: token.refresh_token,
        token_type: BEARER@,
        scope: token.scope,
        expires_at: now + token.expires_in,
    }
}

/// `Uuid::new_v4` of `uuid`, written out by its `Display`: a random
/// identifier in the hyphenated form, which has 36 characters. The crate
/// panics where the operating system gives it no random bytes.
#[verifier::external_body]
fn fresh_session_id() -> (id: String)
    ensures
        id@.len() == 36,
{
    uuid::Uuid::new_v4().to_string()
}

/// Whether the clock's reading leaves room to add a token's lifetime.
pub fn check_clock_in_range(now: i64) -> (fit: bool)
    ensures
        fit == clock_in_range(now),
{
    -0x7FFF_FFFF_8000_0000 <= now && now <= 0x7FFF_FFFF_8000_0000
}

/// Turns the tokens of a redeemed login into the session with the given
/// identifier, stores it and hands it back. The pending authorization is
/// used up by this.
pub fn finalize_as(
    pending: PendingAuthorization,
    auth_response: AuthResponse,
    session_id: String,
    now: i64,
    store: &mut SessionStore,
) -> (session: AuthorizedSession)
    requires
        old(store).well_formed(),
        clock_in_range(now),
    ensures
        final(store).well_formed(),
        session@ == session_of(session_id@, auth_response@, now as int),
        final(store).authorized() == old(store).authorized().insert(session_id@, session@),
        final(store).pending() == old(store).pending(),
        final(store).ttl() == old(store).ttl(),
{
    let session = AuthorizedSession {
        session_id,
        access_token: auth_response.access_token,
        refresh_token: auth_response.refresh_token,
        token_type: BEARER.to_owned(),
        scope: auth_response.scope,
        expires_at: now + auth_response.expires_in as i64,
    };
    let copy = session.duplicate();
    store.put_authorized(session);
    copy
}

/// Turns the tokens of a redeemed login into a session under a fresh random
/// identifier, stores it and hands it back.
pub fn finalize(
    pending: PendingAuthorization,
    auth_response: AuthResponse,
    now: i64,
    store: &mut SessionStore,
) -> (session: AuthorizedSession)
    requires
        old(store).well_formed(),
        clock_in_range(now),
    ensures
        final(store).well_formed(),
        session@.session_id.len() == 36,
        session@ == session_of(session@.session_id, auth_response@, now as int),
        final(store).authorized() == old(store).authorized().insert(
            session@.session_id,
            session@,
        ),
        final(store).pending() == old(store).pending(),
        final(store).ttl() == old(store).ttl(),
{
    finalize_as(pending, auth_response, fresh_session_id(), now, store)
}

} // verus!
