//! The two records of a login: the authorization that waits for the
//! provider's callback, and the session that a successful exchange gives.

use vstd::prelude::*;

use crate::table::Keyed;

verus! {

/// A login that was started and waits for the provider's callback.
#[derive(Clone, Debug, PartialEq, Eq)]
pub struct PendingAuthorization {
    /// The anti-forgery value that the callback must bring back.
    pub state: String,
    /// When the login was started, in seconds.
    pub created_at: i64,
    pub redirect_uri: String,
}

/// What a pending authorization holds.
pub struct PendingModel {
    pub state: Seq<char>,
    pub created_at: int,
    pub redirect_uri: Seq<char>,
}

impl View for PendingAuthorization {
    type V = PendingModel;

    open spec fn view(&self) -> PendingModel {
        PendingModel {
            state: self.state@,
            created_at: self.created_at as int,
            redirect_uri: self.redirect_uri@,
        }
    }
}

impl Keyed for PendingAuthorization {
    open spec fn key(&self) -> Seq<char> {
        self.state@
    }
}

impl PendingAuthorization {
    /// A second record with the same content.
    pub fn duplicate(&self) -> (copy: PendingAuthorization)
        ensures
            copy@ == self@,
    {
        PendingAuthorization {
            state: self.state.clone(),
            created_at: self.created_at,
            redirect_uri: self.redirect_uri.clone(),
        }
    }
}

/// Whether a pending authorization of that age may still be redeemed: it
/// expires once it is older than the time to live.
pub open spec fn pending_alive(pending: PendingModel, now: int, ttl: int) -> bool {
    now - pending.created_at <= ttl
}

/// A session that the provider has authorized.
#[derive(Clone, Debug, PartialEq, Eq)]
pub struct AuthorizedSession {
    pub session_id: String,
    pub access_token: String,
    pub refresh_token: String,
    pub token_type: String,
    pub scope: String,
    /// The second at which the access token stops being valid.
    pub expires_at: i64,
}

/// What an authorized session holds.
pub struct SessionModel {
    pub session_id: Seq<char>,
    pub access_token: Seq<char>,
    pub refresh_token: Seq<char>,
    pub token_type: Seq<char>,
    pub scope: Seq<char>,
    pub expires_at: int,
}

impl View for AuthorizedSession {
    type V = SessionModel;

    open spec fn view(&self) -> SessionModel {
        SessionModel {
            session_id: self.session_id@,
            access_token: self.access_token@,
            refresh_token: self.refresh_token@,
            token_type: self.token_type@,
            scope: self.scope@,
            expires_at: self.expires_at as int,
        }
    }
}

impl Keyed for AuthorizedSession {
    open spec fn key(&self) -> Seq<char> {
        self.session_id@
    }
}

impl AuthorizedSession {
    /// A second record with the same content.
    pub fn duplicate(&self) -> (copy: AuthorizedSession)
        ensures
            copy@ == self@,
    {
        AuthorizedSession {
            session_id: self.session_id.clone(),
            access_token: self.access_token.clone(),
            refresh_token: self.refresh_token.clone(),
            token_type: self.token_type.clone(),
            scope: self.scope.clone(),
            expires_at: self.expires_at,
        }
    }
}

/// Whether a session is still valid: it is until the second `expires_at`.
pub open spec fn session_alive(session: SessionModel, now: int) -> bool {
    now < session.expires_at
}

} // verus!
