//! The session store: the pending authorizations by their state and the
//! authorized sessions by their identifier.
//!
//! Every operation takes the time as an argument, in seconds. An operation
//! that changes the store takes it by `&mut`, so no two of them overlap.

use vstd::prelude::*;

use crate::error::StoreError;
use crate::session::{
    pending_alive, session_alive, AuthorizedSession, PendingAuthorization, PendingModel,
    SessionModel,
};
use crate::table::{
    as_map, distinct_keys, holds_key, kept, lemma_all_rows_kept, lemma_push_row,
    lemma_remove_failing_row, lemma_remove_row, lemma_replace_row, lemma_row_in_map, Keyed,
};
use crate::text::str_eq;

verus! {

/// The seconds for which a login waits for its callback, unless the store
/// is made with another time to live.
pub const DEFAULT_PENDING_TTL: u32 = 600;

/// The pending authorization that a callback with `state` redeems at `now`,
/// where there is one that has not expired.
pub open spec fn redeemable(
    pending: Map<Seq<char>, PendingModel>,
    state: Seq<char>,
    now: int,
    ttl: int,
) -> Option<PendingModel> {
    if pending.contains_key(state) && pending_alive(pending[state], now, ttl) {
        Some(pending[state])
    } else {
        None
    }
}

/// The pending authorizations that have not expired at `now`.
pub open spec fn alive_pending(
    pending: Map<Seq<char>, PendingModel>,
    now: int,
    ttl: int,
) -> Map<Seq<char>, PendingModel> {
    kept(pending, |p: PendingModel| pending_alive(p, now, ttl))
}

/// The sessions that have not expired at `now`.
pub open spec fn alive_sessions(sessions: Map<Seq<char>, SessionModel>, now: int) -> Map<
    Seq<char>,
    SessionModel,
> {
    kept(sessions, |s: SessionModel| session_alive(s, now))
}

/// Pending authorizations and authorized sessions.
pub struct SessionStore {
    pending: Vec<PendingAuthorization>,
    authorized: Vec<AuthorizedSession>,
    pending_ttl: u32,
}

impl SessionStore {
    /// The store's invariant: no state is pending twice and no session
    /// identifier is stored twice. Every store that this module hands out
    /// has it, and every operation keeps it.
    pub closed spec fn well_formed(&self) -> bool {
        distinct_keys(self.pending@) && distinct_keys(self.authorized@)
    }

    /// The pending authorizations, by state.
    pub closed spec fn pending(&self) -> Map<Seq<char>, PendingModel> {
        as_map(self.pending@)
    }

    /// The authorized sessions, by session identifier.
    pub closed spec fn authorized(&self) -> Map<Seq<char>, SessionModel> {
        as_map(self.authorized@)
    }

    /// The seconds for which a pending authorization can be redeemed.
    pub closed spec fn ttl(&self) -> int {
        self.pending_ttl as int
    }

    /// An empty store whose pending authorizations live `pending_ttl` seconds.
    pub fn new(pending_ttl: u32) -> (store: SessionStore)
        ensures
            store.well_formed(),
            store.pending() == Map::<Seq<char>, PendingModel>::empty(),
            store.authorized() == Map::<Seq<char>, SessionModel>::empty(),
            store.ttl() == pending_ttl,
    {
        let store = SessionStore { pending: Vec::new(), authorized: Vec::new(), pending_ttl };
        assert(store.pending() =~= Map::<Seq<char>, PendingModel>::empty());
        assert(store.authorized() =~= Map::<Seq<char>, SessionModel>::empty());
        store
    }

    /// The seconds for which a pending authorization can be redeemed.
    pub fn pending_ttl(&self) -> (ttl: u32)
        ensures
            ttl == self.ttl(),
    {
        self.pending_ttl
    }

    fn find_pending(&self, state: &str) -> (found: Option<usize>)
        ensures
            match found {
                Some(i) => i < self.pending@.len() && self.pending@[i as int].key() == state@,
                None => !holds_key(self.pending@, state@),
            },
    {
        let n: usize = self.pending.len();
        let mut i: usize = 0;
        while i < n
            invariant
                i <= n,
                n == self.pending@.len(),
                forall|k: int| 0 <= k < i ==> self.pending@[k].key() != state@,
            decreases n - i,
        {
            if str_eq(self.pending[i].state.as_str(), state) {
                return Some(i);
            }
            i = i + 1;
        }
        None
    }

    fn find_authorized(&self, session_id: &str) -> (found: Option<usize>)
        ensures
            match found {
                Some(i) => i < self.authorized@.len() && self.authorized@[i as int].key()
                    == session_id@,
                None => !holds_key(self.authorized@, session_id@),
            },
    {
        let n: usize = self.authorized.len();
        let mut i: usize = 0;
        while i < n
            invariant
                i <= n,
                n == self.authorized@.len(),
                forall|k: int| 0 <= k < i ==> self.authorized@[k].key() != session_id@,
            decreases n - i,
        {
            if str_eq(self.authorized[i].session_id.as_str(), session_id) {
                return Some(i);
            }
            i = i + 1;
        }
        None
    }

    /// Records a login that starts at `now`. A state that is already pending,
    /// expired or not, is refused and the store stays as it is.
    pub fn put_pending(&mut self, state: &str, redirect_uri: &str, now: i64) -> (put: Result<
        PendingAuthorization,
        StoreError,
    >)
        requires
            old(self).well_formed(),
        ensures
            final(self).well_formed(),
            final(self).authorized() == old(self).authorized(),
            final(self).ttl() == old(self).ttl(),
            match put {
                Ok(record) => {
                    &&& !old(self).pending().contains_key(state@)
                    &&& record@ == (PendingModel {
                        state: state@,
                        created_at: now as int,
                        redirect_uri: redirect_uri@,
                    })
                    &&& final(self).pending() == old(self).pending().insert(state@, record@)
                },
                Err(e) => {
                    &&& e == StoreError::DuplicateState
                    &&& old(self).pending().contains_key(state@)
                    &&& final(self).pending() == old(self).pending()
                },
            },
    {
        match self.find_pending(state) {
            Some(_) => Err(StoreError::DuplicateState),
            None => {
                let record = PendingAuthorization {
                    state: state.to_owned(),
                    created_at: now,
                    redirect_uri: redirect_uri.to_owned(),
                };
                let copy = record.duplicate();
                proof {
                    lemma_push_row(self.pending@, record);
                }
                self.pending.push(record);
                Ok(copy)
            },
        }
    }

    /// Takes the pending authorization with that state out of the store and
    /// hands it over, unless it has expired. Whatever comes back, no record
    /// with that state is left, so a second call finds nothing.
    pub fn take_pending(&mut self, state: &str, now: i64) -> (taken: Result<
        PendingAuthorization,
        StoreError,
    >)
        requires
            old(self).well_formed(),
        ensures
            final(self).well_formed(),
            final(self).pending() == old(self).pending().remove(state@),
            final(self).authorized() == old(self).authorized(),
            final(self).ttl() == old(self).ttl(),
            match taken {
                Ok(record) => redeemable(old(self).pending(), state@, now as int, old(self).ttl())
                    == Some(record@),
                Err(e) => e == StoreError::NotFound && redeemable(
                    old(self).pending(),
                    state@,
                    now as int,
                    old(self).ttl(),
                ) is None,
            },
    {
        match self.find_pending(state) {
            None => {
                assert(self.pending().remove(state@) =~= self.pending());
                Err(StoreError::NotFound)
            },
            Some(i) => {
                proof {
                    lemma_row_in_map(self.pending@, i as int);
                    lemma_remove_row(self.pending@, i as int);
                }
                let record = self.pending.remove(i);
                if now as i128 - record.created_at as i128 <= self.pending_ttl as i128 {
                    Ok(record)
                } else {
                    Err(StoreError::NotFound)
                }
            },
        }
    }

    /// Stores a session under its identifier, in the place of an earlier one
    /// with the same identifier.
    pub fn put_authorized(&mut self, session: AuthorizedSession)
        requires
            old(self).well_formed(),
        ensures
            final(self).well_formed(),
            final(self).authorized() == old(self).authorized().insert(
                session.session_id@,
                session@,
            ),
            final(self).pending() == old(self).pending(),
            final(self).ttl() == old(self).ttl(),
    {
        match self.find_authorized(session.session_id.as_str()) {
            Some(i) => {
                proof {
                    lemma_replace_row(self.authorized@, i as int, session);
                }
                self.authorized.set(i, session);
            },
            None => {
                proof {
                    lemma_push_row(self.authorized@, session);
                }
                self.authorized.push(session);
            },
        }
    }

    /// The session with that identifier: `NotFound` where there is none,
    /// `Expired` where `now` has reached its expiry.
    pub fn get_authorized(&self, session_id: &str, now: i64) -> (got: Result<
        AuthorizedSession,
        StoreError,
    >)
        requires
            self.well_formed(),
        ensures
            match got {
                Ok(session) => {
                    &&& self.authorized().contains_key(session_id@)
                    &&& session@ == self.authorized()[session_id@]
                    &&& session_alive(session@, now as int)
                },
                Err(e) => {
                    if self.authorized().contains_key(session_id@) {
                        e == StoreError::Expired && !session_alive(
                            self.authorized()[session_id@],
                            now as int,
                        )
                    } else {
                        e == StoreError::NotFound
                    }
                },
            },
    {
        match self.find_authorized(session_id) {
            None => Err(StoreError::NotFound),
            Some(i) => {
                proof {
                    lemma_row_in_map(self.authorized@, i as int);
                }
                if now < self.authorized[i].expires_at {
                    Ok(self.authorized[i].duplicate())
                } else {
                    Err(StoreError::Expired)
                }
            },
        }
    }

    /// Ends a session: takes it out of the store and hands it over, expired
    /// or not.
    pub fn remove_authorized(&mut self, session_id: &str) -> (removed: Result<
        AuthorizedSession,
        StoreError,
    >)
        requires
            old(self).well_formed(),
        ensures
            final(self).well_formed(),
            final(self).authorized() == old(self).authorized().remove(session_id@),
            final(self).pending() == old(self).pending(),
            final(self).ttl() == old(self).ttl(),
            match removed {
                Ok(session) => old(self).authorized().contains_key(session_id@) && session@ == old(
                    self,
                ).authorized()[session_id@],
                Err(e) => e == StoreError::NotFound && !old(self).authorized().contains_key(
                    session_id@,
                ),
            },
    {
        match self.find_authorized(session_id) {
            None => {
                assert(self.authorized().remove(session_id@) =~= self.authorized());
                Err(StoreError::NotFound)
            },
            Some(i) => {
                proof {
                    lemma_row_in_map(self.authorized@, i as int);
                    lemma_remove_row(self.authorized@, i as int);
                }
                Ok(self.authorized.remove(i))
            },
        }
    }

    /// Removes the pending authorizations that are older than the time to
    /// live and the sessions whose expiry `now` has reached.
    pub fn evict_expired(&mut self, now: i64)
        requires
            old(self).well_formed(),
        ensures
            final(self).well_formed(),
            final(self).pending() == alive_pending(old(self).pending(), now as int, old(self).ttl()),
            final(self).authorized() == alive_sessions(old(self).authorized(), now as int),
            final(self).ttl() == old(self).ttl(),
    {
        let ghost ttl = self.pending_ttl as int;
        let ghost keep_pending = |p: PendingModel| pending_alive(p, now as int, ttl);
        let ghost keep_session = |s: SessionModel| session_alive(s, now as int);
        let mut i: usize = 0;
        while i < self.pending.len()
            invariant
                i <= self.pending@.len(),
                distinct_keys(self.pending@),
                distinct_keys(self.authorized@),
                self.authorized@ == old(self).authorized@,
                self.pending_ttl == old(self).pending_ttl,
                ttl == self.pending_ttl as int,
                keep_pending == |p: PendingModel| pending_alive(p, now as int, ttl),
                forall|k: int| 0 <= k < i ==> keep_pending(#[trigger] self.pending@[k]@),
                kept(as_map(self.pending@), keep_pending) == kept(
                    as_map(old(self).pending@),
                    keep_pending,
                ),
            decreases self.pending@.len() - i,
        {
            if now as i128 - self.pending[i].created_at as i128 <= self.pending_ttl as i128 {
                i = i + 1;
            } else {
                proof {
                    lemma_remove_failing_row(self.pending@, i as int, keep_pending);
                }
                self.pending.remove(i);
            }
        }
        proof {
            lemma_all_rows_kept(self.pending@, keep_pending);
        }
        let mut j: usize = 0;
        while j < self.authorized.len()
            invariant
                j <= self.authorized@.len(),
                distinct_keys(self.pending@),
                distinct_keys(self.authorized@),
                self.pending_ttl == old(self).pending_ttl,
                ttl == self.pending_ttl as int,
                as_map(self.pending@) == kept(as_map(old(self).pending@), keep_pending),
                keep_pending == |p: PendingModel| pending_alive(p, now as int, ttl),
                keep_session == |s: SessionModel| session_alive(s, now as int),
                forall|k: int| 0 <= k < j ==> keep_session(#[trigger] self.authorized@[k]@),
                kept(as_map(self.authorized@), keep_session) == kept(
                    as_map(old(self).authorized@),
                    keep_session,
                ),
            decreases self.authorized@.len() - j,
        {
            if now < self.authorized[j].expires_at {
                j = j + 1;
            } else {
                proof {
                    lemma_remove_failing_row(self.authorized@, j as int, keep_session);
                }
                self.authorized.remove(j);
            }
        }
        proof {
            lemma_all_rows_kept(self.authorized@, keep_session);
        }
    }
}

/// A state is redeemed once: a pending authorization that has not expired
/// is handed over by the first taking for its state; and after a taking for
/// a state, whether it handed a record over or not, taking for the same
/// state again finds nothing, at whatever time.
pub proof fn lemma_state_is_redeemed_once(
    pending: Map<Seq<char>, PendingModel>,
    state: Seq<char>,
    now: int,
    later: int,
    ttl: int,
)
    ensures
        pending.contains_key(state) && pending_alive(pending[state], now, ttl) ==> redeemable(
            pending,
            state,
            now,
            ttl,
        ) == Some(pending[state]),
        redeemable(pending.remove(state), state, later, ttl) is None,
{
}

} // verus!
