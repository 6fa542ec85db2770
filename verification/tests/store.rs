use authorization_flow::error::StoreError;
use authorization_flow::session::{AuthorizedSession, PendingAuthorization};
use authorization_flow::store::SessionStore;

fn session(id: &str, expires_at: i64) -> AuthorizedSession {
    AuthorizedSession {
        session_id: String::from(id),
        access_token: String::from("T"),
        refresh_token: String::from("R"),
        token_type: String::from("Bearer"),
        scope: String::from("read"),
        expires_at,
    }
}

#[test]
fn new_store_keeps_its_time_to_live() {
    assert_eq!(SessionStore::new(600).pending_ttl(), 600);
    assert_eq!(SessionStore::new(0).pending_ttl(), 0);
}

#[test]
fn put_pending_returns_the_record() {
    let mut store = SessionStore::new(600);
    let record = store.put_pending("S1", "https://a/cb", 1_000).unwrap();
    assert_eq!(
        record,
        PendingAuthorization {
            state: String::from("S1"),
            created_at: 1_000,
            redirect_uri: String::from("https://a/cb"),
        }
    );
}

#[test]
fn put_pending_refuses_a_duplicate_state() {
    let mut store = SessionStore::new(600);
    assert!(store.put_pending("S1", "https://a/cb", 1_000).is_ok());
    assert_eq!(store.put_pending("S1", "https://b/cb", 1_001), Err(StoreError::DuplicateState));
    let kept = store.take_pending("S1", 1_002).unwrap();
    assert_eq!(kept.redirect_uri, "https://a/cb");
    assert_eq!(kept.created_at, 1_000);
}

#[test]
fn take_pending_twice_finds_the_record_once() {
    let mut store = SessionStore::new(600);
    store.put_pending("S1", "https://a/cb", 1_000).unwrap();
    let first = store.take_pending("S1", 1_010);
    assert_eq!(
        first,
        Ok(PendingAuthorization {
            state: String::from("S1"),
            created_at: 1_000,
            redirect_uri: String::from("https://a/cb"),
        })
    );
    assert_eq!(store.take_pending("S1", 1_010), Err(StoreError::NotFound));
    assert_eq!(store.take_pending("S1", 1_011), Err(StoreError::NotFound));
}

#[test]
fn take_pending_twice_for_many_states() {
    let mut store = SessionStore::new(600);
    let states = ["A", "B", "C", "state with spaces", "ünï", ""];
    for state in states {
        store.put_pending(state, "https://a/cb", 5).unwrap();
    }
    for state in states {
        assert_eq!(store.take_pending(state, 6).unwrap().state, state);
        assert_eq!(store.take_pending(state, 6), Err(StoreError::NotFound));
    }
}

#[test]
fn take_pending_of_an_unknown_state_finds_nothing() {
    let mut store = SessionStore::new(600);
    store.put_pending("S1", "https://a/cb", 1_000).unwrap();
    assert_eq!(store.take_pending("S2", 1_000), Err(StoreError::NotFound));
    assert!(store.take_pending("S1", 1_000).is_ok());
}

#[test]
fn take_pending_at_the_time_to_live_still_succeeds() {
    let mut store = SessionStore::new(600);
    store.put_pending("S1", "https://a/cb", 1_000).unwrap();
    assert!(store.take_pending("S1", 1_600).is_ok());
}

#[test]
fn take_pending_after_the_time_to_live_finds_nothing() {
    let mut store = SessionStore::new(600);
    store.put_pending("S1", "https://a/cb", 1_000).unwrap();
    assert_eq!(store.take_pending("S1", 1_601), Err(StoreError::NotFound));
    assert_eq!(store.take_pending("S1", 1_000), Err(StoreError::NotFound));
}

#[test]
fn take_pending_with_a_clock_that_went_back_succeeds() {
    let mut store = SessionStore::new(600);
    store.put_pending("S1", "https://a/cb", 1_000).unwrap();
    assert!(store.take_pending("S1", 900).is_ok());
}

#[test]
fn take_pending_at_the_ends_of_the_clock() {
    let mut store = SessionStore::new(u32::MAX);
    store.put_pending("low", "https://a/cb", i64::MIN).unwrap();
    store.put_pending("high", "https://a/cb", i64::MAX).unwrap();
    assert_eq!(store.take_pending("low", i64::MAX), Err(StoreError::NotFound));
    assert!(store.take_pending("high", i64::MIN).is_ok());
}

#[test]
fn a_taken_state_can_be_put_again() {
    let mut store = SessionStore::new(600);
    store.put_pending("S1", "https://a/cb", 1_000).unwrap();
    store.take_pending("S1", 1_001).unwrap();
    assert!(store.put_pending("S1", "https://a/cb", 1_002).is_ok());
}

#[test]
fn get_authorized_returns_what_was_put() {
    let mut store = SessionStore::new(600);
    store.put_authorized(session("id-1", 5_000));
    store.put_authorized(session("id-2", 6_000));
    assert_eq!(store.get_authorized("id-1", 1_000), Ok(session("id-1", 5_000)));
    assert_eq!(store.get_authorized("id-2", 1_000), Ok(session("id-2", 6_000)));
    assert_eq!(store.get_authorized("id-1", 1_000), Ok(session("id-1", 5_000)));
}

#[test]
fn get_authorized_of_an_unknown_identifier_is_not_found() {
    let mut store = SessionStore::new(600);
    assert_eq!(store.get_authorized("id-1", 1_000), Err(StoreError::NotFound));
    store.put_authorized(session("id-1", 5_000));
    assert_eq!(store.get_authorized("id-2", 1_000), Err(StoreError::NotFound));
}

#[test]
fn get_authorized_at_the_expiry_is_expired() {
    let mut store = SessionStore::new(600);
    store.put_authorized(session("id-1", 5_000));
    assert!(store.get_authorized("id-1", 4_999).is_ok());
    assert_eq!(store.get_authorized("id-1", 5_000), Err(StoreError::Expired));
    assert_eq!(store.get_authorized("id-1", 5_001), Err(StoreError::Expired));
}

#[test]
fn put_authorized_replaces_a_session_with_the_same_identifier() {
    let mut store = SessionStore::new(600);
    store.put_authorized(session("id-1", 5_000));
    store.put_authorized(session("id-1", 9_000));
    assert_eq!(store.get_authorized("id-1", 6_000), Ok(session("id-1", 9_000)));
}

#[test]
fn evict_expired_removes_old_pending_authorizations() {
    let mut store = SessionStore::new(600);
    store.put_pending("old", "https://a/cb", 1_000).unwrap();
    store.put_pending("edge", "https://a/cb", 1_400).unwrap();
    store.put_pending("new", "https://a/cb", 1_900).unwrap();
    store.evict_expired(2_000);
    assert!(store.put_pending("old", "https://a/cb", 2_000).is_ok());
    assert_eq!(store.put_pending("edge", "https://a/cb", 2_000), Err(StoreError::DuplicateState));
    assert_eq!(store.put_pending("new", "https://a/cb", 2_000), Err(StoreError::DuplicateState));
    assert_eq!(store.take_pending("edge", 2_000).unwrap().created_at, 1_400);
    assert_eq!(store.take_pending("new", 2_000).unwrap().created_at, 1_900);
}

#[test]
fn evict_expired_removes_sessions_past_their_expiry() {
    let mut store = SessionStore::new(600);
    store.put_authorized(session("gone", 1_999));
    store.put_authorized(session("edge", 2_000));
    store.put_authorized(session("kept", 2_001));
    assert_eq!(store.get_authorized("gone", 2_000), Err(StoreError::Expired));
    store.evict_expired(2_000);
    assert_eq!(store.get_authorized("gone", 2_000), Err(StoreError::NotFound));
    assert_eq!(store.get_authorized("edge", 2_000), Err(StoreError::NotFound));
    assert_eq!(store.get_authorized("kept", 2_000), Ok(session("kept", 2_001)));
}

#[test]
fn evict_expired_on_an_empty_store_changes_nothing() {
    let mut store = SessionStore::new(600);
    store.evict_expired(0);
    assert_eq!(store.take_pending("S1", 0), Err(StoreError::NotFound));
    assert_eq!(store.get_authorized("id", 0), Err(StoreError::NotFound));
}

#[test]
fn evict_expired_removes_runs_of_neighbours() {
    let mut store = SessionStore::new(10);
    for (i, state) in ["a", "b", "c", "d", "e", "f"].iter().enumerate() {
        let created_at = if i % 3 == 2 { 100 } else { 0 };
        store.put_pending(state, "https://a/cb", created_at).unwrap();
    }
    store.evict_expired(105);
    for state in ["a", "b", "d", "e"] {
        assert_eq!(store.take_pending(state, 105), Err(StoreError::NotFound));
    }
    for state in ["c", "f"] {
        assert!(store.take_pending(state, 105).is_ok());
    }
}

#[test]
fn duplicate_keeps_every_field() {
    let pending = PendingAuthorization {
        state: String::from("S1"),
        created_at: 7,
        redirect_uri: String::from("https://a/cb"),
    };
    assert_eq!(pending.duplicate(), pending);
    let authorized = session("id-1", 9);
    assert_eq!(authorized.duplicate(), authorized);
}

#[test]
fn remove_authorized_ends_a_session() {
    let mut store = SessionStore::new(600);
    store.put_authorized(session("id-1", 5_000));
    store.put_authorized(session("id-2", 5_000));
    assert_eq!(store.remove_authorized("id-1"), Ok(session("id-1", 5_000)));
    assert_eq!(store.remove_authorized("id-1"), Err(StoreError::NotFound));
    assert_eq!(store.get_authorized("id-1", 1_000), Err(StoreError::NotFound));
    assert_eq!(store.get_authorized("id-2", 1_000), Ok(session("id-2", 5_000)));
}

#[test]
fn remove_authorized_hands_over_an_expired_session() {
    let mut store = SessionStore::new(600);
    store.put_authorized(session("id-1", 5_000));
    assert_eq!(store.get_authorized("id-1", 9_000), Err(StoreError::Expired));
    assert_eq!(store.remove_authorized("id-1"), Ok(session("id-1", 5_000)));
}
