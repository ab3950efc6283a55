use sheesh::auth_token::{AuthTokenErrorKind, AuthTokenManagerConfig, TokenManagerError};
use sheesh::hash::ScryptHasher;
use sheesh::id::DefaultIdGenerator;
use sheesh::memory::{MemorySessionStore, MemoryTokenStore};
use sheesh::session::{Session, SessionManager, SessionManagerConfig};

type Manager = SessionManager<DefaultIdGenerator, ScryptHasher, MemorySessionStore, MemoryTokenStore>;

fn manager() -> Manager {
    let hasher = ScryptHasher::new(4, 8, 1, 32).unwrap();
    SessionManagerConfig::new(DefaultIdGenerator, AuthTokenManagerConfig::new(30, DefaultIdGenerator, hasher), 240)
        .init(MemorySessionStore::new(), MemoryTokenStore::new())
}

fn not_authorized(e: &TokenManagerError) -> bool {
    matches!(e, TokenManagerError::AuthToken(a) if a.kind == AuthTokenErrorKind::NotAuthorized)
}

#[test]
fn new_session_holds_both_tokens() {
    let mut m = manager();
    let (s, refresh, access) = m.new_session_at(9, 1_000).unwrap();
    assert_eq!(s.user_id(), 9);
    assert!(s.refresh_token().is_some() && s.access_token().is_some());
    assert_eq!(m.read_session(s.id()).unwrap(), s);
    assert!(m.verify_token_at(s.refresh_token().unwrap(), 9, &refresh, 1_000).is_ok());
    assert_ne!(refresh, access);
}

#[test]
fn replayed_refresh_secret_ends_session() {
    let mut m = manager();
    let (s, r0, _a0) = m.new_session(9).unwrap();
    let (r1, _a1) = m.create_new_refresh_token(s, 9, &r0).unwrap();
    let e = m.create_new_refresh_token(s, 9, &r0).unwrap_err();
    assert!(not_authorized(&e));
    let stored = m.read_session(s.id()).unwrap();
    assert_eq!(stored.refresh_token(), None);
    assert_eq!(stored.access_token(), None);
    for secret in [&r0, &r1] {
        assert!(not_authorized(&m.create_new_refresh_token(stored, 9, secret).unwrap_err()));
        assert!(not_authorized(&m.create_new_refresh_token(s, 9, secret).unwrap_err()));
    }
}

#[test]
fn expired_refresh_token_ends_session() {
    let mut m = manager();
    let (s, r0, _) = m.new_session_at(9, 0).unwrap();
    let e = m.create_new_refresh_token_at(s, 9, &r0, 240 * 60 + 1).unwrap_err();
    assert!(not_authorized(&e));
    assert_eq!(m.read_session(s.id()).unwrap(), Session { refresh_token: None, access_token: None, ..s });
}

#[test]
fn wrong_refresh_secret_keeps_session() {
    let mut m = manager();
    let (s, _r0, _) = m.new_session_at(9, 0).unwrap();
    let e = m.create_new_refresh_token_at(s, 9, "guess", 10).unwrap_err();
    assert!(not_authorized(&e));
    assert_eq!(m.read_session(s.id()).unwrap(), s);
    let e = m.create_new_refresh_token_at(Session { refresh_token: None, ..s }, 9, "guess", 10).unwrap_err();
    assert!(not_authorized(&e));
}

#[test]
fn rotation_replaces_both_tokens() {
    let mut m = manager();
    let (s, r0, a0) = m.new_session_at(9, 0).unwrap();
    let (r1, a1) = m.create_new_refresh_token_at(s, 9, &r0, 60).unwrap();
    let stored = m.read_session(s.id()).unwrap();
    assert_ne!(stored.refresh_token(), s.refresh_token());
    assert_ne!(stored.access_token(), s.access_token());
    assert!(m.verify_token_at(stored.refresh_token().unwrap(), 9, &r1, 60).is_ok());
    let e = m.verify_token_at(s.refresh_token().unwrap(), 9, &r0, 60).unwrap_err();
    assert!(matches!(e, TokenManagerError::AuthToken(ref a) if a.kind == AuthTokenErrorKind::Invalid));
    assert_ne!(a0, a1);
}

#[test]
fn second_access_token_supersedes_first() {
    let mut m = manager();
    let (mut s, _r0, _a0) = m.new_session_at(9, 0).unwrap();
    let first = m.create_new_access_token_at(&mut s, 9, 10).unwrap();
    let first_id = s.access_token().unwrap();
    let second = m.create_new_access_token_at(&mut s, 9, 20).unwrap();
    let second_id = s.access_token().unwrap();
    assert_ne!(first_id, second_id);
    assert_eq!(m.read_session(s.id()).unwrap(), s);
    let e = m.verify_access_token_at(first_id, 9, &first, 30).unwrap_err();
    assert!(not_authorized(&e));
    assert!(m.verify_access_token_at(second_id, 9, &second, 30).is_ok());
}

#[test]
fn invalidating_twice_is_a_no_op_success() {
    let mut m = manager();
    let (s, _, _) = m.new_session_at(9, 0).unwrap();
    m.invalidate_session(s).unwrap();
    let stored = m.read_session(s.id()).unwrap();
    assert_eq!(stored.refresh_token(), None);
    assert_eq!(stored.access_token(), None);
    assert!(m.invalidate_session(stored).is_ok());
    assert_eq!(m.read_session(s.id()).unwrap(), stored);
}

#[test]
fn invalidate_access_token_keeps_refresh_lineage() {
    let mut m = manager();
    let (s, r0, a0) = m.new_session_at(9, 0).unwrap();
    m.invalidate_access_token(s).unwrap();
    let stored = m.read_session(s.id()).unwrap();
    assert_eq!(stored.access_token(), None);
    assert_eq!(stored.refresh_token(), s.refresh_token());
    assert!(not_authorized(&m.verify_access_token_at(s.access_token().unwrap(), 9, &a0, 0).unwrap_err()));
    assert!(m.verify_token_at(s.refresh_token().unwrap(), 9, &r0, 0).is_ok());
    assert!(m.invalidate_access_token(stored).is_ok());
}

#[test]
fn set_token_ids_none_keeps_tokens() {
    let mut m = manager();
    let (s, r0, _) = m.new_session_at(9, 0).unwrap();
    m.set_token_ids_none(s).unwrap();
    assert_eq!(m.read_session(s.id()).unwrap(), Session::from_values(s.id(), 9, None, None));
    assert!(m.verify_token_at(s.refresh_token().unwrap(), 9, &r0, 0).is_ok());
}

#[test]
fn default_session_settings() {
    let c = SessionManagerConfig::default();
    let mut m = c.init(MemorySessionStore::new(), MemoryTokenStore::new());
    let (s, r0, _) = m.new_session_at(1, 0).unwrap();
    // refresh tokens live 240 minutes
    assert!(m.verify_token_at(s.refresh_token().unwrap(), 1, &r0, 240 * 60).is_ok());
}

#[test]
fn unrepresentable_expiry_opens_no_session() {
    let hasher = ScryptHasher::new(4, 8, 1, 32).unwrap();
    let mut m = SessionManagerConfig::new(
        DefaultIdGenerator,
        AuthTokenManagerConfig::new(i64::MAX, DefaultIdGenerator, hasher),
        i64::MAX,
    )
    .init(MemorySessionStore::new(), MemoryTokenStore::new());
    let e = m.new_session_at(9, 0).unwrap_err();
    assert!(matches!(e, TokenManagerError::AuthToken(ref a) if a.kind == AuthTokenErrorKind::DateTime));
    let mut s = Session::from_values(1, 9, None, None);
    let e = m.create_new_access_token_at(&mut s, 9, 0).unwrap_err();
    assert!(matches!(e, TokenManagerError::AuthToken(ref a) if a.kind == AuthTokenErrorKind::DateTime));
    assert_eq!(s, Session::from_values(1, 9, None, None));
}
