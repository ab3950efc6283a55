use sheesh::auth_token::{
    AuthToken, AuthTokenErrorKind, AuthTokenManagerConfig, TokenManagerError, TokenTtl, TokenType,
};
use sheesh::hash::{default_hash_fn, default_rng_salt_fn, default_rng_token_fn, default_verify_token_fn, ScryptHasher};
use sheesh::id::{join_halves, DefaultIdGenerator};
use sheesh::memory::MemoryTokenStore;

fn cheap() -> ScryptHasher {
    ScryptHasher::new(4, 8, 1, 32).unwrap()
}

fn access(token: &str, expires: i64, valid: bool) -> AuthToken {
    AuthToken::from_values(7, 1, TokenType::Access { token: token.to_string() }, expires, valid)
}

#[test]
fn usable_iff_valid_and_not_expired() {
    let t = access("abc", 1000, true);
    assert!(t.is_usable_at(999));
    assert!(t.is_usable_at(1000));
    assert!(!t.is_usable_at(1001));
    assert!(!t.is_expired_at(1000));
    assert!(t.is_expired_at(1001));
    let mut revoked = access("abc", 1000, true);
    revoked.invalidate();
    assert!(!revoked.valid());
    assert!(!revoked.is_usable_at(0));
    assert_eq!(revoked.expires(), 1000);
}

#[test]
fn expiry_is_now_plus_minutes() {
    let t = AuthToken::new_at(3, 4, TokenType::Access { token: "x".to_string() }, 30, 1_000).unwrap();
    assert_eq!(t.expires(), 1_000 + 30 * 60);
    assert!(t.valid());
    assert_eq!(t.id(), 3);
    assert_eq!(t.user_id(), 4);
    let crossing = AuthToken::new_at(3, 4, TokenType::Access { token: "x".to_string() }, 1_441, 86_000).unwrap();
    assert_eq!(crossing.expires(), 86_000 + 1_441 * 60);
}

#[test]
fn expiry_overflow_is_a_date_time_error() {
    let e = AuthToken::new_at(3, 4, TokenType::Access { token: "x".to_string() }, i64::MAX / 60, 1_000)
        .unwrap_err();
    assert_eq!(e.kind, AuthTokenErrorKind::DateTime);
}

#[test]
fn fresh_token_from_clock_is_not_expired() {
    let t = AuthToken::new(1, 2, TokenType::Access { token: "x".to_string() }, 10).unwrap();
    assert!(!t.is_expired());
    assert!(t.is_usable());
    assert!(t.expires() > 1_600_000_000);
}

#[test]
fn default_hash_round_trip_and_mismatch() {
    let salt = default_rng_salt_fn();
    let hash = default_hash_fn("pw1", &salt).unwrap();
    assert!(hash.starts_with("$scrypt$"));
    assert_ne!(hash, "pw1");
    assert!(default_verify_token_fn("pw1", &hash).is_ok());
    let e = default_verify_token_fn("pw2", &hash).unwrap_err();
    assert_eq!(e.kind, AuthTokenErrorKind::NotAuthorized);
}

#[test]
fn unparseable_hash_is_invalid_format() {
    let e = default_verify_token_fn("pw1", "not a phc string").unwrap_err();
    assert_eq!(e.kind, AuthTokenErrorKind::InvalidFormat);
}

#[test]
fn bad_salt_fails_create() {
    let e = default_hash_fn("pw1", "!").unwrap_err();
    assert_eq!(e.kind, AuthTokenErrorKind::Create);
}

#[test]
fn random_strings_have_their_shape() {
    let token = default_rng_token_fn();
    assert!(!token.is_empty());
    assert!(token.chars().all(|c| c.is_ascii_digit()));
    assert_eq!(default_rng_salt_fn().len(), 22);
    assert_eq!(join_halves(1, 2), (1u128 << 64) + 2);
}

#[test]
fn scrypt_hasher_parameters_out_of_reach_are_refused() {
    assert!(ScryptHasher::new(21, 8, 1, 32).is_none());
    assert!(ScryptHasher::new(12, 17, 1, 32).is_none());
    assert_eq!(ScryptHasher::default(), ScryptHasher { log_n: 12, r: 8, p: 1, len: 32 });
}

#[test]
fn verify_checks_in_order() {
    let mut m = AuthTokenManagerConfig::new(30, DefaultIdGenerator, cheap()).init(MemoryTokenStore::new());
    let (refresh, secret) = m.next_token_at(5, TokenTtl::Refresh(60), 10_000).unwrap();
    assert_eq!(refresh.expires(), 10_000 + 3_600);
    assert!(matches!(refresh.token_type(), TokenType::Refresh { secret: ref h } if h != &secret));
    // wrong owner
    let e = m.verify_token_at(refresh.duplicate(), 6, &secret, 10_000).unwrap_err();
    assert_eq!(e.kind, AuthTokenErrorKind::NotAuthorized);
    // expired before the secret is looked at
    let e = m.verify_token_at(refresh.duplicate(), 5, "wrong", 20_000).unwrap_err();
    assert_eq!(e.kind, AuthTokenErrorKind::Expired);
    // wrong secret
    let e = m.verify_token_at(refresh.duplicate(), 5, "wrong", 10_000).unwrap_err();
    assert_eq!(e.kind, AuthTokenErrorKind::NotAuthorized);
    assert!(m.verify_token_at(refresh.duplicate(), 5, &secret, 13_600).is_ok());
    // revoked
    m.invalidate_token(refresh.duplicate()).unwrap();
    let stored = m.get_refresh_token(refresh.id()).unwrap().unwrap();
    assert!(!stored.valid());
    let e = m.verify_token_at(stored, 5, &secret, 10_000).unwrap_err();
    assert_eq!(e.kind, AuthTokenErrorKind::Invalid);
}

#[test]
fn expired_access_token_is_deleted_on_verify() {
    let mut m = AuthTokenManagerConfig::new(30, DefaultIdGenerator, cheap()).init(MemoryTokenStore::new());
    let (token, secret) = m.next_token_at(5, TokenTtl::Access, 0).unwrap();
    assert!(matches!(token.token_type(), TokenType::Access { token: ref t } if t == &secret));
    assert_eq!(token.expires(), 30 * 60);
    assert!(m.trusted_verify_access_token_at(token.id(), 5, &secret, 1_800).is_ok());
    let e = m.trusted_verify_access_token_at(token.id(), 5, "other", 1_800).unwrap_err();
    assert!(matches!(e, TokenManagerError::AuthToken(ref a) if a.kind == AuthTokenErrorKind::NotAuthorized));
    let e = m.trusted_verify_access_token_at(token.id(), 5, &secret, 1_801).unwrap_err();
    assert!(matches!(e, TokenManagerError::AuthToken(ref a) if a.kind == AuthTokenErrorKind::Expired));
    assert!(m.get_access_token(token.id()).unwrap().is_none());
    let e = m.trusted_verify_access_token_at(token.id(), 5, &secret, 0).unwrap_err();
    assert!(matches!(e, TokenManagerError::AuthToken(ref a) if a.kind == AuthTokenErrorKind::NotAuthorized));
}

#[test]
fn refresh_lookup_and_delete() {
    let mut m = AuthTokenManagerConfig::new(30, DefaultIdGenerator, cheap()).init(MemoryTokenStore::new());
    let (token, secret) = m.next_token(5, TokenTtl::Refresh(60)).unwrap();
    assert!(m.trusted_verify_refresh_token(token.id(), 5, &secret).is_ok());
    assert!(m.verify_token(token.duplicate(), 5, &secret).is_ok());
    m.delete_resfresh_token(token.id()).unwrap();
    let e = m.trusted_verify_refresh_token(token.id(), 5, &secret).unwrap_err();
    assert!(matches!(e, TokenManagerError::AuthToken(ref a) if a.kind == AuthTokenErrorKind::NotAuthorized));
}

#[test]
fn refresh_ttl_overflow_mints_nothing() {
    let mut m = AuthTokenManagerConfig::new(30, DefaultIdGenerator, cheap()).init(MemoryTokenStore::new());
    let e = m.next_token_at(5, TokenTtl::Refresh(i64::MAX), 0).unwrap_err();
    assert!(matches!(e, TokenManagerError::AuthToken(ref a) if a.kind == AuthTokenErrorKind::DateTime));
}

#[test]
fn default_token_settings() {
    let c = AuthTokenManagerConfig::default();
    let mut m = c.init(MemoryTokenStore::new());
    let (t, _) = m.next_token_at(1, TokenTtl::Access, 0).unwrap();
    assert_eq!(t.expires(), 30 * 60);
}

#[test]
fn error_kinds_describe_themselves() {
    assert_eq!(AuthTokenErrorKind::NotAuthorized.message(), "Not Authorized");
    assert_eq!(AuthTokenErrorKind::Expired.message(), "Expired");
    assert_eq!(AuthTokenErrorKind::InvalidFormat.message(), "Token stored in invalid format.");
    assert!(ScryptHasher::new(12, 8, 17, 32).is_none());
}
