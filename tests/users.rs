use sheesh::auth_token::{AuthTokenErrorKind, AuthTokenManagerConfig};
use sheesh::harness::{DbHarnessUser, HarnessError};
use sheesh::hash::ScryptHasher;
use sheesh::id::DefaultIdGenerator;
use sheesh::memory::{MemorySessionStore, MemoryTokenStore, MemoryUserStore};
use sheesh::session::{SessionManager, SessionManagerConfig};
use sheesh::user::{
    Group, Groups, PrivateUserMeta, PublicUserMeta, Role, User, UserManager, UserManagerConfig,
    UserManagerError, UserManagerErrorKind,
};

#[derive(Clone, Debug, PartialEq)]
struct Meta(u8);

impl PublicUserMeta for Meta {}

impl PrivateUserMeta for Meta {}

type Users = UserManager<DefaultIdGenerator, ScryptHasher, MemoryUserStore>;
type Sessions = SessionManager<DefaultIdGenerator, ScryptHasher, MemorySessionStore, MemoryTokenStore>;

fn cheap() -> ScryptHasher {
    ScryptHasher::new(4, 8, 1, 32).unwrap()
}

fn engines() -> (Users, Sessions) {
    let users = UserManagerConfig::new(DefaultIdGenerator, cheap()).init(MemoryUserStore::new());
    let sessions = SessionManagerConfig::new(
        DefaultIdGenerator,
        AuthTokenManagerConfig::new(30, DefaultIdGenerator, cheap()),
        240,
    )
    .init(MemorySessionStore::new(), MemoryTokenStore::new());
    (users, sessions)
}

fn alice(users: &mut Users) -> User<Meta, Meta> {
    users
        .create_user("alice".to_string(), "pw1".to_string(), Role::from_str("admin"), Some(Meta(1)), Some(Meta(2)))
        .unwrap()
}

#[test]
fn role_and_group_names() {
    assert_eq!(Role::from_string("admin".to_string()).as_str(), "admin");
    assert_eq!(Role::from_str("user").name, "user");
    assert_eq!(Group::from_str("ops").as_str(), "ops");
    assert!(Group::from_string("ops".to_string()).same_as(&Group::from_str("ops")));
    assert!(!Group::from_str("ops").same_as(&Group::from_str("dev")));
}

#[test]
fn groups_have_set_semantics() {
    let mut g = Groups::new();
    g.add_group(Group::from_str("a"));
    g.add_group(Group::from_str("b"));
    g.add_group(Group::from_str("a"));
    assert_eq!(g.to_string(), "ab");
    assert!(g.contains(Group::from_str("a")));
    g.remove_group(Group::from_str("a"));
    assert!(!g.contains(Group::from_str("a")));
    assert_eq!(g.to_string(), "b");
    g.remove_group(Group::from_str("zzz"));
    assert_eq!(g.to_string(), "b");
    let v = Groups::from_vec(vec![Group::from_str("x"), Group::from_str("y"), Group::from_str("x")]);
    assert_eq!(v.to_string(), "xy");
    assert_eq!(Groups::new().to_string(), "");
    assert_eq!(v.duplicate().to_string(), "xy");
}

#[test]
fn created_user_verifies_its_password_only() {
    let (mut users, _) = engines();
    let u = alice(&mut users);
    assert_eq!(u.username(), "alice");
    assert_ne!(u.secret(), "pw1");
    assert!(!u.is_banned());
    assert_eq!(u.session_id(), None);
    assert_eq!(u.role().as_str(), "admin");
    assert_eq!(u.public(), Some(Meta(1)));
    assert_eq!(u.private(), Some(Meta(2)));
    assert!(users.verify_pwd(&u, "pw1").is_ok());
    assert_eq!(users.verify_pwd(&u, "pw2").unwrap_err().kind, AuthTokenErrorKind::NotAuthorized);
    let stored: User<Meta, Meta> = users.get_user(&u.id()).unwrap().unwrap();
    assert_eq!(stored.username(), "alice");
    assert_eq!(stored.public(), None);
}

#[test]
fn user_setters() {
    let (mut users, _) = engines();
    let mut u = alice(&mut users);
    u.set_username("al".to_string());
    u.ban();
    assert!(u.is_banned());
    u.unban();
    assert!(!u.is_banned());
    u.set_role(Role::from_str("user"));
    u.add_group(Group::from_str("ops"));
    u.add_group(Group::from_str("ops"));
    assert_eq!(u.groups().to_string(), "ops");
    u.remove_group(Group::from_str("ops"));
    assert_eq!(u.groups().to_string(), "");
    u.set_public(None);
    u.set_private(Some(Meta(3)));
    u.set_session_id(Some(4));
    assert_eq!(users.update_user(u.clone()).unwrap(), 1);
    let stored: User<Meta, Meta> = users.get_user(&u.id()).unwrap().unwrap();
    assert_eq!(stored.username(), "al");
    assert_eq!(stored.role().as_str(), "user");
    assert_eq!(stored.session_id(), Some(4));
    users.delete_user(u.id()).unwrap();
    assert!(users.get_user::<Meta, Meta>(&u.id()).unwrap().is_none());
    assert_eq!(users.update_user(u).unwrap(), 0);
}

#[test]
fn password_change_rehashes() {
    let (mut users, _) = engines();
    let u = alice(&mut users);
    assert_eq!(users.update_password(u.clone(), "pw2".to_string()).unwrap(), 1);
    let stored: User<Meta, Meta> = users.get_user(&u.id()).unwrap().unwrap();
    assert_ne!(stored.secret(), u.secret());
    assert!(users.verify_pwd(&stored, "pw2").is_ok());
    assert!(users.verify_pwd(&stored, "pw1").is_err());
}

#[test]
fn login_scenario_with_replay() {
    let (mut users, mut sessions) = engines();
    let u = alice(&mut users);
    let (s, r0, _a0) = users.login(&mut sessions, &u, "pw1").unwrap();
    let stored: User<Meta, Meta> = users.get_user(&u.id()).unwrap().unwrap();
    assert_eq!(stored.session_id(), Some(s.id()));
    let (r1, _a1) = sessions.create_new_refresh_token(s, u.id(), &r0).unwrap();
    let updated = sessions.read_session(s.id()).unwrap();
    assert_ne!(updated.refresh_token(), s.refresh_token());
    assert_ne!(updated.access_token(), s.access_token());
    assert!(updated.refresh_token().is_some() && updated.access_token().is_some());
    let e = sessions.create_new_refresh_token(s, u.id(), &r0).unwrap_err();
    assert!(matches!(e, sheesh::auth_token::TokenManagerError::AuthToken(ref a) if a.kind == AuthTokenErrorKind::NotAuthorized));
    let dead = sessions.read_session(s.id()).unwrap();
    assert_eq!(dead.refresh_token(), None);
    assert_eq!(dead.access_token(), None);
    let e = sessions.create_new_refresh_token(dead, u.id(), &r1).unwrap_err();
    assert!(matches!(e, sheesh::auth_token::TokenManagerError::AuthToken(ref a) if a.kind == AuthTokenErrorKind::NotAuthorized));
}

#[test]
fn login_refuses_wrong_password_and_unknown_user() {
    let (mut users, mut sessions) = engines();
    let u = alice(&mut users);
    let e = users.login(&mut sessions, &u, "nope").unwrap_err();
    assert!(matches!(e.kind, UserManagerErrorKind::Token(ref t) if t.kind == AuthTokenErrorKind::NotAuthorized));
    let stranger: User<Meta, Meta> = User::new(u.id().wrapping_add(1), "bob".to_string(), String::new(), Role::from_str("user"), None, None);
    let e = users.login(&mut sessions, &stranger, "pw1").unwrap_err();
    assert!(matches!(e.kind, UserManagerErrorKind::UserNotFound));
}

#[test]
fn logout_needs_the_refresh_secret() {
    let (mut users, mut sessions) = engines();
    let u = alice(&mut users);
    let (s, r0, _) = users.login(&mut sessions, &u, "pw1").unwrap();
    let e = users.logout(&mut sessions, &u, "guess").unwrap_err();
    assert!(matches!(e.kind, UserManagerErrorKind::Token(ref t) if t.kind == AuthTokenErrorKind::NotAuthorized));
    assert_eq!(sessions.read_session(s.id()).unwrap(), s);
    users.logout(&mut sessions, &u, &r0).unwrap();
    let ended = sessions.read_session(s.id()).unwrap();
    assert_eq!(ended.refresh_token(), None);
    assert_eq!(ended.access_token(), None);
    // nothing left to prove possession of: logging out again only cleans up
    assert!(users.logout(&mut sessions, &u, "anything").is_ok());
}

#[test]
fn logout_without_session_is_already_logged_out() {
    let (mut users, mut sessions) = engines();
    let u = alice(&mut users);
    let e = users.logout(&mut sessions, &u, "x").unwrap_err();
    assert!(matches!(e.kind, UserManagerErrorKind::AlreadyLoggedOut));
}

#[test]
fn errors_carry_their_kind() {
    let e = UserManagerError::new(UserManagerErrorKind::UserNotFound);
    assert!(matches!(e.kind, UserManagerErrorKind::UserNotFound));
    let h = HarnessError::new("down".to_string());
    assert_eq!(h.message, "down");
    let store = MemoryUserStore::new();
    assert!(store.read::<Meta, Meta>(1).unwrap().is_none());
}

#[test]
fn default_user_settings_and_other_id_source() {
    let config = UserManagerConfig::default().with_id_gen(DefaultIdGenerator::init());
    let mut users = config.init(MemoryUserStore::new());
    let u: User<Meta, Meta> = users
        .create_user("carol".to_string(), "pw".to_string(), Role::from_str("user"), None, None)
        .unwrap();
    assert!(users.verify_pwd(&u, "pw").is_ok());
}

#[test]
fn wrong_password_against_stored_hash_is_not_authorized() {
    let (mut users, mut sessions) = engines();
    let u = alice(&mut users);
    let e = users.verify_pwd(&u, "").unwrap_err();
    assert_eq!(e.kind, AuthTokenErrorKind::NotAuthorized);
    let e = users.logout(&mut sessions, &u, "").unwrap_err();
    assert!(matches!(e.kind, UserManagerErrorKind::AlreadyLoggedOut));
}
