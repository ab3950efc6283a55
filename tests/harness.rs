use sheesh::auth_token::{AuthToken, TokenType};
use sheesh::harness::{repeat_fields, repeat_vars, Db, DbHarness, DbHarnessSession, DbHarnessToken};
use sheesh::memory::{MemorySessionStore, MemoryTokenStore, MemoryUserStore};
use sheesh::session::Session;

#[test]
fn placeholders_for_statements() {
    assert_eq!(repeat_vars(1), "?");
    assert_eq!(repeat_vars(3), "?,?,?");
}

#[test]
fn column_lists() {
    assert_eq!(repeat_fields(vec!["id".to_string()]), "id");
    assert_eq!(repeat_fields(vec!["id".to_string(), "name".to_string(), "role".to_string()]), "id, name, role");
}

#[test]
fn memory_stores_keep_rows_by_id() {
    let mut h = DbHarness::new_custom(MemoryUserStore::new(), MemorySessionStore::new(), MemoryTokenStore::new());
    h.init_tables().unwrap();
    let s = Session::from_values(1, 2, Some(3), Some(4));
    h.session.insert(&s).unwrap();
    assert!(h.session.insert(&s).is_err());
    assert_eq!(h.session.read(1).unwrap(), s);
    h.session.delete(1).unwrap();
    assert!(h.session.read(1).is_err());
    let t = AuthToken::from_values(5, 2, TokenType::Access { token: "t".to_string() }, 10, true);
    h.token.insert(&t).unwrap();
    assert!(h.token.read_refresh_token(5).unwrap().is_none());
    assert_eq!(h.token.read_access_token(5).unwrap().unwrap().user_id(), 2);
    assert!(matches!(Db::Sqlite, Db::Sqlite));
}
