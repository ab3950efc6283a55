//! A harness that keeps everything in memory, for tests and for embedding
//! applications that need no durable storage.

use crate::auth_token::AuthToken;
use crate::harness::{DbHarnessSession, DbHarnessToken, DbHarnessUser, HarnessError};
use crate::user::{Groups, PrivateUserMeta, PublicUserMeta, Role, User, UserRecord};
use crate::session::Session;
use std::collections::HashMap;
use vstd::prelude::*;

verus! {

broadcast use vstd::std_specs::hash::group_hash_axioms;

fn harness_error(message: &str) -> (r: HarnessError) {
    HarnessError::new(message.to_owned())
}

/// Refresh and access tokens held in two maps.
pub struct MemoryTokenStore {
    refresh: HashMap<i64, AuthToken>,
    access: HashMap<i64, AuthToken>,
}

impl MemoryTokenStore {
    pub fn new() -> (r: Self)
        ensures
            r.refresh_tokens() == Map::<i64, AuthToken>::empty(),
            r.access_tokens() == Map::<i64, AuthToken>::empty(),
    {
        MemoryTokenStore { refresh: HashMap::new(), access: HashMap::new() }
    }
}

impl DbHarnessToken for MemoryTokenStore {
    closed spec fn refresh_tokens(&self) -> Map<i64, AuthToken> {
        self.refresh@
    }

    closed spec fn access_tokens(&self) -> Map<i64, AuthToken> {
        self.access@
    }

    fn create_table(&mut self) -> (r: Result<(), HarnessError>) {
        Ok(())
    }

    fn update(&mut self, token: &AuthToken) -> (r: Result<(), HarnessError>) {
        let id = token.id();
        let is_refresh = match token.token_type() {
            crate::auth_token::TokenType::Refresh { .. } => true,
            crate::auth_token::TokenType::Access { .. } => false,
        };
        if is_refresh {
            if self.refresh.contains_key(&id) {
                self.refresh.insert(id, token.duplicate());
            }
        } else {
            if self.access.contains_key(&id) {
                self.access.insert(id, token.duplicate());
            }
        }
        Ok(())
    }

    fn insert(&mut self, token: &AuthToken) -> (r: Result<(), HarnessError>) {
        let id = token.id();
        let is_refresh = match token.token_type() {
            crate::auth_token::TokenType::Refresh { .. } => true,
            crate::auth_token::TokenType::Access { .. } => false,
        };
        if is_refresh {
            if self.refresh.contains_key(&id) {
                return Err(harness_error("a refresh token with this id exists"));
            }
            self.refresh.insert(id, token.duplicate());
        } else {
            if self.access.contains_key(&id) {
                return Err(harness_error("an access token with this id exists"));
            }
            self.access.insert(id, token.duplicate());
        }
        Ok(())
    }

    fn delete_access_token(&mut self, id: i64) -> (r: Result<(), HarnessError>) {
        self.access.remove(&id);
        Ok(())
    }

    fn delete_resfresh_token(&mut self, id: i64) -> (r: Result<(), HarnessError>) {
        self.refresh.remove(&id);
        Ok(())
    }

    fn read_refresh_token(&self, id: i64) -> (r: Result<Option<AuthToken>, HarnessError>) {
        match self.refresh.get(&id) {
            Some(t) => Ok(Some(t.duplicate())),
            None => Ok(None),
        }
    }

    fn read_access_token(&self, id: i64) -> (r: Result<Option<AuthToken>, HarnessError>) {
        match self.access.get(&id) {
            Some(t) => Ok(Some(t.duplicate())),
            None => Ok(None),
        }
    }
}

/// Sessions held in a map.
pub struct MemorySessionStore {
    sessions: HashMap<i64, Session>,
}

impl MemorySessionStore {
    pub fn new() -> (r: Self)
        ensures
            r.sessions() == Map::<i64, Session>::empty(),
    {
        MemorySessionStore { sessions: HashMap::new() }
    }
}

impl DbHarnessSession for MemorySessionStore {
    closed spec fn sessions(&self) -> Map<i64, Session> {
        self.sessions@
    }

    fn create_table(&mut self) -> (r: Result<(), HarnessError>) {
        Ok(())
    }

    fn read(&self, id: i64) -> (r: Result<Session, HarnessError>) {
        match self.sessions.get(&id) {
            Some(s) => Ok(*s),
            None => Err(harness_error("no session with this id")),
        }
    }

    fn update(&mut self, session: &Session) -> (r: Result<(), HarnessError>) {
        if self.sessions.contains_key(&session.id) {
            self.sessions.insert(session.id, *session);
        }
        Ok(())
    }

    fn insert(&mut self, session: &Session) -> (r: Result<(), HarnessError>) {
        if self.sessions.contains_key(&session.id) {
            return Err(harness_error("a session with this id exists"));
        }
        self.sessions.insert(session.id, *session);
        Ok(())
    }

    fn delete(&mut self, id: i64) -> (r: Result<(), HarnessError>) {
        self.sessions.remove(&id);
        Ok(())
    }
}

/// What the memory store keeps of a user.
struct UserRow {
    id: i64,
    session_id: Option<i64>,
    username: String,
    secret: String,
    ban: bool,
    groups: Groups,
    role: Role,
}

impl View for UserRow {
    type V = UserRecord;

    closed spec fn view(&self) -> UserRecord {
        UserRecord {
            id: self.id,
            session_id: self.session_id,
            username: self.username@,
            secret: self.secret@,
            banned: self.ban,
            groups: self.groups@,
            role: self.role.name@,
        }
    }
}

fn row_of<Pu: PublicUserMeta, Pr: PrivateUserMeta>(user: &User<Pu, Pr>) -> (r: UserRow)
    ensures
        r@ == user@,
{
    UserRow {
        id: user.id(),
        session_id: user.session_id(),
        username: user.username().to_owned(),
        secret: user.secret().to_owned(),
        ban: user.is_banned(),
        groups: user.groups().duplicate(),
        role: user.role().duplicate(),
    }
}

/// The records of the rows in `rows`.
closed spec fn records(rows: Map<i64, UserRow>) -> Map<i64, UserRecord> {
    rows.map_values(|r: UserRow| r@)
}

/// Users held in a map.
pub struct MemoryUserStore {
    rows: HashMap<i64, UserRow>,
}

impl MemoryUserStore {
    pub fn new() -> (r: Self)
        ensures
            r.users() == Map::<i64, UserRecord>::empty(),
    {
        let r = MemoryUserStore { rows: HashMap::new() };
        assert(records(r.rows@) =~= Map::<i64, UserRecord>::empty());
        r
    }
}

impl DbHarnessUser for MemoryUserStore {
    closed spec fn users(&self) -> Map<i64, UserRecord> {
        records(self.rows@)
    }

    fn create_table(&mut self, sql_string: Option<String>) -> (r: Result<(), HarnessError>) {
        Ok(())
    }

    fn read<Pu: PublicUserMeta, Pr: PrivateUserMeta>(&self, id: i64) -> (r: Result<
        Option<User<Pu, Pr>>,
        HarnessError,
    >) {
        match self.rows.get(&id) {
            Some(row) => Ok(
                Some(
                    User::from_values(
                        row.id,
                        row.session_id,
                        row.username.clone(),
                        row.secret.clone(),
                        row.ban,
                        row.groups.duplicate(),
                        row.role.duplicate(),
                        None,
                        None,
                    ),
                ),
            ),
            None => Ok(None),
        }
    }

    fn update<Pu: PublicUserMeta, Pr: PrivateUserMeta>(&mut self, item: &User<Pu, Pr>) -> (r:
        Result<usize, HarnessError>) {
        let id = item.id();
        if self.rows.contains_key(&id) {
            self.rows.insert(id, row_of(item));
            assert(records(self.rows@) =~= records(old(self).rows@).insert(id, item@));
            Ok(1)
        } else {
            Ok(0)
        }
    }

    fn insert<Pu: PublicUserMeta, Pr: PrivateUserMeta>(&mut self, item: &User<Pu, Pr>) -> (r:
        Result<(), HarnessError>) {
        let id = item.id();
        if self.rows.contains_key(&id) {
            return Err(harness_error("a user with this id exists"));
        }
        self.rows.insert(id, row_of(item));
        assert(records(self.rows@) =~= records(old(self).rows@).insert(id, item@));
        Ok(())
    }

    fn delete(&mut self, id: i64) -> (r: Result<(), HarnessError>) {
        self.rows.remove(&id);
        assert(records(self.rows@) =~= records(old(self).rows@).remove(id));
        Ok(())
    }
}

} // verus!
