//! The persistence boundary: what the engines ask of a store of tokens,
//! sessions and users. Every write is all-or-nothing: when it fails, the
//! store is as it was.

use crate::auth_token::AuthToken;
use crate::session::Session;
use crate::user::{PrivateUserMeta, PublicUserMeta, User, UserRecord};
use vstd::prelude::*;

verus! {

/// Which kind of database a harness talks to.
#[derive(Debug, Clone, Copy, PartialEq, Eq, Structural)]
pub enum Db {
    MySql,
    Postgresql,
    Sqlite,
}

/// A failure inside a harness, with its description.
#[derive(Debug, Clone)]
pub struct HarnessError {
    pub message: String,
}

impl HarnessError {
    pub fn new(message: String) -> (r: Self)
        ensures
            r.message@ == message@,
    {
        HarnessError { message }
    }
}

/// `table` after `token` was written over the row with its id, where there is one.
pub open spec fn overwritten(table: Map<i64, AuthToken>, token: AuthToken) -> Map<i64, AuthToken> {
    if table.contains_key(token@.id) {
        table.insert(token@.id, token)
    } else {
        table
    }
}

/// Storage of refresh tokens and access tokens, in two tables keyed by id.
pub trait DbHarnessToken {
    spec fn refresh_tokens(&self) -> Map<i64, AuthToken>;

    spec fn access_tokens(&self) -> Map<i64, AuthToken>;

    fn create_table(&mut self) -> (r: Result<(), HarnessError>)
        ensures
            final(self).refresh_tokens() == old(self).refresh_tokens(),
            final(self).access_tokens() == old(self).access_tokens(),
    ;

    /// Writes `token` over the stored token with its id, in its kind's table.
    fn update(&mut self, token: &AuthToken) -> (r: Result<(), HarnessError>)
        ensures
            r is Ok && token@.is_refresh() ==> final(self).refresh_tokens() == overwritten(
                old(self).refresh_tokens(),
                *token,
            ) && final(self).access_tokens() == old(self).access_tokens(),
            r is Ok && !token@.is_refresh() ==> final(self).access_tokens() == overwritten(
                old(self).access_tokens(),
                *token,
            ) && final(self).refresh_tokens() == old(self).refresh_tokens(),
            r is Err ==> final(self).refresh_tokens() == old(self).refresh_tokens()
                && final(self).access_tokens() == old(self).access_tokens(),
    ;

    /// Adds `token` to its kind's table, where no token has its id.
    fn insert(&mut self, token: &AuthToken) -> (r: Result<(), HarnessError>)
        ensures
            r is Ok && token@.is_refresh() ==> !old(self).refresh_tokens().contains_key(token@.id)
                && final(self).refresh_tokens() == old(self).refresh_tokens().insert(
                token@.id,
                *token,
            ) && final(self).access_tokens() == old(self).access_tokens(),
            r is Ok && !token@.is_refresh() ==> !old(self).access_tokens().contains_key(token@.id)
                && final(self).access_tokens() == old(self).access_tokens().insert(
                token@.id,
                *token,
            ) && final(self).refresh_tokens() == old(self).refresh_tokens(),
            r is Err ==> final(self).refresh_tokens() == old(self).refresh_tokens()
                && final(self).access_tokens() == old(self).access_tokens(),
    ;

    fn delete_access_token(&mut self, id: i64) -> (r: Result<(), HarnessError>)
        ensures
            r is Ok ==> final(self).access_tokens() == old(self).access_tokens().remove(id),
            r is Err ==> final(self).access_tokens() == old(self).access_tokens(),
            final(self).refresh_tokens() == old(self).refresh_tokens(),
    ;

    fn delete_resfresh_token(&mut self, id: i64) -> (r: Result<(), HarnessError>)
        ensures
            r is Ok ==> final(self).refresh_tokens() == old(self).refresh_tokens().remove(id),
            r is Err ==> final(self).refresh_tokens() == old(self).refresh_tokens(),
            final(self).access_tokens() == old(self).access_tokens(),
    ;

    fn read_refresh_token(&self, id: i64) -> (r: Result<Option<AuthToken>, HarnessError>)
        ensures
            r matches Ok(found) ==> found == (if self.refresh_tokens().contains_key(id) {
                Some(self.refresh_tokens()[id])
            } else {
                None
            }),
    ;

    fn read_access_token(&self, id: i64) -> (r: Result<Option<AuthToken>, HarnessError>)
        ensures
            r matches Ok(found) ==> found == (if self.access_tokens().contains_key(id) {
                Some(self.access_tokens()[id])
            } else {
                None
            }),
    ;
}

/// `table` after `session` was written over the row with its id, where
/// there is one.
pub open spec fn session_overwritten(table: Map<i64, Session>, session: Session) -> Map<
    i64,
    Session,
> {
    if table.contains_key(session.id) {
        table.insert(session.id, session)
    } else {
        table
    }
}

/// Storage of sessions keyed by id.
pub trait DbHarnessSession {
    spec fn sessions(&self) -> Map<i64, Session>;

    fn create_table(&mut self) -> (r: Result<(), HarnessError>)
        ensures
            final(self).sessions() == old(self).sessions(),
    ;

    fn read(&self, id: i64) -> (r: Result<Session, HarnessError>)
        ensures
            r matches Ok(s) ==> self.sessions().contains_key(id) && self.sessions()[id] == s,
    ;

    fn update(&mut self, session: &Session) -> (r: Result<(), HarnessError>)
        ensures
            r is Ok ==> final(self).sessions() == session_overwritten(old(self).sessions(), *session),
            r is Err ==> final(self).sessions() == old(self).sessions(),
    ;

    fn insert(&mut self, session: &Session) -> (r: Result<(), HarnessError>)
        ensures
            r is Ok ==> !old(self).sessions().contains_key(session.id) && final(self).sessions()
                == old(self).sessions().insert(session.id, *session),
            r is Err ==> final(self).sessions() == old(self).sessions(),
    ;

    fn delete(&mut self, id: i64) -> (r: Result<(), HarnessError>)
        ensures
            r is Ok ==> final(self).sessions() == old(self).sessions().remove(id),
            r is Err ==> final(self).sessions() == old(self).sessions(),
    ;
}

/// `table` after `record` was written over the row with its id, where
/// there is one.
pub open spec fn record_overwritten(table: Map<i64, UserRecord>, record: UserRecord) -> Map<
    i64,
    UserRecord,
> {
    if table.contains_key(record.id) {
        table.insert(record.id, record)
    } else {
        table
    }
}

/// Storage of users keyed by id. Metadata of the embedding application is
/// not kept: a user read back has none.
pub trait DbHarnessUser {
    spec fn users(&self) -> Map<i64, UserRecord>;

    /// Prepares the storage; `sql_string` adds columns where the storage
    /// has them.
    fn create_table(&mut self, sql_string: Option<String>) -> (r: Result<(), HarnessError>)
        ensures
            final(self).users() == old(self).users(),
    ;

    fn read<Pu: PublicUserMeta, Pr: PrivateUserMeta>(&self, id: i64) -> (r: Result<
        Option<User<Pu, Pr>>,
        HarnessError,
    >)
        ensures
            r matches Ok(found) ==> match found {
                Some(u) => self.users().contains_key(id) && u@ == self.users()[id],
                None => !self.users().contains_key(id),
            },
    ;

    /// Writes `item` over the stored user with its id; returns how many
    /// users were written.
    fn update<Pu: PublicUserMeta, Pr: PrivateUserMeta>(&mut self, item: &User<Pu, Pr>) -> (r:
        Result<usize, HarnessError>)
        ensures
            r matches Ok(n) ==> final(self).users() == record_overwritten(old(self).users(), item@)
                && n == (if old(self).users().contains_key(item@.id) {
                1usize
            } else {
                0usize
            }),
            r is Err ==> final(self).users() == old(self).users(),
    ;

    fn insert<Pu: PublicUserMeta, Pr: PrivateUserMeta>(&mut self, item: &User<Pu, Pr>) -> (r:
        Result<(), HarnessError>)
        ensures
            r is Ok ==> !old(self).users().contains_key(item@.id) && final(self).users() == old(
                self,
            ).users().insert(item@.id, item@),
            r is Err ==> final(self).users() == old(self).users(),
    ;

    fn delete(&mut self, id: i64) -> (r: Result<(), HarnessError>)
        ensures
            r is Ok ==> final(self).users() == old(self).users().remove(id),
            r is Err ==> final(self).users() == old(self).users(),
    ;
}

/// `count` SQL placeholders separated by commas: `?,?,...,?`.
pub open spec fn placeholders(count: nat) -> Seq<char>
    decreases count,
{
    if count <= 1 {
        seq!['?']
    } else {
        placeholders((count - 1) as nat) + seq![',', '?']
    }
}

/// The column names of `cols` separated by `", "`.
pub open spec fn field_list(cols: Seq<Seq<char>>) -> Seq<char>
    decreases cols.len(),
{
    if cols.len() <= 1 {
        if cols.len() == 0 { Seq::empty() } else { cols[0] }
    } else {
        field_list(cols.drop_last()) + seq![',', ' '] + cols.last()
    }
}

/// The placeholder list of an SQL statement with `count` parameters.
pub fn repeat_vars(count: usize) -> (r: String)
    requires
        count > 0,
    ensures
        r@ == placeholders(count as nat),
{
    let mut s = String::from_str("?");
    proof {
        reveal_strlit("?");
        reveal_strlit(",?");
    }
    let mut i: usize = 1;
    while i < count
        invariant
            1 <= i <= count,
            s@ == placeholders(i as nat),
            ",?"@ == seq![',', '?'],
        decreases count - i,
    {
        s.append(",?");
        i += 1;
    }
    s
}

/// The column list of an SQL statement: the names separated by `", "`.
pub fn repeat_fields(cols: Vec<String>) -> (r: String)
    requires
        cols.len() > 0,
    ensures
        r@ == field_list(cols@.map_values(|c: String| c@)),
{
    let ghost names = cols@.map_values(|c: String| c@);
    proof {
        reveal_strlit(", ");
    }
    let mut fields = cols[0].clone();
    let mut i: usize = 1;
    while i < cols.len()
        invariant
            1 <= i <= cols.len(),
            names == cols@.map_values(|c: String| c@),
            fields@ == field_list(names.take(i as int)),
            ", "@ == seq![',', ' '],
        decreases cols.len() - i,
    {
        proof {
            assert(names.take(i + 1).drop_last() =~= names.take(i as int));
        }
        fields.append(", ");
        fields.append(cols[i].as_str());
        i += 1;
    }
    proof {
        assert(names.take(cols.len() as int) =~= names);
        assert(names.take(1) =~= seq![names[0]]);
    }
    fields
}

/// The three stores an application plugs in.
pub struct DbHarness<T, U, V> where T: DbHarnessUser, U: DbHarnessSession, V: DbHarnessToken {
    pub user: T,
    pub session: U,
    pub token: V,
}

impl<T, U, V> DbHarness<T, U, V> where T: DbHarnessUser, U: DbHarnessSession, V: DbHarnessToken {
    pub fn new_custom(user: T, session: U, token: V) -> (r: Self)
        ensures
            r.user == user,
            r.session == session,
            r.token == token,
    {
        DbHarness { user, session, token }
    }

    /// Prepares the token, session and user storage, in that order.
    pub fn init_tables(&mut self) -> (r: Result<(), HarnessError>)
        ensures
            final(self).user.users() == old(self).user.users(),
            final(self).session.sessions() == old(self).session.sessions(),
            final(self).token.refresh_tokens() == old(self).token.refresh_tokens(),
            final(self).token.access_tokens() == old(self).token.access_tokens(),
    {
        self.token.create_table()?;
        self.session.create_table()?;
        self.user.create_table(None)?;
        Ok(())
    }
}

} // verus!
