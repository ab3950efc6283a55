//! Users: identity records, their roles and groups, and the user engine
//! that registers users and drives login and logout.

use crate::auth_token::{
    token_check, AuthTokenError, AuthTokenErrorKind, AuthTokenManager, TokenManagerError,
};
use crate::clock::now_timestamp;
use crate::harness::{
    record_overwritten, session_overwritten, DbHarnessSession, DbHarnessToken, DbHarnessUser,
    HarnessError,
};
use crate::hash::{CredentialHasher, ScryptHasher};
use crate::id::{DefaultIdGenerator, IdGenerator};
use crate::session::{Session, SessionManager};
use vstd::prelude::*;

verus! {

/// A role, by name.
#[derive(Clone, Debug)]
pub struct Role {
    pub name: String,
}

impl Role {
    pub fn from_string(name: String) -> (r: Self)
        ensures
            r.name@ == name@,
    {
        Role { name }
    }

    pub fn from_str(name: &str) -> (r: Self)
        ensures
            r.name@ == name@,
    {
        Role { name: name.to_owned() }
    }

    pub fn as_str(&self) -> (r: &str)
        ensures
            r@ == self.name@,
    {
        self.name.as_str()
    }

    /// A copy of this role.
    pub fn duplicate(&self) -> (r: Self)
        ensures
            r.name@ == self.name@,
    {
        Role { name: self.name.clone() }
    }
}

/// A group, by name.
#[derive(PartialEq, Clone, Debug)]
pub struct Group {
    name: String,
}

impl View for Group {
    type V = Seq<char>;

    closed spec fn view(&self) -> Seq<char> {
        self.name@
    }
}

impl Group {
    pub fn from_string(name: String) -> (r: Self)
        ensures
            r@ == name@,
    {
        Group { name }
    }

    pub fn from_str(name: &str) -> (r: Self)
        ensures
            r@ == name@,
    {
        Group { name: name.to_owned() }
    }

    pub fn as_str(&self) -> (r: &str)
        ensures
            r@ == self@,
    {
        self.name.as_str()
    }

    /// Whether the two groups have the same name.
    pub fn same_as(&self, other: &Group) -> (r: bool)
        ensures
            r == (self@ == other@),
    {
        self.name == other.name
    }

    /// A copy of this group.
    pub fn duplicate(&self) -> (r: Self)
        ensures
            r@ == self@,
    {
        Group { name: self.name.clone() }
    }
}

/// `s` with every name after its first occurrence left out, in order.
pub open spec fn dedup(s: Seq<Seq<char>>) -> Seq<Seq<char>>
    decreases s.len(),
{
    if s.len() == 0 {
        Seq::empty()
    } else {
        let d = dedup(s.drop_last());
        if d.contains(s.last()) {
            d
        } else {
            d.push(s.last())
        }
    }
}

/// The names of `s` written one after the other.
pub open spec fn joined(s: Seq<Seq<char>>) -> Seq<char>
    decreases s.len(),
{
    if s.len() == 0 {
        Seq::empty()
    } else {
        joined(s.drop_last()) + s.last()
    }
}

/// The names of the groups in `v`, in order.
pub open spec fn group_names(v: Seq<Group>) -> Seq<Seq<char>> {
    v.map_values(|g: Group| g@)
}

/// A set of groups: each name at most once, in the order of joining.
#[derive(Clone, Debug, PartialEq)]
pub struct Groups {
    groups: Vec<Group>,
}

impl View for Groups {
    type V = Seq<Seq<char>>;

    closed spec fn view(&self) -> Seq<Seq<char>> {
        group_names(self.groups@)
    }
}

impl Groups {
    /// No name occurs twice.
    pub open spec fn wf(&self) -> bool {
        self@.no_duplicates()
    }

    pub fn new() -> (r: Self)
        ensures
            r@ == Seq::<Seq<char>>::empty(),
            r.wf(),
    {
        Groups { groups: Vec::new() }
    }

    /// The groups of `groups`, each name once, in the order of first occurrence.
    pub fn from_vec(groups: Vec<Group>) -> (r: Self)
        ensures
            r@ == dedup(group_names(groups@)),
            r.wf(),
    {
        let mut out = Groups::new();
        let ghost names = group_names(groups@);
        let mut i: usize = 0;
        while i < groups.len()
            invariant
                i <= groups.len(),
                names == group_names(groups@),
                out@ == dedup(names.take(i as int)),
                out.wf(),
            decreases groups.len() - i,
        {
            proof {
                assert(names.take(i + 1).drop_last() =~= names.take(i as int));
            }
            out.add_group(groups[i].duplicate());
            i += 1;
        }
        proof {
            assert(names.take(groups.len() as int) =~= names);
        }
        out
    }

    pub fn contains(&self, group: Group) -> (r: bool)
        ensures
            r == self@.contains(group@),
    {
        let mut i: usize = 0;
        while i < self.groups.len()
            invariant
                i <= self.groups.len(),
                forall|j: int| 0 <= j < i ==> self@[j] != group@,
            decreases self.groups.len() - i,
        {
            if self.groups[i].same_as(&group) {
                assert(self@[i as int] == group@);
                return true;
            }
            i += 1;
        }
        false
    }

    /// Joins `group`, unless a group of that name is already there.
    pub fn add_group(&mut self, group: Group)
        ensures
            final(self)@ == if old(self)@.contains(group@) {
                old(self)@
            } else {
                old(self)@.push(group@)
            },
            old(self).wf() ==> final(self).wf(),
    {
        if self.contains(group.duplicate()) {
            return;
        }
        self.groups.push(group);
        proof {
            assert(self@ =~= old(self)@.push(group@));
        }
    }

    /// Leaves the group named like `group`, where there is one.
    pub fn remove_group(&mut self, group: Group)
        ensures
            !old(self)@.contains(group@) ==> final(self)@ == old(self)@,
            old(self)@.contains(group@) ==> exists|i: int|
                0 <= i < old(self)@.len() && old(self)@[i] == group@ && final(self)@
                    == old(self)@.remove(i),
            old(self).wf() ==> final(self).wf() && !final(self)@.contains(group@),
    {
        let mut i: usize = 0;
        while i < self.groups.len()
            invariant
                i <= self.groups.len(),
                self@ == old(self)@,
                forall|j: int| 0 <= j < i ==> self@[j] != group@,
            decreases self.groups.len() - i,
        {
            if self.groups[i].same_as(&group) {
                assert(old(self)@[i as int] == group@);
                self.groups.remove(i);
                proof {
                    assert(self@ =~= old(self)@.remove(i as int));
                    if old(self).wf() {
                        assert forall|a: int, b: int|
                            0 <= a < b < self@.len() implies self@[a] != self@[b] by {
                            if a >= i {
                                assert(self@[a] == old(self)@[a + 1]);
                            }
                            if b >= i {
                                assert(self@[b] == old(self)@[b + 1]);
                            }
                        }
                        assert forall|j: int| 0 <= j < self@.len() implies self@[j] != group@ by {
                            if j >= i {
                                assert(self@[j] == old(self)@[j + 1]);
                            }
                        }
                    }
                }
                return;
            }
            i += 1;
        }
    }

    /// The names of the groups written one after the other.
    pub fn to_string(&self) -> (r: String)
        ensures
            r@ == joined(self@),
    {
        let mut out = String::new();
        let mut i: usize = 0;
        while i < self.groups.len()
            invariant
                i <= self.groups.len(),
                out@ == joined(self@.take(i as int)),
            decreases self.groups.len() - i,
        {
            proof {
                assert(self@.take(i + 1).drop_last() =~= self@.take(i as int));
            }
            out.append(self.groups[i].as_str());
            i += 1;
        }
        proof {
            assert(self@.take(self.groups.len() as int) =~= self@);
        }
        out
    }

    /// A copy of these groups.
    pub fn duplicate(&self) -> (r: Self)
        ensures
            r@ == self@,
    {
        let mut out: Vec<Group> = Vec::new();
        let mut i: usize = 0;
        while i < self.groups.len()
            invariant
                i <= self.groups.len(),
                out@.len() == i,
                self@.len() == self.groups@.len(),
                group_names(out@) == self@.take(i as int),
            decreases self.groups.len() - i,
        {
            let ghost prev = out@;
            let g = self.groups[i].duplicate();
            out.push(g);
            proof {
                assert(out@ == prev.push(g));
                assert(g@ == self@[i as int]);
                assert forall|k: int| 0 <= k < i + 1 implies group_names(out@)[k] == self@.take(
                    i + 1,
                )[k] by {
                    if k < i {
                        assert(group_names(prev)[k] == self@.take(i as int)[k]);
                        assert(out@[k] == prev[k]);
                    }
                }
                assert(group_names(out@) =~= self@.take(i + 1));
            }
            i += 1;
        }
        proof {
            assert(self@.take(self.groups.len() as int) =~= self@);
        }
        Groups { groups: out }
    }
}

/// Data about a user that the embedding application shows to everyone.
pub trait PublicUserMeta: Clone {}

/// Data about a user that the embedding application keeps to the user.
pub trait PrivateUserMeta: Clone {}

/// What a store keeps of a user.
pub ghost struct UserRecord {
    pub id: i64,
    pub session_id: Option<i64>,
    pub username: Seq<char>,
    pub secret: Seq<char>,
    pub banned: bool,
    pub groups: Seq<Seq<char>>,
    pub role: Seq<char>,
}

/// An identity: a unique name, the hash of a password (never the password),
/// a role, groups, a ban flag, the current session, and metadata of the
/// embedding application.
#[derive(Clone)]
pub struct User<Pu, Pr> where Pu: PublicUserMeta, Pr: PrivateUserMeta {
    id: i64,
    session_id: Option<i64>,
    username: String,
    secret: String,
    ban: bool,
    groups: Groups,
    role: Role,
    public: Option<Pu>,
    private: Option<Pr>,
}

impl<Pu: PublicUserMeta, Pr: PrivateUserMeta> View for User<Pu, Pr> {
    type V = UserRecord;

    closed spec fn view(&self) -> UserRecord {
        UserRecord {
            id: self.id,
            session_id: self.session_id,
            username: self.username@,
            secret: self.secret@,
            banned: self.ban,
            groups: self.groups@,
            role: self.role.name@,
        }
    }
}

impl<Pu, Pr> User<Pu, Pr> where Pu: PublicUserMeta, Pr: PrivateUserMeta {
    pub closed spec fn public_meta(&self) -> Option<Pu> {
        self.public
    }

    pub closed spec fn private_meta(&self) -> Option<Pr> {
        self.private
    }

    /// Its groups hold each name once.
    pub open spec fn wf(&self) -> bool {
        self@.groups.no_duplicates()
    }

    /// A new user, not banned, in no group and no session.
    pub fn new(
        id: i64,
        username: String,
        secret: String,
        role: Role,
        public: Option<Pu>,
        private: Option<Pr>,
    ) -> (r: Self)
        ensures
            r@ == (UserRecord {
                id,
                session_id: None,
                username: username@,
                secret: secret@,
                banned: false,
                groups: Seq::empty(),
                role: role.name@,
            }),
            r.public_meta() == public,
            r.private_meta() == private,
            r.wf(),
    {
        User {
            id,
            username,
            secret,
            ban: false,
            session_id: None,
            groups: Groups::new(),
            role,
            public,
            private,
        }
    }

    pub fn from_values(
        id: i64,
        session_id: Option<i64>,
        username: String,
        secret: String,
        ban: bool,
        groups: Groups,
        role: Role,
        public: Option<Pu>,
        private: Option<Pr>,
    ) -> (r: Self)
        ensures
            r@ == (UserRecord {
                id,
                session_id,
                username: username@,
                secret: secret@,
                banned: ban,
                groups: groups@,
                role: role.name@,
            }),
            r.public_meta() == public,
            r.private_meta() == private,
            r.wf() == groups.wf(),
    {
        User { id, session_id, username, secret, ban, groups, role, public, private }
    }

    pub fn id(&self) -> (r: i64)
        ensures
            r == self@.id,
    {
        self.id
    }

    pub fn username(&self) -> (r: &str)
        ensures
            r@ == self@.username,
    {
        self.username.as_str()
    }

    pub fn set_username(&mut self, username: String)
        ensures
            final(self)@ == (UserRecord { username: username@, ..old(self)@ }),
            final(self).public_meta() == old(self).public_meta(),
            final(self).private_meta() == old(self).private_meta(),
            final(self).wf() == old(self).wf(),
    {
        self.username = username;
    }

    /// The stored hash of the password.
    pub fn secret(&self) -> (r: &str)
        ensures
            r@ == self@.secret,
    {
        self.secret.as_str()
    }

    fn set_secret(&mut self, secret: String)
        ensures
            final(self)@ == (UserRecord { secret: secret@, ..old(self)@ }),
            final(self).public_meta() == old(self).public_meta(),
            final(self).private_meta() == old(self).private_meta(),
            final(self).wf() == old(self).wf(),
    {
        self.secret = secret;
    }

    pub fn is_banned(&self) -> (r: bool)
        ensures
            r == self@.banned,
    {
        self.ban
    }

    pub fn ban(&mut self)
        ensures
            final(self)@ == (UserRecord { banned: true, ..old(self)@ }),
            final(self).public_meta() == old(self).public_meta(),
            final(self).private_meta() == old(self).private_meta(),
            final(self).wf() == old(self).wf(),
    {
        self.ban = true;
    }

    pub fn unban(&mut self)
        ensures
            final(self)@ == (UserRecord { banned: false, ..old(self)@ }),
            final(self).public_meta() == old(self).public_meta(),
            final(self).private_meta() == old(self).private_meta(),
            final(self).wf() == old(self).wf(),
    {
        self.ban = false;
    }

    pub fn groups(&self) -> (r: &Groups)
        ensures
            r@ == self@.groups,
    {
        &self.groups
    }

    pub fn role(&self) -> (r: &Role)
        ensures
            r.name@ == self@.role,
    {
        &self.role
    }

    pub fn set_role(&mut self, role: Role)
        ensures
            final(self)@ == (UserRecord { role: role.name@, ..old(self)@ }),
            final(self).public_meta() == old(self).public_meta(),
            final(self).private_meta() == old(self).private_meta(),
            final(self).wf() == old(self).wf(),
    {
        self.role = role;
    }

    pub fn session_id(&self) -> (r: Option<i64>)
        ensures
            r == self@.session_id,
    {
        self.session_id
    }

    /// Records the session the user is logged in with.
    pub fn set_session_id(&mut self, session_id: Option<i64>)
        ensures
            final(self)@ == (UserRecord { session_id, ..old(self)@ }),
            final(self).public_meta() == old(self).public_meta(),
            final(self).private_meta() == old(self).private_meta(),
            final(self).wf() == old(self).wf(),
    {
        self.session_id = session_id;
    }

    pub fn public(&self) -> (r: Option<Pu>)
        ensures
            r is Some == self.public_meta() is Some,
    {
        self.public.clone()
    }

    pub fn set_public(&mut self, public: Option<Pu>)
        ensures
            final(self)@ == old(self)@,
            final(self).public_meta() == public,
            final(self).private_meta() == old(self).private_meta(),
            final(self).wf() == old(self).wf(),
    {
        self.public = public;
    }

    pub fn private(&self) -> (r: Option<Pr>)
        ensures
            r is Some == self.private_meta() is Some,
    {
        self.private.clone()
    }

    pub fn set_private(&mut self, private: Option<Pr>)
        ensures
            final(self)@ == old(self)@,
            final(self).private_meta() == private,
            final(self).public_meta() == old(self).public_meta(),
            final(self).wf() == old(self).wf(),
    {
        self.private = private;
    }

    pub fn remove_group(&mut self, group: Group)
        ensures
            !old(self)@.groups.contains(group@) ==> final(self)@ == old(self)@,
            old(self)@.groups.contains(group@) ==> exists|i: int|
                0 <= i < old(self)@.groups.len() && old(self)@.groups[i] == group@
                    && final(self)@ == (UserRecord {
                    groups: old(self)@.groups.remove(i),
                    ..old(self)@
                }),
            old(self).wf() ==> final(self).wf() && !final(self)@.groups.contains(group@),
            final(self).public_meta() == old(self).public_meta(),
            final(self).private_meta() == old(self).private_meta(),
    {
        self.groups.remove_group(group);
    }

    pub fn add_group(&mut self, group: Group)
        ensures
            final(self)@ == (UserRecord {
                groups: if old(self)@.groups.contains(group@) {
                    old(self)@.groups
                } else {
                    old(self)@.groups.push(group@)
                },
                ..old(self)@
            }),
            old(self).wf() ==> final(self).wf(),
            final(self).public_meta() == old(self).public_meta(),
            final(self).private_meta() == old(self).private_meta(),
    {
        self.groups.add_group(group);
    }
}

/// Why the user engine refused or failed.
#[derive(Debug)]
pub enum UserManagerErrorKind {
    /// The user and secret were accepted but ending the session failed.
    SessionInvalidation(TokenManagerError),
    AlreadyLoggedOut,
    Token(AuthTokenError),
    Harness(HarnessError),
    UserNotFound,
}

#[derive(Debug)]
pub struct UserManagerError {
    pub kind: UserManagerErrorKind,
}

impl UserManagerError {
    pub fn new(kind: UserManagerErrorKind) -> (r: Self)
        ensures
            r.kind == kind,
    {
        UserManagerError { kind }
    }

    /// The same failure, seen from the user engine.
    pub fn from_token_manager(e: TokenManagerError) -> (r: Self)
        ensures
            r.kind == match e {
                TokenManagerError::AuthToken(t) => UserManagerErrorKind::Token(t),
                TokenManagerError::Harness(h) => UserManagerErrorKind::Harness(h),
            },
    {
        match e {
            TokenManagerError::AuthToken(t) => UserManagerError::new(UserManagerErrorKind::Token(t)),
            TokenManagerError::Harness(h) => UserManagerError::new(UserManagerErrorKind::Harness(h)),
        }
    }
}

/// The settings of every user manager made from it: the identifier source
/// and the password hasher.
pub struct UserManagerConfig<T, H> where T: IdGenerator, H: CredentialHasher {
    id_generator: T,
    hasher: H,
}

impl UserManagerConfig<DefaultIdGenerator, ScryptHasher> {
    /// Ids from the OS generator; passwords hashed with scrypt's default cost.
    pub fn default() -> (r: Self)
        ensures
            r.hasher_of() == (ScryptHasher { log_n: 12, r: 8, p: 1, len: 32 }),
    {
        UserManagerConfig { id_generator: DefaultIdGenerator, hasher: ScryptHasher::default() }
    }
}

impl<T, H> UserManagerConfig<T, H> where T: IdGenerator + Copy, H: CredentialHasher + Copy {
    pub closed spec fn hasher_of(&self) -> H {
        self.hasher
    }

    pub closed spec fn id_generator_of(&self) -> T {
        self.id_generator
    }

    pub fn new(id_generator: T, hasher: H) -> (r: Self)
        ensures
            r.hasher_of() == hasher,
            r.id_generator_of() == id_generator,
    {
        UserManagerConfig { id_generator, hasher }
    }

    /// A user manager with these settings over `harness`.
    pub fn init<V: DbHarnessUser>(&self, harness: V) -> (r: UserManager<T, H, V>)
        ensures
            r.hasher_of() == self.hasher_of(),
            r.id_generator_of() == self.id_generator_of(),
            r.users() == harness.users(),
    {
        UserManager { id_generator: self.id_generator, hasher: self.hasher, harness }
    }

    /// These settings with another identifier source.
    pub fn with_id_gen<X: IdGenerator + Copy>(&self, id_generator: X) -> (r: UserManagerConfig<
        X,
        H,
    >)
        ensures
            r.hasher_of() == self.hasher_of(),
            r.id_generator_of() == id_generator,
    {
        UserManagerConfig { id_generator, hasher: self.hasher }
    }
}

/// Registers users, checks passwords, and logs users in and out.
pub struct UserManager<T, H, V> where T: IdGenerator, H: CredentialHasher, V: DbHarnessUser {
    id_generator: T,
    harness: V,
    hasher: H,
}

/// The stored refresh token `rid` accepts `presented` from `user_id` at `now`.
pub open spec fn refresh_passes<T, H, X>(
    tokens: AuthTokenManager<T, H, X>,
    rid: i64,
    user_id: i64,
    presented: Seq<char>,
    now: i64,
) -> bool where T: IdGenerator, H: CredentialHasher, X: DbHarnessToken {
    let t = tokens.refresh_tokens()[rid];
    &&& tokens.refresh_tokens().contains_key(rid)
    &&& token_check(t@, user_id, presented, now) is None
    &&& !t@.is_refresh() || tokens.hasher_of().accepts(presented, t@.secret_hash())
}

/// `sessions` after `session` was invalidated: unchanged where it already
/// was, else with it stored without token ids.
pub open spec fn ended(sessions: Map<i64, Session>, session: Session) -> Map<i64, Session> {
    if session.is_invalidated() {
        sessions
    } else {
        session_overwritten(sessions, session.cleared())
    }
}

/// From `pre` to `post`, only the two tokens of `session` may have left
/// their tables, and nothing else changed in them.
pub open spec fn session_tokens_may_go<T, H, S, X>(
    pre: &SessionManager<T, H, S, X>,
    post: &SessionManager<T, H, S, X>,
    session: Session,
) -> bool where T: IdGenerator, H: CredentialHasher, S: DbHarnessSession, X: DbHarnessToken {
    &&& match session.refresh_token {
        Some(id) => post.refresh_tokens() == pre.refresh_tokens() || post.refresh_tokens()
            == pre.refresh_tokens().remove(id),
        None => post.refresh_tokens() == pre.refresh_tokens(),
    }
    &&& match session.access_token {
        Some(id) => post.access_tokens() == pre.access_tokens() || post.access_tokens()
            == pre.access_tokens().remove(id),
        None => post.access_tokens() == pre.access_tokens(),
    }
}

/// `user_id` may log out of its session at `now` with the refresh secret
/// `presented`: the user is stored with a session, and that session either
/// has no refresh token left or its refresh token accepts the secret.
pub open spec fn logout_allowed<T, H, S, X>(
    users: Map<i64, UserRecord>,
    sessions: &SessionManager<T, H, S, X>,
    user_id: i64,
    presented: Seq<char>,
    now: i64,
) -> bool where T: IdGenerator, H: CredentialHasher, S: DbHarnessSession, X: DbHarnessToken {
    &&& users.contains_key(user_id)
    &&& users[user_id].session_id is Some
    &&& sessions.sessions().contains_key(users[user_id].session_id->Some_0)
    &&& match sessions.sessions()[users[user_id].session_id->Some_0].refresh_token {
        Some(rid) => refresh_passes(sessions.tokens(), rid, user_id, presented, now),
        None => true,
    }
}

impl<T, H, V> UserManager<T, H, V> where T: IdGenerator, H: CredentialHasher, V: DbHarnessUser {
    pub closed spec fn hasher_of(&self) -> H {
        self.hasher
    }

    /// The source of the ids of new users.
    pub closed spec fn id_generator_of(&self) -> T {
        self.id_generator
    }

    pub closed spec fn users(&self) -> Map<i64, UserRecord> {
        self.harness.users()
    }

    /// Registers a user: a fresh id, and the password hashed under a fresh salt.
    pub fn create_user<Pu, Pr>(
        &mut self,
        username: String,
        pwd: String,
        role: Role,
        public: Option<Pu>,
        private: Option<Pr>,
    ) -> (r: Result<User<Pu, Pr>, UserManagerError>) where Pu: PublicUserMeta, Pr: PrivateUserMeta
        ensures
            final(self).hasher_of() == old(self).hasher_of(),
            r matches Ok(u) ==> {
                &&& u@.username == username@
                &&& u@.role == role.name@
                &&& u@.session_id is None
                &&& !u@.banned
                &&& u@.groups == Seq::<Seq<char>>::empty()
                &&& old(self).hasher_of().produces(pwd@, u@.secret)
                &&& u@.secret != pwd@
                &&& u.public_meta() == public
                &&& u.private_meta() == private
                &&& u.wf()
                &&& !old(self).users().contains_key(u@.id)
                &&& final(self).users() == old(self).users().insert(u@.id, u@)
            },
            r matches Err(e) ==> (e.kind matches UserManagerErrorKind::Token(t) && t.kind
                == AuthTokenErrorKind::Create) || e.kind is Harness,
            r is Err ==> final(self).users() == old(self).users(),
    {
        let id = self.id_generator.new_u64() as i64;
        let salt = self.hasher.gen_salt();
        let secret = match self.hasher.hash(pwd.as_str(), salt.as_str()) {
            Ok(h) => h,
            Err(e) => return Err(UserManagerError::new(UserManagerErrorKind::Token(e))),
        };
        let user = User::new(id, username, secret, role, public, private);
        match self.harness.insert(&user) {
            Ok(()) => Ok(user),
            Err(e) => Err(UserManagerError::new(UserManagerErrorKind::Harness(e))),
        }
    }

    /// Checks `pwd` against the user's stored password hash. A hash that
    /// the hasher gave for `pwd` always passes.
    pub fn verify_pwd<Pu, Pr>(&self, user: &User<Pu, Pr>, pwd: &str) -> (r: Result<(), AuthTokenError>) where
        Pu: PublicUserMeta,
        Pr: PrivateUserMeta,

        ensures
            r is Ok <==> self.hasher_of().accepts(pwd@, user@.secret),
            self.hasher_of().produces(pwd@, user@.secret) ==> r is Ok,
            r matches Err(e) ==> e.kind == AuthTokenErrorKind::NotAuthorized || e.kind
                == AuthTokenErrorKind::InvalidFormat,
            r is Err && (exists|s: Seq<char>| self.hasher_of().produces(s, user@.secret))
                ==> r->Err_0.kind == AuthTokenErrorKind::NotAuthorized,
    {
        proof {
            if self.hasher.produces(pwd@, user@.secret) {
                self.hasher.lemma_produced_is_accepted(pwd@, user@.secret);
            }
        }
        self.hasher.verify(pwd, user.secret())
    }

    /// Stores `user` over the user with its id.
    pub fn update_user<Pu, Pr>(&mut self, user: User<Pu, Pr>) -> (r: Result<usize, HarnessError>) where
        Pu: PublicUserMeta,
        Pr: PrivateUserMeta,

        ensures
            final(self).hasher_of() == old(self).hasher_of(),
            r matches Ok(n) ==> final(self).users() == record_overwritten(old(self).users(), user@)
                && n == (if old(self).users().contains_key(user@.id) {
                1usize
            } else {
                0usize
            }),
            r is Err ==> final(self).users() == old(self).users(),
    {
        self.harness.update(&user)
    }

    /// Hashes `pwd` under a fresh salt and stores it as the user's password.
    pub fn update_password<Pu, Pr>(&mut self, user: User<Pu, Pr>, pwd: String) -> (r: Result<
        usize,
        UserManagerError,
    >) where Pu: PublicUserMeta, Pr: PrivateUserMeta
        ensures
            final(self).hasher_of() == old(self).hasher_of(),
            r is Ok ==> exists|h: Seq<char>|
                old(self).hasher_of().produces(pwd@, h) && h != pwd@ && final(self).users()
                    == record_overwritten(
                    old(self).users(),
                    UserRecord { secret: h, ..user@ },
                ),
            r matches Err(e) ==> (e.kind matches UserManagerErrorKind::Token(t) && t.kind
                == AuthTokenErrorKind::Create) || e.kind is Harness,
            r is Err ==> final(self).users() == old(self).users(),
    {
        let salt = self.hasher.gen_salt();
        let secret = match self.hasher.hash(pwd.as_str(), salt.as_str()) {
            Ok(h) => h,
            Err(e) => return Err(UserManagerError::new(UserManagerErrorKind::Token(e))),
        };
        let mut user = user;
        user.set_secret(secret);
        match self.harness.update(&user) {
            Ok(n) => Ok(n),
            Err(e) => Err(UserManagerError::new(UserManagerErrorKind::Harness(e))),
        }
    }

    pub fn get_user<Pu, Pr>(&self, id: &i64) -> (r: Result<Option<User<Pu, Pr>>, HarnessError>) where
        Pu: PublicUserMeta,
        Pr: PrivateUserMeta,

        ensures
            r matches Ok(found) ==> match found {
                Some(u) => self.users().contains_key(*id) && u@ == self.users()[*id],
                None => !self.users().contains_key(*id),
            },
    {
        self.harness.read(*id)
    }

    pub fn delete_user(&mut self, id: i64) -> (r: Result<(), HarnessError>)
        ensures
            final(self).hasher_of() == old(self).hasher_of(),
            r is Ok ==> final(self).users() == old(self).users().remove(id),
            r is Err ==> final(self).users() == old(self).users(),
    {
        self.harness.delete(id)
    }

    /// Logs a user in: reads the user again by id, checks `pwd` against the
    /// stored hash, opens a session and records it on the stored user.
    /// Returns the session with its refresh and access secrets.
    pub fn login<Pu, Pr, Id, Hs, Sh, Th>(
        &mut self,
        session_manager: &mut SessionManager<Id, Hs, Sh, Th>,
        user: &User<Pu, Pr>,
        pwd: &str,
    ) -> (r: Result<(Session, String, String), UserManagerError>) where
        Pu: PublicUserMeta,
        Pr: PrivateUserMeta,
        Id: IdGenerator,
        Hs: CredentialHasher,
        Sh: DbHarnessSession,
        Th: DbHarnessToken,

        ensures
            final(self).hasher_of() == old(self).hasher_of(),
            final(session_manager).same_settings(old(session_manager)),
            old(session_manager).wf() ==> final(session_manager).wf(),
            !old(self).users().contains_key(user@.id) ==> r is Err && (r->Err_0.kind is UserNotFound
                || r->Err_0.kind is Harness),
            old(self).users().contains_key(user@.id) && !old(self).hasher_of().accepts(
                pwd@,
                old(self).users()[user@.id].secret,
            ) ==> r is Err && (r->Err_0.kind is Token || r->Err_0.kind is Harness),
            r is Err ==> final(self).users() == old(self).users(),
            !old(self).users().contains_key(user@.id) || !old(self).hasher_of().accepts(
                pwd@,
                old(self).users()[user@.id].secret,
            ) ==> *final(session_manager) == *old(session_manager),
            r is Err && r->Err_0.kind is UserNotFound ==> *final(session_manager) == *old(
                session_manager),
            r matches Ok((s, refresh, access)) ==> {
                let stored = old(self).users()[user@.id];
                &&& old(self).users().contains_key(user@.id)
                &&& old(self).hasher_of().accepts(pwd@, stored.secret)
                &&& exists|now: i64|
                    SessionManager::created(
                        old(session_manager),
                        final(session_manager),
                        user@.id,
                        now,
                        Ok::<(Session, String, String), TokenManagerError>((s, refresh, access)),
                    )
                &&& final(self).users() == record_overwritten(
                    old(self).users(),
                    UserRecord { session_id: Some(s.id), ..stored },
                )
            },
    {
        let id = user.id();
        let mut stored: User<Pu, Pr> = match self.harness.read(id) {
            Err(e) => return Err(UserManagerError::new(UserManagerErrorKind::Harness(e))),
            Ok(None) => return Err(UserManagerError::new(UserManagerErrorKind::UserNotFound)),
            Ok(Some(u)) => u,
        };
        if let Err(e) = self.verify_pwd(&stored, pwd) {
            return Err(UserManagerError::new(UserManagerErrorKind::Token(e)));
        }
        let (session, refresh_secret, access_secret) = match session_manager.new_session(id) {
            Ok(created) => created,
            Err(e) => return Err(UserManagerError::from_token_manager(e)),
        };
        stored.set_session_id(Some(session.id));
        match self.harness.update(&stored) {
            Ok(_) => Ok((session, refresh_secret, access_secret)),
            Err(e) => Err(UserManagerError::new(UserManagerErrorKind::Harness(e))),
        }
    }

    /// Logs a user out, now: see `logout_at`.
    pub fn logout<Pu, Pr, Id, Hs, Sh, Th>(
        &mut self,
        session_manager: &mut SessionManager<Id, Hs, Sh, Th>,
        user: &User<Pu, Pr>,
        user_token_atmpt: &str,
    ) -> (r: Result<(), UserManagerError>) where
        Pu: PublicUserMeta,
        Pr: PrivateUserMeta,
        Id: IdGenerator,
        Hs: CredentialHasher,
        Sh: DbHarnessSession,
        Th: DbHarnessToken,

        ensures
            final(self).users() == old(self).users(),
            final(self).hasher_of() == old(self).hasher_of(),
            final(session_manager).same_settings(old(session_manager)),
            old(session_manager).wf() ==> final(session_manager).wf(),
            r is Err ==> final(session_manager).sessions() == old(session_manager).sessions(),
            r is Ok && old(session_manager).wf() ==> session_tokens_may_go(
                old(session_manager),
                final(session_manager),
                old(session_manager).sessions()[old(self).users()[user@.id].session_id->Some_0],
            ),
            old(session_manager).wf() && (forall|now: i64|
                !logout_allowed(
                    old(self).users(),
                    old(session_manager),
                    user@.id,
                    user_token_atmpt@,
                    now,
                )) ==> final(session_manager).refresh_tokens() == old(
                session_manager).refresh_tokens() && final(session_manager).access_tokens() == old(
                session_manager).access_tokens(),
            r is Ok ==> exists|now: i64|
                logout_allowed(
                    old(self).users(),
                    old(session_manager),
                    user@.id,
                    user_token_atmpt@,
                    now,
                ),
            r is Ok ==> final(session_manager).sessions() == ended(
                old(session_manager).sessions(),
                old(session_manager).sessions()[old(self).users()[user@.id].session_id->Some_0],
            ),
    {
        let now = now_timestamp();
        self.logout_at(session_manager, user, user_token_atmpt, now)
    }

    /// Logs a user out at `now`, given the refresh secret `user_token_atmpt`:
    /// reads the user again by id, and where its session still has a refresh
    /// token, requires that token to accept the secret; then invalidates the
    /// session. A refused secret leaves the session as it was.
    pub fn logout_at<Pu, Pr, Id, Hs, Sh, Th>(
        &mut self,
        session_manager: &mut SessionManager<Id, Hs, Sh, Th>,
        user: &User<Pu, Pr>,
        user_token_atmpt: &str,
        now: i64,
    ) -> (r: Result<(), UserManagerError>) where
        Pu: PublicUserMeta,
        Pr: PrivateUserMeta,
        Id: IdGenerator,
        Hs: CredentialHasher,
        Sh: DbHarnessSession,
        Th: DbHarnessToken,

        ensures
            final(self).users() == old(self).users(),
            final(self).hasher_of() == old(self).hasher_of(),
            final(session_manager).same_settings(old(session_manager)),
            old(session_manager).wf() ==> final(session_manager).wf(),
            r is Err ==> final(session_manager).sessions() == old(session_manager).sessions(),
            r is Ok && old(session_manager).wf() ==> session_tokens_may_go(
                old(session_manager),
                final(session_manager),
                old(session_manager).sessions()[old(self).users()[user@.id].session_id->Some_0],
            ),
            old(session_manager).wf() && !logout_allowed(
                old(self).users(),
                old(session_manager),
                user@.id,
                user_token_atmpt@,
                now,
            ) ==> final(session_manager).refresh_tokens() == old(session_manager).refresh_tokens()
                && final(session_manager).access_tokens() == old(session_manager).access_tokens(),
            r is Ok ==> logout_allowed(
                old(self).users(),
                old(session_manager),
                user@.id,
                user_token_atmpt@,
                now,
            ),
            r is Ok ==> final(session_manager).sessions() == ended(
                old(session_manager).sessions(),
                old(session_manager).sessions()[old(self).users()[user@.id].session_id->Some_0],
            ),
            logout_allowed(old(self).users(), old(session_manager), user@.id, user_token_atmpt@, now)
                ==> r is Ok || r->Err_0.kind is Harness || r->Err_0.kind is SessionInvalidation,
            old(self).users().contains_key(user@.id) && old(self).users()[user@.id].session_id is None
                ==> r is Err && (r->Err_0.kind is AlreadyLoggedOut || r->Err_0.kind is Harness),
    {
        let id = user.id();
        let stored: User<Pu, Pr> = match self.harness.read(id) {
            Err(e) => return Err(UserManagerError::new(UserManagerErrorKind::Harness(e))),
            Ok(None) => return Err(UserManagerError::new(UserManagerErrorKind::UserNotFound)),
            Ok(Some(u)) => u,
        };
        let session_id = match stored.session_id() {
            Some(sid) => sid,
            None => return Err(UserManagerError::new(UserManagerErrorKind::AlreadyLoggedOut)),
        };
        let session = match session_manager.read_session(session_id) {
            Ok(s) => s,
            Err(e) => return Err(UserManagerError::new(UserManagerErrorKind::Harness(e))),
        };
        // proof of possession of the refresh secret, so that knowing a user id
        // is not enough to log someone out; without a refresh token left, the
        // session is only cleaned up
        if let Some(refresh_id) = session.refresh_token {
            if let Err(e) = session_manager.verify_token_at(refresh_id, id, user_token_atmpt, now) {
                return Err(UserManagerError::from_token_manager(e));
            }
        }
        match session_manager.invalidate_session(session) {
            Ok(()) => Ok(()),
            Err(e) => Err(UserManagerError::new(UserManagerErrorKind::SessionInvalidation(e))),
        }
    }
}

} // verus!
