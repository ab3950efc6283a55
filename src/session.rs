//! Sessions: a user bound to one refresh token lineage and one access token.

use crate::auth_token::{
    expiry_of, fits_i64, token_check, token_err, AuthToken, AuthTokenError, AuthTokenErrorKind,
    AuthTokenManager, AuthTokenManagerConfig, AuthTokenView, TokenKind, TokenManagerError,
    TokenTtl,
};
use crate::clock::now_timestamp;
use crate::harness::{session_overwritten, DbHarnessSession, DbHarnessToken};
use crate::hash::{CredentialHasher, ScryptHasher};
use crate::id::{DefaultIdGenerator, IdGenerator};
use vstd::prelude::*;

verus! {

/// A user's session; `None` ids mean the token is gone. Both are `None`
/// once the session was invalidated.
#[derive(Clone, Copy, Debug, PartialEq, Eq, Structural)]
pub struct Session {
    pub id: i64,
    pub user_id: i64,
    pub refresh_token: Option<i64>,
    pub access_token: Option<i64>,
}

impl Session {
    pub fn from_values(
        id: i64,
        user_id: i64,
        refresh_token: Option<i64>,
        access_token: Option<i64>,
    ) -> (r: Self)
        ensures
            r == (Session { id, user_id, refresh_token, access_token }),
    {
        Session { id, user_id, refresh_token, access_token }
    }

    pub fn id(&self) -> (r: i64)
        ensures
            r == self.id,
    {
        self.id
    }

    pub fn user_id(&self) -> (r: i64)
        ensures
            r == self.user_id,
    {
        self.user_id
    }

    pub fn refresh_token(&self) -> (r: Option<i64>)
        ensures
            r == self.refresh_token,
    {
        self.refresh_token
    }

    pub fn access_token(&self) -> (r: Option<i64>)
        ensures
            r == self.access_token,
    {
        self.access_token
    }

    /// This session with both token ids gone.
    pub open spec fn cleared(self) -> Session {
        Session { refresh_token: None, access_token: None, ..self }
    }

    pub open spec fn is_invalidated(self) -> bool {
        self.refresh_token is None && self.access_token is None
    }
}

/// `table` holds a token with id `id` that `table_before` lacked, and
/// nothing else changed.
pub open spec fn added(table_before: Map<i64, AuthToken>, table: Map<i64, AuthToken>, id: i64) -> bool {
    &&& !table_before.contains_key(id)
    &&& table.contains_key(id)
    &&& table == table_before.insert(id, table[id])
    &&& table[id]@.id == id
}

/// `t` is a valid refresh token of `user_id` expiring at `expires`, whose
/// stored hash `hasher` gave for `secret`.
pub open spec fn fresh_refresh<H: CredentialHasher>(
    t: AuthTokenView,
    user_id: i64,
    secret: Seq<char>,
    expires: int,
    hasher: H,
) -> bool {
    &&& t.user_id == user_id
    &&& t.valid
    &&& t.is_refresh()
    &&& hasher.produces(secret, t.secret_hash())
    &&& t.expires == expires
}

/// `t` is a valid access token of `user_id` with bearer string `secret`,
/// expiring at `expires`.
pub open spec fn fresh_access(t: AuthTokenView, user_id: i64, secret: Seq<char>, expires: int) -> bool {
    &&& t.user_id == user_id
    &&& t.valid
    &&& t.kind == TokenKind::Access { token: secret }
    &&& t.expires == expires
}

/// The settings of every session manager made from it: the refresh token
/// lifetime in minutes, the identifier source and the token settings.
pub struct SessionManagerConfig<T, H> where T: IdGenerator, H: CredentialHasher {
    id_generator: T,
    token_manager_config: AuthTokenManagerConfig<T, H>,
    ttl: i64,
}

impl Default for SessionManagerConfig<DefaultIdGenerator, ScryptHasher> {
    /// Refresh tokens live 240 minutes; tokens as in the default token settings.
    fn default() -> (r: Self)
        ensures
            r.ttl_of() == 240,
            r.token_config().ttl_of() == 30,
    {
        SessionManagerConfig {
            id_generator: DefaultIdGenerator,
            token_manager_config: AuthTokenManagerConfig::default(),
            ttl: 240,
        }
    }
}

impl<T, H> SessionManagerConfig<T, H> where T: IdGenerator + Copy, H: CredentialHasher + Copy {
    pub closed spec fn ttl_of(&self) -> i64 {
        self.ttl
    }

    pub closed spec fn token_config(&self) -> AuthTokenManagerConfig<T, H> {
        self.token_manager_config
    }

    pub fn new(id_generator: T, token_manager_config: AuthTokenManagerConfig<T, H>, ttl: i64) -> (r:
        Self)
        ensures
            r.ttl_of() == ttl,
            r.token_config() == token_manager_config,
    {
        SessionManagerConfig { id_generator, token_manager_config, ttl }
    }

    /// A session manager with these settings over the two harnesses.
    pub fn init<V: DbHarnessSession, Y: DbHarnessToken>(
        &self,
        session_harness: V,
        token_harness: Y,
    ) -> (r: SessionManager<T, H, V, Y>)
        ensures
            r.ttl_of() == self.ttl_of(),
            r.tokens().ttl_of() == self.token_config().ttl_of(),
            r.tokens().hasher_of() == self.token_config().hasher_of(),
            r.sessions() == session_harness.sessions(),
            r.tokens().refresh_tokens() == token_harness.refresh_tokens(),
            r.tokens().access_tokens() == token_harness.access_tokens(),
    {
        SessionManager {
            id_generator: self.id_generator,
            harness: session_harness,
            ttl: self.ttl,
            token_manager: self.token_manager_config.init(token_harness),
        }
    }
}

/// Creates, rotates and invalidates sessions and their tokens.
pub struct SessionManager<T, H, V, X> where
    T: IdGenerator,
    H: CredentialHasher,
    V: DbHarnessSession,
    X: DbHarnessToken,
 {
    id_generator: T,
    token_manager: AuthTokenManager<T, H, X>,
    harness: V,
    ttl: i64,
}

impl<T, H, V, X> SessionManager<T, H, V, X> where
    T: IdGenerator,
    H: CredentialHasher,
    V: DbHarnessSession,
    X: DbHarnessToken,
 {
    /// The lifetime of refresh tokens, in minutes.
    pub closed spec fn ttl_of(&self) -> i64 {
        self.ttl
    }

    /// The token manager, with its settings and its tables.
    pub closed spec fn tokens(&self) -> AuthTokenManager<T, H, X> {
        self.token_manager
    }

    pub closed spec fn sessions(&self) -> Map<i64, Session> {
        self.harness.sessions()
    }

    pub open spec fn refresh_tokens(&self) -> Map<i64, AuthToken> {
        self.tokens().refresh_tokens()
    }

    pub open spec fn access_tokens(&self) -> Map<i64, AuthToken> {
        self.tokens().access_tokens()
    }

    /// Each token table holds its own kind of token, each under its id.
    pub open spec fn wf(&self) -> bool {
        self.tokens().wf()
    }

    pub open spec fn same_settings(&self, other: &Self) -> bool {
        self.ttl_of() == other.ttl_of() && self.tokens().same_settings(&other.tokens())
    }

    /// `post` is `pre` after `new_session_at(user_id, now)` returned `r`.
    pub open spec fn created(
        pre: &Self,
        post: &Self,
        user_id: i64,
        now: i64,
        r: Result<(Session, String, String), TokenManagerError>,
    ) -> bool {
        &&& post.same_settings(pre)
        &&& pre.wf() ==> post.wf()
        &&& r is Err ==> post.sessions() == pre.sessions()
        &&& !fits_i64(expiry_of(now, pre.ttl_of())) ==> {
            &&& r == Err::<(Session, String, String), _>(token_err(AuthTokenErrorKind::DateTime))
            &&& post.sessions() == pre.sessions()
            &&& post.refresh_tokens() == pre.refresh_tokens()
            &&& post.access_tokens() == pre.access_tokens()
        }
        &&& r matches Ok((s, refresh, access)) ==> {
            &&& s.user_id == user_id
            &&& !pre.sessions().contains_key(s.id)
            &&& post.sessions() == pre.sessions().insert(s.id, s)
            &&& s.refresh_token matches Some(rid) && added(
                pre.refresh_tokens(),
                post.refresh_tokens(),
                rid,
            ) && fresh_refresh(
                post.refresh_tokens()[rid]@,
                user_id,
                refresh@,
                expiry_of(now, pre.ttl_of()),
                pre.tokens().hasher_of(),
            )
            &&& s.access_token matches Some(aid) && added(
                pre.access_tokens(),
                post.access_tokens(),
                aid,
            ) && fresh_access(
                post.access_tokens()[aid]@,
                user_id,
                access@,
                expiry_of(now, pre.tokens().ttl_of()),
            )
        }
    }

    /// Opens a session for `user_id` with a fresh refresh and access token;
    /// returns it with the two secrets for the caller.
    pub fn new_session(&mut self, user_id: i64) -> (r: Result<
        (Session, String, String),
        TokenManagerError,
    >)
        ensures
            exists|now: i64| Self::created(old(self), final(self), user_id, now, r),
    {
        let now = now_timestamp();
        self.new_session_at(user_id, now)
    }

    /// Opens a session for `user_id` at `now`.
    pub fn new_session_at(&mut self, user_id: i64, now: i64) -> (r: Result<
        (Session, String, String),
        TokenManagerError,
    >)
        ensures
            Self::created(old(self), final(self), user_id, now, r),
    {
        let id = self.id_generator.new_u64() as i64;
        let (refresh_token, refresh_secret) = self.token_manager.next_token_at(
            user_id,
            TokenTtl::Refresh(self.ttl),
            now,
        )?;
        let (access_token, access_secret) = self.token_manager.next_token_at(
            user_id,
            TokenTtl::Access,
            now,
        )?;
        let session = Session {
            id,
            user_id,
            refresh_token: Some(refresh_token.id()),
            access_token: Some(access_token.id()),
        };
        match self.harness.insert(&session) {
            Ok(()) => Ok((session, refresh_secret, access_secret)),
            Err(e) => Err(TokenManagerError::Harness(e)),
        }
    }

    pub fn read_session(&self, id: i64) -> (r: Result<Session, crate::harness::HarnessError>)
        ensures
            r matches Ok(s) ==> self.sessions().contains_key(id) && self.sessions()[id] == s,
    {
        self.harness.read(id)
    }

    /// `post` is `pre` after `create_new_access_token_at(session, user_id,
    /// now)` turned `before` into `after` and returned `r`: the old access
    /// token is deleted and a fresh one takes its place in the session.
    pub open spec fn access_issued(
        pre: &Self,
        post: &Self,
        before: Session,
        after: Session,
        user_id: i64,
        now: i64,
        r: Result<String, TokenManagerError>,
    ) -> bool {
        let kept = match before.access_token {
            Some(old_id) => pre.access_tokens().remove(old_id),
            None => pre.access_tokens(),
        };
        &&& post.same_settings(pre)
        &&& pre.wf() ==> post.wf()
        &&& post.refresh_tokens() == pre.refresh_tokens()
        &&& r is Err ==> after == before && post.sessions() == pre.sessions()
        &&& before.access_token is None && !fits_i64(expiry_of(now, pre.tokens().ttl_of())) ==> {
            &&& r == Err::<String, _>(token_err(AuthTokenErrorKind::DateTime))
            &&& after == before
            &&& post.sessions() == pre.sessions()
            &&& post.access_tokens() == pre.access_tokens()
        }
        &&& r matches Ok(secret) ==> {
            &&& after == Session { access_token: after.access_token, ..before }
            &&& after.access_token matches Some(aid) && added(kept, post.access_tokens(), aid)
                && fresh_access(
                post.access_tokens()[aid]@,
                user_id,
                secret@,
                expiry_of(now, pre.tokens().ttl_of()),
            )
            &&& post.sessions() == session_overwritten(pre.sessions(), after)
        }
    }

    /// Replaces the session's access token with a fresh one for `user_id`,
    /// now; returns its secret. The caller must have authenticated the request.
    pub fn create_new_access_token(&mut self, session: &mut Session, user_id: i64) -> (r: Result<
        String,
        TokenManagerError,
    >)
        ensures
            exists|now: i64|
                Self::access_issued(
                    old(self),
                    final(self),
                    *old(session),
                    *final(session),
                    user_id,
                    now,
                    r,
                ),
    {
        let now = now_timestamp();
        self.create_new_access_token_at(session, user_id, now)
    }

    /// Replaces the session's access token with a fresh one for `user_id`,
    /// minted at `now`.
    pub fn create_new_access_token_at(&mut self, session: &mut Session, user_id: i64, now: i64) -> (r:
        Result<String, TokenManagerError>)
        ensures
            Self::access_issued(
                old(self),
                final(self),
                *old(session),
                *final(session),
                user_id,
                now,
                r,
            ),
    {
        if let Some(token_id) = session.access_token {
            // the old token must not stay usable beside the new one
            if let Err(e) = self.token_manager.delete_access_token(token_id) {
                return Err(TokenManagerError::Harness(e));
            }
        }
        let (new_token, secret) = self.token_manager.next_token_at(user_id, TokenTtl::Access, now)?;
        let updated = Session { access_token: Some(new_token.id()), ..*session };
        match self.harness.update(&updated) {
            Ok(()) => {
                *session = updated;
                Ok(secret)
            },
            Err(e) => Err(TokenManagerError::Harness(e)),
        }
    }

    /// Checks a refresh secret against the stored refresh token `token_id`, now.
    pub fn verify_token(&mut self, token_id: i64, user_id: i64, user_token_atmpt: &str) -> (r:
        Result<(), TokenManagerError>)
        ensures
            final(self).same_settings(old(self)),
            old(self).wf() ==> final(self).wf(),
            final(self).sessions() == old(self).sessions(),
            exists|now: i64|
                AuthTokenManager::lookup_verified(
                    &old(self).tokens(),
                    &final(self).tokens(),
                    old(self).refresh_tokens(),
                    token_id,
                    user_id,
                    user_token_atmpt@,
                    now,
                    r,
                ),
    {
        let now = now_timestamp();
        self.verify_token_at(token_id, user_id, user_token_atmpt, now)
    }

    /// Checks a refresh secret against the stored refresh token `token_id`, at `now`.
    pub fn verify_token_at(&mut self, token_id: i64, user_id: i64, user_token_atmpt: &str, now: i64) -> (r:
        Result<(), TokenManagerError>)
        ensures
            final(self).same_settings(old(self)),
            old(self).wf() ==> final(self).wf(),
            final(self).sessions() == old(self).sessions(),
            AuthTokenManager::lookup_verified(
                &old(self).tokens(),
                &final(self).tokens(),
                old(self).refresh_tokens(),
                token_id,
                user_id,
                user_token_atmpt@,
                now,
                r,
            ),
    {
        self.token_manager.trusted_verify_refresh_token_at(token_id, user_id, user_token_atmpt, now)
    }

    /// Checks a bearer secret against the stored access token `token_id`, now.
    pub fn verify_access_token(&mut self, token_id: i64, user_id: i64, token: &str) -> (r: Result<
        (),
        TokenManagerError,
    >)
        ensures
            final(self).same_settings(old(self)),
            old(self).wf() ==> final(self).wf(),
            final(self).sessions() == old(self).sessions(),
            exists|now: i64|
                AuthTokenManager::lookup_verified(
                    &old(self).tokens(),
                    &final(self).tokens(),
                    old(self).access_tokens(),
                    token_id,
                    user_id,
                    token@,
                    now,
                    r,
                ),
    {
        let now = now_timestamp();
        self.verify_access_token_at(token_id, user_id, token, now)
    }

    /// Checks a bearer secret against the stored access token `token_id`, at `now`.
    pub fn verify_access_token_at(&mut self, token_id: i64, user_id: i64, token: &str, now: i64) -> (r:
        Result<(), TokenManagerError>)
        ensures
            final(self).same_settings(old(self)),
            old(self).wf() ==> final(self).wf(),
            final(self).sessions() == old(self).sessions(),
            AuthTokenManager::lookup_verified(
                &old(self).tokens(),
                &final(self).tokens(),
                old(self).access_tokens(),
                token_id,
                user_id,
                token@,
                now,
                r,
            ),
    {
        self.token_manager.trusted_verify_access_token_at(token_id, user_id, token, now)
    }

    /// Stores the session with both token ids gone; the tokens stay as they are.
    pub fn set_token_ids_none(&mut self, session: Session) -> (r: Result<(), TokenManagerError>)
        ensures
            final(self).same_settings(old(self)),
            old(self).wf() ==> final(self).wf(),
            final(self).tokens() == old(self).tokens(),
            r is Ok ==> final(self).sessions() == session_overwritten(
                old(self).sessions(),
                session.cleared(),
            ),
            r matches Err(e) ==> e is Harness && final(self).sessions() == old(self).sessions(),
    {
        let cleared = Session { refresh_token: None, access_token: None, ..session };
        match self.harness.update(&cleared) {
            Ok(()) => Ok(()),
            Err(e) => Err(TokenManagerError::Harness(e)),
        }
    }

    /// Ends the session: deletes both its tokens where the harness manages
    /// to, then stores it with both ids gone. A session already invalidated
    /// is left alone.
    pub fn invalidate_session(&mut self, session: Session) -> (r: Result<(), TokenManagerError>)
        ensures
            final(self).same_settings(old(self)),
            old(self).wf() ==> final(self).wf(),
            session.is_invalidated() ==> r is Ok && final(self).sessions() == old(self).sessions()
                && final(self).tokens() == old(self).tokens(),
            r is Ok && !session.is_invalidated() ==> final(self).sessions() == session_overwritten(
                old(self).sessions(),
                session.cleared(),
            ),
            r matches Err(e) ==> e is Harness && final(self).sessions() == old(self).sessions(),
            match session.refresh_token {
                Some(id) => final(self).refresh_tokens() == old(self).refresh_tokens()
                    || final(self).refresh_tokens() == old(self).refresh_tokens().remove(id),
                None => final(self).refresh_tokens() == old(self).refresh_tokens(),
            },
            match session.access_token {
                Some(id) => final(self).access_tokens() == old(self).access_tokens()
                    || final(self).access_tokens() == old(self).access_tokens().remove(id),
                None => final(self).access_tokens() == old(self).access_tokens(),
            },
    {
        if session.refresh_token.is_none() && session.access_token.is_none() {
            return Ok(());
        }
        // deletes are best effort: the session is invalidated regardless
        if let Some(token_id) = session.refresh_token {
            let _ = self.token_manager.delete_resfresh_token(token_id);
        }
        if let Some(token_id) = session.access_token {
            let _ = self.token_manager.delete_access_token(token_id);
        }
        self.set_token_ids_none(session)
    }

    /// Deletes only the session's access token and stores the session
    /// without it; the refresh lineage stays.
    pub fn invalidate_access_token(&mut self, session: Session) -> (r: Result<(), TokenManagerError>)
        ensures
            final(self).same_settings(old(self)),
            old(self).wf() ==> final(self).wf(),
            final(self).refresh_tokens() == old(self).refresh_tokens(),
            session.access_token is None ==> r is Ok && final(self).sessions() == old(self).sessions()
                && final(self).access_tokens() == old(self).access_tokens(),
            r is Ok && session.access_token is Some ==> final(self).access_tokens() == old(
                self,
            ).access_tokens().remove(session.access_token->Some_0) && final(self).sessions()
                == session_overwritten(
                old(self).sessions(),
                Session { access_token: None, ..session },
            ),
            r matches Err(e) ==> e is Harness && final(self).sessions() == old(self).sessions(),
    {
        match session.access_token {
            Some(token_id) => {
                if let Err(e) = self.token_manager.delete_access_token(token_id) {
                    return Err(TokenManagerError::Harness(e));
                }
                let updated = Session { access_token: None, ..session };
                match self.harness.update(&updated) {
                    Ok(()) => Ok(()),
                    Err(e) => Err(TokenManagerError::Harness(e)),
                }
            },
            None => Ok(()),
        }
    }

    /// `post` is `pre` after `create_new_refresh_token_at(session, user_id,
    /// presented, now)` returned `r`.
    pub open spec fn refresh_rotated(
        pre: &Self,
        post: &Self,
        session: Session,
        user_id: i64,
        presented: Seq<char>,
        now: i64,
        r: Result<(String, String), TokenManagerError>,
    ) -> bool {
        let unchanged = post.sessions() == pre.sessions() && post.refresh_tokens()
            == pre.refresh_tokens() && post.access_tokens() == pre.access_tokens();
        &&& post.same_settings(pre)
        &&& match session.refresh_token {
            None => r == Err::<(String, String), _>(token_err(AuthTokenErrorKind::NotAuthorized))
                && unchanged,
            Some(rid) => (r is Err && r->Err_0 is Harness && unchanged) || if !pre.refresh_tokens().contains_key(rid) {
                &&& r == Err::<(String, String), _>(token_err(AuthTokenErrorKind::NotAuthorized))
                    || (r is Err && r->Err_0 is Harness)
                &&& unchanged
            } else {
                let t = pre.refresh_tokens()[rid];
                match token_check(t@, user_id, presented, now) {
                    Some(k) => if k == AuthTokenErrorKind::Expired || k
                        == AuthTokenErrorKind::Invalid {
                        // replay or theft: the whole session goes
                        &&& post.refresh_tokens() == pre.refresh_tokens()
                        &&& post.access_tokens() == pre.access_tokens()
                        &&& (r == Err::<(String, String), _>(
                            token_err(AuthTokenErrorKind::NotAuthorized),
                        ) && post.sessions() == session_overwritten(
                            pre.sessions(),
                            session.cleared(),
                        )) || (r is Err && r->Err_0 is Harness && post.sessions()
                            == pre.sessions())
                    } else {
                        r == Err::<(String, String), _>(token_err(k)) && unchanged
                    },
                    None => if !pre.tokens().hasher_of().accepts(presented, t@.secret_hash()) {
                        &&& r is Err && r->Err_0 is AuthToken
                        &&& r->Err_0->AuthToken_0.kind == AuthTokenErrorKind::NotAuthorized
                            || r->Err_0->AuthToken_0.kind == AuthTokenErrorKind::InvalidFormat
                        &&& unchanged
                    } else {
                        &&& r is Err ==> post.sessions() == pre.sessions()
                        &&& r matches Ok((refresh, access)) ==> Self::rotated(
                            pre,
                            post,
                            session,
                            rid,
                            user_id,
                            refresh@,
                            access@,
                            now,
                        )
                    },
                }
            },
        }
    }

    /// What a successful rotation leaves: the presented refresh token `rid`
    /// kept but revoked, and the session pointing at a fresh pair of tokens.
    pub open spec fn rotated(
        pre: &Self,
        post: &Self,
        session: Session,
        rid: i64,
        user_id: i64,
        refresh: Seq<char>,
        access: Seq<char>,
        now: i64,
    ) -> bool {
        &&& post.refresh_tokens().contains_key(rid)
        &&& post.refresh_tokens()[rid]@ == (AuthTokenView {
            valid: false,
            ..pre.refresh_tokens()[rid]@
        })
        &&& exists|nr: i64, na: i64|
            {
                &&& !pre.refresh_tokens().contains_key(nr)
                &&& post.refresh_tokens().contains_key(nr)
                &&& fresh_refresh(
                    #[trigger] post.refresh_tokens()[nr]@,
                    user_id,
                    refresh,
                    expiry_of(now, pre.ttl_of()),
                    pre.tokens().hasher_of(),
                )
                &&& post.access_tokens().contains_key(na)
                &&& fresh_access(
                    #[trigger] post.access_tokens()[na]@,
                    user_id,
                    access,
                    expiry_of(now, pre.tokens().ttl_of()),
                )
                &&& post.sessions() == session_overwritten(
                    pre.sessions(),
                    Session { refresh_token: Some(nr), access_token: Some(na), ..session },
                )
            }
    }

    /// Rotates the session's refresh token, now: see `create_new_refresh_token_at`.
    pub fn create_new_refresh_token(&mut self, session: Session, user_id: i64, user_token_atmpt: &str) -> (r:
        Result<(String, String), TokenManagerError>)
        requires
            old(self).wf(),
        ensures
            final(self).wf(),
            exists|now: i64|
                Self::refresh_rotated(
                    old(self),
                    final(self),
                    session,
                    user_id,
                    user_token_atmpt@,
                    now,
                    r,
                ),
    {
        let now = now_timestamp();
        self.create_new_refresh_token_at(session, user_id, user_token_atmpt, now)
    }

    /// Rotates the session's refresh token at `now`, given the refresh secret
    /// `user_token_atmpt` presented by `user_id`. On success the presented
    /// token is revoked and a fresh refresh and access token replace the
    /// session's; their secrets are returned. A refresh token that is
    /// expired or revoked is taken for a replayed secret: the session is
    /// stored with both ids gone and the answer is `NotAuthorized`.
    pub fn create_new_refresh_token_at(
        &mut self,
        session: Session,
        user_id: i64,
        user_token_atmpt: &str,
        now: i64,
    ) -> (r: Result<(String, String), TokenManagerError>)
        requires
            old(self).wf(),
        ensures
            final(self).wf(),
            Self::refresh_rotated(old(self), final(self), session, user_id, user_token_atmpt@, now, r),
    {
        let token_id = match session.refresh_token {
            Some(id) => id,
            None => {
                return Err(
                    TokenManagerError::AuthToken(AuthTokenError::new(AuthTokenErrorKind::NotAuthorized)),
                );
            },
        };
        let stored = match self.token_manager.get_refresh_token(token_id) {
            Ok(Some(t)) => t,
            Ok(None) => {
                return Err(
                    TokenManagerError::AuthToken(AuthTokenError::new(AuthTokenErrorKind::NotAuthorized)),
                );
            },
            Err(e) => return Err(TokenManagerError::Harness(e)),
        };
        if let Err(e) = self.token_manager.verify_token_at(stored.duplicate(), user_id, user_token_atmpt, now) {
            match e.kind {
                AuthTokenErrorKind::Expired | AuthTokenErrorKind::Invalid => {
                    self.set_token_ids_none(session)?;
                    return Err(
                        TokenManagerError::AuthToken(AuthTokenError::new(AuthTokenErrorKind::NotAuthorized)),
                    );
                },
                _ => return Err(TokenManagerError::AuthToken(e)),
            }
        }
        let (refresh_token, refresh_secret) = self.token_manager.next_token_at(
            user_id,
            TokenTtl::Refresh(self.ttl),
            now,
        )?;
        let (access_token, access_secret) = self.token_manager.next_token_at(
            user_id,
            TokenTtl::Access,
            now,
        )?;
        // the superseded token stays, revoked, so that presenting it again is caught
        if let Err(e) = self.token_manager.invalidate_token(stored) {
            return Err(TokenManagerError::Harness(e));
        }
        proof {
            AuthToken::lemma_invalidated_view(stored);
        }
        // the old access token goes too, where the harness manages to
        if let Some(old_access) = session.access_token {
            if old_access != access_token.id() {
                let _ = self.token_manager.delete_access_token(old_access);
            }
        }
        let updated = Session {
            refresh_token: Some(refresh_token.id()),
            access_token: Some(access_token.id()),
            ..session
        };
        match self.harness.update(&updated) {
            Ok(()) => {
                assert(fresh_refresh(
                    self.refresh_tokens()[refresh_token@.id]@,
                    user_id,
                    refresh_secret@,
                    expiry_of(now, old(self).ttl_of()),
                    old(self).tokens().hasher_of(),
                ));
                assert(fresh_access(
                    self.access_tokens()[access_token@.id]@,
                    user_id,
                    access_secret@,
                    expiry_of(now, old(self).tokens().ttl_of()),
                ));
                Ok((refresh_secret, access_secret))
            },
            Err(e) => Err(TokenManagerError::Harness(e)),
        }
    }

    /// Presenting a refresh secret again after it was rotated away ends the
    /// session. The second attempt fails; unless the harness failed, it
    /// fails `NotAuthorized` and the stored session has both ids gone.
    pub proof fn lemma_replayed_refresh_secret_ends_session(
        s0: Self,
        s1: Self,
        s2: Self,
        session: Session,
        user_id: i64,
        secret: Seq<char>,
        now1: i64,
        now2: i64,
        r1: Result<(String, String), TokenManagerError>,
        r2: Result<(String, String), TokenManagerError>,
    )
        requires
            Self::refresh_rotated(&s0, &s1, session, user_id, secret, now1, r1),
            r1 is Ok,
            Self::refresh_rotated(&s1, &s2, session, user_id, secret, now2, r2),
        ensures
            r2 is Err,
            !(r2->Err_0 is Harness) ==> r2 == Err::<(String, String), _>(
                token_err(AuthTokenErrorKind::NotAuthorized),
            ) && s2.sessions() == session_overwritten(s1.sessions(), session.cleared()),
            s2.refresh_tokens() == s1.refresh_tokens(),
            s2.refresh_tokens()[session.refresh_token->Some_0]@.user_id == user_id,
            !s2.refresh_tokens()[session.refresh_token->Some_0]@.valid,
    {
    }

    /// Once a replay ended a session, it stays ended: a later rotation with
    /// the stale session, or with the one now stored, fails whatever secret
    /// is presented, and unless the harness failed it fails `NotAuthorized`.
    pub proof fn lemma_ended_session_stays_ended(
        s0: Self,
        s1: Self,
        s2: Self,
        s3: Self,
        session: Session,
        user_id: i64,
        secret: Seq<char>,
        now1: i64,
        now2: i64,
        r1: Result<(String, String), TokenManagerError>,
        r2: Result<(String, String), TokenManagerError>,
        attempt: Session,
        presented: Seq<char>,
        now3: i64,
        r3: Result<(String, String), TokenManagerError>,
    )
        requires
            Self::refresh_rotated(&s0, &s1, session, user_id, secret, now1, r1),
            r1 is Ok,
            Self::refresh_rotated(&s1, &s2, session, user_id, secret, now2, r2),
            !(r2->Err_0 is Harness),
            attempt == session || (s2.sessions().contains_key(session.id) && attempt
                == s2.sessions()[session.id]),
            Self::refresh_rotated(&s2, &s3, attempt, user_id, presented, now3, r3),
        ensures
            r3 is Err,
            !(r3->Err_0 is Harness) ==> r3 == Err::<(String, String), _>(
                token_err(AuthTokenErrorKind::NotAuthorized),
            ),
    {
        Self::lemma_replayed_refresh_secret_ends_session(
            s0,
            s1,
            s2,
            session,
            user_id,
            secret,
            now1,
            now2,
            r1,
            r2,
        );
    }

    /// Issuing an access token twice leaves only the second usable: the
    /// first is gone, so checking its secret fails `NotAuthorized`, while the
    /// second's secret passes until it expires (where the generator drew two
    /// different ids).
    pub proof fn lemma_second_access_token_supersedes_first(
        s0: Self,
        s1: Self,
        s2: Self,
        sess0: Session,
        sess1: Session,
        sess2: Session,
        user_id: i64,
        now1: i64,
        now2: i64,
        r1: Result<String, TokenManagerError>,
        r2: Result<String, TokenManagerError>,
        now: i64,
        post1: AuthTokenManager<T, H, X>,
        v1: Result<(), TokenManagerError>,
        post2: AuthTokenManager<T, H, X>,
        v2: Result<(), TokenManagerError>,
    )
        requires
            Self::access_issued(&s0, &s1, sess0, sess1, user_id, now1, r1),
            r1 is Ok,
            Self::access_issued(&s1, &s2, sess1, sess2, user_id, now2, r2),
            r2 is Ok,
            sess2.access_token != sess1.access_token,
            AuthTokenManager::lookup_verified(
                &s2.tokens(),
                &post1,
                s2.access_tokens(),
                sess1.access_token->Some_0,
                user_id,
                r1->Ok_0@,
                now,
                v1,
            ),
            AuthTokenManager::lookup_verified(
                &s2.tokens(),
                &post2,
                s2.access_tokens(),
                sess2.access_token->Some_0,
                user_id,
                r2->Ok_0@,
                now,
                v2,
            ),
        ensures
            !s2.access_tokens().contains_key(sess1.access_token->Some_0),
            !(v1 is Err && v1->Err_0 is Harness) ==> v1 == Err::<(), _>(
                token_err(AuthTokenErrorKind::NotAuthorized),
            ),
            now <= expiry_of(now2, s1.tokens().ttl_of()) && !(v2 is Err && v2->Err_0 is Harness)
                ==> v2 is Ok,
    {
    }
}

} // verus!
