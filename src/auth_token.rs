//! Minting and checking single tokens. Times are whole seconds since the
//! Unix epoch; lifetimes are given in minutes.

use crate::clock::now_timestamp;
use crate::harness::{overwritten, DbHarnessToken, HarnessError};
use crate::hash::{default_rng_token_fn, CredentialHasher, ScryptHasher};
use crate::id::{DefaultIdGenerator, IdGenerator};
use vstd::prelude::*;

verus! {

/// What a token holds: the hash of a refresh secret, or an access secret itself.
#[derive(Debug, Clone)]
pub enum TokenType {
    Refresh { secret: String },
    Access { token: String },
}

pub ghost enum TokenKind {
    Refresh { secret: Seq<char> },
    Access { token: Seq<char> },
}

impl View for TokenType {
    type V = TokenKind;

    open spec fn view(&self) -> TokenKind {
        match self {
            TokenType::Refresh { secret } => TokenKind::Refresh { secret: secret@ },
            TokenType::Access { token } => TokenKind::Access { token: token@ },
        }
    }
}

impl TokenType {
    /// A copy of this value.
    pub fn duplicate(&self) -> (r: Self)
        ensures
            r == *self,
    {
        match self {
            TokenType::Refresh { secret } => TokenType::Refresh { secret: secret.clone() },
            TokenType::Access { token } => TokenType::Access { token: token.clone() },
        }
    }
}

/// The lifetime of a token to mint: a refresh token's in minutes, or the
/// manager's configured access lifetime.
#[derive(Debug, Clone, Copy)]
pub enum TokenTtl {
    Refresh(i64),
    Access,
}

/// The lifetime in minutes that `ttl` selects, where access tokens live
/// `access_ttl` minutes.
pub open spec fn ttl_minutes(ttl: TokenTtl, access_ttl: i64) -> i64 {
    match ttl {
        TokenTtl::Refresh(m) => m,
        TokenTtl::Access => access_ttl,
    }
}

/// Why a token was refused or could not be made.
#[derive(Debug, Clone, Copy, PartialEq, Eq, Structural)]
pub enum AuthTokenErrorKind {
    Expired,
    Invalid,
    NotAuthorized,
    DateTime,
    Create,
    InvalidFormat,
}

impl AuthTokenErrorKind {
    /// A description of the failure for logs and messages.
    pub fn message(&self) -> (r: &'static str)
        ensures
            r@ == match *self {
                AuthTokenErrorKind::Expired => "Expired"@,
                AuthTokenErrorKind::Invalid => "Invalid"@,
                AuthTokenErrorKind::NotAuthorized => "Not Authorized"@,
                AuthTokenErrorKind::DateTime => "Error in token DateTime expiration check"@,
                AuthTokenErrorKind::Create => "Could not generate token."@,
                AuthTokenErrorKind::InvalidFormat => "Token stored in invalid format."@,
            },
    {
        match self {
            AuthTokenErrorKind::Expired => "Expired",
            AuthTokenErrorKind::Invalid => "Invalid",
            AuthTokenErrorKind::NotAuthorized => "Not Authorized",
            AuthTokenErrorKind::DateTime => "Error in token DateTime expiration check",
            AuthTokenErrorKind::Create => "Could not generate token.",
            AuthTokenErrorKind::InvalidFormat => "Token stored in invalid format.",
        }
    }
}

#[derive(Debug, Clone, Copy, PartialEq, Eq, Structural)]
pub struct AuthTokenError {
    pub kind: AuthTokenErrorKind,
}

impl AuthTokenError {
    pub fn new(kind: AuthTokenErrorKind) -> (r: Self)
        ensures
            r.kind == kind,
    {
        AuthTokenError { kind }
    }
}

/// A failure of the token engine: in the harness, or of a token itself.
#[derive(Debug, Clone)]
pub enum TokenManagerError {
    Harness(HarnessError),
    AuthToken(AuthTokenError),
}

/// The token error of kind `kind`.
pub open spec fn token_err(kind: AuthTokenErrorKind) -> TokenManagerError {
    TokenManagerError::AuthToken(AuthTokenError { kind })
}

pub ghost struct AuthTokenView {
    pub id: i64,
    pub user_id: i64,
    pub kind: TokenKind,
    pub expires: i64,
    pub valid: bool,
}

impl AuthTokenView {
    pub open spec fn is_refresh(self) -> bool {
        self.kind is Refresh
    }

    /// The stored hash of a refresh token.
    pub open spec fn secret_hash(self) -> Seq<char> {
        match self.kind {
            TokenKind::Refresh { secret } => secret,
            TokenKind::Access { .. } => Seq::empty(),
        }
    }

    pub open spec fn is_expired(self, now: i64) -> bool {
        now > self.expires
    }

    pub open spec fn is_usable(self, now: i64) -> bool {
        self.valid && now <= self.expires
    }
}

/// One issued credential.
#[derive(Debug, Clone)]
pub struct AuthToken {
    id: i64,
    user_id: i64,
    token_type: TokenType,
    expires: i64,
    valid: bool,
}

impl View for AuthToken {
    type V = AuthTokenView;

    closed spec fn view(&self) -> AuthTokenView {
        AuthTokenView {
            id: self.id,
            user_id: self.user_id,
            kind: self.token_type@,
            expires: self.expires,
            valid: self.valid,
        }
    }
}

/// `now` plus `ttl` minutes.
pub open spec fn expiry_of(now: i64, ttl: i64) -> int {
    now + 60 * ttl
}

pub open spec fn fits_i64(x: int) -> bool {
    i64::MIN <= x <= i64::MAX
}

/// The expiry of a token minted at `now` that lives `ttl` minutes; an error
/// of kind `DateTime` where that instant cannot be represented.
fn get_token_expiry(now: i64, ttl: i64) -> (r: Result<i64, AuthTokenError>)
    ensures
        r is Ok <==> fits_i64(expiry_of(now, ttl)),
        r matches Ok(e) ==> e == expiry_of(now, ttl),
        r matches Err(e) ==> e.kind == AuthTokenErrorKind::DateTime,
{
    let expires: i128 = now as i128 + 60 * (ttl as i128);
    if expires < i64::MIN as i128 || expires > i64::MAX as i128 {
        Err(AuthTokenError::new(AuthTokenErrorKind::DateTime))
    } else {
        Ok(expires as i64)
    }
}

impl AuthToken {
    /// A valid token minted now, living `ttl` minutes.
    pub fn new(id: i64, user_id: i64, token_type: TokenType, ttl: i64) -> (r: Result<
        Self,
        AuthTokenError,
    >)
        ensures
            exists|now: i64|
                {
                    &&& r is Ok <==> fits_i64(expiry_of(now, ttl))
                    &&& r matches Ok(t) ==> t@ == (AuthTokenView {
                        id,
                        user_id,
                        kind: token_type@,
                        expires: expiry_of(now, ttl) as i64,
                        valid: true,
                    })
                },
            r matches Err(e) ==> e.kind == AuthTokenErrorKind::DateTime,
    {
        AuthToken::new_at(id, user_id, token_type, ttl, now_timestamp())
    }

    /// A valid token minted at `now`, living `ttl` minutes.
    pub fn new_at(id: i64, user_id: i64, token_type: TokenType, ttl: i64, now: i64) -> (r: Result<
        Self,
        AuthTokenError,
    >)
        ensures
            r is Ok <==> fits_i64(expiry_of(now, ttl)),
            r matches Ok(t) ==> t@ == (AuthTokenView {
                id,
                user_id,
                kind: token_type@,
                expires: expiry_of(now, ttl) as i64,
                valid: true,
            }),
            r matches Err(e) ==> e.kind == AuthTokenErrorKind::DateTime,
    {
        let expires = get_token_expiry(now, ttl)?;
        Ok(AuthToken { id, user_id, token_type, expires, valid: true })
    }

    pub fn from_values(id: i64, user_id: i64, token_type: TokenType, expires: i64, valid: bool) -> (r:
        Self)
        ensures
            r@ == (AuthTokenView { id, user_id, kind: token_type@, expires, valid }),
    {
        AuthToken { id, user_id, token_type, expires, valid }
    }

    /// A copy of this token.
    pub fn duplicate(&self) -> (r: Self)
        ensures
            r == *self,
    {
        AuthToken {
            id: self.id,
            user_id: self.user_id,
            token_type: self.token_type.duplicate(),
            expires: self.expires,
            valid: self.valid,
        }
    }

    pub fn valid(&self) -> (r: bool)
        ensures
            r == self@.valid,
    {
        self.valid
    }

    pub fn id(&self) -> (r: i64)
        ensures
            r == self@.id,
    {
        self.id
    }

    pub fn user_id(&self) -> (r: i64)
        ensures
            r == self@.user_id,
    {
        self.user_id
    }

    pub fn expires(&self) -> (r: i64)
        ensures
            r == self@.expires,
    {
        self.expires
    }

    pub fn token_type(&self) -> (r: TokenType)
        ensures
            r@ == self@.kind,
    {
        self.token_type.duplicate()
    }

    /// Whether the token is past its expiry at `now`.
    pub fn is_expired_at(&self, now: i64) -> (r: bool)
        ensures
            r == self@.is_expired(now),
    {
        now > self.expires
    }

    /// Whether the token is past its expiry now.
    pub fn is_expired(&self) -> (r: bool)
        ensures
            exists|now: i64| r == self@.is_expired(now),
            self@.expires == i64::MAX ==> !r,
    {
        self.is_expired_at(now_timestamp())
    }

    /// Whether the token may be used at `now`: valid and not past its expiry.
    pub fn is_usable_at(&self, now: i64) -> (r: bool)
        ensures
            r == (self@.valid && now <= self@.expires),
    {
        self.valid && now <= self.expires
    }

    /// Whether the token may be used now.
    pub fn is_usable(&self) -> (r: bool)
        ensures
            exists|now: i64| r == self@.is_usable(now),
            !self@.valid ==> !r,
    {
        let now = now_timestamp();
        let r = self.is_usable_at(now);
        assert(r == self@.is_usable(now));
        r
    }

    /// `t` marked invalid.
    pub closed spec fn invalidated(t: AuthToken) -> AuthToken {
        AuthToken { valid: false, ..t }
    }

    /// What `invalidated` keeps and changes.
    pub proof fn lemma_invalidated_view(t: AuthToken)
        ensures
            Self::invalidated(t)@ == (AuthTokenView { valid: false, ..t@ }),
    {
    }

    /// Marks the token invalid, keeping everything else.
    pub fn invalidate(&mut self)
        ensures
            final(self)@ == (AuthTokenView { valid: false, ..old(self)@ }),
            *final(self) == AuthToken::invalidated(*old(self)),
    {
        self.valid = false;
    }
}

/// The first check of `verify` that refuses `presented` for `t` at `now`,
/// short of a refresh token's hash comparison; `None` where all pass.
pub open spec fn token_check(t: AuthTokenView, user_id: i64, presented: Seq<char>, now: i64) -> Option<
    AuthTokenErrorKind,
> {
    if user_id != t.user_id {
        Some(AuthTokenErrorKind::NotAuthorized)
    } else if !t.valid {
        Some(AuthTokenErrorKind::Invalid)
    } else {
        match t.kind {
            TokenKind::Access { token } => if token != presented {
                Some(AuthTokenErrorKind::NotAuthorized)
            } else if t.is_expired(now) {
                Some(AuthTokenErrorKind::Expired)
            } else {
                None
            },
            TokenKind::Refresh { .. } => if t.is_expired(now) {
                Some(AuthTokenErrorKind::Expired)
            } else {
                None
            },
        }
    }
}

/// Every token in `table` is stored under its own id, and is a refresh
/// token exactly where `refresh` holds.
pub open spec fn keyed(table: Map<i64, AuthToken>, refresh: bool) -> bool {
    forall|id: i64| #[trigger]
        table.contains_key(id) ==> table[id]@.id == id && table[id]@.is_refresh() == refresh
}

/// Revoking a usable token, or letting the clock pass its expiry, leaves it
/// unusable.
pub proof fn lemma_usable_needs_valid_and_unexpired(t: AuthTokenView, now: i64, later: i64)
    requires
        now <= later,
    ensures
        t.is_usable(now) == (t.valid && now <= t.expires),
        !(AuthTokenView { valid: false, ..t }).is_usable(now),
        later > t.expires ==> !t.is_usable(later),
        !t.is_usable(now) && t.valid ==> !t.is_usable(later),
{
}

/// The settings shared by every token manager made from it: the access
/// token lifetime in minutes, the identifier source and the hasher.
pub struct AuthTokenManagerConfig<T, H> where T: IdGenerator, H: CredentialHasher {
    ttl: i64,
    id_generator: T,
    hasher: H,
}

impl AuthTokenManagerConfig<DefaultIdGenerator, ScryptHasher> {
    /// Access tokens live 30 minutes; ids come from the OS generator and
    /// secrets are hashed with scrypt's default cost.
    pub fn default() -> (r: Self)
        ensures
            r.ttl_of() == 30,
            r.hasher_of() == (ScryptHasher { log_n: 12, r: 8, p: 1, len: 32 }),
    {
        AuthTokenManagerConfig {
            ttl: 30,
            id_generator: DefaultIdGenerator,
            hasher: ScryptHasher::default(),
        }
    }
}

impl<T, H> AuthTokenManagerConfig<T, H> where T: IdGenerator + Copy, H: CredentialHasher + Copy {
    pub closed spec fn ttl_of(&self) -> i64 {
        self.ttl
    }

    pub closed spec fn hasher_of(&self) -> H {
        self.hasher
    }

    pub fn new(ttl: i64, id_generator: T, hasher: H) -> (r: Self)
        ensures
            r.ttl_of() == ttl,
            r.hasher_of() == hasher,
    {
        AuthTokenManagerConfig { ttl, id_generator, hasher }
    }

    /// A manager with these settings over `harness`.
    pub fn init<V: DbHarnessToken>(&self, harness: V) -> (r: AuthTokenManager<T, H, V>)
        ensures
            r.ttl_of() == self.ttl_of(),
            r.hasher_of() == self.hasher_of(),
            r.refresh_tokens() == harness.refresh_tokens(),
            r.access_tokens() == harness.access_tokens(),
    {
        AuthTokenManager { ttl: self.ttl, id_generator: self.id_generator, hasher: self.hasher, harness }
    }
}

/// Mints, checks, revokes and deletes tokens held in a harness.
pub struct AuthTokenManager<T, H, V> where T: IdGenerator, H: CredentialHasher, V: DbHarnessToken {
    ttl: i64,
    id_generator: T,
    hasher: H,
    harness: V,
}

impl<T, H, V> AuthTokenManager<T, H, V> where T: IdGenerator, H: CredentialHasher, V: DbHarnessToken {
    /// The lifetime of access tokens, in minutes.
    pub closed spec fn ttl_of(&self) -> i64 {
        self.ttl
    }

    pub closed spec fn hasher_of(&self) -> H {
        self.hasher
    }

    pub closed spec fn refresh_tokens(&self) -> Map<i64, AuthToken> {
        self.harness.refresh_tokens()
    }

    pub closed spec fn access_tokens(&self) -> Map<i64, AuthToken> {
        self.harness.access_tokens()
    }

    /// Each table holds its own kind of token, each under its id.
    pub open spec fn wf(&self) -> bool {
        keyed(self.refresh_tokens(), true) && keyed(self.access_tokens(), false)
    }

    /// The settings are those of `other`.
    pub open spec fn same_settings(&self, other: &Self) -> bool {
        self.ttl_of() == other.ttl_of() && self.hasher_of() == other.hasher_of()
    }

    /// `post` is `pre` after `next_token_at(user_id, ttl, now)` returned `r`.
    pub open spec fn minted(
        pre: &Self,
        post: &Self,
        user_id: i64,
        ttl: TokenTtl,
        now: i64,
        r: Result<(AuthToken, String), TokenManagerError>,
    ) -> bool {
        let minutes = ttl_minutes(ttl, pre.ttl_of());
        &&& post.same_settings(pre)
        &&& !fits_i64(expiry_of(now, minutes)) ==> r == Err::<(AuthToken, String), _>(
            token_err(AuthTokenErrorKind::DateTime),
        )
        &&& r matches Err(TokenManagerError::AuthToken(e)) ==> (e.kind
            == AuthTokenErrorKind::DateTime && !fits_i64(expiry_of(now, minutes))) || (e.kind
            == AuthTokenErrorKind::Create && ttl is Refresh)
        &&& r is Err ==> post.refresh_tokens() == pre.refresh_tokens() && post.access_tokens()
            == pre.access_tokens()
        &&& r matches Ok((t, s)) ==> {
            &&& t@.user_id == user_id
            &&& t@.valid
            &&& t@.expires == expiry_of(now, minutes)
            &&& match ttl {
                TokenTtl::Refresh(_) => {
                    &&& t@.is_refresh()
                    &&& pre.hasher_of().produces(s@, t@.secret_hash())
                    &&& s@ != t@.secret_hash()
                    &&& !pre.refresh_tokens().contains_key(t@.id)
                    &&& post.refresh_tokens() == pre.refresh_tokens().insert(t@.id, t)
                    &&& post.access_tokens() == pre.access_tokens()
                },
                TokenTtl::Access => {
                    &&& t@.kind == TokenKind::Access { token: s@ }
                    &&& !pre.access_tokens().contains_key(t@.id)
                    &&& post.access_tokens() == pre.access_tokens().insert(t@.id, t)
                    &&& post.refresh_tokens() == pre.refresh_tokens()
                },
            }
        }
    }

    /// Mints a token for `user_id` now and stores it; returns it with the
    /// secret for the caller (a refresh token stores only the secret's hash).
    pub fn next_token(&mut self, user_id: i64, ttl: TokenTtl) -> (r: Result<
        (AuthToken, String),
        TokenManagerError,
    >)
        ensures
            exists|now: i64| Self::minted(old(self), final(self), user_id, ttl, now, r),
    {
        let now = now_timestamp();
        self.next_token_at(user_id, ttl, now)
    }

    /// Mints a token for `user_id` at `now` and stores it.
    pub fn next_token_at(&mut self, user_id: i64, ttl: TokenTtl, now: i64) -> (r: Result<
        (AuthToken, String),
        TokenManagerError,
    >)
        ensures
            Self::minted(old(self), final(self), user_id, ttl, now, r),
    {
        let id = self.id_generator.new_u64() as i64;
        let secret = default_rng_token_fn();
        let minutes = match ttl {
            TokenTtl::Refresh(m) => m,
            TokenTtl::Access => self.ttl,
        };
        let token_type = match ttl {
            TokenTtl::Refresh(_) => {
                if let Err(e) = get_token_expiry(now, minutes) {
                    return Err(TokenManagerError::AuthToken(e));
                }
                let salt = self.hasher.gen_salt();
                match self.hasher.hash(secret.as_str(), salt.as_str()) {
                    Ok(h) => TokenType::Refresh { secret: h },
                    Err(e) => return Err(TokenManagerError::AuthToken(e)),
                }
            },
            TokenTtl::Access => TokenType::Access { token: secret.clone() },
        };
        let token = match AuthToken::new_at(id, user_id, token_type, minutes, now) {
            Ok(t) => t,
            Err(e) => return Err(TokenManagerError::AuthToken(e)),
        };
        match self.harness.insert(&token) {
            Ok(()) => Ok((token, secret)),
            Err(e) => Err(TokenManagerError::Harness(e)),
        }
    }

    /// `post` is `pre` after `verify_token_at(t, user_id, presented, now)`
    /// returned `r`: the checks of `token_check` in order, then for a refresh
    /// token the hasher's verdict. An expired access token may be deleted.
    pub open spec fn verified(
        pre: &Self,
        post: &Self,
        t: AuthToken,
        user_id: i64,
        presented: Seq<char>,
        now: i64,
        r: Result<(), AuthTokenError>,
    ) -> bool {
        &&& post.same_settings(pre)
        &&& post.refresh_tokens() == pre.refresh_tokens()
        &&& match token_check(t@, user_id, presented, now) {
            Some(k) => r == Err::<(), AuthTokenError>(AuthTokenError { kind: k }),
            None => {
                &&& r is Ok <==> (!t@.is_refresh() || pre.hasher_of().accepts(
                    presented,
                    t@.secret_hash(),
                ))
                &&& r matches Err(e) ==> e.kind == AuthTokenErrorKind::NotAuthorized || e.kind
                    == AuthTokenErrorKind::InvalidFormat
            },
        }
        &&& if token_check(t@, user_id, presented, now) == Some(AuthTokenErrorKind::Expired)
            && !t@.is_refresh() {
            post.access_tokens() == pre.access_tokens() || post.access_tokens()
                == pre.access_tokens().remove(t@.id)
        } else {
            post.access_tokens() == pre.access_tokens()
        }
    }

    /// Checks `presented` against the token `auth_token` held by `user_id`, now.
    pub fn verify_token(&mut self, auth_token: AuthToken, user_id: i64, token_str: &str) -> (r:
        Result<(), AuthTokenError>)
        ensures
            exists|now: i64|
                Self::verified(old(self), final(self), auth_token, user_id, token_str@, now, r),
    {
        let now = now_timestamp();
        self.verify_token_at(auth_token, user_id, token_str, now)
    }

    /// Checks `presented` against the token `auth_token` held by `user_id`,
    /// at `now`. An expired access token is deleted on the way, where the
    /// harness manages to.
    pub fn verify_token_at(&mut self, auth_token: AuthToken, user_id: i64, token_str: &str, now: i64) -> (r:
        Result<(), AuthTokenError>)
        ensures
            Self::verified(old(self), final(self), auth_token, user_id, token_str@, now, r),
    {
        if user_id != auth_token.user_id {
            return Err(AuthTokenError::new(AuthTokenErrorKind::NotAuthorized));
        } else if !auth_token.valid {
            return Err(AuthTokenError::new(AuthTokenErrorKind::Invalid));
        }
        match &auth_token.token_type {
            TokenType::Access { token } => {
                let presented = token_str.to_owned();
                if !(*token == presented) {
                    Err(AuthTokenError::new(AuthTokenErrorKind::NotAuthorized))
                } else if auth_token.is_expired_at(now) {
                    // best effort: a failed delete leaves the row for a later sweep
                    let _ = self.harness.delete_access_token(auth_token.id);
                    Err(AuthTokenError::new(AuthTokenErrorKind::Expired))
                } else {
                    Ok(())
                }
            },
            TokenType::Refresh { secret } => {
                if auth_token.is_expired_at(now) {
                    Err(AuthTokenError::new(AuthTokenErrorKind::Expired))
                } else {
                    self.hasher.verify(token_str, secret.as_str())
                }
            },
        }
    }

    /// `post` is `pre` after checking `presented` against the token with
    /// id `token_id` in `table` gave `r`; a missing token is `NotAuthorized`.
    pub open spec fn stored_verified(
        pre: &Self,
        post: &Self,
        table: Map<i64, AuthToken>,
        token_id: i64,
        user_id: i64,
        presented: Seq<char>,
        now: i64,
        r: Result<(), AuthTokenError>,
    ) -> bool {
        if table.contains_key(token_id) {
            Self::verified(pre, post, table[token_id], user_id, presented, now, r)
        } else {
            &&& r == Err::<(), AuthTokenError>(AuthTokenError { kind: AuthTokenErrorKind::NotAuthorized })
            &&& post.refresh_tokens() == pre.refresh_tokens()
            &&& post.access_tokens() == pre.access_tokens()
            &&& post.same_settings(pre)
        }
    }

    /// `post` is `pre` after checking `presented` against the token with id
    /// `token_id` in `table` returned `r`, or the harness failed.
    pub open spec fn lookup_verified(
        pre: &Self,
        post: &Self,
        table: Map<i64, AuthToken>,
        token_id: i64,
        user_id: i64,
        presented: Seq<char>,
        now: i64,
        r: Result<(), TokenManagerError>,
    ) -> bool {
        match r {
            Err(TokenManagerError::Harness(_)) => {
                &&& post.refresh_tokens() == pre.refresh_tokens()
                &&& post.access_tokens() == pre.access_tokens()
                &&& post.same_settings(pre)
            },
            Err(TokenManagerError::AuthToken(e)) => Self::stored_verified(
                pre,
                post,
                table,
                token_id,
                user_id,
                presented,
                now,
                Err(e),
            ),
            Ok(()) => Self::stored_verified(
                pre,
                post,
                table,
                token_id,
                user_id,
                presented,
                now,
                Ok(()),
            ),
        }
    }

    /// Checks `presented` against the stored refresh token `token_id`, now.
    pub fn trusted_verify_refresh_token(&mut self, token_id: i64, user_id: i64, token_str: &str) -> (r:
        Result<(), TokenManagerError>)
        ensures
            exists|now: i64|
                Self::lookup_verified(
                    old(self),
                    final(self),
                    old(self).refresh_tokens(),
                    token_id,
                    user_id,
                    token_str@,
                    now,
                    r,
                ),
    {
        let now = now_timestamp();
        self.trusted_verify_refresh_token_at(token_id, user_id, token_str, now)
    }

    /// Checks `presented` against the stored refresh token `token_id`, at
    /// `now`; a missing token is `NotAuthorized`.
    pub fn trusted_verify_refresh_token_at(
        &mut self,
        token_id: i64,
        user_id: i64,
        token_str: &str,
        now: i64,
    ) -> (r: Result<(), TokenManagerError>)
        ensures
            Self::lookup_verified(
                    old(self),
                    final(self),
                    old(self).refresh_tokens(),
                    token_id,
                    user_id,
                    token_str@,
                    now,
                    r,
                ),
    {
        match self.harness.read_refresh_token(token_id) {
            Ok(Some(auth_token)) => match self.verify_token_at(auth_token, user_id, token_str, now) {
                Ok(()) => Ok(()),
                Err(e) => Err(TokenManagerError::AuthToken(e)),
            },
            Ok(None) => Err(TokenManagerError::AuthToken(AuthTokenError::new(AuthTokenErrorKind::NotAuthorized))),
            Err(e) => Err(TokenManagerError::Harness(e)),
        }
    }

    /// Checks `presented` against the stored access token `token_id`, now.
    pub fn trusted_verify_access_token(&mut self, token_id: i64, user_id: i64, token_str: &str) -> (r:
        Result<(), TokenManagerError>)
        ensures
            exists|now: i64|
                Self::lookup_verified(
                    old(self),
                    final(self),
                    old(self).access_tokens(),
                    token_id,
                    user_id,
                    token_str@,
                    now,
                    r,
                ),
    {
        let now = now_timestamp();
        self.trusted_verify_access_token_at(token_id, user_id, token_str, now)
    }

    /// Checks `presented` against the stored access token `token_id`, at
    /// `now`; a missing token is `NotAuthorized`.
    pub fn trusted_verify_access_token_at(
        &mut self,
        token_id: i64,
        user_id: i64,
        token_str: &str,
        now: i64,
    ) -> (r: Result<(), TokenManagerError>)
        ensures
            Self::lookup_verified(
                old(self),
                final(self),
                old(self).access_tokens(),
                token_id,
                user_id,
                token_str@,
                now,
                r,
            ),
    {
        match self.harness.read_access_token(token_id) {
            Ok(Some(auth_token)) => match self.verify_token_at(auth_token, user_id, token_str, now) {
                Ok(()) => Ok(()),
                Err(e) => Err(TokenManagerError::AuthToken(e)),
            },
            Ok(None) => Err(TokenManagerError::AuthToken(AuthTokenError::new(AuthTokenErrorKind::NotAuthorized))),
            Err(e) => Err(TokenManagerError::Harness(e)),
        }
    }

    /// Writes `token` over the stored token with its id.
    pub fn update_token(&mut self, token: &AuthToken) -> (r: Result<(), HarnessError>)
        ensures
            final(self).same_settings(old(self)),
            r is Ok && token@.is_refresh() ==> final(self).refresh_tokens() == overwritten(
                old(self).refresh_tokens(),
                *token,
            ) && final(self).access_tokens() == old(self).access_tokens(),
            r is Ok && !token@.is_refresh() ==> final(self).access_tokens() == overwritten(
                old(self).access_tokens(),
                *token,
            ) && final(self).refresh_tokens() == old(self).refresh_tokens(),
            r is Err ==> final(self).refresh_tokens() == old(self).refresh_tokens()
                && final(self).access_tokens() == old(self).access_tokens(),
    {
        self.harness.update(token)
    }

    /// Revokes `token` without deleting it: it is stored again, marked invalid.
    pub fn invalidate_token(&mut self, token: AuthToken) -> (r: Result<(), HarnessError>)
        ensures
            final(self).same_settings(old(self)),
            r is Ok && token@.is_refresh() ==> final(self).refresh_tokens() == overwritten(
                old(self).refresh_tokens(),
                AuthToken::invalidated(token),
            ) && final(self).access_tokens() == old(self).access_tokens(),
            r is Ok && !token@.is_refresh() ==> final(self).access_tokens() == overwritten(
                old(self).access_tokens(),
                AuthToken::invalidated(token),
            ) && final(self).refresh_tokens() == old(self).refresh_tokens(),
            r is Err ==> final(self).refresh_tokens() == old(self).refresh_tokens()
                && final(self).access_tokens() == old(self).access_tokens(),
    {
        let mut token = token;
        token.invalidate();
        self.harness.update(&token)
    }

    pub fn get_access_token(&self, id: i64) -> (r: Result<Option<AuthToken>, HarnessError>)
        ensures
            r matches Ok(found) ==> found == (if self.access_tokens().contains_key(id) {
                Some(self.access_tokens()[id])
            } else {
                None
            }),
    {
        self.harness.read_access_token(id)
    }

    pub fn get_refresh_token(&self, id: i64) -> (r: Result<Option<AuthToken>, HarnessError>)
        ensures
            r matches Ok(found) ==> found == (if self.refresh_tokens().contains_key(id) {
                Some(self.refresh_tokens()[id])
            } else {
                None
            }),
    {
        self.harness.read_refresh_token(id)
    }

    pub fn delete_access_token(&mut self, id: i64) -> (r: Result<(), HarnessError>)
        ensures
            final(self).same_settings(old(self)),
            r is Ok ==> final(self).access_tokens() == old(self).access_tokens().remove(id),
            r is Err ==> final(self).access_tokens() == old(self).access_tokens(),
            final(self).refresh_tokens() == old(self).refresh_tokens(),
    {
        self.harness.delete_access_token(id)
    }

    pub fn delete_resfresh_token(&mut self, id: i64) -> (r: Result<(), HarnessError>)
        ensures
            final(self).same_settings(old(self)),
            r is Ok ==> final(self).refresh_tokens() == old(self).refresh_tokens().remove(id),
            r is Err ==> final(self).refresh_tokens() == old(self).refresh_tokens(),
            final(self).access_tokens() == old(self).access_tokens(),
    {
        self.harness.delete_resfresh_token(id)
    }
}

} // verus!
