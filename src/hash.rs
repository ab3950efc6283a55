use crate::auth_token::{AuthTokenError, AuthTokenErrorKind};
use crate::id::{join_halves, os_random_u64};
use scrypt::password_hash::{
    rand_core::OsRng, Encoding, PasswordHash, PasswordHasher, PasswordVerifier, SaltString,
};
use vstd::prelude::*;

verus! {

/// The PHC string that scrypt, with cost `log_n`, block size `r`,
/// parallelism `p` and output length `len`, gives for `secret` under the
/// base64 salt `salt`; `None` where the salt or the parameters are refused.
pub uninterp spec fn scrypt_phc(
    secret: Seq<char>,
    salt: Seq<char>,
    log_n: u8,
    r: u32,
    p: u32,
    len: usize,
) -> Option<Seq<char>>;

/// What verifying `secret` against the stored string `phc` gives: `None`
/// where `phc` is no PHC string, else whether the secret matches it.
pub uninterp spec fn scrypt_verdict(secret: Seq<char>, phc: Seq<char>) -> Option<bool>;

/// `phc` is a PHC string that scrypt gave for `secret`, under some salt and
/// some parameters.
pub open spec fn scrypt_hashed(secret: Seq<char>, phc: Seq<char>) -> bool {
    exists|salt: Seq<char>, log_n: u8, r: u32, p: u32, len: usize|
        #[trigger] scrypt_phc(secret, salt, log_n, r, p, len) == Some(phc)
}

/// `phc` is a PHC string that scrypt gave for some secret.
pub open spec fn scrypt_output(phc: Seq<char>) -> bool {
    exists|secret: Seq<char>, salt: Seq<char>, log_n: u8, r: u32, p: u32, len: usize|
        #[trigger] scrypt_phc(secret, salt, log_n, r, p, len) == Some(phc)
}

/// Relies on scrypt's SaltString::generate and OsRng: a random salt of the
/// recommended length, as a base64 string. Nothing is promised of its value.
#[verifier::external_body]
pub fn default_rng_salt_fn() -> String {
    SaltString::generate(OsRng).to_string()
}

/// A random bearer secret: 128 random bits written in decimal.
pub fn default_rng_token_fn() -> (r: String) {
    let high = os_random_u64();
    let low = os_random_u64();
    join_halves(high, low).to_string()
}

/// Relies on SaltString::from_b64, scrypt::Params::new and
/// Scrypt::hash_password_customized: the PHC string of `secret` under `salt`
/// and the given parameters, or `None` where one of them is refused.
#[verifier::external_body]
fn scrypt_hash_phc(secret: &str, salt: &str, log_n: u8, r: u32, p: u32, len: usize) -> (res:
    Option<String>)
    requires
        log_n <= 20,
        r <= 16,
        p <= 16,
    ensures
        match res {
            Some(h) => scrypt_phc(secret@, salt@, log_n, r, p, len) == Some(h@),
            None => scrypt_phc(secret@, salt@, log_n, r, p, len) is None,
        },
{
    let salt = SaltString::from_b64(salt).ok()?;
    let params = scrypt::Params::new(log_n, r, p, len).ok()?;
    scrypt::Scrypt.hash_password_customized(secret.as_bytes(), None, None, params, &salt)
        .ok()
        .map(|h| h.to_string())
}

/// Relies on PasswordHash::parse and Scrypt::verify_password: `None` where
/// `phc` does not parse, else whether `secret` matches it. verify_password
/// hashes `secret` again with the salt and parameters read from `phc` and
/// compares the outputs, so a string that scrypt gave for `secret` matches.
/// A string that scrypt gave, written by PasswordHash's Display, parses
/// whatever secret is presented: parsing does not look at the secret.
#[verifier::external_body]
fn scrypt_check_phc(secret: &str, phc: &str) -> (res: Option<bool>)
    ensures
        res == scrypt_verdict(secret@, phc@),
        scrypt_hashed(secret@, phc@) ==> res == Some(true),
        scrypt_output(phc@) ==> res is Some,
{
    match PasswordHash::parse(phc, Encoding::B64) {
        Ok(hash) => Some(scrypt::Scrypt.verify_password(secret.as_bytes(), &hash).is_ok()),
        Err(_) => None,
    }
}

/// What a hash of `secret` under `salt` with the default parameters comes to.
pub open spec fn default_hash_result(secret: Seq<char>, salt: Seq<char>) -> Result<
    Seq<char>,
    AuthTokenErrorKind,
> {
    match scrypt_phc(secret, salt, 12, 8, 1, 32) {
        Some(h) => Ok(h),
        None => Err(AuthTokenErrorKind::Create),
    }
}

/// What verifying `secret` against the stored hash `phc` comes to.
pub open spec fn verify_result(secret: Seq<char>, phc: Seq<char>) -> Result<(), AuthTokenErrorKind> {
    match scrypt_verdict(secret, phc) {
        Some(true) => Ok(()),
        Some(false) => Err(AuthTokenErrorKind::NotAuthorized),
        None => Err(AuthTokenErrorKind::InvalidFormat),
    }
}

/// Hashes `pwd` under the base64 salt `salt` with scrypt's default cost
/// (log_n 12, r 8, p 1, 32 bytes of output) into a PHC string.
pub fn default_hash_fn(pwd: &str, salt: &str) -> (r: Result<String, AuthTokenError>)
    ensures
        match r {
            Ok(h) => default_hash_result(pwd@, salt@) == Ok::<Seq<char>, AuthTokenErrorKind>(h@),
            Err(e) => default_hash_result(pwd@, salt@) == Err::<Seq<char>, AuthTokenErrorKind>(e.kind),
        },
{
    match scrypt_hash_phc(pwd, salt, 12, 8, 1, 32) {
        Some(h) => Ok(h),
        None => Err(AuthTokenError::new(AuthTokenErrorKind::Create)),
    }
}

/// Verifies `token` against a PHC string; the salt is read from the string.
pub fn default_verify_token_fn(token: &str, hash: &str) -> (r: Result<(), AuthTokenError>)
    ensures
        match r {
            Ok(()) => verify_result(token@, hash@) == Ok::<(), AuthTokenErrorKind>(()),
            Err(e) => verify_result(token@, hash@) == Err::<(), AuthTokenErrorKind>(e.kind),
        },
        scrypt_hashed(token@, hash@) ==> r is Ok,
        scrypt_output(hash@) && r is Err ==> r->Err_0.kind == AuthTokenErrorKind::NotAuthorized,
{
    match scrypt_check_phc(token, hash) {
        Some(true) => Ok(()),
        Some(false) => Err(AuthTokenError::new(AuthTokenErrorKind::NotAuthorized)),
        None => Err(AuthTokenError::new(AuthTokenErrorKind::InvalidFormat)),
    }
}

/// The pluggable hashing of secrets: salts, hashes, and checks of a
/// presented secret against a stored hash.
pub trait CredentialHasher {
    /// `hash` is a stored form that this hasher gave for `secret`.
    spec fn produces(&self, secret: Seq<char>, hash: Seq<char>) -> bool;

    /// This hasher accepts `secret` against the stored `hash`.
    spec fn accepts(&self, secret: Seq<char>, hash: Seq<char>) -> bool;

    /// A hash that this hasher gave for a secret accepts that secret.
    proof fn lemma_produced_is_accepted(&self, secret: Seq<char>, hash: Seq<char>)
        requires
            self.produces(secret, hash),
        ensures
            self.accepts(secret, hash),
    ;

    fn gen_salt(&self) -> String;

    /// A stored form of `secret`, never the secret itself.
    fn hash(&self, secret: &str, salt: &str) -> (r: Result<String, AuthTokenError>)
        ensures
            r matches Ok(h) ==> self.produces(secret@, h@) && h@ != secret@,
            r matches Err(e) ==> e.kind == AuthTokenErrorKind::Create,
    ;

    /// A refused secret is `NotAuthorized`; `InvalidFormat` comes only for a
    /// stored hash that this hasher never produced.
    fn verify(&self, secret: &str, hash: &str) -> (r: Result<(), AuthTokenError>)
        ensures
            r is Ok <==> self.accepts(secret@, hash@),
            r matches Err(e) ==> e.kind == AuthTokenErrorKind::NotAuthorized || e.kind
                == AuthTokenErrorKind::InvalidFormat,
            r is Err && (exists|s: Seq<char>| self.produces(s, hash@)) ==> r->Err_0.kind
                == AuthTokenErrorKind::NotAuthorized,
    ;
}

/// scrypt with its cost parameters: `log_n` (log2 of the work factor), the
/// block size `r`, the parallelism `p` and the output length `len`.
#[derive(Clone, Copy, Debug, PartialEq, Eq, Structural)]
pub struct ScryptHasher {
    pub log_n: u8,
    pub r: u32,
    pub p: u32,
    pub len: usize,
}

impl ScryptHasher {
    /// Parameters whose memory use and running time stay within reach.
    pub open spec fn wf(&self) -> bool {
        self.log_n <= 20 && self.r <= 16 && self.p <= 16
    }

    /// A hasher with the given parameters; `None` where they are out of reach.
    pub fn new(log_n: u8, r: u32, p: u32, len: usize) -> (res: Option<Self>)
        ensures
            res is Some <==> (log_n <= 20 && r <= 16 && p <= 16),
            res matches Some(h) ==> h == (ScryptHasher { log_n, r, p, len }),
    {
        if log_n <= 20 && r <= 16 && p <= 16 {
            Some(ScryptHasher { log_n, r, p, len })
        } else {
            None
        }
    }
}

impl Default for ScryptHasher {
    /// The default cost: log_n 12, r 8, p 1, 32 bytes of output.
    fn default() -> (r: Self)
        ensures
            r == (ScryptHasher { log_n: 12, r: 8, p: 1, len: 32 }),
    {
        ScryptHasher { log_n: 12, r: 8, p: 1, len: 32 }
    }
}

impl CredentialHasher for ScryptHasher {
    open spec fn produces(&self, secret: Seq<char>, hash: Seq<char>) -> bool {
        scrypt_hashed(secret, hash)
    }

    open spec fn accepts(&self, secret: Seq<char>, hash: Seq<char>) -> bool {
        scrypt_verdict(secret, hash) == Some(true) || scrypt_hashed(secret, hash)
    }

    proof fn lemma_produced_is_accepted(&self, secret: Seq<char>, hash: Seq<char>) {
    }

    fn gen_salt(&self) -> String {
        default_rng_salt_fn()
    }

    fn hash(&self, secret: &str, salt: &str) -> (r: Result<String, AuthTokenError>) {
        if self.log_n <= 20 && self.r <= 16 && self.p <= 16 {
            match scrypt_hash_phc(secret, salt, self.log_n, self.r, self.p, self.len) {
                // a hash that spells the secret would store the secret itself
                Some(h) => if h == secret.to_owned() {
                    Err(AuthTokenError::new(AuthTokenErrorKind::Create))
                } else {
                    Ok(h)
                },
                None => Err(AuthTokenError::new(AuthTokenErrorKind::Create)),
            }
        } else {
            Err(AuthTokenError::new(AuthTokenErrorKind::Create))
        }
    }

    fn verify(&self, secret: &str, hash: &str) -> (r: Result<(), AuthTokenError>) {
        let r = default_verify_token_fn(secret, hash);
        proof {
            if exists|s: Seq<char>| self.produces(s, hash@) {
                let s = choose|s: Seq<char>| self.produces(s, hash@);
                assert(scrypt_hashed(s, hash@));
                let (salt, log_n, rr, p, len) = choose|
                    salt: Seq<char>,
                    log_n: u8,
                    rr: u32,
                    p: u32,
                    len: usize,
                | #[trigger] scrypt_phc(s, salt, log_n, rr, p, len) == Some(hash@);
                assert(scrypt_output(hash@));
            }
        }
        r
    }
}

} // verus!
