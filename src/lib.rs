//! Credential and session issuance: password hashing, access and refresh
//! tokens bound to sessions, rotation with replay detection, and revocation,
//! all against an abstract persistence harness.

pub mod auth_token;
pub mod clock;
pub mod harness;
pub mod hash;
pub mod id;
pub mod memory;
pub mod session;
pub mod user;
