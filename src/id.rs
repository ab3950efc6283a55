use scrypt::password_hash::rand_core::RngCore;
use vstd::prelude::*;

verus! {

/// A source of unique random identifiers.
pub trait IdGenerator {
    fn new_u64(&self) -> u64;

    fn new_u128(&self) -> u128;
}

/// Identifiers drawn from the operating system's random number generator.
#[derive(Clone, Copy, Debug)]
pub struct DefaultIdGenerator;

/// Relies on rand_core's OsRng::next_u64: a random value, of which nothing
/// is promised.
#[verifier::external_body]
pub(crate) fn os_random_u64() -> u64 {
    scrypt::password_hash::rand_core::OsRng.next_u64()
}

/// The 128-bit value whose high half is `high` and whose low half is `low`.
pub fn join_halves(high: u64, low: u64) -> (r: u128)
    ensures
        r == high as int * 0x1_0000_0000_0000_0000 + low as int,
{
    (high as u128) * 0x1_0000_0000_0000_0000u128 + (low as u128)
}

impl IdGenerator for DefaultIdGenerator {
    fn new_u64(&self) -> u64 {
        os_random_u64()
    }

    fn new_u128(&self) -> u128 {
        let high = os_random_u64();
        let low = os_random_u64();
        join_halves(high, low)
    }
}

impl DefaultIdGenerator {
    pub fn init() -> (r: Self) {
        DefaultIdGenerator
    }
}

} // verus!
