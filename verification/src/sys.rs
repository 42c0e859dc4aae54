//! Wall clock and randomness, behind trusted wrappers.
//!
//! Nothing is promised of the values themselves: callers state what
//! holds of every outcome.

use vstd::prelude::*;
use rand::Rng;

verus! {

/// Relies on chrono's `Utc::now`: the system clock, as seconds since
/// the epoch. Nothing is promised of the value.
#[verifier::external_body]
pub fn now_utc_sec() -> i64 {
    chrono::Utc::now().timestamp()
}

/// Relies on rand's `thread_rng` and `Rng::gen`: a fresh random nonce.
/// Nothing is promised of the value.
#[verifier::external_body]
pub fn random_nonce() -> u64 {
    rand::thread_rng().gen()
}

/// Relies on rand's `thread_rng` and `Rng::fill`: 32 fresh random
/// bytes. Only the length is promised.
#[verifier::external_body]
pub fn random_seed() -> (r: Vec<u8>)
    ensures
        r@.len() == 32,
{
    let mut bytes = [0u8; 32];
    rand::thread_rng().fill(&mut bytes);
    bytes.to_vec()
}

} // verus!
