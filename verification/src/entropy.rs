//! The library's one source of randomness.

use vstd::prelude::*;

use rand::Rng;

verus! {

/// Relies on `rand::rng` and `rand::Rng::random`: draws a `u64` from the
/// thread-local generator.  Nothing is assumed of the value drawn; every
/// caller must be correct whatever comes back.
#[verifier::external_body]
pub(crate) fn random_u64() -> u64 {
    rand::rng().random()
}

} // verus!
