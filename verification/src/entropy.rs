//! The source of random bytes.
use rand::Rng;
use vstd::prelude::*;

verus! {

/// Draws one byte from the `rand` crate: `rand::rng()` gives the
/// thread-local generator and `Rng::random` samples a `u8` from it.
///
/// Trusted, and nothing is claimed of the byte: any of the 256 values may
/// come back, and two calls need not agree.
#[verifier::external_body]
pub(crate) fn random_byte() -> (byte: u8) {
    let mut rng = rand::rng();
    rng.random()
}

} // verus!
