//! The source of random bytes.

use rand::Rng;
use vstd::prelude::*;

verus! {

/// Draws one byte from the thread-local generator of the `rand` crate, by
/// `rand::thread_rng()` and `Rng::gen`. Nothing is claimed of the byte: two
/// draws may differ, and any value may come back.
#[verifier::external_body]
pub(crate) fn random_byte() -> (byte: u8) {
    rand::thread_rng().gen()
}

} // verus!
