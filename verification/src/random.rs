//! The source of random bytes.

use rand::Rng;
use vstd::prelude::*;

verus! {

/// One byte from the thread-local generator of the `rand` crate: the call is
/// `rand::thread_rng()` followed by `Rng::gen` at type `u8`. The contract
/// claims nothing of the byte, so callers are proved for every value of it.
#[verifier::external_body]
pub(crate) fn random_byte() -> u8 {
    rand::thread_rng().gen::<u8>()
}

} // verus!
