//! Fresh pseudo-random identifiers for mesh elements.

use vstd::prelude::*;

verus! {

/// Relies on `rand::random`, which draws from the thread-local generator:
/// a pseudo-random 32-bit identifier. Nothing is promised of the value;
/// every caller must hold for any result.
#[verifier::external_body]
pub(crate) fn random_u32() -> u32 {
    rand::random::<u32>()
}

} // verus!
