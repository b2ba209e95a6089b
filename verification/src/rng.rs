//! Trusted boundary around the process-global randomness source used to seed
//! a fresh grid.

use vstd::prelude::*;

verus! {

/// Relies on `rand::random::<bool>`: draws one boolean, each value with
/// probability one half. Nothing can be promised of the value, so the
/// callers hold for every outcome.
#[verifier::external_body]
pub(crate) fn random_cell() -> bool {
    rand::random::<bool>()
}

} // verus!
