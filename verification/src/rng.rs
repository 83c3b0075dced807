//! The one randomness source of the crate: a uniform draw from [0.0, 1.0)
//! in fixed-point units, used to seed a particle's vertical position and
//! color at construction.

use vstd::prelude::*;
use crate::units::ONE;

verus! {

/// Relies on rand's `Rng::gen_range`: a draw from the half-open range
/// `0..ONE` lies in that range; the range is a non-empty constant, so the
/// call does not panic. Nothing is assumed about the distribution.
#[verifier::external_body]
pub(crate) fn random_unit() -> (r: i64)
    ensures
        0 <= r < ONE,
{
    rand::Rng::gen_range(&mut rand::thread_rng(), 0..ONE)
}

} // verus!
