//! Input-validation errors. The core never panics: every precondition
//! violation that a caller could commit is rejected with one of these.

use vstd::prelude::*;

verus! {

/// Why a call into the core was rejected.
#[derive(Clone, Copy, Debug, PartialEq, Eq, Structural)]
pub enum Error {
    /// The particle layout needs at least two particles.
    TooFewParticles,
    /// The engine refuses an empty particle array.
    NoParticles,
    /// The spectrum does not hold exactly one magnitude per particle.
    SpectrumLengthMismatch,
    /// A magnitude is negative or too large to process.
    InvalidMagnitude,
    /// The elapsed time is negative or too large to process.
    InvalidDeltatime,
}

} // verus!
