//! Audio-reactive particle field: a reactive value-propagation engine that
//! keeps derived render buffers in step with its state, and the spectrum-driven
//! rule that updates every particle's size and vertical drift each frame.
//!
//! All coordinates, sizes and times are fixed-point numbers with six decimal
//! places, stored in `i64` units of one millionth (`units::ONE` is 1.0).

pub mod engine;
pub mod error;
pub mod particle;
mod rng;
pub mod units;
pub mod update;

pub use engine::{Constrainer, EllipseDescriptor, FieldChanges, ParticleBuffer, ResolutionBuffer};
pub use error::Error;
pub use particle::Particle;
pub use units::ONE;
pub use update::SpectrumEntry;
