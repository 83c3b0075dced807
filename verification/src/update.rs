//! The spectrum-driven part of the particle update rule: how one magnitude
//! becomes a diameter (scale, then a soft upper knee, then a boosted lower
//! knee), and how a diameter and the elapsed time become a vertical drift.

use vstd::prelude::*;
use vstd::arithmetic::div_mod::{lemma_div_is_ordered, lemma_div_pos_is_pos};
use crate::particle::Particle;
use crate::units::{wrap_up, ONE};

verus! {

/// One entry of a frequency spectrum: a frequency and the magnitude the
/// transform measured there, both in fixed point. The update rule reads the
/// magnitudes only, one entry per particle in order.
#[derive(Clone, Copy, Debug)]
pub struct SpectrumEntry {
    pub frequency: i64,
    pub magnitude: i64,
}

/// A magnitude is scaled by 1e-4: in fixed point, divided by this.
pub const MAGNITUDE_SCALE: i64 = 10_000;

/// Upper knee threshold, 0.02: diameters above it are soft-compressed.
pub const KNEE_HIGH: i64 = 20_000;

/// Divisor of the upper knee: the excess over the threshold shrinks 50-fold.
pub const KNEE_COMPRESSION: i64 = 50;

/// Lower knee threshold, 0.001: diameters below it are boosted.
pub const KNEE_LOW: i64 = 1_000;

/// Factor of the lower knee: a too-small diameter grows tenfold, then is
/// capped at the threshold.
pub const LOW_BOOST: i64 = 10;

/// Vertical drift per frame is diameter times elapsed time times this.
pub const DRIFT_FACTOR: i64 = 20;

/// Largest accepted magnitude (one million in whole units): anything above
/// is rejected as invalid input, which also keeps the arithmetic in `i64`.
pub const MAX_MAGNITUDE: i64 = 1_000_000_000_000;

/// Largest accepted elapsed time (one hour): anything above is rejected as
/// invalid input, which also keeps the drift arithmetic in `i64`.
pub const MAX_DELTATIME: i64 = 3_600_000_000;

/// Largest diameter the transform can produce: the image of `MAX_MAGNITUDE`
/// under the scale and the upper knee.
pub const DIAMETER_LIMIT: i64 = 2_019_600;

/// A magnitude accepted by the update rule.
pub open spec fn magnitude_ok(m: i64) -> bool {
    0 <= m <= MAX_MAGNITUDE
}

/// An elapsed time accepted by the update rule.
pub open spec fn deltatime_ok(dt: i64) -> bool {
    0 <= dt <= MAX_DELTATIME
}

/// Step 1 of the diameter transform: scale the magnitude by 1e-4.
pub open spec fn raw_diameter(m: int) -> int {
    m / (MAGNITUDE_SCALE as int)
}

/// Steps 2 and 3 of the diameter transform: compress the part above the
/// upper knee 50-fold, then boost a result below the lower knee tenfold and
/// cap it at that threshold. Both thresholds compare strictly, so a value
/// sitting exactly on one passes through unchanged.
pub open spec fn knee_clamped(d: int) -> int {
    let compressed = if d > KNEE_HIGH {
        KNEE_HIGH + (d - KNEE_HIGH) / (KNEE_COMPRESSION as int)
    } else {
        d
    };
    if compressed < KNEE_LOW {
        let boosted = compressed * (LOW_BOOST as int);
        if boosted > KNEE_LOW {
            KNEE_LOW as int
        } else {
            boosted
        }
    } else {
        compressed
    }
}

/// The whole diameter transform, magnitude to diameter.
pub open spec fn diameter_from_magnitude(m: int) -> int {
    knee_clamped(raw_diameter(m))
}

/// How far a particle falls in one frame: diameter times elapsed time times
/// the drift factor, in fixed point.
pub open spec fn drift_amount(d: int, dt: int) -> int {
    (d * dt * (DRIFT_FACTOR as int)) / (ONE as int)
}

/// Executable diameter transform, proved equal to its specification and
/// bounded: a valid magnitude always yields a diameter in
/// [0, `DIAMETER_LIMIT`].
pub fn transform_diameter(m: i64) -> (d: i64)
    requires
        magnitude_ok(m),
    ensures
        d == diameter_from_magnitude(m as int),
        0 <= d <= DIAMETER_LIMIT,
{
    let mut d: i64 = m / MAGNITUDE_SCALE;
    proof {
        lemma_div_pos_is_pos(m as int, MAGNITUDE_SCALE as int);
        lemma_div_is_ordered(m as int, MAX_MAGNITUDE as int, MAGNITUDE_SCALE as int);
    }
    if d > KNEE_HIGH {
        proof {
            lemma_div_pos_is_pos(d - KNEE_HIGH, KNEE_COMPRESSION as int);
            lemma_div_is_ordered(
                d - KNEE_HIGH,
                MAX_MAGNITUDE as int / MAGNITUDE_SCALE as int - KNEE_HIGH,
                KNEE_COMPRESSION as int,
            );
        }
        d = KNEE_HIGH + (d - KNEE_HIGH) / KNEE_COMPRESSION;
    }
    if d < KNEE_LOW {
        d = d * LOW_BOOST;
        if d > KNEE_LOW {
            d = KNEE_LOW;
        }
    }
    d
}

/// In the linear band [0.001, 0.02] the knee chain is the identity: neither
/// knee triggers, because both thresholds compare strictly.
pub proof fn lemma_knee_identity_in_band(d: int)
    requires
        KNEE_LOW <= d <= KNEE_HIGH,
    ensures
        knee_clamped(d) == d,
{
}

/// The diameter transform is idempotent through its clamps: wherever its
/// output lands in the linear band, applying the knee chain to that output
/// gives it back unchanged.
pub proof fn lemma_transform_idempotent_in_band(m: int)
    requires
        KNEE_LOW <= diameter_from_magnitude(m) <= KNEE_HIGH,
    ensures
        knee_clamped(diameter_from_magnitude(m)) == diameter_from_magnitude(m),
{
    lemma_knee_identity_in_band(diameter_from_magnitude(m));
}

/// One step of the particle update rule: the magnitude sets the diameter
/// through the clamp chain, the particle falls by the drift of that new
/// diameter over the elapsed time, and the fall wraps around the vertical
/// range. Position and color stay.
pub open spec fn particle_updated(p0: Particle, m: i64, dt: i64, p1: Particle) -> bool {
    &&& p1.x == p0.x
    &&& p1.r == p0.r
    &&& p1.g == p0.g
    &&& p1.b == p0.b
    &&& p1.diameter == diameter_from_magnitude(m as int)
    &&& p1.y == wrap_up(p0.y - drift_amount(diameter_from_magnitude(m as int), dt as int))
}

/// A drift over a valid diameter and elapsed time is non-negative and small
/// enough that the vertical update stays inside `i64`.
pub proof fn lemma_drift_bounds(d: int, dt: int)
    requires
        0 <= d <= DIAMETER_LIMIT,
        0 <= dt <= MAX_DELTATIME,
    ensures
        0 <= drift_amount(d, dt) <= (DIAMETER_LIMIT as int) * (MAX_DELTATIME as int) * (
        DRIFT_FACTOR as int) / (ONE as int),
{
    vstd::arithmetic::mul::lemma_mul_nonnegative(d, dt);
    vstd::arithmetic::mul::lemma_mul_nonnegative(d * dt, DRIFT_FACTOR as int);
    vstd::arithmetic::mul::lemma_mul_upper_bound(d, DIAMETER_LIMIT as int, dt, MAX_DELTATIME as int);
    vstd::arithmetic::mul::lemma_mul_inequality(
        d * dt,
        (DIAMETER_LIMIT as int) * (MAX_DELTATIME as int),
        DRIFT_FACTOR as int,
    );
    lemma_div_pos_is_pos(d * dt * (DRIFT_FACTOR as int), ONE as int);
    lemma_div_is_ordered(
        d * dt * (DRIFT_FACTOR as int),
        (DIAMETER_LIMIT as int) * (MAX_DELTATIME as int) * (DRIFT_FACTOR as int),
        ONE as int,
    );
}

} // verus!
