//! The particle model: one visual point with a fixed horizontal position and
//! color, and an audio-reactive size and vertical position. Also the startup
//! layout rule that folds the index space into two ramps across the screen.

use vstd::prelude::*;
use vstd::arithmetic::div_mod::{
    lemma_div_is_ordered, lemma_div_multiples_vanish, lemma_div_pos_is_pos,
    lemma_fundamental_div_mod, lemma_hoist_over_denominator,
};
use crate::error::Error;
use crate::rng;
use crate::units::{ONE, TWO};
use crate::update::DIAMETER_LIMIT;

verus! {

/// Largest accepted particle count: keeps the layout arithmetic inside `i64`
/// on any machine.
pub const MAX_PARTICLES: usize = 1_000_000_000;

/// One visual point. `x` and the color are fixed at construction; `diameter`
/// and `y` are rewritten every frame by the update rule.
#[derive(Clone, Copy, Debug)]
pub struct Particle {
    pub x: i64,
    pub y: i64,
    pub r: i64,
    pub g: i64,
    pub b: i64,
    pub diameter: i64,
}

impl Particle {
    /// The particle invariant: `x` on screen, `y` wrapped into [-1.0, 1.0),
    /// color channels in [0.0, 1.0], diameter inside the clamped range.
    pub open spec fn valid(self) -> bool {
        &&& -TWO <= self.x <= TWO
        &&& -ONE <= self.y < ONE
        &&& 0 <= self.r <= ONE
        &&& 0 <= self.g <= ONE
        &&& 0 <= self.b <= ONE
        &&& 0 <= self.diameter <= DIAMETER_LIMIT
    }

    /// A particle at the given horizontal position, with a uniformly random
    /// vertical position in [-1.0, 1.0), uniformly random color channels in
    /// [0.0, 1.0), and no size yet.
    pub fn new(x: i64) -> (p: Particle)
        requires
            -TWO <= x <= TWO,
        ensures
            p.x == x,
            p.diameter == 0,
            -ONE <= p.y < ONE,
            0 <= p.r < ONE,
            0 <= p.g < ONE,
            0 <= p.b < ONE,
            p.valid(),
    {
        let y: i64 = rng::random_unit() * 2 - ONE;
        Particle { x, y, r: rng::random_unit(), g: rng::random_unit(), b: rng::random_unit(), diameter: 0 }
    }
}

/// The shared ramp of the layout rule: index i of n maps to 2.0 * i / (n-1),
/// in fixed point with the division rounding down.
pub open spec fn layout_ramp(i: int, n: int) -> int {
    (TWO as int) * i / (n - 1)
}

/// The layout rule: the first half of the index space walks the ramp
/// downward from 0.0, the second half walks it shifted up by 2.0, folding
/// the indices into a back-and-forth traversal.
pub open spec fn layout_x_value(i: int, n: int) -> int {
    if i < n / 2 {
        -layout_ramp(i, n)
    } else {
        (TWO as int) - layout_ramp(i, n)
    }
}

/// The ramp stays within [0.0, 2.0]; below 1.0 on the first half of the
/// index space and at or above 1.0 on the second half.
proof fn lemma_ramp_bounds(i: int, n: int)
    requires
        2 <= n,
        0 <= i <= n - 1,
    ensures
        0 <= layout_ramp(i, n) <= TWO as int,
        i < n / 2 ==> layout_ramp(i, n) <= ONE as int,
        i >= n / 2 ==> layout_ramp(i, n) >= ONE as int,
{
    let d = n - 1;
    lemma_div_pos_is_pos((TWO as int) * i, d);
    lemma_div_is_ordered((TWO as int) * i, (TWO as int) * d, d);
    lemma_div_multiples_vanish(TWO as int, d);
    lemma_fundamental_div_mod(n, 2);
    if i < n / 2 {
        lemma_div_is_ordered((TWO as int) * i, (ONE as int) * d, d);
        lemma_div_multiples_vanish(ONE as int, d);
    } else {
        lemma_div_is_ordered((ONE as int) * d, (TWO as int) * i, d);
        lemma_div_multiples_vanish(ONE as int, d);
    }
}

/// Every laid-out position is on screen: within [-1.0, 1.0], with the first
/// half of the indices at or left of the center and the second half at or
/// right of it.
pub proof fn lemma_layout_in_unit_range(i: int, n: int)
    requires
        2 <= n,
        0 <= i < n,
    ensures
        -(ONE as int) <= layout_x_value(i, n) <= ONE as int,
        i < n / 2 ==> layout_x_value(i, n) <= 0,
        i >= n / 2 ==> layout_x_value(i, n) >= 0,
{
    lemma_ramp_bounds(i, n);
}

/// The first index sits exactly at the center.
pub proof fn lemma_layout_first_is_origin(n: int)
    requires
        2 <= n,
    ensures
        layout_x_value(0, n) == 0,
{
    lemma_fundamental_div_mod(n, 2);
    lemma_div_multiples_vanish(0, n - 1);
}

/// The last index returns exactly to the center: the fold is a round trip,
/// not a single monotonic ramp.
pub proof fn lemma_layout_last_is_origin(n: int)
    requires
        2 <= n,
    ensures
        layout_x_value(n - 1, n) == 0,
{
    lemma_fundamental_div_mod(n, 2);
    lemma_div_multiples_vanish(TWO as int, n - 1);
}

/// One step along the ramp moves by at least one fixed-point unit, as long
/// as the particle count does not exceed the fixed-point resolution of the
/// ramp (2.0 spread over n - 1 steps).
proof fn lemma_ramp_step_strict(i: int, n: int)
    requires
        2 <= n,
        n - 1 <= TWO as int,
        0 <= i,
        i + 1 <= n - 1,
    ensures
        layout_ramp(i, n) + 1 <= layout_ramp(i + 1, n),
{
    let d = n - 1;
    lemma_hoist_over_denominator((TWO as int) * i, 1, d as nat);
    lemma_div_is_ordered((TWO as int) * i + d, (TWO as int) * (i + 1), d);
}

/// Within the first half of the index space the positions strictly decrease
/// (the left-going ramp), granularity permitting.
pub proof fn lemma_layout_first_half_strictly_decreasing(i: int, j: int, n: int)
    requires
        2 <= n,
        n - 1 <= TWO as int,
        0 <= i < j < n / 2,
    ensures
        layout_x_value(j, n) < layout_x_value(i, n),
    decreases j - i,
{
    lemma_fundamental_div_mod(n, 2);
    if j == i + 1 {
        lemma_ramp_step_strict(i, n);
    } else {
        lemma_layout_first_half_strictly_decreasing(i, j - 1, n);
        lemma_ramp_step_strict(j - 1, n);
    }
}

/// Within the second half of the index space the positions strictly decrease
/// as well (the shifted ramp walks back toward the center), granularity
/// permitting.
pub proof fn lemma_layout_second_half_strictly_decreasing(i: int, j: int, n: int)
    requires
        2 <= n,
        n - 1 <= TWO as int,
        n / 2 <= i < j <= n - 1,
    ensures
        layout_x_value(j, n) < layout_x_value(i, n),
    decreases j - i,
{
    if j == i + 1 {
        lemma_ramp_step_strict(i, n);
    } else {
        lemma_layout_second_half_strictly_decreasing(i, j - 1, n);
        lemma_ramp_step_strict(j - 1, n);
    }
}

/// Executable layout rule, proved equal to its specification and on screen.
pub fn layout_x(i: usize, n: usize) -> (x: i64)
    requires
        2 <= n <= MAX_PARTICLES,
        i < n,
    ensures
        x == layout_x_value(i as int, n as int),
        -TWO <= x <= TWO,
{
    proof {
        lemma_ramp_bounds(i as int, n as int);
    }
    let q: i64 = (TWO * (i as i64)) / ((n - 1) as i64);
    if i < n / 2 {
        -q
    } else {
        TWO - q
    }
}

/// The startup particle field: n particles, the i-th at the laid-out
/// horizontal position, each with a fresh random vertical position and
/// color and no size yet. Rejected when fewer than two particles are asked
/// for: the layout ramp needs at least two.
pub fn initial_particles(n: usize) -> (r: Result<Vec<Particle>, Error>)
    requires
        n <= MAX_PARTICLES,
    ensures
        match r {
            Ok(ps) => {
                &&& 2 <= n
                &&& ps@.len() == n
                &&& forall|i: int|
                    0 <= i < n ==> (#[trigger] ps@[i]).x == layout_x_value(i, n as int)
                &&& forall|i: int| 0 <= i < n ==> (#[trigger] ps@[i]).diameter == 0
                &&& forall|i: int| 0 <= i < n ==> (#[trigger] ps@[i]).valid()
            },
            Err(e) => e == Error::TooFewParticles && n < 2,
        },
{
    if n < 2 {
        return Err(Error::TooFewParticles);
    }
    let mut ps: Vec<Particle> = Vec::new();
    let mut i: usize = 0;
    while i < n
        invariant
            2 <= n <= MAX_PARTICLES,
            i <= n,
            ps@.len() == i,
            forall|k: int| 0 <= k < i ==> (#[trigger] ps@[k]).x == layout_x_value(k, n as int),
            forall|k: int| 0 <= k < i ==> (#[trigger] ps@[k]).diameter == 0,
            forall|k: int| 0 <= k < i ==> (#[trigger] ps@[k]).valid(),
        decreases n - i,
    {
        let x = layout_x(i, n);
        ps.push(Particle::new(x));
        i = i + 1;
    }
    Ok(ps)
}

} // verus!
