//! The fixed-point scale shared by the whole crate, and the wraparound rule
//! that keeps a vertical position inside [-1.0, 1.0).

use vstd::prelude::*;

verus! {

/// One whole unit (1.0) in fixed-point representation: six decimal places.
pub const ONE: i64 = 1_000_000;

/// Two whole units (2.0): the width of the vertical wraparound range.
pub const TWO: i64 = 2_000_000;

/// Toroidal wraparound on the vertical axis: add 2.0 until the value is at
/// least -1.0. Defined for every integer; values already at or above -1.0 are
/// left alone.
pub open spec fn wrap_up(y: int) -> int
    decreases (if y < -ONE { -ONE - y } else { 0 }),
{
    if y < -ONE {
        wrap_up(y + TWO)
    } else {
        y
    }
}

/// Wrapping never moves a value that is already in range, and any value below
/// the range lands in [-1.0, -1.0 + 2.0) = [-1.0, 1.0).
pub proof fn lemma_wrap_up_in_range(y: int)
    requires
        y < ONE,
    ensures
        -ONE <= wrap_up(y) < ONE,
    decreases (if y < -ONE { -ONE - y } else { 0 }),
{
    if y < -ONE {
        lemma_wrap_up_in_range(y + TWO);
    }
}

/// Executable form of the wraparound: a loop that adds 2.0 until the value is
/// back in range, exactly as many times as the distance below -1.0 demands.
pub fn wrap_y(y: i64) -> (r: i64)
    requires
        y < ONE,
    ensures
        r == wrap_up(y as int),
        -ONE <= r < ONE,
{
    let mut v: i64 = y;
    while v < -ONE
        invariant
            v < ONE,
            wrap_up(v as int) == wrap_up(y as int),
        decreases (if v < -ONE { -ONE - v } else { 0 }),
    {
        v = v + TWO;
    }
    proof {
        lemma_wrap_up_in_range(y as int);
    }
    v
}

} // verus!
