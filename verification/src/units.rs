//! Fixed-point unit conventions and the arithmetic helpers shared by the
//! simulation stages.
//!
//! - dimensionless factors (axis deflections, damping factors, cosines of
//!   angles) are per-mille values: `1000` stands for `1.0`;
//! - velocities are micro-units per second: `1_000_000` stands for one world
//!   unit per second;
//! - positions are nano-units, so that advancing a position by
//!   `velocity * delta_time_ms` is exact, with no rounding anywhere;
//! - durations are milliseconds.

use vstd::prelude::*;

verus! {

/// Per-mille scale: this many fixed-point steps make `1.0` of a
/// dimensionless factor.
pub const MILLI: i64 = 1000;

/// Micro scale: this many velocity steps make one world unit per second.
pub const MICRO: i64 = 1_000_000;

/// Nano scale: this many position steps make one world unit.  A velocity
/// in micro-units per second times a duration in milliseconds is a
/// distance in nano-units, exactly.
pub const NANO: i64 = 1_000_000_000;

/// Division that truncates toward zero, for a positive divisor.  This is the
/// rounding that the executable `/` performs on signed machine integers.
pub open spec fn tdiv(a: int, b: int) -> int
    recommends
        b > 0,
{
    if a >= 0 {
        a / b
    } else {
        -((-a) / b)
    }
}

/// The nearest representable `i64` to a mathematical integer: values beyond
/// either bound are pinned to that bound.
pub open spec fn clip_i64(x: int) -> int {
    if x > i64::MAX {
        i64::MAX as int
    } else if x < i64::MIN {
        i64::MIN as int
    } else {
        x
    }
}

/// Truncating division of a signed value by a positive divisor.
pub fn tdiv_i64(a: i64, b: i64) -> (r: i64)
    requires
        b > 0,
    ensures
        r == tdiv(a as int, b as int),
{
    a / b
}

/// Pins a wide intermediate result to the `i64` range.
pub fn clip_i128_to_i64(x: i128) -> (r: i64)
    ensures
        r == clip_i64(x as int),
{
    if x > i64::MAX as i128 {
        i64::MAX
    } else if x < i64::MIN as i128 {
        i64::MIN
    } else {
        x as i64
    }
}

} // verus!
