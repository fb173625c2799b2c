//! Fixed-point units.
//!
//! A length is a whole number of length units, a time a whole number of time
//! units (microseconds), a speed a number of length units per time unit, an
//! angle a whole number of angle units. With these scales a displacement is
//! exactly speed times elapsed time, with no rounding.

use vstd::prelude::*;

verus! {

/// Length units in one pixel.
pub const PIXEL: i64 = 1_000_000_000;

/// Time units in one second.
pub const SECOND: u64 = 1_000_000;

/// Speed units in one pixel per second (`PIXEL / SECOND`).
pub const PIXEL_PER_SECOND: i64 = 1_000;

/// Angle units in one degree.
pub const DEGREE: i64 = 1_000_000;

/// The value of `lo..=hi` nearest to `v`, for `lo <= hi`.
pub open spec fn clamp(v: int, lo: int, hi: int) -> int {
    if v < lo {
        lo
    } else if v > hi {
        hi
    } else {
        v
    }
}

/// The quotient of `a` by `b` rounded toward zero, for `b != 0`. (On a
/// dividend that is not negative, `/` rounds toward zero whatever the
/// divisor's sign.)
pub open spec fn quotient(a: int, b: int) -> int {
    if a >= 0 {
        a / b
    } else {
        -((-a) / b)
    }
}

/// A quotient is no larger in magnitude than its dividend.
pub proof fn lemma_quotient_bound(a: int, b: int)
    by (nonlinear_arith)
    requires
        b != 0,
    ensures
        a >= 0 ==> -a <= quotient(a, b) <= a,
        a < 0 ==> a <= quotient(a, b) <= -a,
{
}

} // verus!
