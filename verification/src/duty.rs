//! Mapping from a commanded angle to a duty level.
//!
//! The actuator is positioned by the fraction of each drive period the
//! output is held high.  For a degree `d` in `0..=180` that fraction is
//! `d/1800 + 0.025`: one tenth of the period spans the full travel, shifted
//! by the minimum-pulse dead zone (0 degrees is not 0 duty).  Scaled by the
//! driver's full-scale duty value and rounded to the nearest level, the duty
//! is `((d + 45) * max_duty + 900) / 1800` in exact integer arithmetic.

use vstd::prelude::*;
use vstd::arithmetic::div_mod::{lemma_div_is_ordered, lemma_fundamental_div_mod};
use vstd::arithmetic::mul::lemma_mul_inequality;
use crate::config::MAX_DEGREE;

verus! {

/// Duty level for angle `degree` with full-scale value `max_duty`: the
/// integer nearest `(degree/1800 + 0.025) * max_duty`, ties upward.
pub open spec fn duty_for(degree: int, max_duty: int) -> int {
    ((degree + 45) * max_duty + 900) / 1800
}

/// Compute the duty level that positions the actuator at `degree`.
pub fn duty_for_degree(degree: u8, max_duty: u32) -> (duty: u32)
    requires
        degree <= MAX_DEGREE,
    ensures
        duty == duty_for(degree as int, max_duty as int),
{
    let d: u64 = degree as u64;
    let m: u64 = max_duty as u64;
    proof {
        lemma_mul_inequality(d as int + 45, 225, m as int);
    }
    let wide: u64 = (d + 45) * m + 900;
    let duty64: u64 = wide / 1800;
    proof {
        lemma_div_is_ordered(wide as int, 225int * 0xFFFF_FFFF + 900, 1800);
    }
    duty64 as u32
}

/// The duty level never decreases as the commanded angle grows.
pub proof fn lemma_duty_monotonic(d1: int, d2: int, max_duty: int)
    requires
        0 <= d1 <= d2,
        0 <= max_duty,
    ensures
        duty_for(d1, max_duty) <= duty_for(d2, max_duty),
{
    lemma_mul_inequality(d1 + 45, d2 + 45, max_duty);
    lemma_div_is_ordered((d1 + 45) * max_duty + 900, (d2 + 45) * max_duty + 900, 1800);
}

/// The duty level rounds rather than truncates: `1800 * duty_for` lies
/// within half a scale unit (900 parts in 1800) of the exact scaled value
/// `(degree + 45) * max_duty`.
pub proof fn lemma_duty_is_nearest(degree: int, max_duty: int)
    requires
        0 <= degree,
        0 <= max_duty,
    ensures
        (degree + 45) * max_duty - 900 < 1800 * duty_for(degree, max_duty),
        1800 * duty_for(degree, max_duty) <= (degree + 45) * max_duty + 900,
{
    let n = (degree + 45) * max_duty;
    lemma_fundamental_div_mod(n + 900, 1800);
}

} // verus!
