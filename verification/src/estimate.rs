//! Keyboard-surface temperature estimation.
//!
//! The estimate follows a linear attenuation model: the surface sees the
//! ambient baseline plus 45% of the differential between the primary (CPU)
//! temperature and that baseline. Temperatures are integer millidegrees
//! Celsius, and the attenuated differential is rounded toward zero, so the
//! estimate always lies between the ambient and primary temperatures.

use vstd::prelude::*;
use vstd::arithmetic::div_mod::{lemma_div_is_ordered, lemma_div_pos_is_pos,
    lemma_div_multiples_vanish, lemma_div_of0};
use vstd::arithmetic::mul::lemma_mul_inequality;

verus! {

/// 45% of a temperature differential, rounded toward zero.
pub open spec fn attenuated(d: int) -> int {
    if d >= 0 {
        45 * d / 100
    } else {
        -(45 * (-d) / 100)
    }
}

/// Estimated secondary temperature: the ambient baseline plus the attenuated
/// differential between the primary temperature and that baseline
/// (all in millidegrees Celsius).
pub open spec fn estimate_spec(primary: int, ambient: int) -> int {
    ambient + attenuated(primary - ambient)
}

/// The attenuated differential keeps the sign of the differential and never
/// exceeds it in magnitude.
proof fn lemma_attenuated_bounds(d: int)
    ensures
        d >= 0 ==> 0 <= attenuated(d) <= d,
        d < 0 ==> d <= attenuated(d) <= 0,
{
    if d >= 0 {
        lemma_div_pos_is_pos(45 * d, 100);
        lemma_mul_inequality(45, 100, d);
        lemma_div_is_ordered(45 * d, 100 * d, 100);
        lemma_div_multiples_vanish(d, 100);
    } else {
        lemma_div_pos_is_pos(45 * (-d), 100);
        lemma_mul_inequality(45, 100, -d);
        lemma_div_is_ordered(45 * (-d), 100 * (-d), 100);
        lemma_div_multiples_vanish(-d, 100);
    }
}

proof fn lemma_attenuated_monotone(d1: int, d2: int)
    requires
        d1 <= d2,
    ensures
        attenuated(d1) <= attenuated(d2),
{
    if 0 <= d1 {
        lemma_mul_inequality(d1, d2, 45);
        lemma_div_is_ordered(45 * d1, 45 * d2, 100);
    } else if d2 < 0 {
        lemma_mul_inequality(-d2, -d1, 45);
        lemma_div_is_ordered(45 * (-d2), 45 * (-d1), 100);
    } else {
        lemma_attenuated_bounds(d1);
        lemma_attenuated_bounds(d2);
    }
}

/// When the primary temperature equals the ambient baseline, the estimate is
/// exactly that shared temperature.
pub proof fn lemma_estimate_at_ambient(t: int)
    ensures
        estimate_spec(t, t) == t,
{
    assert(45 * (t - t) == 0);
    lemma_div_of0(100);
}

/// For a fixed ambient baseline the estimate is monotonically non-decreasing
/// in the primary temperature.
pub proof fn lemma_estimate_monotone(p1: int, p2: int, ambient: int)
    requires
        p1 <= p2,
    ensures
        estimate_spec(p1, ambient) <= estimate_spec(p2, ambient),
{
    lemma_attenuated_monotone(p1 - ambient, p2 - ambient);
}

/// Estimated keyboard-surface temperature from the primary (CPU) temperature
/// and the ambient baseline, in millidegrees Celsius.
pub fn calculate_keyboard_temp(cpu_temp: i32, ambient_temp: i32) -> (r: i32)
    ensures
        r as int == estimate_spec(cpu_temp as int, ambient_temp as int),
{
    proof {
        lemma_attenuated_bounds(cpu_temp as int - ambient_temp as int);
    }
    if cpu_temp >= ambient_temp {
        let d: u64 = (cpu_temp as i64 - ambient_temp as i64) as u64;
        let q: u64 = d * 45 / 100;
        assert(q as int == attenuated(cpu_temp as int - ambient_temp as int));
        (ambient_temp as i64 + q as i64) as i32
    } else {
        let d: u64 = (ambient_temp as i64 - cpu_temp as i64) as u64;
        let q: u64 = d * 45 / 100;
        assert(-(q as int) == attenuated(cpu_temp as int - ambient_temp as int));
        (ambient_temp as i64 - q as i64) as i32
    }
}

} // verus!
