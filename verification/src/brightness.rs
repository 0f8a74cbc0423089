//! Brightness mapper: quadratic gamma correction to match the eye's
//! logarithmic sensitivity, followed by a power cap that keeps the
//! maximum deliverable power below the full range.

use vstd::prelude::*;

use vstd::arithmetic::div_mod::{lemma_basic_div, lemma_div_is_ordered, lemma_div_multiples_vanish};
use vstd::arithmetic::mul::lemma_mul_inequality;

verus! {

/// Quadratic (gamma 2.0) perceptual correction: the square of the
/// input over the range maximum, clamped to that maximum.
pub open spec fn spec_correct_gamma(input: int, max: int) -> int {
    let corrected = (input * input) / max;
    if corrected > max {
        max
    } else {
        corrected
    }
}

/// The power cap: the given percentage of the value, rounded down.
pub open spec fn spec_scale(value: int, percent: int) -> int {
    (value * percent) / 100
}

/// Integer-only gamma correction with gamma = 2.0.
pub fn correct_gamma(input: u16, max: u16) -> (corrected: u16)
    requires
        max >= 1,
    ensures
        corrected == spec_correct_gamma(input as int, max as int),
        corrected <= max,
{
    let wide_input = input as u32;
    let wide_max = max as u32;
    proof {
        assert((input as int) * (input as int) <= 0xffff * 0xffff) by (nonlinear_arith)
            requires 0 <= input <= 0xffff;
    }
    let corrected = (wide_input * wide_input) / wide_max;
    if corrected > wide_max {
        max
    } else {
        corrected as u16
    }
}

/// Cap the value to the given percentage of itself, rounding down.
pub fn scale(value: u16, percent: u8) -> (scaled: u16)
    requires
        percent <= 100,
    ensures
        scaled == spec_scale(value as int, percent as int),
        scaled <= value,
{
    proof {
        lemma_mul_inequality(percent as int, 100, value as int);
        lemma_div_is_ordered((value as int) * (percent as int), (value as int) * 100, 100);
        lemma_div_multiples_vanish(value as int, 100);
    }
    (value as u32 * percent as u32 / 100) as u16
}

/// Gamma correction holds the extremes of the range fixed: correcting 0
/// gives 0 and correcting `max` gives `max` back.
pub proof fn lemma_gamma_endpoints(max: int)
    requires
        1 <= max,
    ensures
        spec_correct_gamma(0, max) == 0,
        spec_correct_gamma(max, max) == max,
{
    lemma_basic_div(0, max);
    lemma_div_multiples_vanish(max, max);
}

/// For a fixed range maximum, gamma correction never decreases when its
/// input grows.
pub proof fn lemma_gamma_monotonic(a: int, b: int, max: int)
    requires
        0 <= a <= b,
        1 <= max,
    ensures
        spec_correct_gamma(a, max) <= spec_correct_gamma(b, max),
{
    lemma_mul_inequality(a, b, a);
    lemma_mul_inequality(a, b, b);
    lemma_div_is_ordered(a * a, b * b, max);
}

/// The power cap is exact at its extremes and never amplifies: a cap of
/// 100 percent returns the value unchanged, a cap of 0 percent yields 0,
/// and any cap up to 100 percent yields at most the value itself.
pub proof fn lemma_scale_cap(value: int, percent: int)
    requires
        0 <= value,
        0 <= percent <= 100,
    ensures
        spec_scale(value, 100) == value,
        spec_scale(value, 0) == 0,
        spec_scale(value, percent) <= value,
{
    lemma_div_multiples_vanish(value, 100);
    lemma_basic_div(0, 100);
    lemma_mul_inequality(percent, 100, value);
    lemma_div_is_ordered(value * percent, value * 100, 100);
}

} // verus!
