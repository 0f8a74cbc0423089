//! Temporal ditherer: the 10-bit power-capped value has two more bits
//! of resolution than the 8-bit PWM. The top eight bits become the base
//! duty; the bottom two select a row of a fixed 4-frame boost pattern,
//! and a phase counter walks that row, so that over any full 4-frame
//! cycle the average duty reconstructs the 10-bit value exactly.

use vstd::prelude::*;

use vstd::arithmetic::div_mod::{lemma_div_is_ordered, lemma_mod_bound};

use crate::MAX_VALUE;

verus! {

/// One entry of the dither pattern table: the boost (0 or 1) added to
/// the base duty at the given phase, for a remainder in [0, 3]. Row
/// `remainder` holds exactly `remainder` ones, spread over the four
/// phases:
///
///   0 -> [0, 0, 0, 0]
///   1 -> [1, 0, 0, 0]
///   2 -> [1, 0, 1, 0]
///   3 -> [1, 1, 1, 0]
pub open spec fn spec_pattern(remainder: int, phase: int) -> int {
    if remainder == 1 {
        if phase == 0 {
            1
        } else {
            0
        }
    } else if remainder == 2 {
        if phase == 0 || phase == 2 {
            1
        } else {
            0
        }
    } else if remainder == 3 {
        if phase == 3 {
            0
        } else {
            1
        }
    } else {
        0
    }
}

/// The duty produced for `value` at the given phase: the top eight bits
/// of the ten-bit value, boosted by the pattern entry that the bottom
/// two bits and the phase select.
pub open spec fn spec_duty(value: int, phase: int) -> int {
    value / 4 + spec_pattern(value % 4, phase)
}

fn pattern_entry(remainder: u16, phase: u8) -> (boost: u8)
    requires
        remainder <= 3,
        phase <= 3,
    ensures
        boost == spec_pattern(remainder as int, phase as int),
{
    if remainder == 1 {
        if phase == 0 {
            1
        } else {
            0
        }
    } else if remainder == 2 {
        if phase == 0 || phase == 2 {
            1
        } else {
            0
        }
    } else if remainder == 3 {
        if phase == 3 {
            0
        } else {
            1
        }
    } else {
        0
    }
}

/// One dither step: split the value into base duty and remainder, boost
/// the base duty by this phase's pattern entry, and advance the phase
/// with wraparound. Returns the duty and the next phase.
pub fn dither(value: u16, phase: u8) -> (r: (u8, u8))
    requires
        value <= MAX_VALUE,
        phase <= 3,
        spec_duty(value as int, phase as int) <= 255,
    ensures
        r.0 == spec_duty(value as int, phase as int),
        r.1 == (phase + 1) % 4,
        r.1 <= 3,
{
    proof {
        lemma_div_is_ordered(value as int, MAX_VALUE as int, 4);
    }
    let base_duty = (value / 4) as u8;
    let boost = pattern_entry(value % 4, phase);
    (base_duty + boost, (phase + 1) % 4)
}

/// Over one full cycle, the four duties starting at phase 0 sum to four
/// times the base duty plus the remainder: the cycle's average duty is
/// exactly a quarter of the ten-bit value, nothing is lost.
pub proof fn lemma_dither_cycle(value: int)
    requires
        0 <= value,
    ensures
        spec_duty(value, 0) + spec_duty(value, 1) + spec_duty(value, 2) + spec_duty(value, 3)
            == 4 * (value / 4) + value % 4,
{
    lemma_mod_bound(value, 4);
}

} // verus!
