//! The control loop's decision logic: one iteration takes the freshly
//! measured sample and the carried state, and yields the duty to hand
//! to the PWM driver. The loop itself is free-running — no delay — so
//! that the 4-frame dither cycle repeats far above the flicker-fusion
//! threshold.

use vstd::prelude::*;

use vstd::arithmetic::div_mod::lemma_div_is_ordered;
use vstd::arithmetic::mul::lemma_mul_inequality;

use crate::brightness::{correct_gamma, scale, spec_correct_gamma, spec_scale};
use crate::dither::{dither, spec_duty};
use crate::tracker::{spec_update, update};
use crate::{MAX_POWER_PERCENT, MAX_VALUE};

verus! {

/// The loop's only carried state: the hysteresis-tracked input and the
/// dither phase. Everything else is recomputed each iteration.
pub struct ControlState {
    /// The tracked potentiometer value.
    pub input: u16,
    /// Which of the four dither frames the next iteration produces.
    pub phase: u8,
}

impl ControlState {
    /// Both pieces of carried state stay within their ranges.
    pub open spec fn wf(self) -> bool {
        self.input <= MAX_VALUE && self.phase <= 3
    }

    /// The duty one iteration produces from this state and a measured
    /// sample: the sample smoothed by the tracker, gamma corrected over
    /// the converter's range, capped to the maximum power, and dithered
    /// at the current phase.
    pub open spec fn spec_step_duty(self, measured: int) -> int {
        spec_duty(
            spec_scale(
                spec_correct_gamma(spec_update(measured, self.input as int), MAX_VALUE as int),
                MAX_POWER_PERCENT as int,
            ),
            self.phase as int,
        )
    }

    /// The state at power-up: tracked value and dither phase both 0.
    pub fn new() -> (state: Self)
        ensures
            state.wf(),
            state.input == 0,
            state.phase == 0,
    {
        ControlState { input: 0, phase: 0 }
    }

    /// One iteration of the control loop on one measured sample:
    /// updates the tracked value and the dither phase, and returns the
    /// duty to write to the PWM driver.
    pub fn step(&mut self, measured: u16) -> (duty: u8)
        requires
            old(self).wf(),
            measured <= MAX_VALUE,
        ensures
            final(self).wf(),
            final(self).input == spec_update(measured as int, old(self).input as int),
            final(self).phase == (old(self).phase + 1) % 4,
            duty == old(self).spec_step_duty(measured as int),
    {
        self.input = update(measured, self.input);
        let gamma_corrected = correct_gamma(self.input, MAX_VALUE);
        let power_capped = scale(gamma_corrected, MAX_POWER_PERCENT);
        proof {
            // The cap keeps the dithered duty within the 8-bit range:
            // at most 1023 * 80 / 100 = 818, so a base duty of at most
            // 204 plus a boost of at most 1.
            lemma_mul_inequality(gamma_corrected as int, MAX_VALUE as int, MAX_POWER_PERCENT as int);
            lemma_div_is_ordered(
                (gamma_corrected as int) * (MAX_POWER_PERCENT as int),
                (MAX_VALUE as int) * (MAX_POWER_PERCENT as int),
                100,
            );
            lemma_div_is_ordered(power_capped as int, 818, 4);
        }
        let (duty, next_phase) = dither(power_capped, self.phase);
        self.phase = next_phase;
        duty
    }
}

} // verus!
