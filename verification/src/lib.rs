//! Brightness-control core of a single-channel LED dimmer.
//!
//! A potentiometer is sampled by a 10-bit analog-to-digital converter;
//! the sample is smoothed against least-significant-bit noise, gamma
//! corrected, capped to a maximum power, dithered over four frames to
//! recover the resolution lost by the 8-bit PWM, and finally written,
//! inverted, to a PWM channel running in inverted compare mode (the
//! only mode in which the hardware can produce a glitch-free constant
//! low output).

use vstd::prelude::*;

pub mod brightness;
pub mod control;
pub mod dither;
pub mod pwm;
pub mod tracker;

verus! {

/// Highest value the 10-bit analog-to-digital converter can report.
pub const MAX_VALUE: u16 = 0x3ff;

/// Fraction of full power the dimmer may deliver, in percent; kept
/// below 100 for LED longevity.
pub const MAX_POWER_PERCENT: u8 = 80;

} // verus!
