//! Inverted PWM driver. The hardware's non-inverted PWM mode cannot
//! produce a pure constant-low output: at the extreme compare value the
//! comparator restart leaks a one-period glitch. In inverted compare
//! mode a register value of 255 gives a true, glitch-free constant low,
//! so the driver runs the channel inverted and writes `255 - duty`,
//! letting callers keep the natural sense where duty 0 means off. The
//! price — true 100% output being unreachable — is accepted, since the
//! power cap keeps the maximum below 100% anyway.

use vstd::prelude::*;

verus! {

/// The hardware-inverted image of a duty value: what the inverted-mode
/// comparator must be given to produce that duty.
pub open spec fn spec_invert(value: int) -> int {
    255 - value
}

/// Map a duty in the application's sense (0 = off) to the value written
/// to the inverted-mode compare register, and back.
pub fn invert(value: u8) -> (inverted: u8)
    ensures
        inverted == spec_invert(value as int),
{
    u8::MAX - value
}

/// One PWM channel configured in inverted compare mode. The field
/// models the channel's output-compare (duty) register, which the
/// driver owns exclusively once the channel is configured.
pub struct InvertedPwm {
    compare_register: u8,
}

impl InvertedPwm {
    /// The value held in the output-compare register.
    pub closed spec fn spec_register(self) -> int {
        self.compare_register as int
    }

    /// Configure and enable the channel with an application duty of 0,
    /// so the output rests at a glitch-free constant low.
    pub fn new() -> (pwm: Self)
        ensures
            pwm.spec_register() == spec_invert(0),
    {
        InvertedPwm { compare_register: invert(0) }
    }

    /// Set the duty in the application's sense: the register receives
    /// the inverted value, so duty 0 drives the output constantly low.
    pub fn set_duty(&mut self, duty: u8)
        ensures
            final(self).spec_register() == spec_invert(duty as int),
    {
        self.compare_register = invert(duty);
    }

    /// Read the modeled output-compare register back.
    pub fn register(&self) -> (value: u8)
        ensures
            value == self.spec_register(),
    {
        self.compare_register
    }
}

/// Inversion is an involution: re-inverting an inverted duty returns
/// the original, for every value of the eight-bit range.
pub proof fn lemma_invert_involution(value: int)
    requires
        0 <= value <= 255,
    ensures
        spec_invert(spec_invert(value)) == value,
{
}

} // verus!
