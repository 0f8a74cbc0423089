//! Hysteresis tracker: smooths the raw sample stream so that
//! single-step oscillation from converter noise around a resting value
//! does not reach the LED, while genuine changes are adopted at once.

use vstd::prelude::*;

use crate::MAX_VALUE;

verus! {

/// The tracked value after one update. A sample equal to the tracked
/// value, or one above it, is absorbed as noise; a larger sample is
/// adopted one unit below itself; a smaller sample is adopted exactly.
/// The asymmetry between the rising and the falling edge is deliberate.
pub open spec fn spec_update(raw: int, previous: int) -> int {
    if raw > previous + 1 {
        raw - 1
    } else if raw < previous {
        raw
    } else {
        previous
    }
}

/// One hysteresis update of the tracked value with a fresh raw sample.
pub fn update(raw: u16, previous: u16) -> (next: u16)
    requires
        raw <= MAX_VALUE,
        previous <= MAX_VALUE,
    ensures
        next == spec_update(raw as int, previous as int),
        next <= MAX_VALUE,
{
    if raw > previous + 1 {
        raw - 1
    } else if raw < previous {
        raw
    } else {
        previous
    }
}

} // verus!
