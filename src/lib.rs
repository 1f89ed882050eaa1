//! Control logic for a stepper-driven display rig: wraparound position
//! arithmetic, shortest-path travel planning, step accounting for motor
//! walks, the calibration procedure, LED appearance editing, preset
//! bookkeeping, automatic preset rotation and the button-driven screens.
use vstd::prelude::*;

pub mod position;
pub mod walk;
pub mod calibration;
pub mod led;
pub mod presets;
pub mod screen;
pub mod lcd;

verus! {

/// Sum of two sizes.
pub fn add(left: usize, right: usize) -> (r: usize)
    requires
        left + right <= usize::MAX,
    ensures
        r == left + right,
{
    left + right
}

} // verus!
