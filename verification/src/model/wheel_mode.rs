//! Which colour model the wheel in the middle of the panel shows.

use vstd::prelude::*;

verus! {

/// The colour model drawn inside the hue ring.
#[derive(Debug, Clone, Copy, PartialEq, Eq, Structural)]
pub enum WheelMode {
    /// Saturation and lightness, drawn as a triangle.
    HSL,
    /// Saturation and value, drawn as a square.
    HSV,
}

impl Default for WheelMode {
    /// The wheel starts with saturation and value.
    fn default() -> (mode: WheelMode)
        ensures
            mode == WheelMode::HSV,
    {
        WheelMode::HSV
    }
}

impl WheelMode {
    /// The other mode.
    pub open spec fn other(self) -> WheelMode {
        match self {
            WheelMode::HSL => WheelMode::HSV,
            WheelMode::HSV => WheelMode::HSL,
        }
    }

    /// The mode that a click on the mode button switches to.
    pub fn toggled(&self) -> (mode: WheelMode)
        ensures
            mode == self.other(),
            mode != *self,
            mode.other() == *self,
    {
        match self {
            WheelMode::HSL => WheelMode::HSV,
            WheelMode::HSV => WheelMode::HSL,
        }
    }
}

} // verus!
