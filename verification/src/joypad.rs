//! The state of the host's game controller.

use vstd::prelude::*;

verus! {

/// Buttons in the standard gamepad layout and the four analog axes (left
/// stick X and Y, right stick X and Y).
pub struct JoypadState {
    pub buttons: [bool; 16],
    pub axes: [i32; 4],
}

} // verus!
