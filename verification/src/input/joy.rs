//! Joysticks.

use vstd::prelude::*;

verus! {

/// The position of a joystick's hat.
#[derive(Copy, Clone)]
pub enum HatState {
    Centered,
    Up,
    Right,
    Down,
    Left,
    RightUp,
    RightDown,
    LeftUp,
    LeftDown,
}

} // verus!
