//! Game controllers.

use vstd::prelude::*;

verus! {

/// An axis of a game controller: the two sticks and the two triggers.
#[derive(Copy, Clone)]
pub enum Axis {
    LeftX,
    LeftY,
    RightX,
    RightY,
    TriggerLeft,
    TriggerRight,
}

/// A button of a game controller.
#[derive(Copy, Clone)]
pub enum Button {
    A,
    B,
    X,
    Y,
    Back,
    Guide,
    Start,
    LeftStick,
    RightStick,
    LeftShoulder,
    RightShoulder,
    DPadUp,
    DPadDown,
    DPadLeft,
    DPadRight,
}

} // verus!
