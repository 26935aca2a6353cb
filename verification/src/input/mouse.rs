//! Mice.

use vstd::prelude::*;

verus! {

/// A button of a mouse.
#[derive(Copy, Clone)]
pub enum Button {
    Unknown,
    Left,
    Middle,
    Right,
    X1,
    X2,
}

/// The direction in which a mouse wheel reports its turns.
#[derive(Copy, Clone)]
pub enum WheelDirection {
    Normal,
    Flipped,
    Unknown(u32),
}

} // verus!
