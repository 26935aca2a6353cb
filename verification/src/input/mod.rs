//! The names that input events carry: the axes, buttons and hats of
//! controllers, joysticks and mice.

pub mod controller;
pub mod joy;
pub mod mouse;
