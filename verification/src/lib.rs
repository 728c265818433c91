//! A verified gamepad input registry.
//!
//! The registry tracks connected controllers, turns raw device events
//! (button edges, analog axis samples) into a stable logical state, and
//! answers "is this logical input currently active" queries.
//!
//! Analog values are fixed-point integers: [`AXIS_SCALE`] units stand for
//! one unit of full stick deflection, so the platform layer converts its
//! normalized floating-point samples before they enter the registry.

pub mod input;
pub mod laws;
pub mod registry;

pub use input::{Axis, AxisDirection, Button, PlayerControllerInputType, AXIS_SCALE, DEAD_ZONE};
pub use registry::{
    add_gamepad, is_active, is_axis_active, is_button_active, remove_gamepad, GamepadContext,
    GamepadData,
};
