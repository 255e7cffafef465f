//! Input abstraction for interactive applications.
//!
//! Raw device state, captured once per tick in an [`Inputs`] snapshot, is
//! turned into boolean triggers and continuous axes by trees of bindings.
//! A [`Trigger`] or an [`Axis`] holds such a tree together with what it
//! reported at the last update.
//!
//! Axis values are fixed-point numbers: an `i64` that counts millionths
//! (see [`fixed`]).

pub mod axis;
pub mod fixed;
pub mod inputs;
pub mod trigger;

pub use axis::bindings::{MouseWheel, MouseX, MouseY};
pub use axis::builder::AxisBindingBuilder;
pub use axis::combinators::{Pair, WithTriggerBinding};
pub use axis::filters::{Deadzone, Normalize, RateLimit, Smooth};
pub use axis::modifiers::{
    Add, Divide, Invert, Multiply, Remap, Subtract, Transformation, WithCurve,
};
pub use axis::{update_axis, Axis, AxisBinding};
pub use inputs::{
    ButtonInput, Gamepad, GamepadAxis, GamepadButton, Inputs, KeyCode, MouseButton, MouseMotion,
    MouseScroll, MouseScrollUnit,
};
pub use trigger::builder::TriggerBindingBuilder;
pub use trigger::combinators::And;
pub use trigger::modifiers::Not;
pub use trigger::{update_trigger, Trigger, TriggerBinding};
