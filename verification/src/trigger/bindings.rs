//! The leaves of a trigger binding tree.

use crate::inputs::{GamepadButton, Inputs, KeyCode, MouseButton};
use crate::trigger::TriggerBinding;
use vstd::prelude::*;

verus! {

/// The empty binding: never down.
impl TriggerBinding for () {
    open spec fn is_pressed(&self, inputs: &Inputs) -> bool {
        false
    }

    open spec fn is_just_pressed(&self, inputs: &Inputs) -> bool {
        false
    }

    open spec fn is_just_released(&self, inputs: &Inputs) -> bool {
        false
    }

    fn pressed(&self, _inputs: &Inputs) -> (r: bool) {
        false
    }

    fn just_pressed(&self, _inputs: &Inputs) -> (r: bool) {
        false
    }

    fn just_released(&self, _inputs: &Inputs) -> (r: bool) {
        false
    }
}

/// A constant: down or not, and never changing.
impl TriggerBinding for bool {
    open spec fn is_pressed(&self, inputs: &Inputs) -> bool {
        *self
    }

    open spec fn is_just_pressed(&self, inputs: &Inputs) -> bool {
        false
    }

    open spec fn is_just_released(&self, inputs: &Inputs) -> bool {
        false
    }

    fn pressed(&self, _inputs: &Inputs) -> (r: bool) {
        *self
    }

    fn just_pressed(&self, _inputs: &Inputs) -> (r: bool) {
        false
    }

    fn just_released(&self, _inputs: &Inputs) -> (r: bool) {
        false
    }
}

impl TriggerBinding for KeyCode {
    open spec fn is_pressed(&self, inputs: &Inputs) -> bool {
        inputs.keycodes.is_pressed(self.0)
    }

    open spec fn is_just_pressed(&self, inputs: &Inputs) -> bool {
        inputs.keycodes.is_just_pressed(self.0)
    }

    open spec fn is_just_released(&self, inputs: &Inputs) -> bool {
        inputs.keycodes.is_just_released(self.0)
    }

    fn pressed(&self, inputs: &Inputs) -> (r: bool) {
        inputs.keycodes.pressed(self.0)
    }

    fn just_pressed(&self, inputs: &Inputs) -> (r: bool) {
        inputs.keycodes.just_pressed(self.0)
    }

    fn just_released(&self, inputs: &Inputs) -> (r: bool) {
        inputs.keycodes.just_released(self.0)
    }
}

impl TriggerBinding for MouseButton {
    open spec fn is_pressed(&self, inputs: &Inputs) -> bool {
        inputs.mouse_buttons.is_pressed(self.0)
    }

    open spec fn is_just_pressed(&self, inputs: &Inputs) -> bool {
        inputs.mouse_buttons.is_just_pressed(self.0)
    }

    open spec fn is_just_released(&self, inputs: &Inputs) -> bool {
        inputs.mouse_buttons.is_just_released(self.0)
    }

    fn pressed(&self, inputs: &Inputs) -> (r: bool) {
        inputs.mouse_buttons.pressed(self.0)
    }

    fn just_pressed(&self, inputs: &Inputs) -> (r: bool) {
        inputs.mouse_buttons.just_pressed(self.0)
    }

    fn just_released(&self, inputs: &Inputs) -> (r: bool) {
        inputs.mouse_buttons.just_released(self.0)
    }
}

/// A gamepad button counts on whichever gamepad it is found.
impl TriggerBinding for GamepadButton {
    open spec fn is_pressed(&self, inputs: &Inputs) -> bool {
        inputs.any_gamepad_pressed(self.0)
    }

    open spec fn is_just_pressed(&self, inputs: &Inputs) -> bool {
        inputs.any_gamepad_just_pressed(self.0)
    }

    open spec fn is_just_released(&self, inputs: &Inputs) -> bool {
        inputs.any_gamepad_just_released(self.0)
    }

    fn pressed(&self, inputs: &Inputs) -> (r: bool) {
        inputs.gamepad_pressed(*self)
    }

    fn just_pressed(&self, inputs: &Inputs) -> (r: bool) {
        inputs.gamepad_just_pressed(*self)
    }

    fn just_released(&self, inputs: &Inputs) -> (r: bool) {
        inputs.gamepad_just_released(*self)
    }
}

/// A boxed binding behaves as the binding in the box.
impl<T: TriggerBinding> TriggerBinding for Box<T> {
    open spec fn is_pressed(&self, inputs: &Inputs) -> bool {
        (**self).is_pressed(inputs)
    }

    open spec fn is_just_pressed(&self, inputs: &Inputs) -> bool {
        (**self).is_just_pressed(inputs)
    }

    open spec fn is_just_released(&self, inputs: &Inputs) -> bool {
        (**self).is_just_released(inputs)
    }

    fn pressed(&self, inputs: &Inputs) -> (r: bool) {
        (**self).pressed(inputs)
    }

    fn just_pressed(&self, inputs: &Inputs) -> (r: bool) {
        (**self).just_pressed(inputs)
    }

    fn just_released(&self, inputs: &Inputs) -> (r: bool) {
        (**self).just_released(inputs)
    }
}

} // verus!
