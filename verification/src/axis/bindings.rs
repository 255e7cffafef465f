//! The leaves of an axis binding tree.

use crate::axis::AxisBinding;
use crate::fixed::{product, saturate, saturated, times, ONE};
use crate::inputs::{
    first_axis_value, first_button_value, GamepadAxis, GamepadButton, Inputs, KeyCode, MouseButton,
    MouseMotion, MouseScroll, MouseScrollUnit,
};
use vstd::prelude::*;

verus! {

/// The empty binding: never a value.
impl AxisBinding for () {
    open spec fn valid(&self) -> bool {
        true
    }

    open spec fn reading(&self, inputs: &Inputs) -> Option<i64> {
        None
    }

    open spec fn advances_to(&self, inputs: &Inputs, after: &Self) -> bool {
        true
    }

    fn value(&mut self, _inputs: &Inputs) -> (r: Option<i64>) {
        None
    }
}

/// A constant value.
impl AxisBinding for i64 {
    open spec fn valid(&self) -> bool {
        true
    }

    open spec fn reading(&self, inputs: &Inputs) -> Option<i64> {
        Some(*self)
    }

    open spec fn advances_to(&self, inputs: &Inputs, after: &Self) -> bool {
        *after == *self
    }

    fn value(&mut self, _inputs: &Inputs) -> (r: Option<i64>) {
        Some(*self)
    }
}

/// A key reports 1 while it is down and nothing otherwise.
impl AxisBinding for KeyCode {
    open spec fn valid(&self) -> bool {
        true
    }

    open spec fn reading(&self, inputs: &Inputs) -> Option<i64> {
        if inputs.keycodes.is_pressed(self.0) {
            Some(ONE)
        } else {
            None
        }
    }

    open spec fn advances_to(&self, inputs: &Inputs, after: &Self) -> bool {
        *after == *self
    }

    fn value(&mut self, inputs: &Inputs) -> (r: Option<i64>) {
        if inputs.keycodes.pressed(self.0) {
            Some(ONE)
        } else {
            None
        }
    }
}

/// A mouse button reports 1 while it is down and nothing otherwise.
impl AxisBinding for MouseButton {
    open spec fn valid(&self) -> bool {
        true
    }

    open spec fn reading(&self, inputs: &Inputs) -> Option<i64> {
        if inputs.mouse_buttons.is_pressed(self.0) {
            Some(ONE)
        } else {
            None
        }
    }

    open spec fn advances_to(&self, inputs: &Inputs, after: &Self) -> bool {
        *after == *self
    }

    fn value(&mut self, inputs: &Inputs) -> (r: Option<i64>) {
        if inputs.mouse_buttons.pressed(self.0) {
            Some(ONE)
        } else {
            None
        }
    }
}

/// A gamepad button reports its analog value on the first gamepad that has
/// one.
impl AxisBinding for GamepadButton {
    open spec fn valid(&self) -> bool {
        true
    }

    open spec fn reading(&self, inputs: &Inputs) -> Option<i64> {
        first_button_value(inputs.gamepads@, self.0)
    }

    open spec fn advances_to(&self, inputs: &Inputs, after: &Self) -> bool {
        *after == *self
    }

    fn value(&mut self, inputs: &Inputs) -> (r: Option<i64>) {
        inputs.gamepad_button_value(*self)
    }
}

/// A gamepad axis reports its value on the first gamepad that has one.
impl AxisBinding for GamepadAxis {
    open spec fn valid(&self) -> bool {
        true
    }

    open spec fn reading(&self, inputs: &Inputs) -> Option<i64> {
        first_axis_value(inputs.gamepads@, self.0)
    }

    open spec fn advances_to(&self, inputs: &Inputs, after: &Self) -> bool {
        *after == *self
    }

    fn value(&mut self, inputs: &Inputs) -> (r: Option<i64>) {
        inputs.gamepad_axis_value(*self)
    }
}

/// The sum of the horizontal movements in `motions`.
pub open spec fn total_x(motions: Seq<MouseMotion>) -> int
    decreases motions.len(),
{
    if motions.len() == 0 {
        0
    } else {
        total_x(motions.drop_last()) + motions.last().delta_x
    }
}

/// The sum of the vertical movements in `motions`.
pub open spec fn total_y(motions: Seq<MouseMotion>) -> int
    decreases motions.len(),
{
    if motions.len() == 0 {
        0
    } else {
        total_y(motions.drop_last()) + motions.last().delta_y
    }
}

/// What one scroll event counts in pixels, a line being `px_per_line` pixels.
pub open spec fn scroll_pixels(event: MouseScroll, px_per_line: i64) -> i64 {
    match event.unit {
        MouseScrollUnit::Line => times(event.y, px_per_line),
        MouseScrollUnit::Pixel => event.y,
    }
}

/// The sum of what the scroll events in `events` count in pixels.
pub open spec fn total_scroll(events: Seq<MouseScroll>, px_per_line: i64) -> int
    decreases events.len(),
{
    if events.len() == 0 {
        0
    } else {
        total_scroll(events.drop_last(), px_per_line) + scroll_pixels(events.last(), px_per_line)
    }
}

/// A sum of `n` values of 64 bits lies within `n` times their range.
pub open spec fn within_span(total: int, n: int) -> bool {
    -0x8000_0000_0000_0000 * n <= total <= 0x8000_0000_0000_0000 * n
}

/// The horizontal movement of the mouse in this tick.
#[derive(Clone, Copy)]
pub struct MouseX;

impl AxisBinding for MouseX {
    open spec fn valid(&self) -> bool {
        true
    }

    open spec fn reading(&self, inputs: &Inputs) -> Option<i64> {
        if inputs.mouse_motion@.len() == 0 {
            None
        } else {
            Some(saturated(total_x(inputs.mouse_motion@)))
        }
    }

    open spec fn advances_to(&self, inputs: &Inputs, after: &Self) -> bool {
        true
    }

    fn value(&mut self, inputs: &Inputs) -> (r: Option<i64>) {
        if inputs.mouse_motion.len() == 0 {
            return None;
        }
        let mut total: i128 = 0;
        let mut i: usize = 0;
        while i < inputs.mouse_motion.len()
            invariant
                i <= inputs.mouse_motion.len(),
                total == total_x(inputs.mouse_motion@.take(i as int)),
                within_span(total as int, i as int),
            decreases inputs.mouse_motion.len() - i,
        {
            assert(inputs.mouse_motion@.take(i + 1).drop_last() =~= inputs.mouse_motion@.take(
                i as int,
            ));
            total = total + inputs.mouse_motion[i].delta_x as i128;
            i += 1;
        }
        assert(inputs.mouse_motion@.take(i as int) =~= inputs.mouse_motion@);
        Some(saturate(total))
    }
}

/// The vertical movement of the mouse in this tick.
#[derive(Clone, Copy)]
pub struct MouseY;

impl AxisBinding for MouseY {
    open spec fn valid(&self) -> bool {
        true
    }

    open spec fn reading(&self, inputs: &Inputs) -> Option<i64> {
        if inputs.mouse_motion@.len() == 0 {
            None
        } else {
            Some(saturated(total_y(inputs.mouse_motion@)))
        }
    }

    open spec fn advances_to(&self, inputs: &Inputs, after: &Self) -> bool {
        true
    }

    fn value(&mut self, inputs: &Inputs) -> (r: Option<i64>) {
        if inputs.mouse_motion.len() == 0 {
            return None;
        }
        let mut total: i128 = 0;
        let mut i: usize = 0;
        while i < inputs.mouse_motion.len()
            invariant
                i <= inputs.mouse_motion.len(),
                total == total_y(inputs.mouse_motion@.take(i as int)),
                within_span(total as int, i as int),
            decreases inputs.mouse_motion.len() - i,
        {
            assert(inputs.mouse_motion@.take(i + 1).drop_last() =~= inputs.mouse_motion@.take(
                i as int,
            ));
            total = total + inputs.mouse_motion[i].delta_y as i128;
            i += 1;
        }
        assert(inputs.mouse_motion@.take(i as int) =~= inputs.mouse_motion@);
        Some(saturate(total))
    }
}

/// The vertical scroll of the mouse wheel in this tick, in pixels.
#[derive(Clone, Copy)]
pub struct MouseWheel {
    /// How many pixels one scrolled line counts.
    pub px_per_line: i64,
}

impl Default for MouseWheel {
    /// Sixteen pixels to the line.
    fn default() -> (r: Self)
        ensures
            r.px_per_line == 16 * ONE,
    {
        MouseWheel { px_per_line: 16_000_000 }
    }
}

impl AxisBinding for MouseWheel {
    open spec fn valid(&self) -> bool {
        true
    }

    open spec fn reading(&self, inputs: &Inputs) -> Option<i64> {
        if inputs.mouse_wheel@.len() == 0 {
            None
        } else {
            Some(saturated(total_scroll(inputs.mouse_wheel@, self.px_per_line)))
        }
    }

    open spec fn advances_to(&self, inputs: &Inputs, after: &Self) -> bool {
        *after == *self
    }

    fn value(&mut self, inputs: &Inputs) -> (r: Option<i64>) {
        if inputs.mouse_wheel.len() == 0 {
            return None;
        }
        let mut total: i128 = 0;
        let mut i: usize = 0;
        while i < inputs.mouse_wheel.len()
            invariant
                i <= inputs.mouse_wheel.len(),
                total == total_scroll(inputs.mouse_wheel@.take(i as int), self.px_per_line),
                within_span(total as int, i as int),
                *self == *old(self),
            decreases inputs.mouse_wheel.len() - i,
        {
            assert(inputs.mouse_wheel@.take(i + 1).drop_last() =~= inputs.mouse_wheel@.take(
                i as int,
            ));
            let event = &inputs.mouse_wheel[i];
            let pixels = match event.unit {
                MouseScrollUnit::Line => product(event.y, self.px_per_line),
                MouseScrollUnit::Pixel => event.y,
            };
            total = total + pixels as i128;
            i += 1;
        }
        assert(inputs.mouse_wheel@.take(i as int) =~= inputs.mouse_wheel@);
        Some(saturate(total))
    }
}

/// A boxed binding behaves as the binding in the box.
impl<A: AxisBinding> AxisBinding for Box<A> {
    open spec fn valid(&self) -> bool {
        (**self).valid()
    }

    open spec fn reading(&self, inputs: &Inputs) -> Option<i64> {
        (**self).reading(inputs)
    }

    open spec fn advances_to(&self, inputs: &Inputs, after: &Self) -> bool {
        (**self).advances_to(inputs, &**after)
    }

    fn value(&mut self, inputs: &Inputs) -> (r: Option<i64>) {
        (**self).value(inputs)
    }
}

} // verus!
