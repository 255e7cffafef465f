//! The snapshot of raw device state that bindings are evaluated against.
//!
//! The host fills one `Inputs` per tick and hands it, unchanged, to every
//! named signal that it updates in that tick.

use vstd::prelude::*;

verus! {

/// A key of the keyboard, by its code.
#[derive(Clone, Copy, PartialEq, Eq, Structural, Debug)]
pub struct KeyCode(pub u32);

/// A button of the mouse, by its code.
#[derive(Clone, Copy, PartialEq, Eq, Structural, Debug)]
pub struct MouseButton(pub u32);

/// A button of a gamepad, by its code.
#[derive(Clone, Copy, PartialEq, Eq, Structural, Debug)]
pub struct GamepadButton(pub u32);

/// An axis of a gamepad, by its code.
#[derive(Clone, Copy, PartialEq, Eq, Structural, Debug)]
pub struct GamepadAxis(pub u32);

/// The unit in which a scroll event counts.
#[derive(Clone, Copy, PartialEq, Eq, Structural, Debug)]
pub enum MouseScrollUnit {
    Line,
    Pixel,
}

/// One movement of the mouse, in fixed-point pixels.
#[derive(Clone, Copy, Debug)]
pub struct MouseMotion {
    pub delta_x: i64,
    pub delta_y: i64,
}

/// One scroll event, in fixed-point lines or pixels.
#[derive(Clone, Copy, Debug)]
pub struct MouseScroll {
    pub unit: MouseScrollUnit,
    pub x: i64,
    pub y: i64,
}

/// The buttons of one device that are down, and those that went down or up
/// in this tick.
#[derive(Clone, Debug)]
pub struct ButtonInput {
    pub pressed: Vec<u32>,
    pub just_pressed: Vec<u32>,
    pub just_released: Vec<u32>,
}

/// One connected gamepad: its buttons, and the analog values that its
/// buttons and axes report.
#[derive(Clone, Debug)]
pub struct Gamepad {
    pub buttons: ButtonInput,
    pub button_values: Vec<(u32, i64)>,
    pub axis_values: Vec<(u32, i64)>,
}

/// The raw device state of one tick.
#[derive(Clone, Debug)]
pub struct Inputs {
    pub keycodes: ButtonInput,
    pub mouse_buttons: ButtonInput,
    pub mouse_motion: Vec<MouseMotion>,
    pub mouse_wheel: Vec<MouseScroll>,
    pub gamepads: Vec<Gamepad>,
    /// The time since the previous tick, in millionths of a second.
    pub delta: u64,
}

/// The value of the first entry of `entries` whose code is `code`.
pub open spec fn first_value(entries: Seq<(u32, i64)>, code: u32) -> Option<i64>
    decreases entries.len(),
{
    if entries.len() == 0 {
        None
    } else {
        match first_value(entries.drop_last(), code) {
            Some(v) => Some(v),
            None => if entries.last().0 == code {
                Some(entries.last().1)
            } else {
                None
            },
        }
    }
}

/// The analog value of the button `code` on the first gamepad that reports one.
pub open spec fn first_button_value(pads: Seq<Gamepad>, code: u32) -> Option<i64>
    decreases pads.len(),
{
    if pads.len() == 0 {
        None
    } else {
        match first_button_value(pads.drop_last(), code) {
            Some(v) => Some(v),
            None => first_value(pads.last().button_values@, code),
        }
    }
}

/// The value of the axis `code` on the first gamepad that reports one.
pub open spec fn first_axis_value(pads: Seq<Gamepad>, code: u32) -> Option<i64>
    decreases pads.len(),
{
    if pads.len() == 0 {
        None
    } else {
        match first_axis_value(pads.drop_last(), code) {
            Some(v) => Some(v),
            None => first_value(pads.last().axis_values@, code),
        }
    }
}

/// Whether `code` occurs in `codes`.
pub fn holds(codes: &Vec<u32>, code: u32) -> (r: bool)
    ensures
        r == codes@.contains(code),
{
    let mut i: usize = 0;
    while i < codes.len()
        invariant
            i <= codes.len(),
            forall|j: int| 0 <= j < i ==> codes@[j] != code,
        decreases codes.len() - i,
    {
        if codes[i] == code {
            return true;
        }
        i += 1;
    }
    false
}

/// The value of the first entry of `entries` whose code is `code`.
pub fn lookup(entries: &Vec<(u32, i64)>, code: u32) -> (r: Option<i64>)
    ensures
        r == first_value(entries@, code),
{
    let mut i: usize = 0;
    while i < entries.len()
        invariant
            i <= entries.len(),
            first_value(entries@.take(i as int), code) is None,
        decreases entries.len() - i,
    {
        assert(entries@.take(i + 1).drop_last() =~= entries@.take(i as int));
        if entries[i].0 == code {
            let found = entries[i].1;
            proof {
                lemma_first_value_extends(entries@, code, i + 1);
            }
            return Some(found);
        }
        i += 1;
    }
    assert(entries@.take(i as int) =~= entries@);
    None
}

/// A value found among the first `n` entries is the value found among all.
pub proof fn lemma_first_value_extends(entries: Seq<(u32, i64)>, code: u32, n: int)
    requires
        0 <= n <= entries.len(),
        first_value(entries.take(n), code) is Some,
    ensures
        first_value(entries, code) == first_value(entries.take(n), code),
    decreases entries.len() - n,
{
    if n == entries.len() {
        assert(entries.take(n) =~= entries);
    } else {
        assert(entries.take(n + 1).drop_last() =~= entries.take(n));
        lemma_first_value_extends(entries, code, n + 1);
    }
}

/// A button value found on the first `n` gamepads is the one found on all.
pub proof fn lemma_first_button_value_extends(pads: Seq<Gamepad>, code: u32, n: int)
    requires
        0 <= n <= pads.len(),
        first_button_value(pads.take(n), code) is Some,
    ensures
        first_button_value(pads, code) == first_button_value(pads.take(n), code),
    decreases pads.len() - n,
{
    if n == pads.len() {
        assert(pads.take(n) =~= pads);
    } else {
        assert(pads.take(n + 1).drop_last() =~= pads.take(n));
        lemma_first_button_value_extends(pads, code, n + 1);
    }
}

/// An axis value found on the first `n` gamepads is the one found on all.
pub proof fn lemma_first_axis_value_extends(pads: Seq<Gamepad>, code: u32, n: int)
    requires
        0 <= n <= pads.len(),
        first_axis_value(pads.take(n), code) is Some,
    ensures
        first_axis_value(pads, code) == first_axis_value(pads.take(n), code),
    decreases pads.len() - n,
{
    if n == pads.len() {
        assert(pads.take(n) =~= pads);
    } else {
        assert(pads.take(n + 1).drop_last() =~= pads.take(n));
        lemma_first_axis_value_extends(pads, code, n + 1);
    }
}

impl ButtonInput {
    /// No button down, none changed.
    pub fn new() -> (r: Self)
        ensures
            r.pressed@.len() == 0,
            r.just_pressed@.len() == 0,
            r.just_released@.len() == 0,
    {
        ButtonInput { pressed: Vec::new(), just_pressed: Vec::new(), just_released: Vec::new() }
    }

    pub open spec fn is_pressed(&self, code: u32) -> bool {
        self.pressed@.contains(code)
    }

    pub open spec fn is_just_pressed(&self, code: u32) -> bool {
        self.just_pressed@.contains(code)
    }

    pub open spec fn is_just_released(&self, code: u32) -> bool {
        self.just_released@.contains(code)
    }

    /// Whether the button is down.
    pub fn pressed(&self, code: u32) -> (r: bool)
        ensures
            r == self.is_pressed(code),
    {
        holds(&self.pressed, code)
    }

    /// Whether the button went down in this tick.
    pub fn just_pressed(&self, code: u32) -> (r: bool)
        ensures
            r == self.is_just_pressed(code),
    {
        holds(&self.just_pressed, code)
    }

    /// Whether the button went up in this tick.
    pub fn just_released(&self, code: u32) -> (r: bool)
        ensures
            r == self.is_just_released(code),
    {
        holds(&self.just_released, code)
    }
}

impl Gamepad {
    /// A gamepad that reports nothing.
    pub fn new() -> (r: Self)
        ensures
            r.buttons.pressed@.len() == 0,
            r.buttons.just_pressed@.len() == 0,
            r.buttons.just_released@.len() == 0,
            r.button_values@.len() == 0,
            r.axis_values@.len() == 0,
    {
        Gamepad { buttons: ButtonInput::new(), button_values: Vec::new(), axis_values: Vec::new() }
    }

    /// The analog value of a button, if the gamepad reports one.
    pub fn button_value(&self, button: GamepadButton) -> (r: Option<i64>)
        ensures
            r == first_value(self.button_values@, button.0),
    {
        lookup(&self.button_values, button.0)
    }

    /// The value of an axis, if the gamepad reports one.
    pub fn axis_value(&self, axis: GamepadAxis) -> (r: Option<i64>)
        ensures
            r == first_value(self.axis_values@, axis.0),
    {
        lookup(&self.axis_values, axis.0)
    }
}

impl Inputs {
    /// A tick in which no device reports anything and no time has passed.
    pub fn new() -> (r: Self)
        ensures
            r.keycodes.pressed@.len() == 0,
            r.keycodes.just_pressed@.len() == 0,
            r.keycodes.just_released@.len() == 0,
            r.mouse_buttons.pressed@.len() == 0,
            r.mouse_buttons.just_pressed@.len() == 0,
            r.mouse_buttons.just_released@.len() == 0,
            r.mouse_motion@.len() == 0,
            r.mouse_wheel@.len() == 0,
            r.gamepads@.len() == 0,
            r.delta == 0,
    {
        Inputs {
            keycodes: ButtonInput::new(),
            mouse_buttons: ButtonInput::new(),
            mouse_motion: Vec::new(),
            mouse_wheel: Vec::new(),
            gamepads: Vec::new(),
            delta: 0,
        }
    }

    /// The time since the previous tick as a fixed-point number of seconds.
    pub open spec fn elapsed(&self) -> i64 {
        if self.delta > i64::MAX {
            i64::MAX
        } else {
            self.delta as i64
        }
    }

    /// Whether any gamepad has the button down.
    pub open spec fn any_gamepad_pressed(&self, code: u32) -> bool {
        exists|i: int|
            0 <= i < self.gamepads@.len() && (#[trigger] self.gamepads@[i]).buttons.is_pressed(code)
    }

    /// Whether the button went down on any gamepad in this tick.
    pub open spec fn any_gamepad_just_pressed(&self, code: u32) -> bool {
        exists|i: int|
            0 <= i < self.gamepads@.len() && (#[trigger] self.gamepads@[i]).buttons.is_just_pressed(
                code,
            )
    }

    /// Whether the button went up on any gamepad in this tick.
    pub open spec fn any_gamepad_just_released(&self, code: u32) -> bool {
        exists|i: int|
            0 <= i < self.gamepads@.len() && (#[trigger] self.gamepads@[i]).buttons.is_just_released(
                code,
            )
    }

    /// The time since the previous tick as a fixed-point number of seconds.
    pub fn delta_secs(&self) -> (r: i64)
        ensures
            r == self.elapsed(),
    {
        if self.delta > i64::MAX as u64 {
            i64::MAX
        } else {
            self.delta as i64
        }
    }

    /// Whether any gamepad has the button down.
    pub fn gamepad_pressed(&self, button: GamepadButton) -> (r: bool)
        ensures
            r == self.any_gamepad_pressed(button.0),
    {
        let mut i: usize = 0;
        while i < self.gamepads.len()
            invariant
                i <= self.gamepads.len(),
                forall|j: int| 0 <= j < i ==> !(#[trigger] self.gamepads@[j]).buttons.is_pressed(button.0),
            decreases self.gamepads.len() - i,
        {
            if self.gamepads[i].buttons.pressed(button.0) {
                return true;
            }
            i += 1;
        }
        false
    }

    /// Whether the button went down on any gamepad in this tick.
    pub fn gamepad_just_pressed(&self, button: GamepadButton) -> (r: bool)
        ensures
            r == self.any_gamepad_just_pressed(button.0),
    {
        let mut i: usize = 0;
        while i < self.gamepads.len()
            invariant
                i <= self.gamepads.len(),
                forall|j: int|
                    0 <= j < i ==> !(#[trigger] self.gamepads@[j]).buttons.is_just_pressed(button.0),
            decreases self.gamepads.len() - i,
        {
            if self.gamepads[i].buttons.just_pressed(button.0) {
                return true;
            }
            i += 1;
        }
        false
    }

    /// Whether the button went up on any gamepad in this tick.
    pub fn gamepad_just_released(&self, button: GamepadButton) -> (r: bool)
        ensures
            r == self.any_gamepad_just_released(button.0),
    {
        let mut i: usize = 0;
        while i < self.gamepads.len()
            invariant
                i <= self.gamepads.len(),
                forall|j: int|
                    0 <= j < i ==> !(#[trigger] self.gamepads@[j]).buttons.is_just_released(button.0),
            decreases self.gamepads.len() - i,
        {
            if self.gamepads[i].buttons.just_released(button.0) {
                return true;
            }
            i += 1;
        }
        false
    }

    /// The analog value of the button on the first gamepad that reports one.
    pub fn gamepad_button_value(&self, button: GamepadButton) -> (r: Option<i64>)
        ensures
            r == first_button_value(self.gamepads@, button.0),
    {
        let mut i: usize = 0;
        while i < self.gamepads.len()
            invariant
                i <= self.gamepads.len(),
                first_button_value(self.gamepads@.take(i as int), button.0) is None,
            decreases self.gamepads.len() - i,
        {
            assert(self.gamepads@.take(i + 1).drop_last() =~= self.gamepads@.take(i as int));
            let found = self.gamepads[i].button_value(button);
            if found.is_some() {
                proof {
                    lemma_first_button_value_extends(self.gamepads@, button.0, i + 1);
                }
                return found;
            }
            i += 1;
        }
        assert(self.gamepads@.take(i as int) =~= self.gamepads@);
        None
    }

    /// The value of the axis on the first gamepad that reports one.
    pub fn gamepad_axis_value(&self, axis: GamepadAxis) -> (r: Option<i64>)
        ensures
            r == first_axis_value(self.gamepads@, axis.0),
    {
        let mut i: usize = 0;
        while i < self.gamepads.len()
            invariant
                i <= self.gamepads.len(),
                first_axis_value(self.gamepads@.take(i as int), axis.0) is None,
            decreases self.gamepads.len() - i,
        {
            assert(self.gamepads@.take(i + 1).drop_last() =~= self.gamepads@.take(i as int));
            let found = self.gamepads[i].axis_value(axis);
            if found.is_some() {
                proof {
                    lemma_first_axis_value_extends(self.gamepads@, axis.0, i + 1);
                }
                return found;
            }
            i += 1;
        }
        assert(self.gamepads@.take(i as int) =~= self.gamepads@);
        None
    }
}

} // verus!
