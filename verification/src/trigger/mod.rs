//! Boolean signals: the binding abstraction and the named trigger.

use crate::inputs::Inputs;
use vstd::prelude::*;

pub mod bindings;
pub mod builder;
pub mod combinators;
pub mod modifiers;
pub mod tuples;

verus! {

/// A source of a boolean signal.
///
/// A binding reports, for the snapshot of one tick, whether it is down and
/// whether it went down or up in that tick. The three answers depend on the
/// snapshot and the binding alone: evaluating a binding leaves no trace.
pub trait TriggerBinding: Sized {
    /// Whether the binding is down in `inputs`.
    spec fn is_pressed(&self, inputs: &Inputs) -> bool;

    /// Whether the binding went down in the tick of `inputs`.
    spec fn is_just_pressed(&self, inputs: &Inputs) -> bool;

    /// Whether the binding went up in the tick of `inputs`.
    spec fn is_just_released(&self, inputs: &Inputs) -> bool;

    fn pressed(&self, inputs: &Inputs) -> (r: bool)
        ensures
            r == self.is_pressed(inputs),
    ;

    fn just_pressed(&self, inputs: &Inputs) -> (r: bool)
        ensures
            r == self.is_just_pressed(inputs),
    ;

    fn just_released(&self, inputs: &Inputs) -> (r: bool)
        ensures
            r == self.is_just_released(inputs),
    ;
}

/// A named trigger: a binding together with what it reported at the last
/// update.
pub struct Trigger<T: TriggerBinding> {
    pressed: bool,
    just_pressed: bool,
    just_released: bool,
    binding: T,
}

impl<T: TriggerBinding> Trigger<T> {
    /// What the trigger shows of its state.
    pub closed spec fn shows(&self) -> (bool, bool, bool) {
        (self.pressed, self.just_pressed, self.just_released)
    }

    /// The binding that the trigger evaluates.
    pub closed spec fn bound(&self) -> T {
        self.binding
    }

    /// A trigger that has not been updated yet: it shows nothing.
    pub fn new(binding: T) -> (r: Self)
        ensures
            r.shows() == (false, false, false),
            r.bound() == binding,
    {
        Trigger { pressed: false, just_pressed: false, just_released: false, binding }
    }

    pub fn pressed(&self) -> (r: bool)
        ensures
            r == self.shows().0,
    {
        self.pressed
    }

    pub fn just_pressed(&self) -> (r: bool)
        ensures
            r == self.shows().1,
    {
        self.just_pressed
    }

    pub fn just_released(&self) -> (r: bool)
        ensures
            r == self.shows().2,
    {
        self.just_released
    }

    pub fn binding(&self) -> (r: &T)
        ensures
            *r == self.bound(),
    {
        &self.binding
    }

    /// Replaces the binding. What the trigger shows stays until the next
    /// update.
    pub fn set_binding(&mut self, binding: T)
        ensures
            final(self).bound() == binding,
            final(self).shows() == old(self).shows(),
    {
        self.binding = binding;
    }

    /// Evaluates the binding on the snapshot of this tick and shows the
    /// result.
    pub fn update(&mut self, inputs: &Inputs)
        ensures
            final(self).bound() == old(self).bound(),
            final(self).shows() == (
                old(self).bound().is_pressed(inputs),
                old(self).bound().is_just_pressed(inputs),
                old(self).bound().is_just_released(inputs),
            ),
    {
        self.pressed = self.binding.pressed(inputs);
        self.just_pressed = self.binding.just_pressed(inputs);
        self.just_released = self.binding.just_released(inputs);
    }
}

/// The per-tick step of a named trigger: evaluates its binding on `inputs`
/// and overwrites what it shows.
pub fn update_trigger<T: TriggerBinding>(trigger: &mut Trigger<T>, inputs: &Inputs)
    ensures
        final(trigger).bound() == old(trigger).bound(),
        final(trigger).shows() == (
            old(trigger).bound().is_pressed(inputs),
            old(trigger).bound().is_just_pressed(inputs),
            old(trigger).bound().is_just_released(inputs),
        ),
{
    trigger.update(inputs);
}

} // verus!
