//! Continuous signals: the binding abstraction and the named axis.
//!
//! An axis value is a fixed-point number (see [`crate::fixed`]). A binding
//! may report no value at all for a tick, which is not the same as zero.

use crate::inputs::Inputs;
use vstd::prelude::*;

pub mod bindings;
pub mod builder;
pub mod combinators;
pub mod filters;
pub mod modifiers;
pub mod tuples;

verus! {

/// A source of a continuous signal.
///
/// Evaluating a binding may change it: a filter remembers what it last
/// reported. So a binding is evaluated once per tick, and its contract says
/// both what it reports and what it turns into.
pub trait AxisBinding: Sized {
    /// Whether the binding can be evaluated. Evaluation keeps it.
    spec fn valid(&self) -> bool;

    /// What the binding, as it stands, reports for `inputs`.
    spec fn reading(&self, inputs: &Inputs) -> Option<i64>;

    /// Whether `after` is what one evaluation on `inputs` turns the binding
    /// into.
    spec fn advances_to(&self, inputs: &Inputs, after: &Self) -> bool;

    fn value(&mut self, inputs: &Inputs) -> (r: Option<i64>)
        requires
            old(self).valid(),
        ensures
            r == old(self).reading(inputs),
            old(self).advances_to(inputs, final(self)),
            final(self).valid(),
    ;
}

/// The value of a reading that counts as zero when there is none.
pub open spec fn or_zero(reading: Option<i64>) -> i64 {
    match reading {
        Some(v) => v,
        None => 0,
    }
}

/// A named axis: a binding together with the value it reported at the last
/// update.
pub struct Axis<A: AxisBinding> {
    value: i64,
    binding: A,
}

impl<A: AxisBinding> Axis<A> {
    /// The value that the axis shows.
    pub closed spec fn shows(&self) -> i64 {
        self.value
    }

    /// The binding that the axis evaluates.
    pub closed spec fn bound(&self) -> A {
        self.binding
    }

    /// An axis that has not been updated yet: it shows zero.
    pub fn new(binding: A) -> (r: Self)
        ensures
            r.shows() == 0,
            r.bound() == binding,
    {
        Axis { value: 0, binding }
    }

    /// The value of the axis at the last update.
    pub fn value(&self) -> (r: i64)
        ensures
            r == self.shows(),
    {
        self.value
    }

    pub fn binding(&self) -> (r: &A)
        ensures
            *r == self.bound(),
    {
        &self.binding
    }

    /// Replaces the binding, and with it whatever the old one remembered.
    /// The value that the axis shows stays until the next update.
    pub fn set_binding(&mut self, binding: A)
        ensures
            final(self).bound() == binding,
            final(self).shows() == old(self).shows(),
    {
        self.binding = binding;
    }

    /// Evaluates the binding once on the snapshot of this tick and shows the
    /// result, zero where the binding reports no value.
    pub fn update(&mut self, inputs: &Inputs)
        requires
            old(self).bound().valid(),
        ensures
            final(self).shows() == or_zero(old(self).bound().reading(inputs)),
            old(self).bound().advances_to(inputs, &final(self).bound()),
            final(self).bound().valid(),
    {
        let reading = self.binding.value(inputs);
        self.value = match reading {
            Some(v) => v,
            None => 0,
        };
    }
}

/// The per-tick step of a named axis: evaluates its binding once on `inputs`
/// and overwrites the value it shows.
pub fn update_axis<A: AxisBinding>(axis: &mut Axis<A>, inputs: &Inputs)
    requires
        old(axis).bound().valid(),
    ensures
        final(axis).shows() == or_zero(old(axis).bound().reading(inputs)),
        old(axis).bound().advances_to(inputs, &final(axis).bound()),
        final(axis).bound().valid(),
{
    axis.update(inputs);
}

} // verus!
