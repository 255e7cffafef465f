//! Chaining methods that wrap a trigger binding in a combinator or modifier.

use crate::trigger::combinators::And;
use crate::trigger::modifiers::Not;
use crate::trigger::TriggerBinding;
use vstd::prelude::*;

verus! {

pub trait TriggerBindingBuilder: TriggerBinding + Sized {
    /// A binding that is down only while both this and `other` are down.
    fn and<TB: TriggerBinding>(self, other: TB) -> (r: And<Self, TB>)
        ensures
            r == And(self, other),
    {
        And(self, other)
    }

    /// A binding that inverts this one.
    fn not(self) -> (r: Not<Self>)
        ensures
            r == Not(self),
    {
        Not(self)
    }
}

impl<T: TriggerBinding> TriggerBindingBuilder for T {
}

} // verus!
