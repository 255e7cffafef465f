//! Modifiers of a single trigger binding.

use crate::inputs::Inputs;
use crate::trigger::TriggerBinding;
use vstd::prelude::*;

verus! {

/// A modifier that inverts each of the three answers of a binding.
///
/// The edges are negated as they stand: `Not(a)` reports "just pressed" in
/// every tick in which `a` does not, whether or not `a` changed.
#[derive(Clone, Copy)]
pub struct Not<T: TriggerBinding>(pub T);

impl<T: TriggerBinding> TriggerBinding for Not<T> {
    open spec fn is_pressed(&self, inputs: &Inputs) -> bool {
        !self.0.is_pressed(inputs)
    }

    open spec fn is_just_pressed(&self, inputs: &Inputs) -> bool {
        !self.0.is_just_pressed(inputs)
    }

    open spec fn is_just_released(&self, inputs: &Inputs) -> bool {
        !self.0.is_just_released(inputs)
    }

    fn pressed(&self, inputs: &Inputs) -> (r: bool) {
        !self.0.pressed(inputs)
    }

    fn just_pressed(&self, inputs: &Inputs) -> (r: bool) {
        !self.0.just_pressed(inputs)
    }

    fn just_released(&self, inputs: &Inputs) -> (r: bool) {
        !self.0.just_released(inputs)
    }
}

} // verus!
