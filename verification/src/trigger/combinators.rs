//! Combinations of several trigger bindings.

use crate::inputs::Inputs;
use crate::trigger::TriggerBinding;
use vstd::prelude::*;

verus! {

/// A combinator that is down only while both of its bindings are down.
///
/// It reports an edge in the tick in which the conjunction changes: "just
/// pressed" when either binding went down and both are now down, "just
/// released" when either went up and the two are no longer both down.
#[derive(Clone, Copy)]
pub struct And<T1: TriggerBinding, T2: TriggerBinding>(pub T1, pub T2);

impl<T1: TriggerBinding, T2: TriggerBinding> TriggerBinding for And<T1, T2> {
    open spec fn is_pressed(&self, inputs: &Inputs) -> bool {
        self.0.is_pressed(inputs) && self.1.is_pressed(inputs)
    }

    open spec fn is_just_pressed(&self, inputs: &Inputs) -> bool {
        self.is_pressed(inputs) && (self.0.is_just_pressed(inputs) || self.1.is_just_pressed(
            inputs,
        ))
    }

    open spec fn is_just_released(&self, inputs: &Inputs) -> bool {
        !self.is_pressed(inputs) && (self.0.is_just_released(inputs) || self.1.is_just_released(
            inputs,
        ))
    }

    fn pressed(&self, inputs: &Inputs) -> (r: bool) {
        self.0.pressed(inputs) && self.1.pressed(inputs)
    }

    fn just_pressed(&self, inputs: &Inputs) -> (r: bool) {
        let is_pressed = self.pressed(inputs);
        let was_pressed = self.0.just_pressed(inputs) || self.1.just_pressed(inputs);
        is_pressed && was_pressed
    }

    fn just_released(&self, inputs: &Inputs) -> (r: bool) {
        let is_released = !self.pressed(inputs);
        let was_released = self.0.just_released(inputs) || self.1.just_released(inputs);
        is_released && was_released
    }
}

/// A conjunction reports "just pressed" exactly in a tick in which both of
/// its bindings are down and at least one of them went down, and "just
/// released" exactly in a tick in which they are not both down and at least
/// one of them went up.
pub proof fn lemma_and_edges<T1: TriggerBinding, T2: TriggerBinding>(
    both: And<T1, T2>,
    inputs: &Inputs,
)
    ensures
        both.is_just_pressed(inputs) <==> both.0.is_pressed(inputs) && both.1.is_pressed(inputs)
            && (both.0.is_just_pressed(inputs) || both.1.is_just_pressed(inputs)),
        both.is_just_released(inputs) <==> !(both.0.is_pressed(inputs) && both.1.is_pressed(
            inputs,
        )) && (both.0.is_just_released(inputs) || both.1.is_just_released(inputs)),
        both.is_just_pressed(inputs) ==> both.is_pressed(inputs),
        both.is_just_released(inputs) ==> !both.is_pressed(inputs),
{
}

/// Whether any binding of `bindings` is down.
pub open spec fn any_pressed<T: TriggerBinding>(bindings: Seq<T>, inputs: &Inputs) -> bool {
    exists|i: int| 0 <= i < bindings.len() && (#[trigger] bindings[i]).is_pressed(inputs)
}

/// Whether any binding of `bindings` went down.
pub open spec fn any_just_pressed<T: TriggerBinding>(bindings: Seq<T>, inputs: &Inputs) -> bool {
    exists|i: int| 0 <= i < bindings.len() && (#[trigger] bindings[i]).is_just_pressed(inputs)
}

/// Whether any binding of `bindings` went up.
pub open spec fn any_just_released<T: TriggerBinding>(bindings: Seq<T>, inputs: &Inputs) -> bool {
    exists|i: int| 0 <= i < bindings.len() && (#[trigger] bindings[i]).is_just_released(inputs)
}

/// A list of bindings is down when any of them is, and reports an edge when
/// any of them does.
impl<T: TriggerBinding> TriggerBinding for Vec<T> {
    open spec fn is_pressed(&self, inputs: &Inputs) -> bool {
        any_pressed(self@, inputs)
    }

    open spec fn is_just_pressed(&self, inputs: &Inputs) -> bool {
        any_just_pressed(self@, inputs)
    }

    open spec fn is_just_released(&self, inputs: &Inputs) -> bool {
        any_just_released(self@, inputs)
    }

    fn pressed(&self, inputs: &Inputs) -> (r: bool) {
        let mut i: usize = 0;
        while i < self.len()
            invariant
                i <= self.len(),
                forall|j: int| 0 <= j < i ==> !(#[trigger] self@[j]).is_pressed(inputs),
            decreases self.len() - i,
        {
            if self[i].pressed(inputs) {
                return true;
            }
            i += 1;
        }
        false
    }

    fn just_pressed(&self, inputs: &Inputs) -> (r: bool) {
        let mut i: usize = 0;
        while i < self.len()
            invariant
                i <= self.len(),
                forall|j: int| 0 <= j < i ==> !(#[trigger] self@[j]).is_just_pressed(inputs),
            decreases self.len() - i,
        {
            if self[i].just_pressed(inputs) {
                return true;
            }
            i += 1;
        }
        false
    }

    fn just_released(&self, inputs: &Inputs) -> (r: bool) {
        let mut i: usize = 0;
        while i < self.len()
            invariant
                i <= self.len(),
                forall|j: int| 0 <= j < i ==> !(#[trigger] self@[j]).is_just_released(inputs),
            decreases self.len() - i,
        {
            if self[i].just_released(inputs) {
                return true;
            }
            i += 1;
        }
        false
    }
}

} // verus!
