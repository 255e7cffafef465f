//! Tuples of trigger bindings.
//!
//! A tuple of two to ten bindings is down when any of its members is, and
//! reports an edge when any of them does.

use crate::inputs::Inputs;
use crate::trigger::TriggerBinding;
use vstd::prelude::*;

verus! {

impl<T0: TriggerBinding, T1: TriggerBinding> TriggerBinding for (T0, T1) {
    open spec fn is_pressed(&self, inputs: &Inputs) -> bool {
        self.0.is_pressed(inputs)
            || self.1.is_pressed(inputs)
    }

    open spec fn is_just_pressed(&self, inputs: &Inputs) -> bool {
        self.0.is_just_pressed(inputs)
            || self.1.is_just_pressed(inputs)
    }

    open spec fn is_just_released(&self, inputs: &Inputs) -> bool {
        self.0.is_just_released(inputs)
            || self.1.is_just_released(inputs)
    }

    fn pressed(&self, inputs: &Inputs) -> (r: bool) {
        self.0.pressed(inputs)
            || self.1.pressed(inputs)
    }

    fn just_pressed(&self, inputs: &Inputs) -> (r: bool) {
        self.0.just_pressed(inputs)
            || self.1.just_pressed(inputs)
    }

    fn just_released(&self, inputs: &Inputs) -> (r: bool) {
        self.0.just_released(inputs)
            || self.1.just_released(inputs)
    }
}

impl<T0: TriggerBinding, T1: TriggerBinding, T2: TriggerBinding> TriggerBinding for (T0, T1, T2) {
    open spec fn is_pressed(&self, inputs: &Inputs) -> bool {
        self.0.is_pressed(inputs)
            || self.1.is_pressed(inputs)
            || self.2.is_pressed(inputs)
    }

    open spec fn is_just_pressed(&self, inputs: &Inputs) -> bool {
        self.0.is_just_pressed(inputs)
            || self.1.is_just_pressed(inputs)
            || self.2.is_just_pressed(inputs)
    }

    open spec fn is_just_released(&self, inputs: &Inputs) -> bool {
        self.0.is_just_released(inputs)
            || self.1.is_just_released(inputs)
            || self.2.is_just_released(inputs)
    }

    fn pressed(&self, inputs: &Inputs) -> (r: bool) {
        self.0.pressed(inputs)
            || self.1.pressed(inputs)
            || self.2.pressed(inputs)
    }

    fn just_pressed(&self, inputs: &Inputs) -> (r: bool) {
        self.0.just_pressed(inputs)
            || self.1.just_pressed(inputs)
            || self.2.just_pressed(inputs)
    }

    fn just_released(&self, inputs: &Inputs) -> (r: bool) {
        self.0.just_released(inputs)
            || self.1.just_released(inputs)
            || self.2.just_released(inputs)
    }
}

impl<T0: TriggerBinding, T1: TriggerBinding, T2: TriggerBinding, T3: TriggerBinding> TriggerBinding for (T0, T1, T2, T3) {
    open spec fn is_pressed(&self, inputs: &Inputs) -> bool {
        self.0.is_pressed(inputs)
            || self.1.is_pressed(inputs)
            || self.2.is_pressed(inputs)
            || self.3.is_pressed(inputs)
    }

    open spec fn is_just_pressed(&self, inputs: &Inputs) -> bool {
        self.0.is_just_pressed(inputs)
            || self.1.is_just_pressed(inputs)
            || self.2.is_just_pressed(inputs)
            || self.3.is_just_pressed(inputs)
    }

    open spec fn is_just_released(&self, inputs: &Inputs) -> bool {
        self.0.is_just_released(inputs)
            || self.1.is_just_released(inputs)
            || self.2.is_just_released(inputs)
            || self.3.is_just_released(inputs)
    }

    fn pressed(&self, inputs: &Inputs) -> (r: bool) {
        self.0.pressed(inputs)
            || self.1.pressed(inputs)
            || self.2.pressed(inputs)
            || self.3.pressed(inputs)
    }

    fn just_pressed(&self, inputs: &Inputs) -> (r: bool) {
        self.0.just_pressed(inputs)
            || self.1.just_pressed(inputs)
            || self.2.just_pressed(inputs)
            || self.3.just_pressed(inputs)
    }

    fn just_released(&self, inputs: &Inputs) -> (r: bool) {
        self.0.just_released(inputs)
            || self.1.just_released(inputs)
            || self.2.just_released(inputs)
            || self.3.just_released(inputs)
    }
}

impl<T0: TriggerBinding, T1: TriggerBinding, T2: TriggerBinding, T3: TriggerBinding, T4: TriggerBinding> TriggerBinding for (T0, T1, T2, T3, T4) {
    open spec fn is_pressed(&self, inputs: &Inputs) -> bool {
        self.0.is_pressed(inputs)
            || self.1.is_pressed(inputs)
            || self.2.is_pressed(inputs)
            || self.3.is_pressed(inputs)
            || self.4.is_pressed(inputs)
    }

    open spec fn is_just_pressed(&self, inputs: &Inputs) -> bool {
        self.0.is_just_pressed(inputs)
            || self.1.is_just_pressed(inputs)
            || self.2.is_just_pressed(inputs)
            || self.3.is_just_pressed(inputs)
            || self.4.is_just_pressed(inputs)
    }

    open spec fn is_just_released(&self, inputs: &Inputs) -> bool {
        self.0.is_just_released(inputs)
            || self.1.is_just_released(inputs)
            || self.2.is_just_released(inputs)
            || self.3.is_just_released(inputs)
            || self.4.is_just_released(inputs)
    }

    fn pressed(&self, inputs: &Inputs) -> (r: bool) {
        self.0.pressed(inputs)
            || self.1.pressed(inputs)
            || self.2.pressed(inputs)
            || self.3.pressed(inputs)
            || self.4.pressed(inputs)
    }

    fn just_pressed(&self, inputs: &Inputs) -> (r: bool) {
        self.0.just_pressed(inputs)
            || self.1.just_pressed(inputs)
            || self.2.just_pressed(inputs)
            || self.3.just_pressed(inputs)
            || self.4.just_pressed(inputs)
    }

    fn just_released(&self, inputs: &Inputs) -> (r: bool) {
        self.0.just_released(inputs)
            || self.1.just_released(inputs)
            || self.2.just_released(inputs)
            || self.3.just_released(inputs)
            || self.4.just_released(inputs)
    }
}

impl<T0: TriggerBinding, T1: TriggerBinding, T2: TriggerBinding, T3: TriggerBinding, T4: TriggerBinding, T5: TriggerBinding> TriggerBinding for (T0, T1, T2, T3, T4, T5) {
    open spec fn is_pressed(&self, inputs: &Inputs) -> bool {
        self.0.is_pressed(inputs)
            || self.1.is_pressed(inputs)
            || self.2.is_pressed(inputs)
            || self.3.is_pressed(inputs)
            || self.4.is_pressed(inputs)
            || self.5.is_pressed(inputs)
    }

    open spec fn is_just_pressed(&self, inputs: &Inputs) -> bool {
        self.0.is_just_pressed(inputs)
            || self.1.is_just_pressed(inputs)
            || self.2.is_just_pressed(inputs)
            || self.3.is_just_pressed(inputs)
            || self.4.is_just_pressed(inputs)
            || self.5.is_just_pressed(inputs)
    }

    open spec fn is_just_released(&self, inputs: &Inputs) -> bool {
        self.0.is_just_released(inputs)
            || self.1.is_just_released(inputs)
            || self.2.is_just_released(inputs)
            || self.3.is_just_released(inputs)
            || self.4.is_just_released(inputs)
            || self.5.is_just_released(inputs)
    }

    fn pressed(&self, inputs: &Inputs) -> (r: bool) {
        self.0.pressed(inputs)
            || self.1.pressed(inputs)
            || self.2.pressed(inputs)
            || self.3.pressed(inputs)
            || self.4.pressed(inputs)
            || self.5.pressed(inputs)
    }

    fn just_pressed(&self, inputs: &Inputs) -> (r: bool) {
        self.0.just_pressed(inputs)
            || self.1.just_pressed(inputs)
            || self.2.just_pressed(inputs)
            || self.3.just_pressed(inputs)
            || self.4.just_pressed(inputs)
            || self.5.just_pressed(inputs)
    }

    fn just_released(&self, inputs: &Inputs) -> (r: bool) {
        self.0.just_released(inputs)
            || self.1.just_released(inputs)
            || self.2.just_released(inputs)
            || self.3.just_released(inputs)
            || self.4.just_released(inputs)
            || self.5.just_released(inputs)
    }
}

impl<T0: TriggerBinding, T1: TriggerBinding, T2: TriggerBinding, T3: TriggerBinding, T4: TriggerBinding, T5: TriggerBinding, T6: TriggerBinding> TriggerBinding for (T0, T1, T2, T3, T4, T5, T6) {
    open spec fn is_pressed(&self, inputs: &Inputs) -> bool {
        self.0.is_pressed(inputs)
            || self.1.is_pressed(inputs)
            || self.2.is_pressed(inputs)
            || self.3.is_pressed(inputs)
            || self.4.is_pressed(inputs)
            || self.5.is_pressed(inputs)
            || self.6.is_pressed(inputs)
    }

    open spec fn is_just_pressed(&self, inputs: &Inputs) -> bool {
        self.0.is_just_pressed(inputs)
            || self.1.is_just_pressed(inputs)
            || self.2.is_just_pressed(inputs)
            || self.3.is_just_pressed(inputs)
            || self.4.is_just_pressed(inputs)
            || self.5.is_just_pressed(inputs)
            || self.6.is_just_pressed(inputs)
    }

    open spec fn is_just_released(&self, inputs: &Inputs) -> bool {
        self.0.is_just_released(inputs)
            || self.1.is_just_released(inputs)
            || self.2.is_just_released(inputs)
            || self.3.is_just_released(inputs)
            || self.4.is_just_released(inputs)
            || self.5.is_just_released(inputs)
            || self.6.is_just_released(inputs)
    }

    fn pressed(&self, inputs: &Inputs) -> (r: bool) {
        self.0.pressed(inputs)
            || self.1.pressed(inputs)
            || self.2.pressed(inputs)
            || self.3.pressed(inputs)
            || self.4.pressed(inputs)
            || self.5.pressed(inputs)
            || self.6.pressed(inputs)
    }

    fn just_pressed(&self, inputs: &Inputs) -> (r: bool) {
        self.0.just_pressed(inputs)
            || self.1.just_pressed(inputs)
            || self.2.just_pressed(inputs)
            || self.3.just_pressed(inputs)
            || self.4.just_pressed(inputs)
            || self.5.just_pressed(inputs)
            || self.6.just_pressed(inputs)
    }

    fn just_released(&self, inputs: &Inputs) -> (r: bool) {
        self.0.just_released(inputs)
            || self.1.just_released(inputs)
            || self.2.just_released(inputs)
            || self.3.just_released(inputs)
            || self.4.just_released(inputs)
            || self.5.just_released(inputs)
            || self.6.just_released(inputs)
    }
}

impl<T0: TriggerBinding, T1: TriggerBinding, T2: TriggerBinding, T3: TriggerBinding, T4: TriggerBinding, T5: TriggerBinding, T6: TriggerBinding, T7: TriggerBinding> TriggerBinding for (T0, T1, T2, T3, T4, T5, T6, T7) {
    open spec fn is_pressed(&self, inputs: &Inputs) -> bool {
        self.0.is_pressed(inputs)
            || self.1.is_pressed(inputs)
            || self.2.is_pressed(inputs)
            || self.3.is_pressed(inputs)
            || self.4.is_pressed(inputs)
            || self.5.is_pressed(inputs)
            || self.6.is_pressed(inputs)
            || self.7.is_pressed(inputs)
    }

    open spec fn is_just_pressed(&self, inputs: &Inputs) -> bool {
        self.0.is_just_pressed(inputs)
            || self.1.is_just_pressed(inputs)
            || self.2.is_just_pressed(inputs)
            || self.3.is_just_pressed(inputs)
            || self.4.is_just_pressed(inputs)
            || self.5.is_just_pressed(inputs)
            || self.6.is_just_pressed(inputs)
            || self.7.is_just_pressed(inputs)
    }

    open spec fn is_just_released(&self, inputs: &Inputs) -> bool {
        self.0.is_just_released(inputs)
            || self.1.is_just_released(inputs)
            || self.2.is_just_released(inputs)
            || self.3.is_just_released(inputs)
            || self.4.is_just_released(inputs)
            || self.5.is_just_released(inputs)
            || self.6.is_just_released(inputs)
            || self.7.is_just_released(inputs)
    }

    fn pressed(&self, inputs: &Inputs) -> (r: bool) {
        self.0.pressed(inputs)
            || self.1.pressed(inputs)
            || self.2.pressed(inputs)
            || self.3.pressed(inputs)
            || self.4.pressed(inputs)
            || self.5.pressed(inputs)
            || self.6.pressed(inputs)
            || self.7.pressed(inputs)
    }

    fn just_pressed(&self, inputs: &Inputs) -> (r: bool) {
        self.0.just_pressed(inputs)
            || self.1.just_pressed(inputs)
            || self.2.just_pressed(inputs)
            || self.3.just_pressed(inputs)
            || self.4.just_pressed(inputs)
            || self.5.just_pressed(inputs)
            || self.6.just_pressed(inputs)
            || self.7.just_pressed(inputs)
    }

    fn just_released(&self, inputs: &Inputs) -> (r: bool) {
        self.0.just_released(inputs)
            || self.1.just_released(inputs)
            || self.2.just_released(inputs)
            || self.3.just_released(inputs)
            || self.4.just_released(inputs)
            || self.5.just_released(inputs)
            || self.6.just_released(inputs)
            || self.7.just_released(inputs)
    }
}

impl<T0: TriggerBinding, T1: TriggerBinding, T2: TriggerBinding, T3: TriggerBinding, T4: TriggerBinding, T5: TriggerBinding, T6: TriggerBinding, T7: TriggerBinding, T8: TriggerBinding> TriggerBinding for (T0, T1, T2, T3, T4, T5, T6, T7, T8) {
    open spec fn is_pressed(&self, inputs: &Inputs) -> bool {
        self.0.is_pressed(inputs)
            || self.1.is_pressed(inputs)
            || self.2.is_pressed(inputs)
            || self.3.is_pressed(inputs)
            || self.4.is_pressed(inputs)
            || self.5.is_pressed(inputs)
            || self.6.is_pressed(inputs)
            || self.7.is_pressed(inputs)
            || self.8.is_pressed(inputs)
    }

    open spec fn is_just_pressed(&self, inputs: &Inputs) -> bool {
        self.0.is_just_pressed(inputs)
            || self.1.is_just_pressed(inputs)
            || self.2.is_just_pressed(inputs)
            || self.3.is_just_pressed(inputs)
            || self.4.is_just_pressed(inputs)
            || self.5.is_just_pressed(inputs)
            || self.6.is_just_pressed(inputs)
            || self.7.is_just_pressed(inputs)
            || self.8.is_just_pressed(inputs)
    }

    open spec fn is_just_released(&self, inputs: &Inputs) -> bool {
        self.0.is_just_released(inputs)
            || self.1.is_just_released(inputs)
            || self.2.is_just_released(inputs)
            || self.3.is_just_released(inputs)
            || self.4.is_just_released(inputs)
            || self.5.is_just_released(inputs)
            || self.6.is_just_released(inputs)
            || self.7.is_just_released(inputs)
            || self.8.is_just_released(inputs)
    }

    fn pressed(&self, inputs: &Inputs) -> (r: bool) {
        self.0.pressed(inputs)
            || self.1.pressed(inputs)
            || self.2.pressed(inputs)
            || self.3.pressed(inputs)
            || self.4.pressed(inputs)
            || self.5.pressed(inputs)
            || self.6.pressed(inputs)
            || self.7.pressed(inputs)
            || self.8.pressed(inputs)
    }

    fn just_pressed(&self, inputs: &Inputs) -> (r: bool) {
        self.0.just_pressed(inputs)
            || self.1.just_pressed(inputs)
            || self.2.just_pressed(inputs)
            || self.3.just_pressed(inputs)
            || self.4.just_pressed(inputs)
            || self.5.just_pressed(inputs)
            || self.6.just_pressed(inputs)
            || self.7.just_pressed(inputs)
            || self.8.just_pressed(inputs)
    }

    fn just_released(&self, inputs: &Inputs) -> (r: bool) {
        self.0.just_released(inputs)
            || self.1.just_released(inputs)
            || self.2.just_released(inputs)
            || self.3.just_released(inputs)
            || self.4.just_released(inputs)
            || self.5.just_released(inputs)
            || self.6.just_released(inputs)
            || self.7.just_released(inputs)
            || self.8.just_released(inputs)
    }
}

impl<T0: TriggerBinding, T1: TriggerBinding, T2: TriggerBinding, T3: TriggerBinding, T4: TriggerBinding, T5: TriggerBinding, T6: TriggerBinding, T7: TriggerBinding, T8: TriggerBinding, T9: TriggerBinding> TriggerBinding for (T0, T1, T2, T3, T4, T5, T6, T7, T8, T9) {
    open spec fn is_pressed(&self, inputs: &Inputs) -> bool {
        self.0.is_pressed(inputs)
            || self.1.is_pressed(inputs)
            || self.2.is_pressed(inputs)
            || self.3.is_pressed(inputs)
            || self.4.is_pressed(inputs)
            || self.5.is_pressed(inputs)
            || self.6.is_pressed(inputs)
            || self.7.is_pressed(inputs)
            || self.8.is_pressed(inputs)
            || self.9.is_pressed(inputs)
    }

    open spec fn is_just_pressed(&self, inputs: &Inputs) -> bool {
        self.0.is_just_pressed(inputs)
            || self.1.is_just_pressed(inputs)
            || self.2.is_just_pressed(inputs)
            || self.3.is_just_pressed(inputs)
            || self.4.is_just_pressed(inputs)
            || self.5.is_just_pressed(inputs)
            || self.6.is_just_pressed(inputs)
            || self.7.is_just_pressed(inputs)
            || self.8.is_just_pressed(inputs)
            || self.9.is_just_pressed(inputs)
    }

    open spec fn is_just_released(&self, inputs: &Inputs) -> bool {
        self.0.is_just_released(inputs)
            || self.1.is_just_released(inputs)
            || self.2.is_just_released(inputs)
            || self.3.is_just_released(inputs)
            || self.4.is_just_released(inputs)
            || self.5.is_just_released(inputs)
            || self.6.is_just_released(inputs)
            || self.7.is_just_released(inputs)
            || self.8.is_just_released(inputs)
            || self.9.is_just_released(inputs)
    }

    fn pressed(&self, inputs: &Inputs) -> (r: bool) {
        self.0.pressed(inputs)
            || self.1.pressed(inputs)
            || self.2.pressed(inputs)
            || self.3.pressed(inputs)
            || self.4.pressed(inputs)
            || self.5.pressed(inputs)
            || self.6.pressed(inputs)
            || self.7.pressed(inputs)
            || self.8.pressed(inputs)
            || self.9.pressed(inputs)
    }

    fn just_pressed(&self, inputs: &Inputs) -> (r: bool) {
        self.0.just_pressed(inputs)
            || self.1.just_pressed(inputs)
            || self.2.just_pressed(inputs)
            || self.3.just_pressed(inputs)
            || self.4.just_pressed(inputs)
            || self.5.just_pressed(inputs)
            || self.6.just_pressed(inputs)
            || self.7.just_pressed(inputs)
            || self.8.just_pressed(inputs)
            || self.9.just_pressed(inputs)
    }

    fn just_released(&self, inputs: &Inputs) -> (r: bool) {
        self.0.just_released(inputs)
            || self.1.just_released(inputs)
            || self.2.just_released(inputs)
            || self.3.just_released(inputs)
            || self.4.just_released(inputs)
            || self.5.just_released(inputs)
            || self.6.just_released(inputs)
            || self.7.just_released(inputs)
            || self.8.just_released(inputs)
            || self.9.just_released(inputs)
    }
}

} // verus!
