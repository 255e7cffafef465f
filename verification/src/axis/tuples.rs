//! Tuples of axis bindings.
//!
//! A tuple of two to ten bindings reports the mean of the values that its
//! members report, and nothing when none of them reports a value. Each
//! member is evaluated once, in order.

use crate::axis::combinators::{mean_of_active, mean_value};
use crate::axis::AxisBinding;
use crate::inputs::Inputs;
use vstd::prelude::*;

verus! {

impl<A0: AxisBinding, A1: AxisBinding> AxisBinding for (A0, A1) {
    open spec fn valid(&self) -> bool {
        &&& self.0.valid()
        &&& self.1.valid()
    }

    open spec fn reading(&self, inputs: &Inputs) -> Option<i64> {
        mean_of_active(
            seq![
                self.0.reading(inputs),
                self.1.reading(inputs),
            ],
        )
    }

    open spec fn advances_to(&self, inputs: &Inputs, after: &Self) -> bool {
        &&& self.0.advances_to(inputs, &after.0)
        &&& self.1.advances_to(inputs, &after.1)
    }

    fn value(&mut self, inputs: &Inputs) -> (r: Option<i64>) {
        let r0 = self.0.value(inputs);
        let r1 = self.1.value(inputs);
        let readings = vec![r0, r1];
        assert(readings@ =~= seq![r0, r1]);
        mean_value(&readings)
    }
}

impl<A0: AxisBinding, A1: AxisBinding, A2: AxisBinding> AxisBinding for (A0, A1, A2) {
    open spec fn valid(&self) -> bool {
        &&& self.0.valid()
        &&& self.1.valid()
        &&& self.2.valid()
    }

    open spec fn reading(&self, inputs: &Inputs) -> Option<i64> {
        mean_of_active(
            seq![
                self.0.reading(inputs),
                self.1.reading(inputs),
                self.2.reading(inputs),
            ],
        )
    }

    open spec fn advances_to(&self, inputs: &Inputs, after: &Self) -> bool {
        &&& self.0.advances_to(inputs, &after.0)
        &&& self.1.advances_to(inputs, &after.1)
        &&& self.2.advances_to(inputs, &after.2)
    }

    fn value(&mut self, inputs: &Inputs) -> (r: Option<i64>) {
        let r0 = self.0.value(inputs);
        let r1 = self.1.value(inputs);
        let r2 = self.2.value(inputs);
        let readings = vec![r0, r1, r2];
        assert(readings@ =~= seq![r0, r1, r2]);
        mean_value(&readings)
    }
}

impl<A0: AxisBinding, A1: AxisBinding, A2: AxisBinding, A3: AxisBinding> AxisBinding for (A0, A1, A2, A3) {
    open spec fn valid(&self) -> bool {
        &&& self.0.valid()
        &&& self.1.valid()
        &&& self.2.valid()
        &&& self.3.valid()
    }

    open spec fn reading(&self, inputs: &Inputs) -> Option<i64> {
        mean_of_active(
            seq![
                self.0.reading(inputs),
                self.1.reading(inputs),
                self.2.reading(inputs),
                self.3.reading(inputs),
            ],
        )
    }

    open spec fn advances_to(&self, inputs: &Inputs, after: &Self) -> bool {
        &&& self.0.advances_to(inputs, &after.0)
        &&& self.1.advances_to(inputs, &after.1)
        &&& self.2.advances_to(inputs, &after.2)
        &&& self.3.advances_to(inputs, &after.3)
    }

    fn value(&mut self, inputs: &Inputs) -> (r: Option<i64>) {
        let r0 = self.0.value(inputs);
        let r1 = self.1.value(inputs);
        let r2 = self.2.value(inputs);
        let r3 = self.3.value(inputs);
        let readings = vec![r0, r1, r2, r3];
        assert(readings@ =~= seq![r0, r1, r2, r3]);
        mean_value(&readings)
    }
}

impl<A0: AxisBinding, A1: AxisBinding, A2: AxisBinding, A3: AxisBinding, A4: AxisBinding> AxisBinding for (A0, A1, A2, A3, A4) {
    open spec fn valid(&self) -> bool {
        &&& self.0.valid()
        &&& self.1.valid()
        &&& self.2.valid()
        &&& self.3.valid()
        &&& self.4.valid()
    }

    open spec fn reading(&self, inputs: &Inputs) -> Option<i64> {
        mean_of_active(
            seq![
                self.0.reading(inputs),
                self.1.reading(inputs),
                self.2.reading(inputs),
                self.3.reading(inputs),
                self.4.reading(inputs),
            ],
        )
    }

    open spec fn advances_to(&self, inputs: &Inputs, after: &Self) -> bool {
        &&& self.0.advances_to(inputs, &after.0)
        &&& self.1.advances_to(inputs, &after.1)
        &&& self.2.advances_to(inputs, &after.2)
        &&& self.3.advances_to(inputs, &after.3)
        &&& self.4.advances_to(inputs, &after.4)
    }

    fn value(&mut self, inputs: &Inputs) -> (r: Option<i64>) {
        let r0 = self.0.value(inputs);
        let r1 = self.1.value(inputs);
        let r2 = self.2.value(inputs);
        let r3 = self.3.value(inputs);
        let r4 = self.4.value(inputs);
        let readings = vec![r0, r1, r2, r3, r4];
        assert(readings@ =~= seq![r0, r1, r2, r3, r4]);
        mean_value(&readings)
    }
}

impl<A0: AxisBinding, A1: AxisBinding, A2: AxisBinding, A3: AxisBinding, A4: AxisBinding, A5: AxisBinding> AxisBinding for (A0, A1, A2, A3, A4, A5) {
    open spec fn valid(&self) -> bool {
        &&& self.0.valid()
        &&& self.1.valid()
        &&& self.2.valid()
        &&& self.3.valid()
        &&& self.4.valid()
        &&& self.5.valid()
    }

    open spec fn reading(&self, inputs: &Inputs) -> Option<i64> {
        mean_of_active(
            seq![
                self.0.reading(inputs),
                self.1.reading(inputs),
                self.2.reading(inputs),
                self.3.reading(inputs),
                self.4.reading(inputs),
                self.5.reading(inputs),
            ],
        )
    }

    open spec fn advances_to(&self, inputs: &Inputs, after: &Self) -> bool {
        &&& self.0.advances_to(inputs, &after.0)
        &&& self.1.advances_to(inputs, &after.1)
        &&& self.2.advances_to(inputs, &after.2)
        &&& self.3.advances_to(inputs, &after.3)
        &&& self.4.advances_to(inputs, &after.4)
        &&& self.5.advances_to(inputs, &after.5)
    }

    fn value(&mut self, inputs: &Inputs) -> (r: Option<i64>) {
        let r0 = self.0.value(inputs);
        let r1 = self.1.value(inputs);
        let r2 = self.2.value(inputs);
        let r3 = self.3.value(inputs);
        let r4 = self.4.value(inputs);
        let r5 = self.5.value(inputs);
        let readings = vec![r0, r1, r2, r3, r4, r5];
        assert(readings@ =~= seq![r0, r1, r2, r3, r4, r5]);
        mean_value(&readings)
    }
}

impl<A0: AxisBinding, A1: AxisBinding, A2: AxisBinding, A3: AxisBinding, A4: AxisBinding, A5: AxisBinding, A6: AxisBinding> AxisBinding for (A0, A1, A2, A3, A4, A5, A6) {
    open spec fn valid(&self) -> bool {
        &&& self.0.valid()
        &&& self.1.valid()
        &&& self.2.valid()
        &&& self.3.valid()
        &&& self.4.valid()
        &&& self.5.valid()
        &&& self.6.valid()
    }

    open spec fn reading(&self, inputs: &Inputs) -> Option<i64> {
        mean_of_active(
            seq![
                self.0.reading(inputs),
                self.1.reading(inputs),
                self.2.reading(inputs),
                self.3.reading(inputs),
                self.4.reading(inputs),
                self.5.reading(inputs),
                self.6.reading(inputs),
            ],
        )
    }

    open spec fn advances_to(&self, inputs: &Inputs, after: &Self) -> bool {
        &&& self.0.advances_to(inputs, &after.0)
        &&& self.1.advances_to(inputs, &after.1)
        &&& self.2.advances_to(inputs, &after.2)
        &&& self.3.advances_to(inputs, &after.3)
        &&& self.4.advances_to(inputs, &after.4)
        &&& self.5.advances_to(inputs, &after.5)
        &&& self.6.advances_to(inputs, &after.6)
    }

    fn value(&mut self, inputs: &Inputs) -> (r: Option<i64>) {
        let r0 = self.0.value(inputs);
        let r1 = self.1.value(inputs);
        let r2 = self.2.value(inputs);
        let r3 = self.3.value(inputs);
        let r4 = self.4.value(inputs);
        let r5 = self.5.value(inputs);
        let r6 = self.6.value(inputs);
        let readings = vec![r0, r1, r2, r3, r4, r5, r6];
        assert(readings@ =~= seq![r0, r1, r2, r3, r4, r5, r6]);
        mean_value(&readings)
    }
}

impl<A0: AxisBinding, A1: AxisBinding, A2: AxisBinding, A3: AxisBinding, A4: AxisBinding, A5: AxisBinding, A6: AxisBinding, A7: AxisBinding> AxisBinding for (A0, A1, A2, A3, A4, A5, A6, A7) {
    open spec fn valid(&self) -> bool {
        &&& self.0.valid()
        &&& self.1.valid()
        &&& self.2.valid()
        &&& self.3.valid()
        &&& self.4.valid()
        &&& self.5.valid()
        &&& self.6.valid()
        &&& self.7.valid()
    }

    open spec fn reading(&self, inputs: &Inputs) -> Option<i64> {
        mean_of_active(
            seq![
                self.0.reading(inputs),
                self.1.reading(inputs),
                self.2.reading(inputs),
                self.3.reading(inputs),
                self.4.reading(inputs),
                self.5.reading(inputs),
                self.6.reading(inputs),
                self.7.reading(inputs),
            ],
        )
    }

    open spec fn advances_to(&self, inputs: &Inputs, after: &Self) -> bool {
        &&& self.0.advances_to(inputs, &after.0)
        &&& self.1.advances_to(inputs, &after.1)
        &&& self.2.advances_to(inputs, &after.2)
        &&& self.3.advances_to(inputs, &after.3)
        &&& self.4.advances_to(inputs, &after.4)
        &&& self.5.advances_to(inputs, &after.5)
        &&& self.6.advances_to(inputs, &after.6)
        &&& self.7.advances_to(inputs, &after.7)
    }

    fn value(&mut self, inputs: &Inputs) -> (r: Option<i64>) {
        let r0 = self.0.value(inputs);
        let r1 = self.1.value(inputs);
        let r2 = self.2.value(inputs);
        let r3 = self.3.value(inputs);
        let r4 = self.4.value(inputs);
        let r5 = self.5.value(inputs);
        let r6 = self.6.value(inputs);
        let r7 = self.7.value(inputs);
        let readings = vec![r0, r1, r2, r3, r4, r5, r6, r7];
        assert(readings@ =~= seq![r0, r1, r2, r3, r4, r5, r6, r7]);
        mean_value(&readings)
    }
}

impl<A0: AxisBinding, A1: AxisBinding, A2: AxisBinding, A3: AxisBinding, A4: AxisBinding, A5: AxisBinding, A6: AxisBinding, A7: AxisBinding, A8: AxisBinding> AxisBinding for (A0, A1, A2, A3, A4, A5, A6, A7, A8) {
    open spec fn valid(&self) -> bool {
        &&& self.0.valid()
        &&& self.1.valid()
        &&& self.2.valid()
        &&& self.3.valid()
        &&& self.4.valid()
        &&& self.5.valid()
        &&& self.6.valid()
        &&& self.7.valid()
        &&& self.8.valid()
    }

    open spec fn reading(&self, inputs: &Inputs) -> Option<i64> {
        mean_of_active(
            seq![
                self.0.reading(inputs),
                self.1.reading(inputs),
                self.2.reading(inputs),
                self.3.reading(inputs),
                self.4.reading(inputs),
                self.5.reading(inputs),
                self.6.reading(inputs),
                self.7.reading(inputs),
                self.8.reading(inputs),
            ],
        )
    }

    open spec fn advances_to(&self, inputs: &Inputs, after: &Self) -> bool {
        &&& self.0.advances_to(inputs, &after.0)
        &&& self.1.advances_to(inputs, &after.1)
        &&& self.2.advances_to(inputs, &after.2)
        &&& self.3.advances_to(inputs, &after.3)
        &&& self.4.advances_to(inputs, &after.4)
        &&& self.5.advances_to(inputs, &after.5)
        &&& self.6.advances_to(inputs, &after.6)
        &&& self.7.advances_to(inputs, &after.7)
        &&& self.8.advances_to(inputs, &after.8)
    }

    fn value(&mut self, inputs: &Inputs) -> (r: Option<i64>) {
        let r0 = self.0.value(inputs);
        let r1 = self.1.value(inputs);
        let r2 = self.2.value(inputs);
        let r3 = self.3.value(inputs);
        let r4 = self.4.value(inputs);
        let r5 = self.5.value(inputs);
        let r6 = self.6.value(inputs);
        let r7 = self.7.value(inputs);
        let r8 = self.8.value(inputs);
        let readings = vec![r0, r1, r2, r3, r4, r5, r6, r7, r8];
        assert(readings@ =~= seq![r0, r1, r2, r3, r4, r5, r6, r7, r8]);
        mean_value(&readings)
    }
}

impl<A0: AxisBinding, A1: AxisBinding, A2: AxisBinding, A3: AxisBinding, A4: AxisBinding, A5: AxisBinding, A6: AxisBinding, A7: AxisBinding, A8: AxisBinding, A9: AxisBinding> AxisBinding for (A0, A1, A2, A3, A4, A5, A6, A7, A8, A9) {
    open spec fn valid(&self) -> bool {
        &&& self.0.valid()
        &&& self.1.valid()
        &&& self.2.valid()
        &&& self.3.valid()
        &&& self.4.valid()
        &&& self.5.valid()
        &&& self.6.valid()
        &&& self.7.valid()
        &&& self.8.valid()
        &&& self.9.valid()
    }

    open spec fn reading(&self, inputs: &Inputs) -> Option<i64> {
        mean_of_active(
            seq![
                self.0.reading(inputs),
                self.1.reading(inputs),
                self.2.reading(inputs),
                self.3.reading(inputs),
                self.4.reading(inputs),
                self.5.reading(inputs),
                self.6.reading(inputs),
                self.7.reading(inputs),
                self.8.reading(inputs),
                self.9.reading(inputs),
            ],
        )
    }

    open spec fn advances_to(&self, inputs: &Inputs, after: &Self) -> bool {
        &&& self.0.advances_to(inputs, &after.0)
        &&& self.1.advances_to(inputs, &after.1)
        &&& self.2.advances_to(inputs, &after.2)
        &&& self.3.advances_to(inputs, &after.3)
        &&& self.4.advances_to(inputs, &after.4)
        &&& self.5.advances_to(inputs, &after.5)
        &&& self.6.advances_to(inputs, &after.6)
        &&& self.7.advances_to(inputs, &after.7)
        &&& self.8.advances_to(inputs, &after.8)
        &&& self.9.advances_to(inputs, &after.9)
    }

    fn value(&mut self, inputs: &Inputs) -> (r: Option<i64>) {
        let r0 = self.0.value(inputs);
        let r1 = self.1.value(inputs);
        let r2 = self.2.value(inputs);
        let r3 = self.3.value(inputs);
        let r4 = self.4.value(inputs);
        let r5 = self.5.value(inputs);
        let r6 = self.6.value(inputs);
        let r7 = self.7.value(inputs);
        let r8 = self.8.value(inputs);
        let r9 = self.9.value(inputs);
        let readings = vec![r0, r1, r2, r3, r4, r5, r6, r7, r8, r9];
        assert(readings@ =~= seq![r0, r1, r2, r3, r4, r5, r6, r7, r8, r9]);
        mean_value(&readings)
    }
}

} // verus!
