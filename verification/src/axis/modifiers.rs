//! Modifiers of axis bindings. They remember nothing: what they report
//! depends on what their bindings report in the same tick.

use crate::axis::{or_zero, AxisBinding};
use crate::fixed::{
    difference, lemma_times_fraction, minus, negated, negation, over, plus, product, quotient, sum,
    times, ONE,
};
use crate::inputs::Inputs;
use vstd::prelude::*;

verus! {

/// Whether `f` accepts every value and says of each what it returns.
pub open spec fn is_function<F: Fn(i64) -> i64>(f: &F) -> bool {
    &&& forall|x: i64| #[trigger] f.requires((x,))
    &&& forall|x: i64, a: i64, b: i64|
        #[trigger] f.ensures((x,), a) && #[trigger] f.ensures((x,), b) ==> a == b
}

/// What `f` returns for `x`.
pub open spec fn applied<F: Fn(i64) -> i64>(f: &F, x: i64) -> i64 {
    choose|r: i64| f.ensures((x,), r)
}

/// Whether `curve` accepts every value and says of each what it returns.
pub open spec fn is_sampler<C: Fn(i64) -> Option<i64>>(curve: &C) -> bool {
    &&& forall|x: i64| #[trigger] curve.requires((x,))
    &&& forall|x: i64, a: Option<i64>, b: Option<i64>|
        #[trigger] curve.ensures((x,), a) && #[trigger] curve.ensures((x,), b) ==> a == b
}

/// What `curve` returns for `x`: its value there, or nothing where it has
/// none.
pub open spec fn sampled<C: Fn(i64) -> Option<i64>>(curve: &C, x: i64) -> Option<i64> {
    choose|r: Option<i64>| curve.ensures((x,), r)
}

/// The linear map that takes `in_min` to `out_min` and `in_max` to
/// `out_max`, applied to `value`. Values outside the input range are carried
/// on along the same line.
pub open spec fn remapped(value: i64, in_min: i64, in_max: i64, out_min: i64, out_max: i64) -> i64 {
    plus(
        out_min,
        times(over(minus(value, in_min), minus(in_max, in_min)), minus(out_max, out_min)),
    )
}

/// The linear map that takes `in_min` to `out_min` and `in_max` to
/// `out_max`, applied to `value`.
pub fn remap_value(value: i64, in_min: i64, in_max: i64, out_min: i64, out_max: i64) -> (r: i64)
    ensures
        r == remapped(value, in_min, in_max, out_min, out_max),
{
    let t = quotient(difference(value, in_min), difference(in_max, in_min));
    sum(out_min, product(t, difference(out_max, out_min)))
}

/// A remap takes the lower end of its input range to the lower end of its
/// output range. Where the input range is not empty and neither range is
/// too wide for a difference to fit, it takes the upper end to the upper end.
pub proof fn lemma_remap_ends(in_min: i64, in_max: i64, out_min: i64, out_max: i64)
    ensures
        remapped(in_min, in_min, in_max, out_min, out_max) == out_min,
        in_min != in_max && i64::MIN <= in_max - in_min <= i64::MAX && i64::MIN <= out_max
            - out_min <= i64::MAX ==> remapped(in_max, in_min, in_max, out_min, out_max)
            == out_max,
{
    let one = ONE as int;
    let width = minus(in_max, in_min);
    let height = minus(out_max, out_min);
    if width > 0 {
        assert(0int / (width as int) == 0) by (nonlinear_arith)
            requires
                width > 0,
        ;
    }
    if width < 0 {
        assert(0int / (-(width as int)) == 0) by (nonlinear_arith)
            requires
                width < 0,
        ;
    }
    assert(over(0, width) == 0);
    lemma_times_fraction(0, height);
    if in_min != in_max && i64::MIN <= in_max - in_min <= i64::MAX {
        let w = width as int;
        assert(w != 0);
        if w > 0 {
            assert((w * one) / w == one) by (nonlinear_arith)
                requires
                    w > 0,
            ;
        } else {
            let p = -w;
            assert(-(w * one) == p * one) by (nonlinear_arith)
                requires
                    p == -w,
            ;
            assert((p * one) / p == one) by (nonlinear_arith)
                requires
                    p > 0,
            ;
        }
        assert(over(width, width) == ONE);
        lemma_times_fraction(ONE, height);
    }
}

/// A modifier that reads a curve at the value of its binding. It reports
/// nothing where the binding reports nothing or the curve has no value.
#[derive(Clone, Copy)]
pub struct WithCurve<A: AxisBinding, C: Fn(i64) -> Option<i64>>(pub A, pub C);

impl<A: AxisBinding, C: Fn(i64) -> Option<i64>> AxisBinding for WithCurve<A, C> {
    open spec fn valid(&self) -> bool {
        self.0.valid() && is_sampler(&self.1)
    }

    open spec fn reading(&self, inputs: &Inputs) -> Option<i64> {
        match self.0.reading(inputs) {
            Some(v) => sampled(&self.1, v),
            None => None,
        }
    }

    open spec fn advances_to(&self, inputs: &Inputs, after: &Self) -> bool {
        self.0.advances_to(inputs, &after.0) && after.1 == self.1
    }

    fn value(&mut self, inputs: &Inputs) -> (r: Option<i64>) {
        match self.0.value(inputs) {
            Some(v) => {
                let out = (self.1)(v);
                assert(self.1.ensures((v,), sampled(&self.1, v)));
                out
            },
            None => None,
        }
    }
}

/// A modifier that applies a function to the value of its binding.
#[derive(Clone, Copy)]
pub struct Transformation<A: AxisBinding, F: Fn(i64) -> i64>(pub A, pub F);

impl<A: AxisBinding, F: Fn(i64) -> i64> AxisBinding for Transformation<A, F> {
    open spec fn valid(&self) -> bool {
        self.0.valid() && is_function(&self.1)
    }

    open spec fn reading(&self, inputs: &Inputs) -> Option<i64> {
        match self.0.reading(inputs) {
            Some(v) => Some(applied(&self.1, v)),
            None => None,
        }
    }

    open spec fn advances_to(&self, inputs: &Inputs, after: &Self) -> bool {
        self.0.advances_to(inputs, &after.0) && after.1 == self.1
    }

    fn value(&mut self, inputs: &Inputs) -> (r: Option<i64>) {
        match self.0.value(inputs) {
            Some(v) => {
                let out = (self.1)(v);
                assert(self.1.ensures((v,), applied(&self.1, v)));
                Some(out)
            },
            None => None,
        }
    }
}

/// A modifier that multiplies the values of two bindings. A binding that
/// reports nothing counts as zero.
#[derive(Clone, Copy)]
pub struct Multiply<A: AxisBinding, B: AxisBinding>(pub A, pub B);

impl<A: AxisBinding, B: AxisBinding> AxisBinding for Multiply<A, B> {
    open spec fn valid(&self) -> bool {
        self.0.valid() && self.1.valid()
    }

    open spec fn reading(&self, inputs: &Inputs) -> Option<i64> {
        Some(times(or_zero(self.0.reading(inputs)), or_zero(self.1.reading(inputs))))
    }

    open spec fn advances_to(&self, inputs: &Inputs, after: &Self) -> bool {
        self.0.advances_to(inputs, &after.0) && self.1.advances_to(inputs, &after.1)
    }

    fn value(&mut self, inputs: &Inputs) -> (r: Option<i64>) {
        let a = self.0.value(inputs).unwrap_or(0);
        let b = self.1.value(inputs).unwrap_or(0);
        Some(product(a, b))
    }
}

/// The divisor of a division whose second binding may report nothing: a
/// missing divisor counts as 1.
pub open spec fn or_one(reading: Option<i64>) -> i64 {
    match reading {
        Some(v) => v,
        None => ONE,
    }
}

/// A modifier that divides the value of its first binding by that of its
/// second. A missing dividend counts as zero, a missing divisor as 1.
#[derive(Clone, Copy)]
pub struct Divide<A: AxisBinding, B: AxisBinding>(pub A, pub B);

impl<A: AxisBinding, B: AxisBinding> AxisBinding for Divide<A, B> {
    open spec fn valid(&self) -> bool {
        self.0.valid() && self.1.valid()
    }

    open spec fn reading(&self, inputs: &Inputs) -> Option<i64> {
        Some(over(or_zero(self.0.reading(inputs)), or_one(self.1.reading(inputs))))
    }

    open spec fn advances_to(&self, inputs: &Inputs, after: &Self) -> bool {
        self.0.advances_to(inputs, &after.0) && self.1.advances_to(inputs, &after.1)
    }

    fn value(&mut self, inputs: &Inputs) -> (r: Option<i64>) {
        let a = self.0.value(inputs).unwrap_or(0);
        let b = self.1.value(inputs).unwrap_or(ONE);
        Some(quotient(a, b))
    }
}

/// A modifier that adds the values of two bindings. A binding that reports
/// nothing counts as zero.
#[derive(Clone, Copy)]
pub struct Add<A: AxisBinding, B: AxisBinding>(pub A, pub B);

impl<A: AxisBinding, B: AxisBinding> AxisBinding for Add<A, B> {
    open spec fn valid(&self) -> bool {
        self.0.valid() && self.1.valid()
    }

    open spec fn reading(&self, inputs: &Inputs) -> Option<i64> {
        Some(plus(or_zero(self.0.reading(inputs)), or_zero(self.1.reading(inputs))))
    }

    open spec fn advances_to(&self, inputs: &Inputs, after: &Self) -> bool {
        self.0.advances_to(inputs, &after.0) && self.1.advances_to(inputs, &after.1)
    }

    fn value(&mut self, inputs: &Inputs) -> (r: Option<i64>) {
        let a = self.0.value(inputs).unwrap_or(0);
        let b = self.1.value(inputs).unwrap_or(0);
        Some(sum(a, b))
    }
}

/// A modifier that subtracts the value of its second binding from that of
/// its first. A binding that reports nothing counts as zero.
#[derive(Clone, Copy)]
pub struct Subtract<A: AxisBinding, B: AxisBinding>(pub A, pub B);

impl<A: AxisBinding, B: AxisBinding> AxisBinding for Subtract<A, B> {
    open spec fn valid(&self) -> bool {
        self.0.valid() && self.1.valid()
    }

    open spec fn reading(&self, inputs: &Inputs) -> Option<i64> {
        Some(minus(or_zero(self.0.reading(inputs)), or_zero(self.1.reading(inputs))))
    }

    open spec fn advances_to(&self, inputs: &Inputs, after: &Self) -> bool {
        self.0.advances_to(inputs, &after.0) && self.1.advances_to(inputs, &after.1)
    }

    fn value(&mut self, inputs: &Inputs) -> (r: Option<i64>) {
        let a = self.0.value(inputs).unwrap_or(0);
        let b = self.1.value(inputs).unwrap_or(0);
        Some(difference(a, b))
    }
}

/// A modifier that negates the value of its binding.
#[derive(Clone, Copy)]
pub struct Invert<A: AxisBinding>(pub A);

impl<A: AxisBinding> AxisBinding for Invert<A> {
    open spec fn valid(&self) -> bool {
        self.0.valid()
    }

    open spec fn reading(&self, inputs: &Inputs) -> Option<i64> {
        match self.0.reading(inputs) {
            Some(v) => Some(negated(v)),
            None => None,
        }
    }

    open spec fn advances_to(&self, inputs: &Inputs, after: &Self) -> bool {
        self.0.advances_to(inputs, &after.0)
    }

    fn value(&mut self, inputs: &Inputs) -> (r: Option<i64>) {
        match self.0.value(inputs) {
            Some(v) => Some(negation(v)),
            None => None,
        }
    }
}

/// A modifier that maps the value of its binding from one range to another:
/// the fields after the binding are `in_min`, `in_max`, `out_min` and
/// `out_max`. Values outside the input range are not held back.
#[derive(Clone, Copy)]
pub struct Remap<A: AxisBinding>(pub A, pub i64, pub i64, pub i64, pub i64);

impl<A: AxisBinding> AxisBinding for Remap<A> {
    open spec fn valid(&self) -> bool {
        self.0.valid()
    }

    open spec fn reading(&self, inputs: &Inputs) -> Option<i64> {
        match self.0.reading(inputs) {
            Some(v) => Some(remapped(v, self.1, self.2, self.3, self.4)),
            None => None,
        }
    }

    open spec fn advances_to(&self, inputs: &Inputs, after: &Self) -> bool {
        &&& self.0.advances_to(inputs, &after.0)
        &&& after.1 == self.1
        &&& after.2 == self.2
        &&& after.3 == self.3
        &&& after.4 == self.4
    }

    fn value(&mut self, inputs: &Inputs) -> (r: Option<i64>) {
        match self.0.value(inputs) {
            Some(v) => Some(remap_value(v, self.1, self.2, self.3, self.4)),
            None => None,
        }
    }
}

} // verus!
