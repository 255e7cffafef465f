//! Chaining methods that wrap an axis binding in a combinator, filter or
//! modifier.

use crate::axis::combinators::WithTriggerBinding;
use crate::axis::filters::{Deadzone, Normalize, RateLimit, Smooth};
use crate::axis::modifiers::{
    Add, Divide, Invert, Multiply, Remap, Subtract, Transformation, WithCurve,
};
use crate::axis::AxisBinding;
use crate::trigger::TriggerBinding;
use vstd::prelude::*;

verus! {

pub trait AxisBindingBuilder: AxisBinding + Sized {
    /// A binding that reports only while `trigger` is down.
    fn with_trigger_binding<TB: TriggerBinding>(self, trigger: TB) -> (r: WithTriggerBinding<
        Self,
        TB,
    >)
        ensures
            r == WithTriggerBinding(self, trigger),
    {
        WithTriggerBinding(self, trigger)
    }

    /// A binding that lets through only values that reach `threshold`.
    fn deadzone(self, threshold: i64) -> (r: Deadzone<Self>)
        ensures
            r == Deadzone(self, threshold),
    {
        Deadzone(self, threshold)
    }

    /// A binding that smooths this one with time constant `tau`, starting
    /// from zero.
    fn smooth(self, tau: i64) -> (r: Smooth<Self>)
        ensures
            r == (Smooth { binding: self, tau, previous_value: 0 }),
    {
        Smooth::new(self, tau)
    }

    /// A binding that shortens the vector of this binding and
    /// `perpendicular` to length 1 where it is longer.
    fn normalize<A: AxisBinding>(self, perpendicular: A) -> (r: Normalize<Self, A>)
        ensures
            r == Normalize(self, perpendicular),
    {
        Normalize(self, perpendicular)
    }

    /// A binding that changes by at most `max_rate` per second, starting
    /// from zero.
    fn limit_rate(self, max_rate: i64) -> (r: RateLimit<Self>)
        ensures
            r == (RateLimit { binding: self, max_rate, previous_value: 0 }),
    {
        RateLimit::new(self, max_rate)
    }

    /// A binding that reads `curve` at the value of this one.
    fn with_curve<C: Fn(i64) -> Option<i64>>(self, curve: C) -> (r: WithCurve<Self, C>)
        ensures
            r == WithCurve(self, curve),
    {
        WithCurve(self, curve)
    }

    /// A binding that applies `func` to the value of this one.
    fn transform<F: Fn(i64) -> i64>(self, func: F) -> (r: Transformation<Self, F>)
        ensures
            r == Transformation(self, func),
    {
        Transformation(self, func)
    }

    /// A binding that multiplies the value of this one by that of `other`.
    fn mult<A: AxisBinding>(self, other: A) -> (r: Multiply<Self, A>)
        ensures
            r == Multiply(self, other),
    {
        Multiply(self, other)
    }

    /// A binding that divides the value of this one by that of `other`.
    fn div<A: AxisBinding>(self, other: A) -> (r: Divide<Self, A>)
        ensures
            r == Divide(self, other),
    {
        Divide(self, other)
    }

    /// A binding that adds the value of `other` to that of this one.
    fn add<A: AxisBinding>(self, other: A) -> (r: Add<Self, A>)
        ensures
            r == Add(self, other),
    {
        Add(self, other)
    }

    /// A binding that subtracts the value of `other` from that of this one.
    fn sub<A: AxisBinding>(self, other: A) -> (r: Subtract<Self, A>)
        ensures
            r == Subtract(self, other),
    {
        Subtract(self, other)
    }

    /// A binding that negates the value of this one.
    fn invert(self) -> (r: Invert<Self>)
        ensures
            r == Invert(self),
    {
        Invert(self)
    }

    /// A binding that maps the value of this one from the range `in_min` to
    /// `in_max` to the range `out_min` to `out_max`.
    fn remap(self, in_min: i64, in_max: i64, out_min: i64, out_max: i64) -> (r: Remap<Self>)
        ensures
            r == Remap(self, in_min, in_max, out_min, out_max),
    {
        Remap(self, in_min, in_max, out_min, out_max)
    }
}

impl<A: AxisBinding> AxisBindingBuilder for A {
}

} // verus!
