//! Filters of an axis binding. Some of them remember what they last
//! reported, so the order and the number of their evaluations matter.

use crate::axis::{or_zero, AxisBinding};
use crate::fixed::{
    abs, difference, divide_toward_zero, exp_of, exponential, is_root, lemma_exp_bounds,
    lemma_product_bounds, lemma_root_exists, lemma_times_outward_fraction, limit, limited,
    magnitude_below, minus, negated, negation, outward_div, over_outward, plus, product,
    product_outward, quotient_outward, root, root_of, saturate, saturated, sum, times,
    times_outward, truncating_div, ONE,
};
use crate::inputs::Inputs;
use vstd::prelude::*;

verus! {

/// What a deadzone passes on: a value whose absolute value reaches the
/// threshold, and nothing else.
pub open spec fn deadzone_reading(reading: Option<i64>, threshold: i64) -> Option<i64> {
    match reading {
        Some(v) => if abs(v as int) < threshold {
            None
        } else {
            Some(v)
        },
        None => None,
    }
}

/// The share of the way to its target that a smoothed value covers in one
/// tick of length `dt` with time constant `tau`: `1 - e^(-dt/tau)`. The
/// quotient is rounded away from zero, so every tick that takes time counts.
/// With a time constant of zero the factor is 1 for such a tick: no smoothing
/// at all. A negative time constant gives a negative factor, which drives
/// the filter away from its target.
pub open spec fn smoothing_factor(dt: i64, tau: i64) -> i64 {
    minus(ONE, exp_of(negated(over_outward(dt, tau))))
}

/// The value of a smoothing filter after one tick: the previous value moved
/// toward the target by the smoothing factor's share of the gap. The step is
/// rounded away from zero, so a filter that moves at all moves by at least
/// one step of the scale and does not stall short of its target.
pub open spec fn smoothed(previous: i64, target: i64, dt: i64, tau: i64) -> i64 {
    plus(previous, times_outward(smoothing_factor(dt, tau), minus(target, previous)))
}

/// The value of a rate limiter after one tick: the previous value moved
/// toward the target by at most the absolute value of `max_rate * dt`.
pub open spec fn rate_limited(previous: i64, target: i64, max_rate: i64, dt: i64) -> i64 {
    plus(previous, limited(minus(target, previous), times(max_rate, dt)))
}

/// The length of the vector `(x, y)`, rounded down.
pub open spec fn length_of(x: i64, y: i64) -> int {
    root_of(x * x + y * y)
}

/// The first coordinate of the vector `(x, y)` once the vector is shortened
/// to length 1 where it is longer.
pub open spec fn normalized(x: i64, y: i64) -> i64 {
    if length_of(x, y) > ONE {
        saturated(truncating_div(x * ONE, length_of(x, y)))
    } else {
        x
    }
}

/// What a deadzone passes on of a reading.
pub fn deadzone_value(reading: Option<i64>, threshold: i64) -> (r: Option<i64>)
    ensures
        r == deadzone_reading(reading, threshold),
{
    match reading {
        Some(v) => if magnitude_below(v, threshold) {
            None
        } else {
            Some(v)
        },
        None => None,
    }
}

/// The smoothing factor for a tick of length `dt`.
pub fn smoothing_alpha(dt: i64, tau: i64) -> (r: i64)
    ensures
        r == smoothing_factor(dt, tau),
{
    difference(ONE, exponential(negation(quotient_outward(dt, tau))))
}

/// The value of a smoothing filter after one tick.
pub fn smooth_value(previous: i64, target: i64, dt: i64, tau: i64) -> (r: i64)
    ensures
        r == smoothed(previous, target, dt, tau),
{
    let alpha = smoothing_alpha(dt, tau);
    sum(previous, product_outward(alpha, difference(target, previous)))
}

/// The value of a rate limiter after one tick.
pub fn rate_limit_value(previous: i64, target: i64, max_rate: i64, dt: i64) -> (r: i64)
    ensures
        r == rate_limited(previous, target, max_rate, dt),
{
    let max_delta = product(max_rate, dt);
    let delta = limit(difference(target, previous), max_delta);
    sum(previous, delta)
}

/// The first coordinate of `(x, y)` once the vector is shortened to length 1
/// where it is longer.
pub fn normalize_value(x: i64, y: i64) -> (r: i64)
    ensures
        r == normalized(x, y),
{
    proof {
        lemma_product_bounds(x as int, x as int);
        lemma_product_bounds(y as int, y as int);
        lemma_product_bounds(x as int, ONE as int);
        assert(x * x >= 0) by (nonlinear_arith);
        assert(y * y >= 0) by (nonlinear_arith);
    }
    let xx: i128 = (x as i128) * (x as i128);
    let yy: i128 = (y as i128) * (y as i128);
    let magnitude: u64 = root(xx as u128 + yy as u128);
    if magnitude > ONE as u64 {
        let wide: i128 = (x as i128) * (ONE as i128);
        saturate(divide_toward_zero(wide, magnitude as i128))
    } else {
        x
    }
}

/// A deadzone reports nothing for a value whose absolute value is below the
/// threshold, and the value itself otherwise: a value right at the threshold
/// passes.
pub proof fn lemma_deadzone_threshold(value: i64, threshold: i64)
    ensures
        abs(value as int) < threshold ==> deadzone_reading(Some(value), threshold) is None,
        abs(value as int) >= threshold ==> deadzone_reading(Some(value), threshold) == Some(value),
        abs(value as int) == threshold ==> deadzone_reading(Some(value), threshold) == Some(value),
        deadzone_reading(None, threshold) is None,
{
}

/// The smoothing factor lies between 0 and 1 where neither the tick nor the
/// time constant is negative.
pub proof fn lemma_smoothing_factor_bounds(dt: i64, tau: i64)
    requires
        dt >= 0,
        tau >= 0,
    ensures
        0 <= smoothing_factor(dt, tau) <= ONE,
{
    let one = ONE as int;
    if tau > 0 {
        assert(dt * one >= 0) by (nonlinear_arith)
            requires
                dt >= 0,
                one == 1_000_000,
        ;
        assert((dt * one + tau - 1) / (tau as int) >= 0) by (nonlinear_arith)
            requires
                dt * one >= 0,
                tau > 0,
        ;
    }
    lemma_exp_bounds(negated(over_outward(dt, tau)));
}

/// For a tick that takes time the smoothing factor is above zero with a
/// positive time constant, however short the tick and however long the time
/// constant; it is 1 with a time constant of zero, and below zero with a
/// negative one.
pub proof fn lemma_smoothing_factor_positive(dt: i64, tau: i64)
    requires
        dt > 0,
    ensures
        tau > 0 ==> 0 < smoothing_factor(dt, tau) <= ONE,
        tau == 0 ==> smoothing_factor(dt, tau) == ONE,
        tau < 0 ==> smoothing_factor(dt, tau) < 0,
{
    let one = ONE as int;
    let exact = dt * one;
    assert(exact >= one) by (nonlinear_arith)
        requires
            exact == dt * one,
            dt >= 1,
            one == 1_000_000,
    ;
    if tau > 0 {
        assert((exact + tau - 1) / (tau as int) >= 1) by (nonlinear_arith)
            requires
                exact >= 1,
                tau > 0,
        ;
    } else if tau < 0 {
        let span = -(tau as int);
        assert((exact + span - 1) / span >= 1) by (nonlinear_arith)
            requires
                exact >= 1,
                span > 0,
        ;
        assert(outward_div(-exact, span) <= -1);
    }
    lemma_exp_bounds(negated(over_outward(dt, tau)));
}

/// In a tick that takes no time a smoothing filter stands still: it reports
/// the value it reported before, whatever its target and its time constant.
pub proof fn lemma_smooth_stands_still(previous: i64, target: i64, tau: i64)
    ensures
        smoothing_factor(0, tau) == 0,
        smoothed(previous, target, 0, tau) == previous,
{
    if tau > 0 {
        assert((tau - 1) / (tau as int) == 0) by (nonlinear_arith)
            requires
                tau > 0,
        ;
    } else if tau < 0 {
        let span = -(tau as int);
        assert((span - 1) / span == 0) by (nonlinear_arith)
            requires
                span > 0,
        ;
    }
    assert(over_outward(0, tau) == 0);
    lemma_exp_bounds(0);
    lemma_times_outward_fraction(0, minus(target, previous));
}

/// A smoothing filter that is on its target stays on it.
pub proof fn lemma_smooth_holds_target(target: i64, dt: i64, tau: i64)
    ensures
        smoothed(target, target, dt, tau) == target,
{
    let factor = smoothing_factor(dt, tau);
    assert(factor * 0 == 0) by (nonlinear_arith);
}

/// A smoothing filter whose time constant is not negative moves toward its
/// target and never past it: the value it reports lies between the value it
/// reported before and the target.
pub proof fn lemma_smoothed_between(previous: i64, target: i64, dt: i64, tau: i64)
    requires
        dt >= 0,
        tau >= 0,
    ensures
        previous <= target ==> previous <= smoothed(previous, target, dt, tau) <= target,
        previous >= target ==> target <= smoothed(previous, target, dt, tau) <= previous,
{
    lemma_smoothing_factor_bounds(dt, tau);
    lemma_times_outward_fraction(smoothing_factor(dt, tau), minus(target, previous));
}

/// The value of a smoothing filter after `ticks` ticks of the same length
/// toward the same target.
pub open spec fn smoothed_after(previous: i64, target: i64, dt: i64, tau: i64, ticks: nat) -> i64
    decreases ticks,
{
    if ticks == 0 {
        previous
    } else {
        smoothed(smoothed_after(previous, target, dt, tau, (ticks - 1) as nat), target, dt, tau)
    }
}

/// One tick of a smoothing filter whose time constant is not negative never
/// takes it further from its target. A tick that takes time takes a filter
/// that is not on its target closer by at least one step of the scale.
pub proof fn lemma_smoothed_step(previous: i64, target: i64, dt: i64, tau: i64)
    requires
        dt >= 0,
        tau >= 0,
    ensures
        ({
            let before = abs(target - previous);
            let after = abs(target - smoothed(previous, target, dt, tau));
            &&& after <= before
            &&& dt > 0 && before > 0 ==> after <= before - 1
        }),
{
    lemma_smoothing_factor_bounds(dt, tau);
    if dt > 0 {
        lemma_smoothing_factor_positive(dt, tau);
    }
    lemma_times_outward_fraction(smoothing_factor(dt, tau), minus(target, previous));
}

/// After `ticks` ticks that take time a smoothing filter is on its target,
/// or closer to it than at the start by `ticks` steps of the scale.
proof fn lemma_smoothed_progress(previous: i64, target: i64, dt: i64, tau: i64, ticks: nat)
    requires
        dt > 0,
        tau >= 0,
    ensures
        ({
            let now = smoothed_after(previous, target, dt, tau, ticks);
            ||| now == target
            ||| abs(target - now) <= abs(target - previous) - ticks
        }),
    decreases ticks,
{
    if ticks > 0 {
        let earlier = smoothed_after(previous, target, dt, tau, (ticks - 1) as nat);
        lemma_smoothed_progress(previous, target, dt, tau, (ticks - 1) as nat);
        lemma_smoothed_step(earlier, target, dt, tau);
        lemma_smooth_holds_target(target, dt, tau);
    }
}

/// The distance of a smoothing filter from a constant target never grows
/// from one tick to the next, where the time constant is not negative.
pub proof fn lemma_smooth_approaches(previous: i64, target: i64, dt: i64, tau: i64, ticks: nat)
    requires
        dt >= 0,
        tau >= 0,
    ensures
        abs(target - smoothed_after(previous, target, dt, tau, ticks + 1)) <= abs(
            target - smoothed_after(previous, target, dt, tau, ticks),
        ),
{
    let now = smoothed_after(previous, target, dt, tau, ticks);
    lemma_smoothed_step(now, target, dt, tau);
    assert(smoothed_after(previous, target, dt, tau, (ticks + 1) as nat) == smoothed(
        now,
        target,
        dt,
        tau,
    ));
}

/// A smoothing filter converges: driven toward a constant target in ticks of
/// one length, whatever length above zero, with a time constant that is not
/// negative, it reaches the target, at the latest after as many ticks as the
/// distance at the start counts steps of the scale, and stays on it from
/// then on.
pub proof fn lemma_smooth_converges(previous: i64, target: i64, dt: i64, tau: i64, ticks: nat)
    requires
        dt > 0,
        tau >= 0,
        ticks >= abs(target - previous),
    ensures
        smoothed_after(previous, target, dt, tau, ticks) == target,
{
    lemma_smoothed_progress(previous, target, dt, tau, ticks);
}

/// A rate limiter changes its value by at most the absolute value of
/// `max_rate * dt` in one tick, however far the target is, and never moves
/// past the target.
pub proof fn lemma_rate_limited_step(previous: i64, target: i64, max_rate: i64, dt: i64)
    ensures
        abs(rate_limited(previous, target, max_rate, dt) - previous) <= abs(
            times(max_rate, dt) as int,
        ),
        previous <= target ==> previous <= rate_limited(previous, target, max_rate, dt) <= target,
        previous >= target ==> target <= rate_limited(previous, target, max_rate, dt) <= previous,
{
}

/// The first coordinate of a vector is no longer than the vector.
pub proof fn lemma_coordinate_within_length(x: i64, y: i64)
    ensures
        is_root(x * x + y * y, length_of(x, y)),
        abs(x as int) <= length_of(x, y),
{
    let n = x * x + y * y;
    assert(x * x >= 0) by (nonlinear_arith);
    assert(y * y >= 0) by (nonlinear_arith);
    lemma_root_exists(n);
    let m = length_of(x, y);
    let a = abs(x as int);
    assert(a * a == x * x) by (nonlinear_arith)
        requires
            a == x || a == -x,
    ;
    if a > m {
        assert((m + 1) * (m + 1) <= a * a) by (nonlinear_arith)
            requires
                0 <= m,
                m + 1 <= a,
        ;
    }
}

/// A normalized value is at most 1 in absolute value where the vector was
/// longer than 1, and is the first coordinate unchanged where it was not.
pub proof fn lemma_normalized_bounded(x: i64, y: i64)
    ensures
        length_of(x, y) > ONE ==> abs(normalized(x, y) as int) <= ONE,
        length_of(x, y) <= ONE ==> normalized(x, y) == x,
        x >= 0 ==> normalized(x, y) >= 0,
        x <= 0 ==> normalized(x, y) <= 0,
{
    lemma_coordinate_within_length(x, y);
    let m = length_of(x, y);
    let one = ONE as int;
    if m > ONE {
        let a = abs(x as int);
        assert(0 <= a * one <= m * one) by (nonlinear_arith)
            requires
                0 <= a <= m,
                one == 1_000_000,
        ;
        assert(0 <= (a * one) / m <= one) by (nonlinear_arith)
            requires
                0 <= a * one <= m * one,
                m > 0,
        ;
        assert(x * one == a * one || x * one == -(a * one)) by (nonlinear_arith)
            requires
                a == x || a == -x,
        ;
    }
}

/// A filter that lets through only values whose absolute value reaches a
/// threshold.
#[derive(Clone, Copy)]
pub struct Deadzone<A: AxisBinding>(pub A, pub i64);

impl<A: AxisBinding> AxisBinding for Deadzone<A> {
    open spec fn valid(&self) -> bool {
        self.0.valid()
    }

    open spec fn reading(&self, inputs: &Inputs) -> Option<i64> {
        deadzone_reading(self.0.reading(inputs), self.1)
    }

    open spec fn advances_to(&self, inputs: &Inputs, after: &Self) -> bool {
        self.0.advances_to(inputs, &after.0) && after.1 == self.1
    }

    fn value(&mut self, inputs: &Inputs) -> (r: Option<i64>) {
        let reading = self.0.value(inputs);
        deadzone_value(reading, self.1)
    }
}

/// A filter that smooths the values of a binding exponentially.
///
/// `tau` is the time constant: the smaller, the closer the filter follows
/// its binding. A binding that reports nothing counts as zero, so the filter
/// always reports a value.
#[derive(Clone, Copy)]
pub struct Smooth<A: AxisBinding> {
    pub binding: A,
    pub tau: i64,
    /// The value that the filter last reported.
    pub previous_value: i64,
}

impl<A: AxisBinding> Smooth<A> {
    /// A filter that starts from zero.
    pub fn new(binding: A, tau: i64) -> (r: Self)
        ensures
            r.binding == binding,
            r.tau == tau,
            r.previous_value == 0,
    {
        Smooth { binding, tau, previous_value: 0 }
    }
}

impl<A: AxisBinding> AxisBinding for Smooth<A> {
    open spec fn valid(&self) -> bool {
        self.binding.valid()
    }

    open spec fn reading(&self, inputs: &Inputs) -> Option<i64> {
        Some(
            smoothed(
                self.previous_value,
                or_zero(self.binding.reading(inputs)),
                inputs.elapsed(),
                self.tau,
            ),
        )
    }

    open spec fn advances_to(&self, inputs: &Inputs, after: &Self) -> bool {
        &&& self.binding.advances_to(inputs, &after.binding)
        &&& after.tau == self.tau
        &&& Some(after.previous_value) == self.reading(inputs)
    }

    fn value(&mut self, inputs: &Inputs) -> (r: Option<i64>) {
        let target = self.binding.value(inputs).unwrap_or(0);
        let dt = inputs.delta_secs();
        let value = smooth_value(self.previous_value, target, dt, self.tau);
        self.previous_value = value;
        Some(value)
    }
}

/// A filter that shortens the vector made of its binding and a
/// perpendicular one to length 1 where it is longer, and reports the first
/// coordinate. A binding that reports nothing counts as zero, so the filter
/// always reports a value.
#[derive(Clone, Copy)]
pub struct Normalize<A: AxisBinding, Perpendicular: AxisBinding>(pub A, pub Perpendicular);

impl<A: AxisBinding, Perpendicular: AxisBinding> AxisBinding for Normalize<A, Perpendicular> {
    open spec fn valid(&self) -> bool {
        self.0.valid() && self.1.valid()
    }

    open spec fn reading(&self, inputs: &Inputs) -> Option<i64> {
        Some(normalized(or_zero(self.0.reading(inputs)), or_zero(self.1.reading(inputs))))
    }

    open spec fn advances_to(&self, inputs: &Inputs, after: &Self) -> bool {
        self.0.advances_to(inputs, &after.0) && self.1.advances_to(inputs, &after.1)
    }

    fn value(&mut self, inputs: &Inputs) -> (r: Option<i64>) {
        let x = self.0.value(inputs).unwrap_or(0);
        let y = self.1.value(inputs).unwrap_or(0);
        Some(normalize_value(x, y))
    }
}

/// A filter that limits how fast its value changes, to `max_rate` per
/// second in either direction; the sign of the rate does not matter. It
/// reports nothing while its binding reports nothing, and keeps the value it
/// last reported.
#[derive(Clone, Copy)]
pub struct RateLimit<A: AxisBinding> {
    pub binding: A,
    pub max_rate: i64,
    /// The value that the filter last reported.
    pub previous_value: i64,
}

impl<A: AxisBinding> RateLimit<A> {
    /// A filter that starts from zero.
    pub fn new(binding: A, max_rate: i64) -> (r: Self)
        ensures
            r.binding == binding,
            r.max_rate == max_rate,
            r.previous_value == 0,
    {
        RateLimit { binding, max_rate, previous_value: 0 }
    }
}

impl<A: AxisBinding> AxisBinding for RateLimit<A> {
    open spec fn valid(&self) -> bool {
        self.binding.valid()
    }

    open spec fn reading(&self, inputs: &Inputs) -> Option<i64> {
        match self.binding.reading(inputs) {
            Some(target) => Some(
                rate_limited(self.previous_value, target, self.max_rate, inputs.elapsed()),
            ),
            None => None,
        }
    }

    open spec fn advances_to(&self, inputs: &Inputs, after: &Self) -> bool {
        &&& self.binding.advances_to(inputs, &after.binding)
        &&& after.max_rate == self.max_rate
        &&& after.previous_value == match self.reading(inputs) {
            Some(v) => v,
            None => self.previous_value,
        }
    }

    fn value(&mut self, inputs: &Inputs) -> (r: Option<i64>) {
        match self.binding.value(inputs) {
            Some(target) => {
                let dt = inputs.delta_secs();
                let value = rate_limit_value(self.previous_value, target, self.max_rate, dt);
                self.previous_value = value;
                Some(value)
            },
            None => None,
        }
    }
}

/// In a tick that takes no time a smoothing filter reports the value it
/// reported before, whatever its binding reports.
pub proof fn lemma_smooth_filter_stands_still<A: AxisBinding>(filter: Smooth<A>, inputs: &Inputs)
    requires
        inputs.delta == 0,
    ensures
        filter.reading(inputs) == Some(filter.previous_value),
{
    lemma_smooth_stands_still(
        filter.previous_value,
        or_zero(filter.binding.reading(inputs)),
        filter.tau,
    );
}

/// A smoothing filter always reports a value, and with a time constant that
/// is not negative one that lies between the value it reported before and
/// what its binding reports now.
pub proof fn lemma_smooth_filter_approaches<A: AxisBinding>(filter: Smooth<A>, inputs: &Inputs)
    requires
        filter.tau >= 0,
    ensures
        filter.reading(inputs) is Some,
        ({
            let target = or_zero(filter.binding.reading(inputs));
            let value = filter.reading(inputs)->0;
            &&& filter.previous_value <= target ==> filter.previous_value <= value <= target
            &&& filter.previous_value >= target ==> target <= value <= filter.previous_value
        }),
{
    lemma_smoothed_between(
        filter.previous_value,
        or_zero(filter.binding.reading(inputs)),
        inputs.elapsed(),
        filter.tau,
    );
}

/// A rate limiter reports nothing exactly when its binding reports nothing.
/// A value that it reports differs from the one it reported before by at
/// most the absolute value of `max_rate` times the length of the tick.
pub proof fn lemma_rate_limit_filter_step<A: AxisBinding>(filter: RateLimit<A>, inputs: &Inputs)
    ensures
        filter.reading(inputs) is None <==> filter.binding.reading(inputs) is None,
        filter.reading(inputs) matches Some(value) ==> abs(value - filter.previous_value) <= abs(
            times(filter.max_rate, inputs.elapsed()) as int,
        ),
{
    if let Some(target) = filter.binding.reading(inputs) {
        lemma_rate_limited_step(filter.previous_value, target, filter.max_rate, inputs.elapsed());
    }
}

} // verus!
