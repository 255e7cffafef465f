//! Combinations of several axis bindings.

use crate::axis::{or_zero, AxisBinding};
use crate::fixed::{difference, divide_toward_zero, minus, saturate, saturated, truncating_div};
use crate::inputs::Inputs;
use crate::trigger::TriggerBinding;
use vstd::prelude::*;

verus! {

/// What a pair reports: nothing when neither side reports a value, else the
/// positive side less the negative side, a silent side counting as zero.
pub open spec fn pair_reading(negative: Option<i64>, positive: Option<i64>) -> Option<i64> {
    if negative is None && positive is None {
        None
    } else {
        Some(minus(or_zero(positive), or_zero(negative)))
    }
}

/// What a pair reports for the readings of its two sides.
pub fn pair_value(negative: Option<i64>, positive: Option<i64>) -> (r: Option<i64>)
    ensures
        r == pair_reading(negative, positive),
{
    if negative.is_none() && positive.is_none() {
        return None;
    }
    let negative = negative.unwrap_or(0);
    let positive = positive.unwrap_or(0);
    Some(difference(positive, negative))
}

/// A pair of axis bindings, of which the first pulls in the negative
/// direction and the second in the positive direction.
#[derive(Clone, Copy)]
pub struct Pair<A1: AxisBinding, A2: AxisBinding>(pub A1, pub A2);

impl<A1: AxisBinding, A2: AxisBinding> AxisBinding for Pair<A1, A2> {
    open spec fn valid(&self) -> bool {
        self.0.valid() && self.1.valid()
    }

    open spec fn reading(&self, inputs: &Inputs) -> Option<i64> {
        pair_reading(self.0.reading(inputs), self.1.reading(inputs))
    }

    open spec fn advances_to(&self, inputs: &Inputs, after: &Self) -> bool {
        self.0.advances_to(inputs, &after.0) && self.1.advances_to(inputs, &after.1)
    }

    fn value(&mut self, inputs: &Inputs) -> (r: Option<i64>) {
        let negative = self.0.value(inputs);
        let positive = self.1.value(inputs);
        pair_value(negative, positive)
    }
}

/// A pair reports nothing exactly when neither of its sides reports a value.
/// Otherwise it reports the positive side less the negative side, where a
/// side that reports nothing counts as zero.
pub proof fn lemma_pair_absence<A1: AxisBinding, A2: AxisBinding>(
    pair: Pair<A1, A2>,
    inputs: &Inputs,
)
    ensures
        pair.reading(inputs) is None <==> pair.0.reading(inputs) is None && pair.1.reading(
            inputs,
        ) is None,
        pair.reading(inputs) is Some ==> pair.reading(inputs) == Some(
            minus(or_zero(pair.1.reading(inputs)), or_zero(pair.0.reading(inputs))),
        ),
{
}

/// An axis binding that reports only while a trigger binding is down.
///
/// While the trigger is up the axis binding is not evaluated, so a filter
/// inside it stands still.
#[derive(Clone, Copy)]
pub struct WithTriggerBinding<A: AxisBinding, T: TriggerBinding>(pub A, pub T);

impl<A: AxisBinding, T: TriggerBinding> AxisBinding for WithTriggerBinding<A, T> {
    open spec fn valid(&self) -> bool {
        self.0.valid()
    }

    open spec fn reading(&self, inputs: &Inputs) -> Option<i64> {
        if self.1.is_pressed(inputs) {
            self.0.reading(inputs)
        } else {
            None
        }
    }

    open spec fn advances_to(&self, inputs: &Inputs, after: &Self) -> bool {
        if self.1.is_pressed(inputs) {
            self.0.advances_to(inputs, &after.0) && after.1 == self.1
        } else {
            *after == *self
        }
    }

    fn value(&mut self, inputs: &Inputs) -> (r: Option<i64>) {
        if !self.1.pressed(inputs) {
            return None;
        }
        self.0.value(inputs)
    }
}

/// The sum of the values among `readings`.
pub open spec fn active_total(readings: Seq<Option<i64>>) -> int
    decreases readings.len(),
{
    if readings.len() == 0 {
        0
    } else {
        active_total(readings.drop_last()) + or_zero(readings.last())
    }
}

/// The number of values among `readings`.
pub open spec fn active_count(readings: Seq<Option<i64>>) -> nat
    decreases readings.len(),
{
    if readings.len() == 0 {
        0
    } else {
        active_count(readings.drop_last()) + if readings.last() is Some {
            1nat
        } else {
            0nat
        }
    }
}

/// The mean of `count` values that sum to `total`, rounded toward zero;
/// nothing for no values.
pub open spec fn mean_of(total: int, count: nat) -> Option<i64> {
    if count == 0 {
        None
    } else {
        Some(saturated(truncating_div(total, count as int)))
    }
}

/// What a group of bindings reports: the mean of the values among the
/// readings of its members, and nothing when no member reports a value.
pub open spec fn mean_of_active(readings: Seq<Option<i64>>) -> Option<i64> {
    mean_of(active_total(readings), active_count(readings))
}

/// No more values are counted than there are readings, and their sum lies
/// within as many times the range of one value.
pub proof fn lemma_active_total_bounds(readings: Seq<Option<i64>>)
    ensures
        active_count(readings) <= readings.len(),
        i64::MIN * active_count(readings) <= active_total(readings) <= i64::MAX * active_count(
            readings,
        ),
    decreases readings.len(),
{
    if readings.len() > 0 {
        lemma_active_total_bounds(readings.drop_last());
        let count = active_count(readings.drop_last()) as int;
        assert(i64::MIN * (count + 1) == i64::MIN * count + i64::MIN) by (nonlinear_arith);
        assert(i64::MAX * (count + 1) == i64::MAX * count + i64::MAX) by (nonlinear_arith);
    }
}

/// A group reports nothing exactly when none of its members reports a
/// value. Otherwise it reports the sum of the values that its members report
/// divided by their number, rounded toward zero; that mean always fits.
pub proof fn lemma_mean_of_active(readings: Seq<Option<i64>>)
    ensures
        mean_of_active(readings) is None <==> active_count(readings) == 0,
        active_count(readings) > 0 ==> {
            let mean = truncating_div(active_total(readings), active_count(readings) as int);
            &&& i64::MIN <= mean <= i64::MAX
            &&& mean_of_active(readings) == Some(mean as i64)
        },
{
    lemma_active_total_bounds(readings);
    let total = active_total(readings);
    let count = active_count(readings) as int;
    if count > 0 {
        if total >= 0 {
            assert(total / count <= i64::MAX) by (nonlinear_arith)
                requires
                    0 <= total <= i64::MAX * count,
                    count > 0,
            ;
            assert(total / count >= 0) by (nonlinear_arith)
                requires
                    0 <= total,
                    count > 0,
            ;
        } else {
            assert((-total) / count <= -i64::MIN) by (nonlinear_arith)
                requires
                    0 <= -total <= (-i64::MIN) * count,
                    count > 0,
            ;
            assert((-total) / count >= 0) by (nonlinear_arith)
                requires
                    0 <= -total,
                    count > 0,
            ;
        }
    }
}

/// Whether a running sum and count of `n` readings leave room for more.
pub open spec fn within_room(total: int, count: int, n: int) -> bool {
    &&& 0 <= count <= n
    &&& -0x8000_0000_0000_0000 * n <= total <= 0x8000_0000_0000_0000 * n
}

/// The mean of `count` values that sum to `total`.
pub(crate) fn mean_from(total: i128, count: usize) -> (r: Option<i64>)
    requires
        total > i128::MIN,
    ensures
        r == mean_of(total as int, count as nat),
{
    if count == 0 {
        None
    } else {
        Some(saturate(divide_toward_zero(total, count as i128)))
    }
}

/// What a group of bindings reports for the readings of its members.
pub fn mean_value(readings: &Vec<Option<i64>>) -> (r: Option<i64>)
    ensures
        r == mean_of_active(readings@),
{
    let mut total: i128 = 0;
    let mut count: usize = 0;
    let mut i: usize = 0;
    while i < readings.len()
        invariant
            i <= readings.len(),
            total == active_total(readings@.take(i as int)),
            count == active_count(readings@.take(i as int)),
            within_room(total as int, count as int, i as int),
        decreases readings.len() - i,
    {
        assert(readings@.take(i + 1).drop_last() =~= readings@.take(i as int));
        match readings[i] {
            Some(v) => {
                total = total + v as i128;
                count = count + 1;
            },
            None => {},
        }
        i += 1;
    }
    assert(readings@.take(i as int) =~= readings@);
    mean_from(total, count)
}

/// The readings of the members of a list.
pub open spec fn readings_of<A: AxisBinding>(bindings: Seq<A>, inputs: &Inputs) -> Seq<Option<i64>> {
    Seq::new(bindings.len(), |i: int| bindings[i].reading(inputs))
}

/// A list of bindings reports the mean of the values that its members
/// report. Each member is evaluated once, in order.
impl<A: AxisBinding> AxisBinding for Vec<A> {
    open spec fn valid(&self) -> bool {
        forall|i: int| 0 <= i < self@.len() ==> (#[trigger] self@[i]).valid()
    }

    open spec fn reading(&self, inputs: &Inputs) -> Option<i64> {
        mean_of_active(readings_of(self@, inputs))
    }

    open spec fn advances_to(&self, inputs: &Inputs, after: &Self) -> bool {
        &&& after@.len() == self@.len()
        &&& forall|i: int|
            0 <= i < self@.len() ==> (#[trigger] self@[i]).advances_to(inputs, &after@[i])
    }

    fn value(&mut self, inputs: &Inputs) -> (r: Option<i64>) {
        let ghost readings = readings_of(old(self)@, inputs);
        let mut total: i128 = 0;
        let mut count: usize = 0;
        let mut i: usize = 0;
        while i < self.len()
            invariant
                i <= self.len(),
                self@.len() == old(self)@.len(),
                readings == readings_of(old(self)@, inputs),
                forall|j: int| 0 <= j < i ==> (#[trigger] old(self)@[j]).advances_to(inputs, &self@[j]),
                forall|j: int| i <= j < self@.len() ==> self@[j] == old(self)@[j],
                forall|j: int| 0 <= j < self@.len() ==> (#[trigger] self@[j]).valid(),
                total == active_total(readings.take(i as int)),
                count == active_count(readings.take(i as int)),
                within_room(total as int, count as int, i as int),
            decreases self.len() - i,
        {
            assert(readings.take(i + 1).drop_last() =~= readings.take(i as int));
            let reading = self[i].value(inputs);
            match reading {
                Some(v) => {
                    total = total + v as i128;
                    count = count + 1;
                },
                None => {},
            }
            i += 1;
        }
        assert(readings.take(i as int) =~= readings);
        mean_from(total, count)
    }
}

} // verus!
