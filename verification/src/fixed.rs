//! Fixed-point arithmetic for axis values.
//!
//! An axis value is an `i64` that counts millionths, so `ONE` stands for 1.0.
//! Every operation is total: a result that does not fit is pinned to the
//! nearest end of the `i64` range, and a division by zero is pinned by the
//! sign of the dividend.

use vstd::prelude::*;

verus! {

/// The representation of 1.0.
pub const ONE: i64 = 1_000_000;

/// The representation of 1/e, rounded to the nearest millionth.
pub const INV_E: i64 = 367_879;

/// The number of terms of the exponential series that `exp_neg` sums.
pub const SERIES_TERMS: u32 = 12;

/// `x` pinned to the range of `i64`.
pub open spec fn saturated(x: int) -> i64 {
    if x > i64::MAX {
        i64::MAX
    } else if x < i64::MIN {
        i64::MIN
    } else {
        x as i64
    }
}

/// The quotient of `a` by `b`, rounded toward zero.
pub open spec fn truncating_div(a: int, b: int) -> int
    recommends
        b != 0,
{
    if a >= 0 && b > 0 {
        a / b
    } else if a < 0 && b > 0 {
        -((-a) / b)
    } else if a >= 0 && b < 0 {
        -(a / (-b))
    } else {
        (-a) / (-b)
    }
}

/// The absolute value of `x`.
pub open spec fn abs(x: int) -> int {
    if x < 0 {
        -x
    } else {
        x
    }
}

/// `a + b`, saturating.
pub open spec fn plus(a: i64, b: i64) -> i64 {
    saturated(a + b)
}

/// `a - b`, saturating.
pub open spec fn minus(a: i64, b: i64) -> i64 {
    saturated(a - b)
}

/// `-a`, saturating.
pub open spec fn negated(a: i64) -> i64 {
    saturated(-a)
}

/// The fixed-point product of `a` and `b`, rounded toward zero, saturating.
pub open spec fn times(a: i64, b: i64) -> i64 {
    saturated(truncating_div(a * b, ONE as int))
}

/// The quotient of `a` by a positive `b`, rounded away from zero.
pub open spec fn outward_div(a: int, b: int) -> int
    recommends
        b > 0,
{
    if a >= 0 {
        (a + b - 1) / b
    } else {
        -((-a + b - 1) / b)
    }
}

/// The fixed-point product of `a` and `b`, rounded away from zero,
/// saturating: it is zero only where the exact product is.
pub open spec fn times_outward(a: i64, b: i64) -> i64 {
    saturated(outward_div(a * b, ONE as int))
}

/// The fixed-point quotient of `a` by `b`, rounded toward zero, saturating.
/// A division by zero gives the end of the range on the side of `a`, and
/// zero for `a == 0`.
pub open spec fn over(a: i64, b: i64) -> i64 {
    if b == 0 {
        if a > 0 {
            i64::MAX
        } else if a < 0 {
            i64::MIN
        } else {
            0
        }
    } else {
        saturated(truncating_div(a * ONE, b as int))
    }
}

/// The fixed-point quotient of `a` by `b`, rounded away from zero,
/// saturating: it is zero only where `a` is. A division by zero gives what
/// `over` gives.
pub open spec fn over_outward(a: i64, b: i64) -> i64 {
    if b == 0 {
        over(a, b)
    } else if b > 0 {
        saturated(outward_div(a * ONE, b as int))
    } else {
        saturated(outward_div(-(a * ONE), -(b as int)))
    }
}

/// `x` held within the absolute value of `bound`: between `-|bound|` and
/// `|bound|`.
pub open spec fn limited(x: i64, bound: i64) -> i64 {
    if x > abs(bound as int) {
        abs(bound as int) as i64
    } else if x < -abs(bound as int) {
        (-abs(bound as int)) as i64
    } else {
        x
    }
}

/// Whether `r` is the integer square root of `n`.
pub open spec fn is_root(n: int, r: int) -> bool {
    0 <= r && r * r <= n && n < (r + 1) * (r + 1)
}

/// `x` pinned to the range of `i64`.
pub fn saturate(x: i128) -> (r: i64)
    ensures
        r == saturated(x as int),
{
    if x > i64::MAX as i128 {
        i64::MAX
    } else if x < i64::MIN as i128 {
        i64::MIN
    } else {
        x as i64
    }
}

/// Division rounding toward zero, on operands whose negations fit.
pub(crate) fn divide_toward_zero(a: i128, b: i128) -> (r: i128)
    requires
        b != 0,
        a > i128::MIN,
        b > i128::MIN,
    ensures
        r == truncating_div(a as int, b as int),
{
    if a >= 0 && b > 0 {
        a / b
    } else if a < 0 && b > 0 {
        let q: i128 = (-a) / b;
        -q
    } else if a >= 0 && b < 0 {
        let q: i128 = a / (-b);
        -q
    } else {
        (-a) / (-b)
    }
}

/// `a + b`, saturating.
pub fn sum(a: i64, b: i64) -> (r: i64)
    ensures
        r == plus(a, b),
{
    saturate(a as i128 + b as i128)
}

/// `a - b`, saturating.
pub fn difference(a: i64, b: i64) -> (r: i64)
    ensures
        r == minus(a, b),
{
    saturate(a as i128 - b as i128)
}

/// `-a`, saturating.
pub fn negation(a: i64) -> (r: i64)
    ensures
        r == negated(a),
{
    saturate(-(a as i128))
}

/// The fixed-point product of `a` and `b`, rounded toward zero, saturating.
pub fn product(a: i64, b: i64) -> (r: i64)
    ensures
        r == times(a, b),
{
    proof {
        lemma_product_bounds(a as int, b as int);
    }
    let wide: i128 = (a as i128) * (b as i128);
    saturate(divide_toward_zero(wide, ONE as i128))
}

/// The fixed-point product of `a` and `b`, rounded away from zero, saturating.
pub fn product_outward(a: i64, b: i64) -> (r: i64)
    ensures
        r == times_outward(a, b),
{
    proof {
        lemma_product_bounds(a as int, b as int);
    }
    let wide: i128 = (a as i128) * (b as i128);
    let whole: i128 = if wide >= 0 {
        (wide + (ONE as i128 - 1)) / (ONE as i128)
    } else {
        let q: i128 = (-wide + (ONE as i128 - 1)) / (ONE as i128);
        -q
    };
    saturate(whole)
}

/// The fixed-point quotient of `a` by `b`, rounded toward zero, saturating;
/// for `b == 0` the end of the range on the side of `a`, and zero for
/// `a == 0`.
pub fn quotient(a: i64, b: i64) -> (r: i64)
    ensures
        r == over(a, b),
{
    if b == 0 {
        if a > 0 {
            i64::MAX
        } else if a < 0 {
            i64::MIN
        } else {
            0
        }
    } else {
        proof {
            lemma_product_bounds(a as int, ONE as int);
        }
        let wide: i128 = (a as i128) * (ONE as i128);
        saturate(divide_toward_zero(wide, b as i128))
    }
}

/// The fixed-point quotient of `a` by `b`, rounded away from zero,
/// saturating; for `b == 0` what `quotient` gives.
pub fn quotient_outward(a: i64, b: i64) -> (r: i64)
    ensures
        r == over_outward(a, b),
{
    if b == 0 {
        return quotient(a, b);
    }
    proof {
        lemma_product_bounds(a as int, ONE as int);
    }
    let wide: i128 = (a as i128) * (ONE as i128);
    let (dividend, divisor): (i128, i128) = if b > 0 {
        (wide, b as i128)
    } else {
        (-wide, -(b as i128))
    };
    let whole: i128 = if dividend >= 0 {
        (dividend + (divisor - 1)) / divisor
    } else {
        let q: i128 = (-dividend + (divisor - 1)) / divisor;
        -q
    };
    saturate(whole)
}

/// Whether the absolute value of `x` is below `threshold`.
pub fn magnitude_below(x: i64, threshold: i64) -> (r: bool)
    ensures
        r == (abs(x as int) < threshold),
{
    let wide: i128 = if x < 0 {
        -(x as i128)
    } else {
        x as i128
    };
    wide < threshold as i128
}

/// `x` held within the absolute value of `bound`.
pub fn limit(x: i64, bound: i64) -> (r: i64)
    ensures
        r == limited(x, bound),
{
    let reach: i128 = if bound < 0 {
        -(bound as i128)
    } else {
        bound as i128
    };
    if x as i128 > reach {
        reach as i64
    } else if (x as i128) < -reach {
        (-reach) as i64
    } else {
        x
    }
}

/// The integer square root of `n`.
pub open spec fn root_of(n: int) -> int {
    choose|r: int| is_root(n, r)
}

/// A number has at most one integer square root.
pub proof fn lemma_root_unique(n: int, a: int, b: int)
    requires
        is_root(n, a),
        is_root(n, b),
    ensures
        a == b,
{
    if a < b {
        assert((a + 1) * (a + 1) <= b * b) by (nonlinear_arith)
            requires
                0 <= a,
                a + 1 <= b,
        ;
    }
    if b < a {
        assert((b + 1) * (b + 1) <= a * a) by (nonlinear_arith)
            requires
                0 <= b,
                b + 1 <= a,
        ;
    }
}

/// The integer square root of `n`.
pub fn root(n: u128) -> (r: u64)
    ensures
        is_root(n as int, r as int),
        r == root_of(n as int),
{
    let mut lo: u128 = 0;
    let mut hi: u128 = 0x1_0000_0000_0000_0000;
    assert(n < hi * hi) by (nonlinear_arith)
        requires
            n <= 0xFFFF_FFFF_FFFF_FFFF_FFFF_FFFF_FFFF_FFFF,
            hi == 0x1_0000_0000_0000_0000,
    ;
    while hi - lo > 1
        invariant
            lo < hi <= 0x1_0000_0000_0000_0000,
            lo * lo <= n,
            n < hi * hi,
        decreases hi - lo,
    {
        let mid: u128 = lo + (hi - lo) / 2;
        assert(mid * mid <= 0xFFFF_FFFF_FFFF_FFFF * 0xFFFF_FFFF_FFFF_FFFF) by (nonlinear_arith)
            requires
                0 <= mid <= 0xFFFF_FFFF_FFFF_FFFF,
        ;
        if mid * mid <= n {
            lo = mid;
        } else {
            hi = mid;
        }
    }
    proof {
        lemma_root_unique(n as int, lo as int, root_of(n as int));
    }
    lo as u64
}

/// The exponential series for `e^(-f)`, cut after `SERIES_TERMS` terms and
/// written as nested brackets: the bracket at depth `k` is
/// `1 - f/k * (the bracket at depth k + 1)`, and the innermost one is 1.
pub open spec fn series(f: int, k: int) -> int
    decreases SERIES_TERMS + 1 - k,
{
    if k > SERIES_TERMS || k < 1 {
        ONE as int
    } else {
        ONE - (f * series(f, k + 1)) / (k * ONE)
    }
}

/// `r` multiplied `k` times by 1/e, rounding down each time.
pub open spec fn decayed(r: int, k: nat) -> int
    decreases k,
{
    if k == 0 {
        r
    } else {
        decayed(r, (k - 1) as nat) * INV_E / (ONE as int)
    }
}

/// The fixed-point value that stands for `e^(-x)`: 1 for `x <= 0`, 0 from
/// `x = 14` on, and between them the series on the fractional part of `x`,
/// multiplied by 1/e once for each whole unit.
pub open spec fn exp_neg_of(x: i64) -> i64 {
    if x <= 0 {
        ONE
    } else if x >= 14 * ONE {
        0
    } else {
        decayed(series(x as int % ONE as int, 1), (x as int / ONE as int) as nat) as i64
    }
}

/// The fixed-point value that stands for `e^x`: for `x` up to zero the value
/// that stands for `e^(-(-x))`, and above zero the reciprocal of the value
/// that stands for `e^(-x)`, which is pinned to the upper end of the range
/// where that value is zero.
pub open spec fn exp_of(x: i64) -> i64 {
    if x <= 0 {
        exp_neg_of(negated(x))
    } else {
        over(ONE, exp_neg_of(x))
    }
}

/// Each bracket of the series lies between 0 and 1.
pub proof fn lemma_series_bounds(f: int, k: int)
    requires
        0 <= f < ONE,
    ensures
        0 <= series(f, k) <= ONE,
    decreases SERIES_TERMS + 1 - k,
{
    if k > SERIES_TERMS || k < 1 {
    } else {
        lemma_series_bounds(f, k + 1);
        let inner = series(f, k + 1);
        assert(0 <= f * inner <= k * ONE * ONE) by (nonlinear_arith)
            requires
                0 <= f < ONE,
                0 <= inner <= ONE,
                k >= 1,
                ONE == 1_000_000,
        ;
        assert(0 <= (f * inner) / (k * ONE) <= ONE) by (nonlinear_arith)
            requires
                0 <= f * inner <= k * ONE * ONE,
                k >= 1,
                ONE == 1_000_000,
        ;
    }
}

/// Multiplying by 1/e keeps a value between 0 and 1.
pub proof fn lemma_decayed_bounds(r: int, k: nat)
    requires
        0 <= r <= ONE,
    ensures
        0 <= decayed(r, k) <= ONE,
    decreases k,
{
    if k > 0 {
        lemma_decayed_bounds(r, (k - 1) as nat);
    }
}

/// The value that stands for `e^(-x)` lies between 0 and 1, and is 1 at 0.
pub proof fn lemma_exp_neg_bounds(x: i64)
    ensures
        0 <= exp_neg_of(x) <= ONE,
        exp_neg_of(0) == ONE,
{
    if 0 < x < 14 * ONE {
        let f = x as int % ONE as int;
        lemma_series_bounds(f, 1);
        lemma_decayed_bounds(series(f, 1), (x as int / ONE as int) as nat);
    }
}

/// The value that stands for `e^(-x)` is below 1 for every `x` above zero.
pub proof fn lemma_exp_neg_below_one(x: i64)
    requires
        x >= 1,
    ensures
        exp_neg_of(x) < ONE,
{
    let one = ONE as int;
    if x < 14 * ONE {
        let f = x as int % one;
        let whole = (x as int / one) as nat;
        lemma_series_bounds(f, 1);
        if whole >= 1 {
            lemma_decayed_bounds(series(f, 1), (whole - 1) as nat);
            let earlier = decayed(series(f, 1), (whole - 1) as nat);
            assert(earlier * INV_E / one <= INV_E) by (nonlinear_arith)
                requires
                    0 <= earlier <= one,
                    one == 1_000_000,
                    INV_E == 367_879,
            ;
        } else {
            assert(f == x);
            lemma_series_bounds(f, 3);
            let third = series(f, 3);
            let second = series(f, 2);
            assert(second == one - (f * third) / (2 * one)) by {
                reveal_with_fuel(series, 2);
            }
            assert(series(f, 1) == one - (f * second) / (1 * one)) by {
                reveal_with_fuel(series, 2);
            }
            assert((f * third) / (2 * one) <= f / 2) by (nonlinear_arith)
                requires
                    0 <= third <= one,
                    0 <= f,
                    one == 1_000_000,
            ;
            assert(f * second >= one) by (nonlinear_arith)
                requires
                    1 <= f < one,
                    second >= one - f / 2,
                    one == 1_000_000,
            ;
            assert((f * second) / (1 * one) >= 1) by (nonlinear_arith)
                requires
                    f * second >= one,
                    one == 1_000_000,
            ;
        }
    }
}

/// Every number that is not negative has an integer square root.
pub proof fn lemma_root_exists(n: int)
    requires
        n >= 0,
    ensures
        is_root(n, root_of(n)),
    decreases n,
{
    if n == 0 {
        assert(is_root(0, 0));
    } else {
        lemma_root_exists(n - 1);
        let r = root_of(n - 1);
        if (r + 1) * (r + 1) <= n {
            assert(n < (r + 2) * (r + 2)) by (nonlinear_arith)
                requires
                    n - 1 < (r + 1) * (r + 1),
                    r >= 0,
            ;
            assert(is_root(n, r + 1));
        } else {
            assert(is_root(n, r));
        }
    }
}

/// Scaling by a factor between 0 and 1 brings a value toward zero: the
/// product keeps the sign and does not exceed the value.
pub proof fn lemma_times_fraction(factor: i64, value: i64)
    requires
        0 <= factor <= ONE,
    ensures
        value >= 0 ==> 0 <= times(factor, value) <= value,
        value <= 0 ==> value <= times(factor, value) <= 0,
        factor == 0 ==> times(factor, value) == 0,
        factor == ONE ==> times(factor, value) == value,
{
    let one = ONE as int;
    if value >= 0 {
        assert(0 <= factor * value <= one * value) by (nonlinear_arith)
            requires
                0 <= factor <= one,
                value >= 0,
        ;
        assert(0 <= (factor * value) / one <= value) by (nonlinear_arith)
            requires
                0 <= factor * value <= one * value,
                one == 1_000_000,
        ;
        if factor == ONE {
            assert((one * value) / one == value) by (nonlinear_arith)
                requires
                    one == 1_000_000,
            ;
        }
    } else {
        let m = -value;
        assert(factor * value == -(factor * m)) by (nonlinear_arith)
            requires
                m == -value,
        ;
        assert(0 <= factor * m <= one * m) by (nonlinear_arith)
            requires
                0 <= factor <= one,
                m >= 0,
        ;
        assert(0 <= (factor * m) / one <= m) by (nonlinear_arith)
            requires
                0 <= factor * m <= one * m,
                one == 1_000_000,
        ;
        if factor == ONE {
            assert((one * m) / one == m) by (nonlinear_arith)
                requires
                    one == 1_000_000,
            ;
        }
    }
}

/// Scaling by a factor between 0 and 1 and rounding away from zero brings a
/// value toward zero but not to it: the product keeps the sign, does not
/// exceed the value, and is zero only where the factor or the value is.
pub proof fn lemma_times_outward_fraction(factor: i64, value: i64)
    requires
        0 <= factor <= ONE,
    ensures
        value >= 0 ==> 0 <= times_outward(factor, value) <= value,
        value <= 0 ==> value <= times_outward(factor, value) <= 0,
        factor == 0 ==> times_outward(factor, value) == 0,
        factor == ONE ==> times_outward(factor, value) == value,
        factor > 0 && value > 0 ==> times_outward(factor, value) >= 1,
        factor > 0 && value < 0 ==> times_outward(factor, value) <= -1,
{
    let one = ONE as int;
    let m = abs(value as int);
    let p = factor * m;
    assert(0 <= p <= one * m) by (nonlinear_arith)
        requires
            p == factor * m,
            0 <= factor <= one,
            m >= 0,
    ;
    assert(factor * value == p || factor * value == -p) by (nonlinear_arith)
        requires
            p == factor * m,
            m == value || m == -value,
    ;
    assert(0 <= (p + one - 1) / one <= m) by (nonlinear_arith)
        requires
            0 <= p <= one * m,
            one == 1_000_000,
    ;
    if p == 0 {
        assert((p + one - 1) / one == 0) by (nonlinear_arith)
            requires
                p == 0,
                one == 1_000_000,
        ;
    }
    if factor > 0 && m > 0 {
        assert(p >= 1) by (nonlinear_arith)
            requires
                p == factor * m,
                factor >= 1,
                m >= 1,
        ;
        assert((p + one - 1) / one >= 1) by (nonlinear_arith)
            requires
                p >= 1,
                one == 1_000_000,
        ;
    }
    if factor == ONE {
        assert((one * m + one - 1) / one == m) by (nonlinear_arith)
            requires
                one == 1_000_000,
        ;
    }
    let exact = factor * value;
    if value < 0 {
        assert(exact == -p) by (nonlinear_arith)
            requires
                exact == factor * value,
                p == factor * m,
                m == -value,
        ;
        assert(outward_div(exact, one) == -((p + one - 1) / one));
    } else {
        assert(exact == p);
        assert(outward_div(exact, one) == (p + one - 1) / one);
    }
}

/// The fixed-point value of `e^(-x)`.
pub fn exp_neg(x: i64) -> (r: i64)
    ensures
        r == exp_neg_of(x),
        0 <= r <= ONE,
        x <= 0 ==> r == ONE,
{
    if x <= 0 {
        return ONE;
    }
    if x >= 14 * ONE {
        return 0;
    }
    let f: i64 = x % ONE;
    let whole: i64 = x / ONE;
    let mut t: i64 = ONE;
    let mut k: i64 = SERIES_TERMS as i64;
    while k >= 1
        invariant
            0 <= k <= SERIES_TERMS,
            0 <= f < ONE,
            t == series(f as int, k + 1),
            0 <= t <= ONE,
        decreases k,
    {
        proof {
            lemma_series_bounds(f as int, k as int);
            assert(0 <= f * t <= ONE * ONE) by (nonlinear_arith)
                requires
                    0 <= f < ONE,
                    0 <= t <= ONE,
            ;
        }
        t = ONE - (f * t) / (k * ONE);
        k = k - 1;
    }
    let mut r: i64 = t;
    let mut done: i64 = 0;
    while done < whole
        invariant
            0 <= done <= whole < 14,
            r == decayed(t as int, done as nat),
            0 <= r <= ONE,
            0 <= t <= ONE,
        decreases whole - done,
    {
        proof {
            lemma_decayed_bounds(t as int, (done + 1) as nat);
        }
        r = r * INV_E / ONE;
        done = done + 1;
    }
    r
}

/// The fixed-point value of `e^x`.
pub fn exponential(x: i64) -> (r: i64)
    ensures
        r == exp_of(x),
{
    if x <= 0 {
        exp_neg(negation(x))
    } else {
        quotient(ONE, exp_neg(x))
    }
}

/// The value that stands for `e^x` is 1 at zero, between 0 and 1 below zero
/// and short of 1 there, and above 1 above zero.
pub proof fn lemma_exp_bounds(x: i64)
    ensures
        exp_of(0) == ONE,
        x <= 0 ==> 0 <= exp_of(x) <= ONE,
        x < 0 ==> exp_of(x) < ONE,
        x > 0 ==> exp_of(x) > ONE,
{
    let one = ONE as int;
    if x <= 0 {
        lemma_exp_neg_bounds(negated(x));
        if x < 0 {
            lemma_exp_neg_below_one(negated(x));
        }
    } else {
        lemma_exp_neg_bounds(x);
        lemma_exp_neg_below_one(x);
        let e = exp_neg_of(x) as int;
        if e > 0 {
            assert((one * one) / e >= one + 1) by (nonlinear_arith)
                requires
                    0 < e <= one - 1,
                    one == 1_000_000,
            ;
        }
    }
}

/// The product of two 64-bit values fits in 128 bits with room to spare.
pub proof fn lemma_product_bounds(a: int, b: int)
    requires
        i64::MIN <= a <= i64::MAX,
        i64::MIN <= b <= i64::MAX,
    ensures
        -0x4000_0000_0000_0000_0000_0000_0000_0000 <= a * b
            <= 0x4000_0000_0000_0000_0000_0000_0000_0000,
{
    assert(-0x4000_0000_0000_0000_0000_0000_0000_0000 <= a * b
        <= 0x4000_0000_0000_0000_0000_0000_0000_0000) by (nonlinear_arith)
        requires
            -0x8000_0000_0000_0000 <= a <= 0x8000_0000_0000_0000,
            -0x8000_0000_0000_0000 <= b <= 0x8000_0000_0000_0000,
    ;
}

} // verus!
