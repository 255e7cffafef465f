use press_here::fixed::{
    difference, exp_neg, exponential, limit, magnitude_below, negation, product, product_outward,
    quotient, quotient_outward, root, saturate, sum, INV_E, ONE,
};

#[test]
fn one_is_a_million() {
    assert_eq!(ONE, 1_000_000);
    assert_eq!(INV_E, 367_879);
}

#[test]
fn saturate_pins_to_the_range() {
    assert_eq!(saturate(0), 0);
    assert_eq!(saturate(-42), -42);
    assert_eq!(saturate(i64::MAX as i128), i64::MAX);
    assert_eq!(saturate(i64::MAX as i128 + 1), i64::MAX);
    assert_eq!(saturate(i64::MIN as i128), i64::MIN);
    assert_eq!(saturate(i64::MIN as i128 - 1), i64::MIN);
    assert_eq!(saturate(i128::MAX), i64::MAX);
    assert_eq!(saturate(i128::MIN), i64::MIN);
}

#[test]
fn sum_and_difference_saturate() {
    assert_eq!(sum(250_000, 500_000), 750_000);
    assert_eq!(sum(i64::MAX, 1), i64::MAX);
    assert_eq!(sum(i64::MIN, -1), i64::MIN);
    assert_eq!(sum(i64::MAX, i64::MIN), -1);
    assert_eq!(difference(250_000, 500_000), -250_000);
    assert_eq!(difference(i64::MIN, 1), i64::MIN);
    assert_eq!(difference(0, i64::MIN), i64::MAX);
    assert_eq!(difference(i64::MAX, -1), i64::MAX);
}

#[test]
fn negation_saturates_at_the_lower_end() {
    assert_eq!(negation(1_000_000), -1_000_000);
    assert_eq!(negation(0), 0);
    assert_eq!(negation(i64::MAX), i64::MIN + 1);
    assert_eq!(negation(i64::MIN), i64::MAX);
}

#[test]
fn product_is_scaled_and_rounds_toward_zero() {
    assert_eq!(product(500_000, 500_000), 250_000);
    assert_eq!(product(1_500_000, -2_500_000), -3_750_000);
    assert_eq!(product(333_333, 3_000_000), 999_999);
    assert_eq!(product(1, 1), 0);
    assert_eq!(product(-1, 1), 0);
    assert_eq!(product(ONE, 123_456), 123_456);
    assert_eq!(product(0, i64::MIN), 0);
}

#[test]
fn product_saturates() {
    assert_eq!(product(i64::MAX, 2 * ONE), i64::MAX);
    assert_eq!(product(i64::MIN, 2 * ONE), i64::MIN);
    assert_eq!(product(i64::MIN, -2 * ONE), i64::MAX);
    assert_eq!(product(i64::MIN, i64::MIN), i64::MAX);
    assert_eq!(product(i64::MAX, ONE), i64::MAX);
}

#[test]
fn quotient_is_scaled_and_rounds_toward_zero() {
    assert_eq!(quotient(ONE, 4 * ONE), 250_000);
    assert_eq!(quotient(ONE, 3 * ONE), 333_333);
    assert_eq!(quotient(-ONE, 3 * ONE), -333_333);
    assert_eq!(quotient(7 * ONE, -2 * ONE), -3_500_000);
    assert_eq!(quotient(123_456, ONE), 123_456);
    assert_eq!(quotient(0, 5), 0);
}

#[test]
fn quotient_saturates_and_pins_division_by_zero() {
    assert_eq!(quotient(ONE, 1), 1_000_000_000_000);
    assert_eq!(quotient(i64::MAX, 500_000), i64::MAX);
    assert_eq!(quotient(i64::MIN, 500_000), i64::MIN);
    assert_eq!(quotient(5, 0), i64::MAX);
    assert_eq!(quotient(-5, 0), i64::MIN);
    assert_eq!(quotient(0, 0), 0);
}

#[test]
fn magnitude_below_compares_the_absolute_value() {
    assert!(magnitude_below(99, 100));
    assert!(magnitude_below(-99, 100));
    assert!(!magnitude_below(100, 100));
    assert!(!magnitude_below(-100, 100));
    assert!(!magnitude_below(0, 0));
    assert!(!magnitude_below(i64::MIN, i64::MAX));
    assert!(magnitude_below(i64::MIN + 2, i64::MAX));
}

#[test]
fn limit_holds_a_value_within_a_bound() {
    assert_eq!(limit(5, 10), 5);
    assert_eq!(limit(15, 10), 10);
    assert_eq!(limit(-15, 10), -10);
    assert_eq!(limit(-10, 10), -10);
    assert_eq!(limit(7, 0), 0);
    assert_eq!(limit(i64::MIN, i64::MAX), -i64::MAX);
}

#[test]
fn limit_takes_a_negative_bound_by_its_absolute_value() {
    assert_eq!(limit(7, -5), 5);
    assert_eq!(limit(-7, -5), -5);
    assert_eq!(limit(3, -5), 3);
    assert_eq!(limit(i64::MIN, i64::MIN), i64::MIN);
    assert_eq!(limit(i64::MAX, i64::MIN), i64::MAX);
    assert_eq!(limit(i64::MAX, -i64::MAX), i64::MAX);
}

#[test]
fn product_outward_rounds_away_from_zero() {
    assert_eq!(product_outward(1, 1), 1);
    assert_eq!(product_outward(-1, 1), -1);
    assert_eq!(product_outward(0, 5), 0);
    assert_eq!(product_outward(5, 0), 0);
    assert_eq!(product_outward(500_000, 500_000), 250_000);
    assert_eq!(product_outward(333_333, 3 * ONE), 999_999);
    assert_eq!(product_outward(-333_333, 3 * ONE), -999_999);
    assert_eq!(product_outward(333_333, 3 * ONE + 1), 1_000_000);
    assert_eq!(product_outward(ONE, 123), 123);
    assert_eq!(product_outward(393_469, ONE), 393_469);
    assert_eq!(product_outward(i64::MAX, 2 * ONE), i64::MAX);
    assert_eq!(product_outward(i64::MIN, 2 * ONE), i64::MIN);
}

#[test]
fn root_is_the_integer_square_root() {
    assert_eq!(root(0), 0);
    assert_eq!(root(1), 1);
    assert_eq!(root(2), 1);
    assert_eq!(root(3), 1);
    assert_eq!(root(4), 2);
    assert_eq!(root(99), 9);
    assert_eq!(root(100), 10);
    assert_eq!(root(1_000_000_000_000), 1_000_000);
    assert_eq!(root(999_999_999_999), 999_999);
    assert_eq!(root(u128::MAX), u64::MAX);
}

#[test]
fn exp_neg_follows_the_exponential() {
    assert_eq!(exp_neg(0), 1_000_000);
    assert_eq!(exp_neg(1), 999_999);
    assert_eq!(exp_neg(100_000), 904_838);
    assert_eq!(exp_neg(250_000), 778_801);
    assert_eq!(exp_neg(500_000), 606_531);
    assert_eq!(exp_neg(693_147), 500_000);
    assert_eq!(exp_neg(999_999), 367_880);
    assert_eq!(exp_neg(1_000_000), 367_879);
    assert_eq!(exp_neg(1_500_000), 223_130);
    assert_eq!(exp_neg(2_000_000), 135_334);
    assert_eq!(exp_neg(3_000_000), 49_786);
    assert_eq!(exp_neg(10_000_000), 45);
}

#[test]
fn exp_neg_is_one_up_to_zero_and_zero_from_fourteen_on() {
    assert_eq!(exp_neg(-5), 1_000_000);
    assert_eq!(exp_neg(i64::MIN), 1_000_000);
    assert_eq!(exp_neg(13_999_999), 0);
    assert_eq!(exp_neg(14_000_000), 0);
    assert_eq!(exp_neg(i64::MAX), 0);
}

#[test]
fn exp_neg_never_grows() {
    let mut last = exp_neg(0);
    let mut x = 0;
    while x <= 15_000_000 {
        let next = exp_neg(x);
        assert!(next <= last);
        assert!((0..=1_000_000).contains(&next));
        last = next;
        x += 12_345;
    }
}

#[test]
fn quotient_outward_rounds_away_from_zero() {
    assert_eq!(quotient_outward(ONE, 3 * ONE), 333_334);
    assert_eq!(quotient_outward(-ONE, 3 * ONE), -333_334);
    assert_eq!(quotient_outward(ONE, -3 * ONE), -333_334);
    assert_eq!(quotient_outward(-ONE, -3 * ONE), 333_334);
    assert_eq!(quotient_outward(ONE, 4 * ONE), 250_000);
    assert_eq!(quotient_outward(0, 5), 0);
    assert_eq!(quotient_outward(1, i64::MAX), 1);
    assert_eq!(quotient_outward(1, i64::MIN), -1);
}

#[test]
fn quotient_outward_saturates_and_pins_division_by_zero() {
    assert_eq!(quotient_outward(i64::MAX, 1), i64::MAX);
    assert_eq!(quotient_outward(i64::MIN, 1), i64::MIN);
    assert_eq!(quotient_outward(i64::MIN, -1), i64::MAX);
    assert_eq!(quotient_outward(5, 0), i64::MAX);
    assert_eq!(quotient_outward(-5, 0), i64::MIN);
    assert_eq!(quotient_outward(0, 0), 0);
}

#[test]
fn exponential_follows_the_exponential_on_both_sides_of_zero() {
    assert_eq!(exponential(0), 1_000_000);
    assert_eq!(exponential(-1), 999_999);
    assert_eq!(exponential(1), 1_000_001);
    assert_eq!(exponential(-500_000), 606_531);
    assert_eq!(exponential(500_000), 1_648_720);
    assert_eq!(exponential(-1_000_000), 367_879);
    assert_eq!(exponential(1_000_000), 2_718_285);
    assert_eq!(exponential(2_000_000), 7_389_126);
    assert_eq!(exponential(13_000_000), 1_000_000_000_000);
}

#[test]
fn exponential_is_pinned_far_from_zero() {
    assert_eq!(exponential(14_000_000), i64::MAX);
    assert_eq!(exponential(i64::MAX), i64::MAX);
    assert_eq!(exponential(-14_000_000), 0);
    assert_eq!(exponential(i64::MIN), 0);
}
