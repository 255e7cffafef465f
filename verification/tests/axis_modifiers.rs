use press_here::axis::modifiers::remap_value;
use press_here::{
    Add, AxisBinding, AxisBindingBuilder, Divide, Inputs, Invert, KeyCode, Multiply, Remap,
    Subtract, Transformation, WithCurve,
};

fn pressing(codes: &[u32]) -> Inputs {
    let mut inputs = Inputs::new();
    inputs.keycodes.pressed = codes.to_vec();
    inputs
}

#[test]
fn multiply_reports_the_product() {
    let inputs = Inputs::new();
    assert_eq!(Multiply(500_000i64, 500_000i64).value(&inputs), Some(250_000));
    assert_eq!(Multiply(3_000_000i64, -2_000_000i64).value(&inputs), Some(-6_000_000));
    assert_eq!(1_500_000i64.mult(-2_500_000i64).value(&inputs), Some(-3_750_000));
}

#[test]
fn multiply_counts_a_silent_operand_as_zero() {
    let inputs = Inputs::new();
    assert_eq!(Multiply(500_000i64, ()).value(&inputs), Some(0));
    assert_eq!(Multiply((), 500_000i64).value(&inputs), Some(0));
    assert_eq!(Multiply((), ()).value(&inputs), Some(0));
}

#[test]
fn divide_reports_the_quotient() {
    let inputs = Inputs::new();
    assert_eq!(Divide(1_000_000i64, 4_000_000i64).value(&inputs), Some(250_000));
    assert_eq!(Divide(3_000_000i64, -2_000_000i64).value(&inputs), Some(-1_500_000));
    assert_eq!(1_000_000i64.div(3_000_000i64).value(&inputs), Some(333_333));
}

#[test]
fn divide_counts_a_silent_divisor_as_one_and_a_silent_dividend_as_zero() {
    let inputs = Inputs::new();
    assert_eq!(Divide(750_000i64, ()).value(&inputs), Some(750_000));
    assert_eq!(Divide((), 4_000_000i64).value(&inputs), Some(0));
    assert_eq!(Divide((), ()).value(&inputs), Some(0));
}

#[test]
fn divide_by_zero_is_pinned_by_the_sign_of_the_dividend() {
    let inputs = Inputs::new();
    assert_eq!(Divide(5i64, 0i64).value(&inputs), Some(i64::MAX));
    assert_eq!(Divide(-5i64, 0i64).value(&inputs), Some(i64::MIN));
    assert_eq!(Divide(0i64, 0i64).value(&inputs), Some(0));
}

#[test]
fn add_reports_the_sum() {
    let inputs = Inputs::new();
    assert_eq!(Add(250_000i64, 500_000i64).value(&inputs), Some(750_000));
    assert_eq!(Add(250_000i64, ()).value(&inputs), Some(250_000));
    assert_eq!(Add((), -500_000i64).value(&inputs), Some(-500_000));
    assert_eq!(Add((), ()).value(&inputs), Some(0));
    assert_eq!(i64::MAX.add(1i64).value(&inputs), Some(i64::MAX));
}

#[test]
fn subtract_reports_the_difference() {
    let inputs = Inputs::new();
    assert_eq!(Subtract(250_000i64, 500_000i64).value(&inputs), Some(-250_000));
    assert_eq!(Subtract(250_000i64, ()).value(&inputs), Some(250_000));
    assert_eq!(Subtract((), 500_000i64).value(&inputs), Some(-500_000));
    assert_eq!(Subtract((), ()).value(&inputs), Some(0));
    assert_eq!(i64::MIN.sub(1i64).value(&inputs), Some(i64::MIN));
}

#[test]
fn invert_negates_and_passes_silence_on() {
    let inputs = pressing(&[65]);
    assert_eq!(Invert(KeyCode(65)).value(&inputs), Some(-1_000_000));
    assert_eq!(Invert(KeyCode(66)).value(&inputs), None);
    assert_eq!(Invert(-250_000i64).value(&inputs), Some(250_000));
    assert_eq!(i64::MIN.invert().value(&inputs), Some(i64::MAX));
    assert_eq!(0i64.invert().value(&inputs), Some(0));
}

#[test]
fn remap_maps_the_middle_of_the_range() {
    assert_eq!(remap_value(500_000, 0, 1_000_000, 0, 10_000_000), 5_000_000);
    let mut binding = Remap(500_000i64, 0, 1_000_000, 0, 10_000_000);
    assert_eq!(binding.value(&Inputs::new()), Some(5_000_000));
}

#[test]
fn remap_carries_values_outside_the_range_on() {
    assert_eq!(remap_value(2_000_000, 0, 1_000_000, 0, 10_000_000), 20_000_000);
    assert_eq!(remap_value(-500_000, 0, 1_000_000, 0, 10_000_000), -5_000_000);
    let mut binding = 2_000_000i64.remap(0, 1_000_000, 0, 10_000_000);
    assert_eq!(binding.value(&Inputs::new()), Some(20_000_000));
}

#[test]
fn remap_maps_the_ends_to_the_ends() {
    assert_eq!(remap_value(200_000, 200_000, 1_000_000, 0, 1_000_000), 0);
    assert_eq!(remap_value(1_000_000, 200_000, 1_000_000, 0, 1_000_000), 1_000_000);
    assert_eq!(remap_value(600_000, 200_000, 1_000_000, 0, 1_000_000), 500_000);
    assert_eq!(remap_value(0, 0, 1_000_000, -1_000_000, 1_000_000), -1_000_000);
    assert_eq!(remap_value(250_000, 0, 1_000_000, 1_000_000, 0), 750_000);
}

#[test]
fn remap_of_an_empty_range_is_pinned() {
    assert_eq!(remap_value(5, 3, 3, 0, 1_000_000), i64::MAX);
    assert_eq!(remap_value(1, 3, 3, 0, 1_000_000), i64::MIN);
    assert_eq!(remap_value(3, 3, 3, 250_000, 1_000_000), 250_000);
}

#[test]
fn remap_passes_silence_on() {
    let mut binding = KeyCode(65).remap(0, 1_000_000, 0, 10_000_000);
    assert_eq!(binding.value(&pressing(&[])), None);
    assert_eq!(binding.value(&pressing(&[65])), Some(10_000_000));
}

#[test]
fn remap_after_deadzone_starts_from_zero() {
    let mut binding = 600_000i64.deadzone(200_000).remap(200_000, 1_000_000, 0, 1_000_000);
    assert_eq!(binding.value(&Inputs::new()), Some(500_000));
    let mut small = 100_000i64.deadzone(200_000).remap(200_000, 1_000_000, 0, 1_000_000);
    assert_eq!(small.value(&Inputs::new()), None);
}

#[test]
fn transformation_applies_its_function() {
    let inputs = pressing(&[65]);
    let mut doubled = Transformation(KeyCode(65), |v: i64| v * 2);
    assert_eq!(doubled.value(&inputs), Some(2_000_000));
    let mut silent = Transformation(KeyCode(66), |v: i64| v * 2);
    assert_eq!(silent.value(&inputs), None);
    let mut chained = 300_000i64.transform(|v: i64| v - 1_000_000);
    assert_eq!(chained.value(&inputs), Some(-700_000));
}

#[test]
fn with_curve_reads_the_curve_and_passes_its_gaps_on() {
    let inputs = pressing(&[65]);
    let curve = |t: i64| if (0..=1_000_000).contains(&t) { Some(t / 2) } else { None };
    let mut inside = WithCurve(500_000i64, curve);
    assert_eq!(inside.value(&inputs), Some(250_000));
    let mut outside = WithCurve(1_500_000i64, curve);
    assert_eq!(outside.value(&inputs), None);
    let mut silent = KeyCode(66).with_curve(curve);
    assert_eq!(silent.value(&inputs), None);
    let mut pressed = KeyCode(65).with_curve(curve);
    assert_eq!(pressed.value(&inputs), Some(500_000));
}
