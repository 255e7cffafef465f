use press_here::axis::combinators::{mean_value, pair_value};
use press_here::{
    AxisBinding, AxisBindingBuilder, Inputs, KeyCode, MouseX, Pair, Smooth, WithTriggerBinding,
};

const KEY_A: KeyCode = KeyCode(65);
const KEY_D: KeyCode = KeyCode(68);

fn pressing(codes: &[u32]) -> Inputs {
    let mut inputs = Inputs::new();
    inputs.keycodes.pressed = codes.to_vec();
    inputs
}

#[test]
fn pair_reports_nothing_when_both_sides_are_silent() {
    assert_eq!(pair_value(None, None), None);
    let mut binding = Pair(KEY_A, KEY_D);
    assert_eq!(binding.value(&pressing(&[])), None);
    let mut empty = Pair((), ());
    assert_eq!(empty.value(&pressing(&[65])), None);
}

#[test]
fn pair_counts_a_silent_side_as_zero() {
    assert_eq!(pair_value(None, Some(750_000)), Some(750_000));
    assert_eq!(pair_value(Some(750_000), None), Some(-750_000));
    let mut binding = Pair(KEY_A, KEY_D);
    assert_eq!(binding.value(&pressing(&[68])), Some(1_000_000));
    assert_eq!(binding.value(&pressing(&[65])), Some(-1_000_000));
}

#[test]
fn pair_reports_positive_less_negative() {
    assert_eq!(pair_value(Some(250_000), Some(1_000_000)), Some(750_000));
    assert_eq!(pair_value(Some(0), Some(0)), Some(0));
    let mut binding = Pair(KEY_A, KEY_D);
    assert_eq!(binding.value(&pressing(&[65, 68])), Some(0));
    let mut constants = Pair(300_000i64, -200_000i64);
    assert_eq!(constants.value(&pressing(&[])), Some(-500_000));
}

#[test]
fn pair_pins_a_difference_that_does_not_fit() {
    assert_eq!(pair_value(Some(i64::MAX), Some(i64::MIN)), Some(i64::MIN));
    assert_eq!(pair_value(Some(i64::MIN), Some(i64::MAX)), Some(i64::MAX));
    assert_eq!(pair_value(Some(i64::MIN), None), Some(i64::MAX));
}

#[test]
fn mean_of_no_values_is_nothing() {
    assert_eq!(mean_value(&vec![]), None);
    assert_eq!(mean_value(&vec![None]), None);
    assert_eq!(mean_value(&vec![None, None, None]), None);
}

#[test]
fn mean_counts_only_the_members_that_report() {
    assert_eq!(mean_value(&vec![Some(600_000)]), Some(600_000));
    assert_eq!(mean_value(&vec![None, Some(600_000), None]), Some(600_000));
    assert_eq!(mean_value(&vec![Some(1_000_000), None, Some(500_000)]), Some(750_000));
    assert_eq!(
        mean_value(&vec![Some(1_000_000), Some(500_000), Some(-300_000), None]),
        Some(400_000)
    );
    // A reported zero is counted.
    assert_eq!(mean_value(&vec![Some(0), Some(1_000_000)]), Some(500_000));
}

#[test]
fn mean_rounds_toward_zero() {
    assert_eq!(mean_value(&vec![Some(1), Some(2)]), Some(1));
    assert_eq!(mean_value(&vec![Some(-1), Some(-2)]), Some(-1));
    assert_eq!(mean_value(&vec![Some(1), Some(0), Some(0)]), Some(0));
    assert_eq!(mean_value(&vec![Some(-1), Some(0), Some(0)]), Some(0));
    assert_eq!(mean_value(&vec![Some(10), Some(10), Some(11)]), Some(10));
}

#[test]
fn mean_of_extreme_values_fits() {
    assert_eq!(mean_value(&vec![Some(i64::MAX), Some(i64::MAX), Some(i64::MAX)]), Some(i64::MAX));
    assert_eq!(mean_value(&vec![Some(i64::MIN), Some(i64::MIN)]), Some(i64::MIN));
    assert_eq!(mean_value(&vec![Some(i64::MIN), Some(i64::MAX)]), Some(0));
}

#[test]
fn tuple_of_axes_reports_the_mean_of_its_active_members() {
    let inputs = pressing(&[68]);
    let mut none = (KEY_A, (), MouseX);
    assert_eq!(none.value(&inputs), None);
    let mut one = (KEY_A, KEY_D);
    assert_eq!(one.value(&inputs), Some(1_000_000));
    let mut two = (KEY_D, 500_000i64, KEY_A);
    assert_eq!(two.value(&inputs), Some(750_000));
    let mut nested = (Pair(KEY_A, KEY_D), Pair(KEY_D, KEY_A), Pair(KeyCode(1), KeyCode(2)));
    assert_eq!(nested.value(&inputs), Some(0));
}

#[test]
fn tuple_of_ten_axes_counts_every_member() {
    let inputs = pressing(&[]);
    let mut binding = (
        1_000_000i64,
        2_000_000i64,
        3_000_000i64,
        4_000_000i64,
        5_000_000i64,
        6_000_000i64,
        7_000_000i64,
        8_000_000i64,
        9_000_000i64,
        10_000_000i64,
    );
    assert_eq!(binding.value(&inputs), Some(5_500_000));
    let mut sparse = ((), (), (), (), (), (), (), (), (), 10_000_000i64);
    assert_eq!(sparse.value(&inputs), Some(10_000_000));
}

#[test]
fn list_of_axes_reports_the_mean_of_its_active_members() {
    let inputs = pressing(&[1, 3]);
    let mut binding = vec![KeyCode(1), KeyCode(2), KeyCode(3)];
    assert_eq!(binding.value(&inputs), Some(1_000_000));
    let mut silent = vec![KeyCode(2), KeyCode(4)];
    assert_eq!(silent.value(&inputs), None);
    let mut empty: Vec<i64> = Vec::new();
    assert_eq!(empty.value(&inputs), None);
    let mut constants = vec![100_000i64, 200_000, 600_000];
    assert_eq!(constants.value(&inputs), Some(300_000));
}

#[test]
fn list_of_axes_evaluates_each_member_once() {
    let mut inputs = pressing(&[]);
    inputs.delta = 100_000;
    let mut binding = vec![Smooth::new(1_000_000i64, 200_000), Smooth::new(0i64, 200_000)];
    assert_eq!(binding.value(&inputs), Some(196_734));
    assert_eq!(binding[0].previous_value, 393_469);
    assert_eq!(binding[1].previous_value, 0);
    assert_eq!(binding.value(&inputs), Some(316_060));
    assert_eq!(binding[0].previous_value, 632_121);
}

#[test]
fn with_trigger_binding_reports_only_while_the_trigger_is_down() {
    let mut binding = WithTriggerBinding(700_000i64, KEY_A);
    assert_eq!(binding.value(&pressing(&[])), None);
    assert_eq!(binding.value(&pressing(&[65])), Some(700_000));
    let mut chained = KEY_D.with_trigger_binding(KEY_A);
    assert_eq!(chained.value(&pressing(&[68])), None);
    assert_eq!(chained.value(&pressing(&[65])), None);
    assert_eq!(chained.value(&pressing(&[65, 68])), Some(1_000_000));
}

#[test]
fn with_trigger_binding_leaves_its_axis_alone_while_the_trigger_is_up() {
    let mut up = pressing(&[]);
    up.delta = 100_000;
    let mut down = pressing(&[65]);
    down.delta = 100_000;
    let mut binding = WithTriggerBinding(Smooth::new(1_000_000i64, 200_000), KEY_A);
    assert_eq!(binding.value(&up), None);
    assert_eq!(binding.0.previous_value, 0);
    assert_eq!(binding.value(&down), Some(393_469));
    assert_eq!(binding.value(&up), None);
    assert_eq!(binding.0.previous_value, 393_469);
    assert_eq!(binding.value(&down), Some(632_121));
}
