use press_here::fixed::ONE;
use press_here::{
    AxisBinding, Gamepad, GamepadAxis, GamepadButton, Inputs, KeyCode, MouseButton, MouseMotion,
    MouseScroll, MouseScrollUnit, MouseWheel, MouseX, MouseY,
};

#[test]
fn empty_axis_reports_nothing() {
    let mut inputs = Inputs::new();
    inputs.keycodes.pressed.push(1);
    assert_eq!(().value(&inputs), None);
}

#[test]
fn constant_axis_reports_itself() {
    let inputs = Inputs::new();
    let mut half: i64 = 500_000;
    assert_eq!(half.value(&inputs), Some(500_000));
    let mut zero: i64 = 0;
    assert_eq!(zero.value(&inputs), Some(0));
    let mut negative: i64 = -2 * ONE;
    assert_eq!(negative.value(&inputs), Some(-2_000_000));
}

#[test]
fn key_axis_reports_one_while_down() {
    let mut inputs = Inputs::new();
    let mut key = KeyCode(65);
    assert_eq!(key.value(&inputs), None);
    inputs.keycodes.pressed.push(65);
    assert_eq!(key.value(&inputs), Some(1_000_000));
    // An edge alone is no value.
    let mut other = KeyCode(66);
    inputs.keycodes.just_pressed.push(66);
    assert_eq!(other.value(&inputs), None);
}

#[test]
fn mouse_button_axis_reports_one_while_down() {
    let mut inputs = Inputs::new();
    let mut button = MouseButton(1);
    assert_eq!(button.value(&inputs), None);
    inputs.mouse_buttons.pressed.push(1);
    assert_eq!(button.value(&inputs), Some(1_000_000));
}

#[test]
fn gamepad_button_axis_reports_the_first_gamepad_that_has_a_value() {
    let mut first = Gamepad::new();
    first.button_values.push((3, 250_000));
    let mut second = Gamepad::new();
    second.button_values.push((7, 750_000));
    second.button_values.push((3, 900_000));
    let mut inputs = Inputs::new();
    inputs.gamepads.push(Gamepad::new());
    inputs.gamepads.push(first);
    inputs.gamepads.push(second);
    assert_eq!(GamepadButton(3).value(&inputs), Some(250_000));
    assert_eq!(GamepadButton(7).value(&inputs), Some(750_000));
    assert_eq!(GamepadButton(9).value(&inputs), None);
}

#[test]
fn gamepad_axis_reports_the_first_gamepad_that_has_a_value() {
    let mut first = Gamepad::new();
    first.axis_values.push((0, -300_000));
    let mut second = Gamepad::new();
    second.axis_values.push((0, 800_000));
    second.axis_values.push((1, 0));
    let mut inputs = Inputs::new();
    inputs.gamepads.push(first);
    inputs.gamepads.push(second);
    assert_eq!(GamepadAxis(0).value(&inputs), Some(-300_000));
    // A reported zero is a value.
    assert_eq!(GamepadAxis(1).value(&inputs), Some(0));
    assert_eq!(GamepadAxis(2).value(&inputs), None);
    // Button values and axis values are looked up apart.
    assert_eq!(GamepadButton(0).value(&inputs), None);
}

#[test]
fn gamepad_axis_takes_the_first_entry_of_a_code() {
    let mut pad = Gamepad::new();
    pad.axis_values.push((4, 100_000));
    pad.axis_values.push((4, 200_000));
    assert_eq!(pad.axis_value(GamepadAxis(4)), Some(100_000));
    assert_eq!(pad.button_value(GamepadButton(4)), None);
}

#[test]
fn gamepad_axis_without_gamepads_reports_nothing() {
    let inputs = Inputs::new();
    assert_eq!(GamepadAxis(0).value(&inputs), None);
    assert_eq!(GamepadButton(0).value(&inputs), None);
}

#[test]
fn mouse_motion_axes_sum_the_movements_of_the_tick() {
    let mut inputs = Inputs::new();
    assert_eq!(MouseX.value(&inputs), None);
    assert_eq!(MouseY.value(&inputs), None);
    inputs.mouse_motion.push(MouseMotion { delta_x: 1_500_000, delta_y: -2_000_000 });
    inputs.mouse_motion.push(MouseMotion { delta_x: 2_250_000, delta_y: 500_000 });
    inputs.mouse_motion.push(MouseMotion { delta_x: -750_000, delta_y: 0 });
    assert_eq!(MouseX.value(&inputs), Some(3_000_000));
    assert_eq!(MouseY.value(&inputs), Some(-1_500_000));
}

#[test]
fn mouse_motion_that_cancels_out_is_zero_not_nothing() {
    let mut inputs = Inputs::new();
    inputs.mouse_motion.push(MouseMotion { delta_x: 5, delta_y: 0 });
    inputs.mouse_motion.push(MouseMotion { delta_x: -5, delta_y: 0 });
    assert_eq!(MouseX.value(&inputs), Some(0));
    assert_eq!(MouseY.value(&inputs), Some(0));
}

#[test]
fn mouse_motion_sum_is_exact_before_it_is_pinned() {
    let mut inputs = Inputs::new();
    inputs.mouse_motion.push(MouseMotion { delta_x: i64::MAX, delta_y: i64::MIN });
    inputs.mouse_motion.push(MouseMotion { delta_x: i64::MAX, delta_y: i64::MIN });
    inputs.mouse_motion.push(MouseMotion { delta_x: i64::MIN, delta_y: i64::MAX });
    assert_eq!(MouseX.value(&inputs), Some(i64::MAX - 1));
    assert_eq!(MouseY.value(&inputs), Some(i64::MIN));
    inputs.mouse_motion.push(MouseMotion { delta_x: i64::MAX, delta_y: i64::MIN });
    assert_eq!(MouseX.value(&inputs), Some(i64::MAX));
    assert_eq!(MouseY.value(&inputs), Some(i64::MIN));
}

#[test]
fn mouse_wheel_default_counts_sixteen_pixels_to_the_line() {
    assert_eq!(MouseWheel::default().px_per_line, 16_000_000);
}

#[test]
fn mouse_wheel_converts_lines_and_passes_pixels() {
    let mut inputs = Inputs::new();
    let mut wheel = MouseWheel::default();
    assert_eq!(wheel.value(&inputs), None);
    inputs.mouse_wheel.push(MouseScroll { unit: MouseScrollUnit::Line, x: 9 * ONE, y: 2 * ONE });
    assert_eq!(wheel.value(&inputs), Some(32_000_000));
    inputs.mouse_wheel.push(MouseScroll { unit: MouseScrollUnit::Pixel, x: 0, y: -5_500_000 });
    assert_eq!(wheel.value(&inputs), Some(26_500_000));
    let mut fine = MouseWheel { px_per_line: 2_500_000 };
    assert_eq!(fine.value(&inputs), Some(-500_000));
}

#[test]
fn boxed_axis_behaves_as_its_content() {
    let mut inputs = Inputs::new();
    inputs.keycodes.pressed.push(65);
    let mut binding = Box::new(KeyCode(65));
    assert_eq!(binding.value(&inputs), Some(1_000_000));
}

#[test]
fn delta_secs_is_the_delta_in_millionths() {
    let mut inputs = Inputs::new();
    assert_eq!(inputs.delta_secs(), 0);
    inputs.delta = 16_667;
    assert_eq!(inputs.delta_secs(), 16_667);
    inputs.delta = u64::MAX;
    assert_eq!(inputs.delta_secs(), i64::MAX);
}
