use press_here::{
    update_axis, Axis, AxisBinding, AxisBindingBuilder, Gamepad, GamepadAxis, Inputs, KeyCode,
    Pair, Smooth,
};

const KEY_A: KeyCode = KeyCode(65);
const KEY_D: KeyCode = KeyCode(68);

fn pressing(codes: &[u32]) -> Inputs {
    let mut inputs = Inputs::new();
    inputs.keycodes.pressed = codes.to_vec();
    inputs
}

#[test]
fn new_axis_shows_zero() {
    let axis = Axis::new(Pair(KEY_A, KEY_D));
    assert_eq!(axis.value(), 0);
    assert_eq!(axis.binding().0, KEY_A);
    assert_eq!(axis.binding().1, KEY_D);
}

#[test]
fn axis_of_a_pair_of_keys_end_to_end() {
    let mut axis = Axis::new(Pair(KEY_A, KEY_D));
    update_axis(&mut axis, &pressing(&[]));
    assert_eq!(axis.value(), 0);
    update_axis(&mut axis, &pressing(&[68]));
    assert_eq!(axis.value(), 1_000_000);
    update_axis(&mut axis, &pressing(&[65, 68]));
    assert_eq!(axis.value(), 0);
    update_axis(&mut axis, &pressing(&[65]));
    assert_eq!(axis.value(), -1_000_000);
}

#[test]
fn axis_shows_zero_where_its_binding_is_silent() {
    let mut axis = Axis::new(GamepadAxis(0));
    let mut pad = Gamepad::new();
    pad.axis_values.push((0, 420_000));
    let mut connected = Inputs::new();
    connected.gamepads.push(pad);
    axis.update(&connected);
    assert_eq!(axis.value(), 420_000);
    axis.update(&Inputs::new());
    assert_eq!(axis.value(), 0);
}

#[test]
fn axis_of_keys_or_stick_with_deadzone() {
    let mut axis = Axis::new((Pair(KEY_A, KEY_D), GamepadAxis(0).deadzone(100_000)));
    let mut pad = Gamepad::new();
    pad.axis_values.push((0, 50_000));
    let mut inputs = pressing(&[68]);
    inputs.gamepads.push(pad);
    // The stick rests inside its deadzone and does not dilute the keys.
    update_axis(&mut axis, &inputs);
    assert_eq!(axis.value(), 1_000_000);
    inputs.gamepads[0].axis_values[0].1 = 500_000;
    update_axis(&mut axis, &inputs);
    assert_eq!(axis.value(), 750_000);
    inputs.keycodes.pressed.clear();
    update_axis(&mut axis, &inputs);
    assert_eq!(axis.value(), 500_000);
}

#[test]
fn set_binding_discards_what_the_old_tree_remembered() {
    let mut inputs = Inputs::new();
    inputs.delta = 100_000;
    let mut axis = Axis::new(Smooth::new(1_000_000i64, 200_000));
    update_axis(&mut axis, &inputs);
    update_axis(&mut axis, &inputs);
    assert_eq!(axis.value(), 632_121);
    axis.set_binding(Smooth::new(1_000_000i64, 200_000));
    // The value shown stays until the next update.
    assert_eq!(axis.value(), 632_121);
    assert_eq!(axis.binding().previous_value, 0);
    update_axis(&mut axis, &inputs);
    assert_eq!(axis.value(), 393_469);
}

#[test]
fn clone_of_a_binding_keeps_its_own_history() {
    let mut inputs = Inputs::new();
    inputs.delta = 100_000;
    let mut original = Smooth::new(Pair(KEY_A, 1_000_000i64), 200_000);
    assert_eq!(original.value(&inputs), Some(393_469));
    let mut copy = original.clone();
    for _ in 0..10 {
        copy.value(&inputs);
    }
    assert_eq!(copy.previous_value, 995_914);
    assert_eq!(original.previous_value, 393_469);
    assert_eq!(original.value(&inputs), Some(632_121));
    assert_eq!(copy.previous_value, 995_914);
}

#[test]
fn clone_of_a_list_of_bindings_keeps_its_own_history() {
    let mut inputs = Inputs::new();
    inputs.delta = 100_000;
    let mut original = vec![1_000_000i64.limit_rate(2_000_000), 1_000_000i64.limit_rate(4_000_000)];
    assert_eq!(original.value(&inputs), Some(300_000));
    let mut copy = original.clone();
    assert_eq!(copy.value(&inputs), Some(600_000));
    assert_eq!(copy.value(&inputs), Some(800_000));
    assert_eq!(original[0].previous_value, 200_000);
    assert_eq!(original[1].previous_value, 400_000);
    assert_eq!(original.value(&inputs), Some(600_000));
}
