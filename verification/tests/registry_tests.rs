use gamepad::{
    add_gamepad, is_active, is_axis_active, is_button_active, remove_gamepad, Axis, AxisDirection,
    Button, GamepadContext, PlayerControllerInputType, DEAD_ZONE,
};

#[test]
fn button_press_then_release() {
    let mut ctx = GamepadContext::new();
    ctx.add_gamepad(1, 2500);
    assert!(!ctx.is_button_active(0, Button::South));
    ctx.set_button(1, Button::South, true);
    assert!(ctx.is_button_active(0, Button::South));
    ctx.set_button(1, Button::South, false);
    assert!(!ctx.is_button_active(0, Button::South));
}

#[test]
fn button_press_is_idempotent() {
    let mut ctx = GamepadContext::new();
    ctx.add_gamepad(1, 2500);
    ctx.set_button(1, Button::Start, true);
    ctx.set_button(1, Button::Start, true);
    assert!(ctx.is_button_active(0, Button::Start));
    ctx.set_button(1, Button::Start, false);
    assert!(!ctx.is_button_active(0, Button::Start));
}

#[test]
fn button_events_leave_other_buttons_and_devices_alone() {
    let mut ctx = GamepadContext::new();
    ctx.add_gamepad(1, 2500);
    ctx.add_gamepad(2, 2500);
    ctx.set_button(1, Button::South, true);
    ctx.set_button(2, Button::East, true);

    ctx.set_button(2, Button::West, true);
    ctx.set_button(2, Button::West, false);
    ctx.set_button(2, Button::East, false);

    assert!(ctx.is_button_active(0, Button::South));
    assert!(!ctx.is_button_active(0, Button::East));
    assert!(!ctx.is_button_active(1, Button::South));
    assert!(!ctx.is_button_active(1, Button::East));
    assert!(!ctx.is_button_active(1, Button::West));
}

#[test]
fn dead_zone_floors_small_samples_of_both_signs() {
    let mut ctx = GamepadContext::new();
    ctx.add_gamepad(1, 0);
    for v in [0, 1, 500, DEAD_ZONE - 1, -1, -500, -(DEAD_ZONE - 1)] {
        ctx.set_axis_value(1, Axis::LeftX, v);
        ctx.update_axes(1);
        assert!(!ctx.is_axis_active(0, Axis::LeftX, AxisDirection::Either));
    }
}

#[test]
fn dead_zone_passes_strong_samples_unchanged() {
    let mut ctx = GamepadContext::new();
    // Sensitivity picks out the exact filtered value: with sensitivity v - 1
    // the direction matches only if the value came through undiminished.
    for (id, v) in [(1u32, DEAD_ZONE), (2, 5000), (3, 9999)] {
        ctx.add_gamepad(id, v - 1);
        ctx.set_axis_value(id, Axis::RightY, v);
        ctx.update_axes(id);
    }
    assert!(ctx.is_axis_active(0, Axis::RightY, AxisDirection::Down));
    assert!(ctx.is_axis_active(1, Axis::RightY, AxisDirection::Down));
    assert!(ctx.is_axis_active(2, Axis::RightY, AxisDirection::Down));

    let mut neg = GamepadContext::new();
    neg.add_gamepad(7, DEAD_ZONE - 1);
    neg.set_axis_value(7, Axis::LeftY, -DEAD_ZONE);
    neg.update_axes(7);
    assert!(neg.is_axis_active(0, Axis::LeftY, AxisDirection::Up));
    assert!(!neg.is_axis_active(0, Axis::LeftY, AxisDirection::Down));
}

#[test]
fn threshold_boundary_is_inactive_in_both_directions() {
    let mut ctx = GamepadContext::new();
    ctx.add_gamepad(1, 2500);

    ctx.set_axis_value(1, Axis::LeftX, 2500);
    ctx.update_axes(1);
    assert!(!ctx.is_axis_active(0, Axis::LeftX, AxisDirection::Down));
    assert!(!ctx.is_axis_active(0, Axis::LeftX, AxisDirection::Right));
    assert!(!ctx.is_axis_active(0, Axis::LeftX, AxisDirection::Up));
    assert!(!ctx.is_axis_active(0, Axis::LeftX, AxisDirection::Left));

    ctx.set_axis_value(1, Axis::LeftX, 2501);
    ctx.update_axes(1);
    assert!(ctx.is_axis_active(0, Axis::LeftX, AxisDirection::Down));
    assert!(ctx.is_axis_active(0, Axis::LeftX, AxisDirection::Right));
    assert!(!ctx.is_axis_active(0, Axis::LeftX, AxisDirection::Up));

    ctx.set_axis_value(1, Axis::LeftX, -2500);
    ctx.update_axes(1);
    assert!(!ctx.is_axis_active(0, Axis::LeftX, AxisDirection::Up));
    assert!(!ctx.is_axis_active(0, Axis::LeftX, AxisDirection::Left));
    assert!(!ctx.is_axis_active(0, Axis::LeftX, AxisDirection::Down));

    ctx.set_axis_value(1, Axis::LeftX, -2501);
    ctx.update_axes(1);
    assert!(ctx.is_axis_active(0, Axis::LeftX, AxisDirection::Up));
    assert!(ctx.is_axis_active(0, Axis::LeftX, AxisDirection::Left));
    assert!(!ctx.is_axis_active(0, Axis::LeftX, AxisDirection::Right));
}

#[test]
fn neutral_direction_never_matches() {
    let mut ctx = GamepadContext::new();
    ctx.add_gamepad(1, 0);
    ctx.set_axis_value(1, Axis::LeftX, 9000);
    ctx.update_axes(1);
    assert!(!ctx.is_axis_active(0, Axis::LeftX, AxisDirection::Neutral));
    assert!(ctx.is_axis_active(0, Axis::LeftX, AxisDirection::Either));
}

#[test]
fn triggers_compare_against_zero_not_device_sensitivity() {
    let mut ctx = GamepadContext::new();
    ctx.add_gamepad(1, 2500);
    ctx.set_axis_value(1, Axis::TriggerLeft, 2000);
    ctx.set_axis_value(1, Axis::LeftX, 2000);
    ctx.update_axes(1);
    // 2000 clears the trigger's fixed zero threshold but not the stick's
    // per-device sensitivity of 2500.
    assert!(ctx.is_axis_active(0, Axis::TriggerLeft, AxisDirection::Down));
    assert!(!ctx.is_axis_active(0, Axis::LeftX, AxisDirection::Down));
}

#[test]
fn raw_samples_do_not_show_up_before_finalize() {
    let mut ctx = GamepadContext::new();
    ctx.add_gamepad(1, 0);
    ctx.set_axis_value(1, Axis::LeftX, 9000);
    assert!(!ctx.is_axis_active(0, Axis::LeftX, AxisDirection::Either));
    ctx.update_axes(1);
    assert!(ctx.is_axis_active(0, Axis::LeftX, AxisDirection::Either));
    // A new raw sample is again invisible until the next finalize.
    ctx.set_axis_value(1, Axis::LeftX, 0);
    assert!(ctx.is_axis_active(0, Axis::LeftX, AxisDirection::Either));
    ctx.update_axes(1);
    assert!(!ctx.is_axis_active(0, Axis::LeftX, AxisDirection::Either));
}

#[test]
fn axes_without_samples_keep_their_filtered_value() {
    let mut ctx = GamepadContext::new();
    ctx.add_gamepad(1, 0);
    ctx.set_axis_value(1, Axis::LeftX, 5000);
    ctx.update_axes(1);
    // Finalizing again without fresh samples changes nothing.
    ctx.update_axes(1);
    assert!(ctx.is_axis_active(0, Axis::LeftX, AxisDirection::Right));
    assert!(!ctx.is_axis_active(0, Axis::LeftY, AxisDirection::Either));
}

#[test]
fn register_then_unregister_restores_the_registry() {
    let mut ctx = GamepadContext::new();
    ctx.add_gamepad(1, 2500);
    ctx.set_button(1, Button::South, true);

    ctx.add_gamepad(9, 2500);
    ctx.remove_gamepad(9);

    assert_eq!(ctx.gamepads.len(), 1);
    assert!(ctx.is_button_active(0, Button::South));
    assert!(!ctx.is_button_active(1, Button::South));
    // The freed id can be registered again.
    ctx.add_gamepad(9, 2500);
    assert_eq!(ctx.gamepads.len(), 2);
}

#[test]
fn removal_shifts_later_devices_down_by_one() {
    let mut ctx = GamepadContext::new();
    ctx.add_gamepad(10, 2500);
    ctx.add_gamepad(20, 2500);
    ctx.add_gamepad(30, 2500);
    ctx.set_button(10, Button::South, true);
    ctx.set_button(20, Button::East, true);
    ctx.set_button(30, Button::West, true);

    ctx.remove_gamepad(20);

    assert_eq!(ctx.gamepads.len(), 2);
    assert!(ctx.is_button_active(0, Button::South));
    // Index 1 now addresses the device that was at index 2.
    assert!(ctx.is_button_active(1, Button::West));
    assert!(!ctx.is_button_active(1, Button::East));
    assert!(!ctx.is_button_active(2, Button::West));
}

#[test]
fn unknown_ids_are_silently_ignored() {
    let mut ctx = GamepadContext::new();
    ctx.add_gamepad(1, 2500);
    ctx.set_button(99, Button::South, true);
    ctx.set_axis_value(99, Axis::LeftX, 9000);
    ctx.update_axes(99);
    ctx.remove_gamepad(99);
    assert_eq!(ctx.gamepads.len(), 1);
    assert!(!ctx.is_button_active(0, Button::South));
    assert!(!ctx.is_axis_active(0, Axis::LeftX, AxisDirection::Either));
}

#[test]
fn stick_scenario_sensitivity_quarter_sample_half() {
    // Register one device with sensitivity 0.25 (2500), push a LeftX sample
    // of 0.5 (5000), finalize: Right active, Left not.
    let mut ctx = GamepadContext::new();
    ctx.add_gamepad(4, 2500);
    ctx.set_axis_value(4, Axis::LeftX, 5000);
    ctx.update_axes(4);
    assert!(ctx.is_axis_active(0, Axis::LeftX, AxisDirection::Right));
    assert!(!ctx.is_axis_active(0, Axis::LeftX, AxisDirection::Left));
}

#[test]
fn stick_scenario_sample_inside_dead_zone() {
    // A 0.05 (500) sample is floored to zero, and `Either` wants strictly
    // nonzero.
    let mut ctx = GamepadContext::new();
    ctx.add_gamepad(4, 2500);
    ctx.set_axis_value(4, Axis::LeftX, 500);
    ctx.update_axes(4);
    assert!(!ctx.is_axis_active(0, Axis::LeftX, AxisDirection::Either));
}

#[test]
fn out_of_range_index_answers_false_everywhere() {
    let mut ctx = GamepadContext::new();
    ctx.add_gamepad(1, 2500);
    ctx.set_button(1, Button::South, true);
    ctx.set_axis_value(1, Axis::LeftX, 9000);
    ctx.update_axes(1);

    assert!(!ctx.is_button_active(5, Button::South));
    assert!(!ctx.is_axis_active(5, Axis::LeftX, AxisDirection::Either));
    assert!(!ctx.is_active(
        5,
        &PlayerControllerInputType::ButtonInput(Button::South),
        AxisDirection::Either,
    ));
    assert!(!ctx.is_active(
        5,
        &PlayerControllerInputType::AxisInput(Axis::LeftX),
        AxisDirection::Either,
    ));
    assert!(!ctx.is_active(
        5,
        &PlayerControllerInputType::Either(Button::South, Axis::LeftX),
        AxisDirection::Either,
    ));
}

#[test]
fn is_active_dispatches_over_the_three_descriptor_shapes() {
    let mut ctx = GamepadContext::new();
    ctx.add_gamepad(1, 2500);
    ctx.set_button(1, Button::South, true);
    ctx.set_axis_value(1, Axis::LeftX, 5000);
    ctx.update_axes(1);

    assert!(ctx.is_active(
        0,
        &PlayerControllerInputType::ButtonInput(Button::South),
        AxisDirection::Neutral,
    ));
    assert!(!ctx.is_active(
        0,
        &PlayerControllerInputType::ButtonInput(Button::North),
        AxisDirection::Neutral,
    ));
    assert!(ctx.is_active(
        0,
        &PlayerControllerInputType::AxisInput(Axis::LeftX),
        AxisDirection::Right,
    ));
    assert!(!ctx.is_active(
        0,
        &PlayerControllerInputType::AxisInput(Axis::LeftX),
        AxisDirection::Left,
    ));
    // The combined shape is an OR: button pressed but axis pointing the
    // wrong way still counts.
    assert!(ctx.is_active(
        0,
        &PlayerControllerInputType::Either(Button::South, Axis::LeftX),
        AxisDirection::Left,
    ));
    assert!(ctx.is_active(
        0,
        &PlayerControllerInputType::Either(Button::North, Axis::LeftX),
        AxisDirection::Right,
    ));
    assert!(!ctx.is_active(
        0,
        &PlayerControllerInputType::Either(Button::North, Axis::LeftX),
        AxisDirection::Left,
    ));
}

#[test]
fn free_functions_mirror_the_methods() {
    let mut ctx = GamepadContext::default();
    add_gamepad(&mut ctx, 1, 2500);
    ctx.set_button(1, Button::South, true);
    ctx.set_axis_value(1, Axis::LeftX, 5000);
    ctx.update_axes(1);

    assert!(is_button_active(&ctx, 0, Button::South));
    assert!(is_axis_active(&ctx, 0, Axis::LeftX, AxisDirection::Right));
    assert!(is_active(
        &ctx,
        0,
        &PlayerControllerInputType::Either(Button::North, Axis::LeftX),
        AxisDirection::Right,
    ));

    remove_gamepad(&mut ctx, 1);
    assert_eq!(ctx.gamepads.len(), 0);
    assert!(!is_button_active(&ctx, 0, Button::South));
}

#[test]
fn fresh_devices_start_fully_released_and_centred() {
    let mut ctx = GamepadContext::new();
    ctx.add_gamepad(1, 2500);
    let buttons = [
        Button::South,
        Button::East,
        Button::West,
        Button::North,
        Button::Back,
        Button::Guide,
        Button::Start,
        Button::LeftStick,
        Button::RightStick,
        Button::LeftShoulder,
        Button::RightShoulder,
        Button::DPadUp,
        Button::DPadDown,
        Button::DPadLeft,
        Button::DPadRight,
    ];
    for b in buttons {
        assert!(!ctx.is_button_active(0, b));
    }
    let axes = [
        Axis::LeftX,
        Axis::LeftY,
        Axis::RightX,
        Axis::RightY,
        Axis::TriggerLeft,
        Axis::TriggerRight,
    ];
    for a in axes {
        assert!(!ctx.is_axis_active(0, a, AxisDirection::Either));
    }
}

#[test]
fn compare_matches_the_documented_thresholds() {
    assert!(!AxisDirection::Neutral.compare(9000, 0));
    assert!(AxisDirection::Either.compare(1, 0));
    assert!(AxisDirection::Either.compare(-1, 0));
    assert!(!AxisDirection::Either.compare(0, 0));
    assert!(AxisDirection::Down.compare(2501, 2500));
    assert!(AxisDirection::Right.compare(2501, 2500));
    assert!(!AxisDirection::Down.compare(2500, 2500));
    assert!(AxisDirection::Up.compare(-2501, 2500));
    assert!(AxisDirection::Left.compare(-2501, 2500));
    assert!(!AxisDirection::Up.compare(-2500, 2500));
}
