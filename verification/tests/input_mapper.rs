use flightcore::axes::{
    apply_deadzone, key_pair_axis, throttle_tick, ControlAxes, ThrottleSettings,
};
use flightcore::input::{
    button_input_system, gamepad_input_system, input_system, GamepadConnectionState,
    GamepadSample, GamepadSettings, KeyboardSample,
};

fn no_keys() -> KeyboardSample {
    KeyboardSample {
        pitch_up: false,
        pitch_down: false,
        roll_left: false,
        roll_right: false,
        yaw_left: false,
        yaw_right: false,
        throttle_up: false,
        throttle_down: false,
    }
}

fn idle_pad() -> GamepadSample {
    GamepadSample {
        connection_event: false,
        left_stick_x: 0,
        left_stick_y: 0,
        right_stick_x: 0,
        dpad_left: 0,
        dpad_right: 0,
    }
}

#[test]
fn key_pair_released_is_exactly_zero() {
    assert_eq!(key_pair_axis(false, false), 0);
}

#[test]
fn key_pair_single_key_is_full_deflection() {
    assert_eq!(key_pair_axis(true, false), 1000);
    assert_eq!(key_pair_axis(false, true), -1000);
}

#[test]
fn key_pair_tie_break_positive_wins() {
    assert_eq!(key_pair_axis(true, true), 1000);
}

#[test]
fn keyboard_mapping_signs() {
    let mut axes = ControlAxes::new();
    let ts = ThrottleSettings::default();
    let mut kb = no_keys();
    kb.pitch_up = true;
    kb.roll_left = true;
    kb.yaw_left = true;
    button_input_system(&mut axes, &kb, &ts);
    assert_eq!(axes.pitch, 1000);
    assert_eq!(axes.roll, 1000);
    assert_eq!(axes.yaw, -1000);

    let mut kb2 = no_keys();
    kb2.pitch_down = true;
    kb2.roll_right = true;
    kb2.yaw_right = true;
    button_input_system(&mut axes, &kb2, &ts);
    assert_eq!(axes.pitch, -1000);
    assert_eq!(axes.roll, -1000);
    assert_eq!(axes.yaw, 1000);

    button_input_system(&mut axes, &no_keys(), &ts);
    assert_eq!(axes.pitch, 0);
    assert_eq!(axes.roll, 0);
    assert_eq!(axes.yaw, 0);
}

#[test]
fn deadzone_snaps_inside_threshold() {
    assert_eq!(apply_deadzone(49, true, 50), 0);
    assert_eq!(apply_deadzone(-49, true, 50), 0);
    assert_eq!(apply_deadzone(1, true, 50), 0);
}

#[test]
fn deadzone_identity_outside_threshold() {
    assert_eq!(apply_deadzone(50, true, 50), 50);
    assert_eq!(apply_deadzone(-50, true, 50), -50);
    assert_eq!(apply_deadzone(700, true, 50), 700);
    assert_eq!(apply_deadzone(-1000, true, 50), -1000);
}

#[test]
fn deadzone_disabled_is_identity() {
    assert_eq!(apply_deadzone(3, false, 50), 3);
    assert_eq!(apply_deadzone(0, false, 50), 0);
}

#[test]
fn throttle_clamps_at_top() {
    let ts = ThrottleSettings::default();
    assert_eq!(throttle_tick(1000, true, false, &ts), 1000);
    assert_eq!(throttle_tick(995, true, false, &ts), 1000);
}

#[test]
fn throttle_clamps_at_bottom() {
    let ts = ThrottleSettings::default();
    assert_eq!(throttle_tick(-1000, false, true, &ts), -1000);
    assert_eq!(throttle_tick(-995, false, true, &ts), -1000);
}

#[test]
fn throttle_both_keys_cancel() {
    let ts = ThrottleSettings::default();
    assert_eq!(throttle_tick(120, true, true, &ts), 120);
}

#[test]
fn throttle_stays_in_range_under_rapid_toggling() {
    let ts = ThrottleSettings::default();
    let mut t: i64 = 0;
    for i in 0..500 {
        let up = i % 3 != 0;
        let down = i % 7 == 0;
        t = throttle_tick(t, up, down, &ts);
        assert!(ts.min <= t && t <= ts.max);
    }
    // 500 mostly-up ticks saturate at the top of the range.
    assert_eq!(t, 1000);
}

#[test]
fn gamepad_yaw_falls_back_to_dpad_when_stick_is_silent() {
    let mut gp = idle_pad();
    gp.dpad_left = 600;
    assert_eq!(gamepad_input_system(&gp).2, 1000);

    let mut gp2 = idle_pad();
    gp2.dpad_right = 600;
    assert_eq!(gamepad_input_system(&gp2).2, -1000);

    // Right wins when both directions are pressed.
    let mut gp3 = idle_pad();
    gp3.dpad_left = 1000;
    gp3.dpad_right = 1000;
    assert_eq!(gamepad_input_system(&gp3).2, -1000);

    // Light presses stay below the half-pressure gate.
    let mut gp4 = idle_pad();
    gp4.dpad_left = 500;
    assert_eq!(gamepad_input_system(&gp4).2, 0);
}

#[test]
fn gamepad_yaw_uses_stick_when_it_reports() {
    let mut gp = idle_pad();
    gp.right_stick_x = 300;
    gp.dpad_left = 1000;
    let (_, _, yaw) = gamepad_input_system(&gp);
    assert_eq!(yaw, 300);
}

#[test]
fn gamepad_sticks_map_to_pitch_and_roll() {
    let mut gp = idle_pad();
    gp.left_stick_y = -420;
    gp.left_stick_x = 800;
    let (pitch, roll, _) = gamepad_input_system(&gp);
    assert_eq!(pitch, -420);
    assert_eq!(roll, 800);
}

#[test]
fn keyboard_drives_axes_until_gamepad_connects() {
    let mut latch = GamepadConnectionState::new();
    let mut axes = ControlAxes::new();
    let gs = GamepadSettings::default();
    let ts = ThrottleSettings::default();
    let mut kb = no_keys();
    kb.pitch_up = true;

    input_system(&mut latch, &mut axes, &kb, &idle_pad(), &gs, &ts);
    assert!(!latch.connected);
    assert_eq!(axes.pitch, 1000);
}

#[test]
fn connection_latch_switches_to_gamepad_and_never_resets() {
    let mut latch = GamepadConnectionState::new();
    let mut axes = ControlAxes::new();
    let gs = GamepadSettings::default();
    let ts = ThrottleSettings::default();
    let mut kb = no_keys();
    kb.pitch_up = true;
    kb.roll_left = true;
    kb.yaw_left = true;

    // Keyboard regime before the event.
    input_system(&mut latch, &mut axes, &kb, &idle_pad(), &gs, &ts);
    assert_eq!(axes.pitch, 1000);

    // The connection event fires once.
    let mut gp = idle_pad();
    gp.connection_event = true;
    gp.left_stick_y = 250;
    input_system(&mut latch, &mut axes, &kb, &gp, &gs, &ts);
    assert!(latch.connected);
    assert_eq!(axes.pitch, 250);
    assert_eq!(axes.roll, 0);
    assert_eq!(axes.yaw, 0);

    // Later ticks fire no event; held keys stay ignored for pitch/roll/yaw.
    for _ in 0..60 {
        input_system(&mut latch, &mut axes, &kb, &idle_pad(), &gs, &ts);
        assert!(latch.connected);
        assert_eq!(axes.pitch, 0);
        assert_eq!(axes.roll, 0);
        assert_eq!(axes.yaw, 0);
    }
}

#[test]
fn gamepad_readings_inside_deadzone_map_to_zero() {
    let mut latch = GamepadConnectionState::new();
    let mut axes = ControlAxes::new();
    let gs = GamepadSettings::default();
    let ts = ThrottleSettings::default();

    let mut gp = idle_pad();
    gp.connection_event = true;
    gp.left_stick_y = 49;
    gp.left_stick_x = -30;
    gp.right_stick_x = 12;
    input_system(&mut latch, &mut axes, &no_keys(), &gp, &gs, &ts);
    assert_eq!(axes.pitch, 0);
    assert_eq!(axes.roll, 0);
    assert_eq!(axes.yaw, 0);
}

#[test]
fn gamepad_readings_outside_deadzone_pass_unchanged() {
    let mut latch = GamepadConnectionState::new();
    let mut axes = ControlAxes::new();
    let gs = GamepadSettings::default();
    let ts = ThrottleSettings::default();

    let mut gp = idle_pad();
    gp.connection_event = true;
    gp.left_stick_y = 51;
    gp.left_stick_x = -900;
    gp.right_stick_x = 50;
    input_system(&mut latch, &mut axes, &no_keys(), &gp, &gs, &ts);
    assert_eq!(axes.pitch, 51);
    assert_eq!(axes.roll, -900);
    assert_eq!(axes.yaw, 50);
}

#[test]
fn throttle_keys_work_in_both_regimes() {
    let mut latch = GamepadConnectionState::new();
    let mut axes = ControlAxes::new();
    let gs = GamepadSettings::default();
    let ts = ThrottleSettings::default();
    let mut kb = no_keys();
    kb.throttle_down = true;

    // Keyboard regime: one step down from the initial full throttle.
    input_system(&mut latch, &mut axes, &kb, &idle_pad(), &gs, &ts);
    assert_eq!(axes.throttle, 990);

    // Gamepad regime: the throttle keys keep nudging.
    let mut gp = idle_pad();
    gp.connection_event = true;
    input_system(&mut latch, &mut axes, &kb, &gp, &gs, &ts);
    assert_eq!(axes.throttle, 980);
}

#[test]
fn missing_device_data_defaults_axes_to_zero() {
    let mut latch = GamepadConnectionState::new();
    let mut axes = ControlAxes::new();
    let gs = GamepadSettings::default();
    let ts = ThrottleSettings::default();

    let mut gp = idle_pad();
    gp.connection_event = true;
    input_system(&mut latch, &mut axes, &no_keys(), &gp, &gs, &ts);
    assert_eq!(axes.pitch, 0);
    assert_eq!(axes.roll, 0);
    assert_eq!(axes.yaw, 0);
}
