use flightcore::axes::{ControlAxes, ThrottleSettings};
use flightcore::dynamics::{
    aircraft_mechanics, kinematic_update, lift_acceleration, throttle_fraction,
    translate_by_velocity, velocity_tick, Basis, DynamicsSettings, KinematicSettings, VehiclePose,
};
use flightcore::fixed::Vec3i;
use flightcore::input::{
    input_system, GamepadConnectionState, GamepadSample, GamepadSettings, KeyboardSample,
};

fn identity_basis() -> Basis {
    Basis {
        x_axis: Vec3i { x: 1000, y: 0, z: 0 },
        y_axis: Vec3i { x: 0, y: 1000, z: 0 },
        z_axis: Vec3i { x: 0, y: 0, z: 1000 },
    }
}

fn neutral_axes() -> ControlAxes {
    ControlAxes { pitch: 0, roll: 0, yaw: 0, throttle: 0 }
}

#[test]
fn throttle_fraction_maps_signed_range() {
    assert_eq!(throttle_fraction(-1000), 0);
    assert_eq!(throttle_fraction(0), 500);
    assert_eq!(throttle_fraction(1000), 1000);
    assert_eq!(throttle_fraction(-999), 0);
    assert_eq!(throttle_fraction(999), 999);
}

#[test]
fn full_throttle_gives_full_thrust_along_up() {
    let s = DynamicsSettings::default();
    let mut input = neutral_axes();
    input.throttle = 1000;
    let req = aircraft_mechanics(&identity_basis(), &input, &s);
    // 50_000 N of thrust, in thousandths of a newton, along local up.
    assert_eq!(req.force, Vec3i { x: 0, y: 50_000_000, z: 0 });
    assert_eq!(req.torque, Vec3i { x: 0, y: 0, z: 0 });
}

#[test]
fn bottom_throttle_gives_no_thrust() {
    let s = DynamicsSettings::default();
    let mut input = neutral_axes();
    input.throttle = -1000;
    let req = aircraft_mechanics(&identity_basis(), &input, &s);
    assert_eq!(req.force, Vec3i { x: 0, y: 0, z: 0 });
}

#[test]
fn centered_throttle_gives_half_thrust() {
    let s = DynamicsSettings::default();
    let input = neutral_axes();
    let req = aircraft_mechanics(&identity_basis(), &input, &s);
    assert_eq!(req.force, Vec3i { x: 0, y: 25_000_000, z: 0 });
}

#[test]
fn torque_scales_each_axis_by_its_coefficient() {
    let s = DynamicsSettings {
        thrust: 50_000,
        torque_pitch: 500_000,
        torque_yaw: 1_250_000,
        torque_roll: 500_000,
    };
    let mut input = neutral_axes();
    input.pitch = 1000;
    input.yaw = -400;
    input.roll = 200;
    let req = aircraft_mechanics(&identity_basis(), &input, &s);
    // Local torque in thousandths of a newton-metre per axis.
    assert_eq!(req.torque.x, 500_000_000);
    assert_eq!(req.torque.y, -500_000_000);
    assert_eq!(req.torque.z, 100_000_000);
}

#[test]
fn torque_rotates_into_world_frame() {
    // A quarter-turn about Y: local X points along world -Z, local Z along world X.
    let basis = Basis {
        x_axis: Vec3i { x: 0, y: 0, z: -1000 },
        y_axis: Vec3i { x: 0, y: 1000, z: 0 },
        z_axis: Vec3i { x: 1000, y: 0, z: 0 },
    };
    let s = DynamicsSettings::default();
    let mut input = neutral_axes();
    input.pitch = 1000;
    let req = aircraft_mechanics(&basis, &input, &s);
    assert_eq!(req.torque, Vec3i { x: 0, y: 0, z: -500_000_000 });
}

#[test]
fn tilted_up_axis_tilts_the_thrust() {
    // Local up tilted halfway between world Y and world X.
    let basis = Basis {
        x_axis: Vec3i { x: 707, y: -707, z: 0 },
        y_axis: Vec3i { x: 707, y: 707, z: 0 },
        z_axis: Vec3i { x: 0, y: 0, z: 1000 },
    };
    let s = DynamicsSettings::default();
    let mut input = neutral_axes();
    input.throttle = 1000;
    let req = aircraft_mechanics(&basis, &input, &s);
    // 707/1000 of the 50_000_000 magnitude on each tilted component.
    assert_eq!(req.force, Vec3i { x: 35_350_000, y: 35_350_000, z: 0 });
}

#[test]
fn held_pitch_key_accumulates_rotation_and_travel() {
    // The gamepad never connects; the pitch-up key is held for one second
    // at sixty ticks per second under the kinematic policy.
    let mut latch = GamepadConnectionState::new();
    let mut axes = ControlAxes::new();
    let gs = GamepadSettings::default();
    let ts = ThrottleSettings::default();
    let ks = KinematicSettings::default();
    let kb = KeyboardSample {
        pitch_up: true,
        pitch_down: false,
        roll_left: false,
        roll_right: false,
        yaw_left: false,
        yaw_right: false,
        throttle_up: false,
        throttle_down: false,
    };
    let idle_pad = GamepadSample {
        connection_event: false,
        left_stick_x: 0,
        left_stick_y: 0,
        right_stick_x: 0,
        dpad_left: 0,
        dpad_right: 0,
    };
    let mut pose = VehiclePose::level_at(Vec3i { x: 0, y: 20_000, z: 0 });
    let forward = Vec3i { x: 0, y: 0, z: -1000 };
    let dt_us: i64 = 16_666;

    for _ in 0..60 {
        input_system(&mut latch, &mut axes, &kb, &idle_pad, &gs, &ts);
        assert_eq!(axes.pitch, 1000);
        kinematic_update(&mut pose, &axes, &forward, dt_us, &ks);
    }

    // Each tick turns 1000 * 1_000_000 * 16_666 / 1_000_000_000 = 16_666
    // microradians about the pitch axis: just shy of one radian in total.
    assert_eq!(pose.pitch, 60 * 16_666);
    assert_eq!(pose.roll, 0);
    assert_eq!(pose.yaw, 0);
    // Each tick travels 1000 * 10_000 * 16_666 / 1_000_000_000 / 1000 = 166
    // thousandths of a unit along local forward: just shy of ten units.
    assert_eq!(pose.position, Vec3i { x: 0, y: 20_000, z: -60 * 166 });
}

#[test]
fn kinematic_update_is_identity_at_neutral_controls() {
    let ks = KinematicSettings::default();
    let mut input = neutral_axes();
    input.throttle = -1000;
    let mut pose = VehiclePose::level_at(Vec3i { x: 5, y: 6, z: 7 });
    kinematic_update(&mut pose, &input, &Vec3i { x: 0, y: 0, z: -1000 }, 16_666, &ks);
    assert_eq!(pose, VehiclePose::level_at(Vec3i { x: 5, y: 6, z: 7 }));
}

#[test]
fn lift_acceleration_balances_gravity_at_matching_lift() {
    // 9.81 units/s^2 of gravity, one-tonne mass in thousandths:
    // lift of 9_810_000 milli-newtons exactly cancels gravity.
    let mass: i64 = 1_000_000;
    let gravity: i64 = -9_810;
    assert_eq!(lift_acceleration(9_810_000, gravity, mass), 0);
    assert_eq!(lift_acceleration(0, gravity, mass), -9_810);
    assert_eq!(lift_acceleration(19_620_000, gravity, mass), 9_810);
}

#[test]
fn velocity_integrates_acceleration_and_translates() {
    let mut velocity = Vec3i { x: 0, y: 0, z: 0 };
    let accel = Vec3i { x: 0, y: -9_810, z: 0 };
    // One full second of free fall.
    velocity_tick(&mut velocity, &accel, 1_000_000);
    assert_eq!(velocity, Vec3i { x: 0, y: -9_810, z: 0 });

    let mut position = Vec3i { x: 0, y: 100_000, z: 0 };
    translate_by_velocity(&mut position, &velocity, 1_000_000);
    assert_eq!(position, Vec3i { x: 0, y: 100_000 - 9_810, z: 0 });

    // Half-second ticks accumulate half steps, truncating toward zero.
    velocity_tick(&mut velocity, &accel, 500_000);
    assert_eq!(velocity, Vec3i { x: 0, y: -9_810 - 4_905, z: 0 });
}
