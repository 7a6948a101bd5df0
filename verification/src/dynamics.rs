//! The flight-dynamics updater, in both policies.
//!
//! Under the dynamic policy the updater turns the control vector into a
//! force/torque request for the external physics integrator: a thrust force
//! along the vehicle's local up axis scaled by the throttle, and a
//! local-frame torque from (pitch, yaw, roll) scaled by per-axis
//! coefficients, rotated into world frame. The vehicle's world orientation
//! enters as its basis — the three local axes as fixed-point unit vectors,
//! which the engine-side shell derives from the orientation quaternion — so
//! the frame change is plain linear arithmetic here.
//!
//! Under the kinematic policy (no physics engine) the updater rotates the
//! pose directly: pitch and roll rates scaled by their axis values and the
//! frame delta accumulate onto the pose's angles, and the vehicle advances
//! along its local forward axis by the throttle-scaled forward speed. The
//! local forward axis — one consistent convention, whichever local axis the
//! model was authored to fly along — is passed in as a fixed-point world
//! direction, like the basis above.

use crate::axes::ControlAxes;
use crate::fixed::{
    clamp_i, clamp64, div_trunc, div_trunc64, lemma_div_trunc_scaled_bound,
    lemma_mul_bound, scale_milli, vadd_sat, vscale_milli, add_sat, Vec3i, ANGLE_LIMIT, POS_LIMIT,
};
use crate::AXIS_UNIT;
use vstd::prelude::*;

verus! {

/// The vehicle's local axes expressed in the world frame, each a direction
/// in thousandths of a unit vector: the columns of the orientation's
/// rotation matrix.
#[derive(Clone, Copy, Debug, PartialEq, Eq, Structural)]
pub struct Basis {
    pub x_axis: Vec3i,
    pub y_axis: Vec3i,
    pub z_axis: Vec3i,
}

impl Basis {
    pub open spec fn wf(self) -> bool {
        &&& self.x_axis.is_milli_dir()
        &&& self.y_axis.is_milli_dir()
        &&& self.z_axis.is_milli_dir()
    }
}

/// One tick's submission to the external physics integrator: a world-frame
/// force in thousandths of a newton and a world-frame torque in thousandths
/// of a newton-metre.
#[derive(Clone, Copy, Debug, PartialEq, Eq, Structural)]
pub struct ForceTorqueRequest {
    pub force: Vec3i,
    pub torque: Vec3i,
}

/// Tunable coefficients of the dynamic policy: thrust in newtons at full
/// throttle, and per-axis torque in newton-metres at full deflection.
#[derive(Clone, Copy, Debug, PartialEq, Eq, Structural)]
pub struct DynamicsSettings {
    pub thrust: i64,
    pub torque_pitch: i64,
    pub torque_yaw: i64,
    pub torque_roll: i64,
}

impl DynamicsSettings {
    pub open spec fn wf(self) -> bool {
        &&& 0 <= self.thrust <= 1_000_000_000
        &&& 0 <= self.torque_pitch <= 1_000_000_000
        &&& 0 <= self.torque_yaw <= 1_000_000_000
        &&& 0 <= self.torque_roll <= 1_000_000_000
    }
}

impl Default for DynamicsSettings {
    /// Fifty kilonewtons of thrust and half a meganewton-metre of torque
    /// about every axis.
    fn default() -> (r: DynamicsSettings)
        ensures
            r == (DynamicsSettings {
                thrust: 50_000,
                torque_pitch: 500_000,
                torque_yaw: 500_000,
                torque_roll: 500_000,
            }),
            r.wf(),
    {
        DynamicsSettings { thrust: 50_000, torque_pitch: 500_000, torque_yaw: 500_000, torque_roll: 500_000 }
    }
}

/// A signed throttle value mapped onto `[0, AXIS_UNIT]`: full down maps to
/// zero, full up to full thrust.
pub open spec fn unsigned_throttle(t: int) -> int {
    (t + AXIS_UNIT) / 2
}

/// Maps a signed throttle axis value onto the unsigned thrust fraction.
pub fn throttle_fraction(t: i64) -> (r: i64)
    requires
        -AXIS_UNIT <= t <= AXIS_UNIT,
    ensures
        r == unsigned_throttle(t as int),
        0 <= r <= AXIS_UNIT,
{
    div_trunc64(t + AXIS_UNIT, 2)
}

/// The thrust force magnitude for a throttle value, in thousandths of a
/// newton: the thrust coefficient times the thrust fraction.
pub open spec fn thrust_magnitude_spec(t: int, s: DynamicsSettings) -> int {
    s.thrust * unsigned_throttle(t)
}

/// The requested force: the thrust magnitude along the vehicle's local up
/// axis.
pub open spec fn force_spec(basis: Basis, t: int, s: DynamicsSettings) -> Vec3i {
    vscale_milli(basis.y_axis, thrust_magnitude_spec(t, s))
}

/// A local vector carried into the world frame by the basis, truncating
/// each component's final thousandth-scaling toward zero.
pub open spec fn rotate_milli_spec(b: Basis, vx: int, vy: int, vz: int) -> Vec3i {
    Vec3i {
        x: div_trunc(b.x_axis.x * vx + b.y_axis.x * vy + b.z_axis.x * vz, 1000) as i64,
        y: div_trunc(b.x_axis.y * vx + b.y_axis.y * vy + b.z_axis.y * vz, 1000) as i64,
        z: div_trunc(b.x_axis.z * vx + b.y_axis.z * vy + b.z_axis.z * vz, 1000) as i64,
    }
}

/// The requested torque: the local-frame torque vector — pitch, yaw and
/// roll deflections scaled by their coefficients — rotated into the world
/// frame, in thousandths of a newton-metre.
pub open spec fn torque_spec(b: Basis, input: ControlAxes, s: DynamicsSettings) -> Vec3i {
    rotate_milli_spec(
        b,
        input.pitch * s.torque_pitch,
        input.yaw * s.torque_yaw,
        input.roll * s.torque_roll,
    )
}

/// Carries a local vector into the world frame: each world component is the
/// matching combination of the basis axes.
pub fn rotate_milli(b: &Basis, vx: i64, vy: i64, vz: i64) -> (r: Vec3i)
    requires
        b.wf(),
        -POS_LIMIT <= vx <= POS_LIMIT,
        -POS_LIMIT <= vy <= POS_LIMIT,
        -POS_LIMIT <= vz <= POS_LIMIT,
    ensures
        r == rotate_milli_spec(*b, vx as int, vy as int, vz as int),
        r.in_bounds(3 * POS_LIMIT as int),
{
    proof {
        lemma_mul_bound(b.x_axis.x as int, vx as int, 1000, POS_LIMIT as int);
        lemma_mul_bound(b.y_axis.x as int, vy as int, 1000, POS_LIMIT as int);
        lemma_mul_bound(b.z_axis.x as int, vz as int, 1000, POS_LIMIT as int);
        lemma_mul_bound(b.x_axis.y as int, vx as int, 1000, POS_LIMIT as int);
        lemma_mul_bound(b.y_axis.y as int, vy as int, 1000, POS_LIMIT as int);
        lemma_mul_bound(b.z_axis.y as int, vz as int, 1000, POS_LIMIT as int);
        lemma_mul_bound(b.x_axis.z as int, vx as int, 1000, POS_LIMIT as int);
        lemma_mul_bound(b.y_axis.z as int, vy as int, 1000, POS_LIMIT as int);
        lemma_mul_bound(b.z_axis.z as int, vz as int, 1000, POS_LIMIT as int);
        lemma_div_trunc_scaled_bound(
            b.x_axis.x as int * vx as int + b.y_axis.x as int * vy as int + b.z_axis.x as int
                * vz as int,
            1000,
            3 * POS_LIMIT as int,
        );
        lemma_div_trunc_scaled_bound(
            b.x_axis.y as int * vx as int + b.y_axis.y as int * vy as int + b.z_axis.y as int
                * vz as int,
            1000,
            3 * POS_LIMIT as int,
        );
        lemma_div_trunc_scaled_bound(
            b.x_axis.z as int * vx as int + b.y_axis.z as int * vy as int + b.z_axis.z as int
                * vz as int,
            1000,
            3 * POS_LIMIT as int,
        );
    }
    Vec3i {
        x: div_trunc64(b.x_axis.x * vx + b.y_axis.x * vy + b.z_axis.x * vz, 1000),
        y: div_trunc64(b.x_axis.y * vx + b.y_axis.y * vy + b.z_axis.y * vz, 1000),
        z: div_trunc64(b.x_axis.z * vx + b.y_axis.z * vy + b.z_axis.z * vz, 1000),
    }
}

/// Computes one tick's force/torque request under the dynamic policy.
///
/// The force is the thrust coefficient, scaled by the throttle's thrust
/// fraction, along the vehicle's local up axis in world frame. The torque
/// is the local-frame vector of pitch, yaw and roll deflections, each
/// scaled by its own coefficient, carried into the world frame by the
/// vehicle's basis. Nothing is integrated here: the external physics
/// integrator consumes the request.
pub fn aircraft_mechanics(basis: &Basis, input: &ControlAxes, s: &DynamicsSettings) -> (r:
    ForceTorqueRequest)
    requires
        basis.wf(),
        input.wf(),
        s.wf(),
    ensures
        r.force == force_spec(*basis, input.throttle as int, *s),
        r.torque == torque_spec(*basis, *input, *s),
{
    let fraction = throttle_fraction(input.throttle);
    proof {
        lemma_mul_bound(s.thrust as int, fraction as int, 1_000_000_000, 1000);
        lemma_mul_bound(input.pitch as int, s.torque_pitch as int, 1000, 1_000_000_000);
        lemma_mul_bound(input.yaw as int, s.torque_yaw as int, 1000, 1_000_000_000);
        lemma_mul_bound(input.roll as int, s.torque_roll as int, 1000, 1_000_000_000);
    }
    let magnitude = s.thrust * fraction;
    let force = scale_milli(&basis.y_axis, magnitude);
    let torque = rotate_milli(
        basis,
        input.pitch * s.torque_pitch,
        input.yaw * s.torque_yaw,
        input.roll * s.torque_roll,
    );
    ForceTorqueRequest { force, torque }
}

/// The vehicle's pose under the kinematic policy: position in thousandths
/// of a world unit, orientation as accumulated rotation angles about the
/// local pitch, yaw and roll axes, in microradians.
#[derive(Clone, Copy, Debug, PartialEq, Eq, Structural)]
pub struct VehiclePose {
    pub position: Vec3i,
    pub pitch: i64,
    pub yaw: i64,
    pub roll: i64,
}

impl VehiclePose {
    pub open spec fn wf(self) -> bool {
        &&& self.position.in_bounds(POS_LIMIT as int)
        &&& -ANGLE_LIMIT <= self.pitch <= ANGLE_LIMIT
        &&& -ANGLE_LIMIT <= self.yaw <= ANGLE_LIMIT
        &&& -ANGLE_LIMIT <= self.roll <= ANGLE_LIMIT
    }

    /// A vehicle at a given position in level attitude.
    pub fn level_at(position: Vec3i) -> (r: VehiclePose)
        requires
            position.in_bounds(POS_LIMIT as int),
        ensures
            r == (VehiclePose { position, pitch: 0, yaw: 0, roll: 0 }),
            r.wf(),
    {
        VehiclePose { position, pitch: 0, yaw: 0, roll: 0 }
    }
}

/// Tunable parameters of the kinematic policy: pitch and roll rates in
/// microradians per second at full deflection, and forward speed in
/// thousandths of a world unit per second at full throttle.
#[derive(Clone, Copy, Debug, PartialEq, Eq, Structural)]
pub struct KinematicSettings {
    pub pitch_rate: i64,
    pub roll_rate: i64,
    pub forward_speed: i64,
}

impl KinematicSettings {
    pub open spec fn wf(self) -> bool {
        &&& 0 <= self.pitch_rate <= 100_000_000
        &&& 0 <= self.roll_rate <= 100_000_000
        &&& 0 <= self.forward_speed <= 1_000_000_000
    }
}

impl Default for KinematicSettings {
    /// One radian per second of pitch and roll at full deflection, ten
    /// units per second at full throttle.
    fn default() -> (r: KinematicSettings)
        ensures
            r == (KinematicSettings { pitch_rate: 1_000_000, roll_rate: 1_000_000, forward_speed: 10_000 }),
            r.wf(),
    {
        KinematicSettings { pitch_rate: 1_000_000, roll_rate: 1_000_000, forward_speed: 10_000 }
    }
}

/// One tick's rotation about one axis, in microradians: the axis deflection
/// times the configured rate times the frame delta, truncated toward zero.
pub open spec fn angle_delta_spec(axis: int, rate: int, dt_us: int) -> int {
    div_trunc(axis * rate * dt_us, 1_000_000_000)
}

/// One tick's distance along the forward axis, in thousandths of a world
/// unit: the thrust fraction times the forward speed times the frame delta,
/// truncated toward zero.
pub open spec fn travel_spec(throttle: int, speed: int, dt_us: int) -> int {
    div_trunc(unsigned_throttle(throttle) * speed * dt_us, 1_000_000_000)
}

/// One tick's rotation about one axis.
pub fn angle_delta(axis: i64, rate: i64, dt_us: i64) -> (r: i64)
    requires
        -AXIS_UNIT <= axis <= AXIS_UNIT,
        0 <= rate <= 100_000_000,
        0 <= dt_us <= 1_000_000,
    ensures
        r == angle_delta_spec(axis as int, rate as int, dt_us as int),
        -100_000_000 <= r <= 100_000_000,
{
    proof {
        lemma_mul_bound(axis as int, rate as int, 1000, 100_000_000);
        lemma_mul_bound(axis as int * rate as int, dt_us as int, 100_000_000_000, 1_000_000);
        lemma_div_trunc_scaled_bound(
            axis as int * rate as int * dt_us as int,
            1_000_000_000,
            100_000_000,
        );
    }
    div_trunc64(axis * rate * dt_us, 1_000_000_000)
}

/// Advances the vehicle pose by one tick under the kinematic policy.
///
/// The pitch and roll deflections, scaled by their configured rates and the
/// frame delta, accumulate onto the pose's rotation angles (saturating only
/// at the far-away modeling bound), and the vehicle translates along its
/// local forward axis — supplied by the caller as a world-frame direction —
/// by the throttle-scaled forward speed over the frame delta. Yaw is not
/// rotated under this policy.
pub fn kinematic_update(
    pose: &mut VehiclePose,
    input: &ControlAxes,
    forward: &Vec3i,
    dt_us: i64,
    s: &KinematicSettings,
)
    requires
        old(pose).wf(),
        input.wf(),
        forward.is_milli_dir(),
        s.wf(),
        0 <= dt_us <= 1_000_000,
    ensures
        final(pose).pitch == clamp_i(
            old(pose).pitch + angle_delta_spec(input.pitch as int, s.pitch_rate as int, dt_us as int),
            -ANGLE_LIMIT as int,
            ANGLE_LIMIT as int,
        ),
        final(pose).roll == clamp_i(
            old(pose).roll + angle_delta_spec(input.roll as int, s.roll_rate as int, dt_us as int),
            -ANGLE_LIMIT as int,
            ANGLE_LIMIT as int,
        ),
        final(pose).yaw == old(pose).yaw,
        final(pose).position == vadd_sat(
            old(pose).position,
            vscale_milli(
                *forward,
                travel_spec(input.throttle as int, s.forward_speed as int, dt_us as int),
            ),
            POS_LIMIT as int,
        ),
        final(pose).wf(),
{
    let pitch_step = angle_delta(input.pitch, s.pitch_rate, dt_us);
    let roll_step = angle_delta(input.roll, s.roll_rate, dt_us);
    pose.pitch = clamp64(pose.pitch + pitch_step, -ANGLE_LIMIT, ANGLE_LIMIT);
    pose.roll = clamp64(pose.roll + roll_step, -ANGLE_LIMIT, ANGLE_LIMIT);

    let fraction = throttle_fraction(input.throttle);
    proof {
        lemma_mul_bound(fraction as int, s.forward_speed as int, 1000, 1_000_000_000);
        lemma_mul_bound(
            fraction as int * s.forward_speed as int,
            dt_us as int,
            1_000_000_000_000,
            1_000_000,
        );
        lemma_div_trunc_scaled_bound(
            fraction as int * s.forward_speed as int * dt_us as int,
            1_000_000_000,
            1_000_000_000,
        );
    }
    let distance = div_trunc64(fraction * s.forward_speed * dt_us, 1_000_000_000);
    let step = scale_milli(forward, distance);
    pose.position = add_sat(&pose.position, &step, POS_LIMIT);
}

/// The acceleration a manually-integrated vehicle feels, in thousandths of
/// a world unit per second squared: the lift force over the mass, plus
/// gravity — the fixed-point form of `(lift + gravity * mass) / mass`.
pub open spec fn lift_acceleration_spec(lift: int, gravity: int, mass: int) -> int {
    div_trunc(lift * 1000, mass) + gravity
}

/// Computes the net vertical acceleration when velocity is tracked manually
/// instead of by a physics integrator: thrust-induced lift over the
/// vehicle's mass, plus the (signed) gravity constant.
pub fn lift_acceleration(lift: i64, gravity: i64, mass: i64) -> (r: i64)
    requires
        -POS_LIMIT <= lift <= POS_LIMIT,
        -1_000_000 <= gravity <= 1_000_000,
        1000 <= mass <= 1_000_000_000,
    ensures
        r == lift_acceleration_spec(lift as int, gravity as int, mass as int),
        -2 * POS_LIMIT <= r <= 2 * POS_LIMIT,
{
    proof {
        lemma_mul_bound(lift as int, 1000, POS_LIMIT as int, 1000);
        lemma_mul_bound(POS_LIMIT as int, mass as int, POS_LIMIT as int, 1_000_000_000);
        assert((POS_LIMIT as int) * 1000 <= (POS_LIMIT as int) * (mass as int))
            by (nonlinear_arith)
            requires 1000 <= mass;
        lemma_div_trunc_scaled_bound(lift as int * 1000, mass as int, POS_LIMIT as int);
    }
    div_trunc64(lift * 1000, mass) + gravity
}

/// One tick's velocity change when velocity is tracked manually, in
/// thousandths of a world unit per second: each component gains its
/// acceleration over the frame delta, saturating at the modeling bound.
pub fn velocity_tick(velocity: &mut Vec3i, accel: &Vec3i, dt_us: i64)
    requires
        old(velocity).in_bounds(POS_LIMIT as int),
        accel.in_bounds(2 * POS_LIMIT as int),
        0 <= dt_us <= 1_000_000,
    ensures
        *final(velocity) == vadd_sat(
            *old(velocity),
            (Vec3i {
                x: div_trunc(accel.x * dt_us, 1_000_000) as i64,
                y: div_trunc(accel.y * dt_us, 1_000_000) as i64,
                z: div_trunc(accel.z * dt_us, 1_000_000) as i64,
            }),
            POS_LIMIT as int,
        ),
        final(velocity).in_bounds(POS_LIMIT as int),
{
    proof {
        lemma_mul_bound(accel.x as int, dt_us as int, 2 * POS_LIMIT as int, 1_000_000);
        lemma_mul_bound(accel.y as int, dt_us as int, 2 * POS_LIMIT as int, 1_000_000);
        lemma_mul_bound(accel.z as int, dt_us as int, 2 * POS_LIMIT as int, 1_000_000);
        lemma_div_trunc_scaled_bound(accel.x as int * dt_us as int, 1_000_000, 2 * POS_LIMIT as int);
        lemma_div_trunc_scaled_bound(accel.y as int * dt_us as int, 1_000_000, 2 * POS_LIMIT as int);
        lemma_div_trunc_scaled_bound(accel.z as int * dt_us as int, 1_000_000, 2 * POS_LIMIT as int);
    }
    let step = Vec3i {
        x: div_trunc64(accel.x * dt_us, 1_000_000),
        y: div_trunc64(accel.y * dt_us, 1_000_000),
        z: div_trunc64(accel.z * dt_us, 1_000_000),
    };
    *velocity = add_sat(velocity, &step, POS_LIMIT);
}

/// Translates a manually-integrated vehicle by its velocity over the frame
/// delta: each position component advances by the matching velocity
/// component scaled by the delta, saturating at the modeling bound.
pub fn translate_by_velocity(position: &mut Vec3i, velocity: &Vec3i, dt_us: i64)
    requires
        old(position).in_bounds(POS_LIMIT as int),
        velocity.in_bounds(POS_LIMIT as int),
        0 <= dt_us <= 1_000_000,
    ensures
        *final(position) == vadd_sat(
            *old(position),
            (Vec3i {
                x: div_trunc(velocity.x * dt_us, 1_000_000) as i64,
                y: div_trunc(velocity.y * dt_us, 1_000_000) as i64,
                z: div_trunc(velocity.z * dt_us, 1_000_000) as i64,
            }),
            POS_LIMIT as int,
        ),
        final(position).in_bounds(POS_LIMIT as int),
{
    proof {
        lemma_mul_bound(velocity.x as int, dt_us as int, POS_LIMIT as int, 1_000_000);
        lemma_mul_bound(velocity.y as int, dt_us as int, POS_LIMIT as int, 1_000_000);
        lemma_mul_bound(velocity.z as int, dt_us as int, POS_LIMIT as int, 1_000_000);
        lemma_div_trunc_scaled_bound(velocity.x as int * dt_us as int, 1_000_000, POS_LIMIT as int);
        lemma_div_trunc_scaled_bound(velocity.y as int * dt_us as int, 1_000_000, POS_LIMIT as int);
        lemma_div_trunc_scaled_bound(velocity.z as int * dt_us as int, 1_000_000, POS_LIMIT as int);
    }
    let step = Vec3i {
        x: div_trunc64(velocity.x * dt_us, 1_000_000),
        y: div_trunc64(velocity.y * dt_us, 1_000_000),
        z: div_trunc64(velocity.z * dt_us, 1_000_000),
    };
    *position = add_sat(position, &step, POS_LIMIT);
}

} // verus!
