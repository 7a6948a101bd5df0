//! The orbit / cockpit camera controller.
//!
//! The camera's orientation is kept as its yaw-pitch-roll decomposition
//! (intrinsic rotations about Y, then X, then Z), in microradians. While the
//! look button is held, mouse deltas accumulate onto yaw and pitch, and
//! pitch is clamped to a configured range strictly inside plus or minus a
//! quarter turn. In orbit mode the position is then recomputed from the
//! look-at target, the camera's forward direction and the orbit distance; in
//! cockpit mode it is pinned to the seat position. Scroll-wheel line events
//! zoom a perspective field of view; pixel-unit events are ignored.
//!
//! Computing the forward unit vector of an orientation is trigonometry and
//! belongs to the engine-side shell: [`camera_place_orbit`] takes the
//! direction as a fixed-point argument and is verified for every value of
//! it.

use crate::fixed::{
    clamp_i, clamp64, lemma_mul_bound, vscale_milli, vsub_sat, scale_milli, sub_sat, Vec3i,
    ANGLE_LIMIT, POS_LIMIT,
};
use vstd::prelude::*;

verus! {

/// Which of the two camera behaviors is configured.
#[derive(Clone, Copy, Debug, PartialEq, Eq, Structural)]
pub enum ViewMode {
    /// The camera orbits the look-at target at a fixed distance.
    Orbit,
    /// The camera sits at a fixed cockpit offset and only turns.
    Cockpit,
}

/// Camera configuration, loaded once at startup. Angles are in
/// microradians, lengths in thousandths of a world unit.
#[derive(Clone, Copy, Debug, PartialEq, Eq, Structural)]
pub struct CameraSettings {
    /// Distance kept between an orbiting camera and the look-at target.
    pub orbit_distance: i64,
    /// Pitch accumulated per unit of vertical mouse delta.
    pub pitch_speed: i64,
    /// Yaw accumulated per unit of horizontal mouse delta.
    pub yaw_speed: i64,
    /// The range pitch is clamped to, strictly inside a quarter turn either
    /// way.
    pub pitch_min: i64,
    pub pitch_max: i64,
    /// Where the camera goes on reset.
    pub follow_default_position: Vec3i,
    /// The point an orbiting camera looks at.
    pub follow_default_lookat: Vec3i,
    /// Where a cockpit camera is pinned.
    pub cockpit_default_position: Vec3i,
    /// The yaw and pitch that aim the camera from the default position at
    /// the look-at target; reset restores this orientation.
    pub default_yaw: i64,
    pub default_pitch: i64,
    /// The range the field of view is clamped to, and the change per
    /// scroll-wheel line.
    pub fov_min: i64,
    pub fov_max: i64,
    pub fov_step: i64,
    pub view: ViewMode,
}

impl CameraSettings {
    pub open spec fn wf(self) -> bool {
        &&& 0 < self.orbit_distance <= POS_LIMIT
        &&& 0 <= self.pitch_speed <= 1_000_000
        &&& 0 <= self.yaw_speed <= 1_000_000
        &&& -1_570_796 <= self.pitch_min <= self.pitch_max <= 1_570_796
        &&& self.follow_default_position.in_bounds(POS_LIMIT as int)
        &&& self.follow_default_lookat.in_bounds(POS_LIMIT as int)
        &&& self.cockpit_default_position.in_bounds(POS_LIMIT as int)
        &&& self.pitch_min <= self.default_pitch <= self.pitch_max
        &&& -ANGLE_LIMIT <= self.default_yaw <= ANGLE_LIMIT
        &&& 0 < self.fov_min <= self.fov_max <= 3_141_593
        &&& 0 <= self.fov_step <= 1_000_000
    }
}

impl Default for CameraSettings {
    /// An orbit camera twenty units behind the target: pitch is limited to
    /// a hundredth of a radian inside a quarter turn, and the default
    /// orientation aims from twenty units back and four up at a target half
    /// a unit above the origin.
    fn default() -> (r: CameraSettings)
        ensures
            r == default_camera_settings(),
            r.wf(),
    {
        CameraSettings {
            orbit_distance: 20_000,
            pitch_speed: 3_000,
            yaw_speed: 4_000,
            pitch_min: -1_560_796,
            pitch_max: 1_560_796,
            follow_default_position: Vec3i { x: 0, y: 4_000, z: 20_000 },
            follow_default_lookat: Vec3i { x: 0, y: 500, z: 0 },
            cockpit_default_position: Vec3i { x: 400, y: 800, z: -3_000 },
            default_yaw: 0,
            default_pitch: -173_246,
            fov_min: 100_000,
            fov_max: 1_570_796,
            fov_step: 50_000,
            view: ViewMode::Orbit,
        }
    }
}

/// The configuration `CameraSettings::default` returns.
pub open spec fn default_camera_settings() -> CameraSettings {
    CameraSettings {
        orbit_distance: 20_000,
        pitch_speed: 3_000,
        yaw_speed: 4_000,
        pitch_min: (-1_560_796) as i64,
        pitch_max: 1_560_796,
        follow_default_position: Vec3i { x: 0, y: 4_000, z: 20_000 },
        follow_default_lookat: Vec3i { x: 0, y: 500, z: 0 },
        cockpit_default_position: Vec3i { x: 400, y: 800, z: (-3_000) as i64 },
        default_yaw: 0,
        default_pitch: (-173_246) as i64,
        fov_min: 100_000,
        fov_max: 1_570_796,
        fov_step: 50_000,
        view: ViewMode::Orbit,
    }
}

/// The camera's pose: position in thousandths of a world unit, orientation
/// as its yaw-pitch-roll decomposition and the perspective field of view in
/// microradians.
#[derive(Clone, Copy, Debug, PartialEq, Eq, Structural)]
pub struct CameraPose {
    pub position: Vec3i,
    pub yaw: i64,
    pub pitch: i64,
    pub roll: i64,
    pub fov: i64,
}

impl CameraPose {
    pub open spec fn wf(self) -> bool {
        &&& self.position.in_bounds(POS_LIMIT as int)
        &&& -ANGLE_LIMIT <= self.yaw <= ANGLE_LIMIT
        &&& -ANGLE_LIMIT <= self.pitch <= ANGLE_LIMIT
        &&& -ANGLE_LIMIT <= self.roll <= ANGLE_LIMIT
        &&& -ANGLE_LIMIT <= self.fov <= ANGLE_LIMIT
    }

    /// The pose a session starts from: the default position and
    /// orientation, with an eighth-turn field of view.
    pub fn new(settings: &CameraSettings) -> (r: CameraPose)
        requires
            settings.wf(),
        ensures
            r.position == settings.follow_default_position,
            r.yaw == settings.default_yaw,
            r.pitch == settings.default_pitch,
            r.roll == 0,
            r.fov == 785_398,
            r.wf(),
    {
        CameraPose {
            position: settings.follow_default_position,
            yaw: settings.default_yaw,
            pitch: settings.default_pitch,
            roll: 0,
            fov: 785_398,
        }
    }
}

/// The mouse state the caller sampled for one tick: the accumulated mouse
/// delta in counts, whether the look button is held, and whether the
/// camera-reset key was just pressed.
#[derive(Clone, Copy, Debug, PartialEq, Eq, Structural)]
pub struct MouseSample {
    pub delta_x: i64,
    pub delta_y: i64,
    pub look_held: bool,
    pub reset_pressed: bool,
}

impl MouseSample {
    pub open spec fn wf(self) -> bool {
        &&& -1_000_000 <= self.delta_x <= 1_000_000
        &&& -1_000_000 <= self.delta_y <= 1_000_000
    }
}

/// The unit a scroll event is reported in: whole wheel lines, or pixels
/// from a trackpad.
#[derive(Clone, Copy, Debug, PartialEq, Eq, Structural)]
pub enum ScrollUnit {
    Line,
    Pixel,
}

/// One scroll event: its unit and its (vertical) amount, in whole lines or
/// pixels.
#[derive(Clone, Copy, Debug, PartialEq, Eq, Structural)]
pub struct ScrollEvent {
    pub unit: ScrollUnit,
    pub amount: i64,
}

impl ScrollEvent {
    pub open spec fn wf(self) -> bool {
        -1_000_000 <= self.amount <= 1_000_000
    }
}

/// This tick's pitch movement: vertical mouse delta times pitch speed, with
/// the sign inverted in cockpit mode, where the viewpoint is reversed.
pub open spec fn pitch_delta_spec(s: CameraSettings, m: MouseSample) -> int {
    if s.view is Cockpit {
        -(m.delta_y * s.pitch_speed)
    } else {
        m.delta_y * s.pitch_speed
    }
}

/// This tick's yaw movement: horizontal mouse delta times yaw speed, with
/// the sign inverted in cockpit mode.
pub open spec fn yaw_delta_spec(s: CameraSettings, m: MouseSample) -> int {
    if s.view is Cockpit {
        -(m.delta_x * s.yaw_speed)
    } else {
        m.delta_x * s.yaw_speed
    }
}

/// Pitch after one tick: while the look button is held, the movement
/// accumulates and the result is clamped into the configured range;
/// otherwise pitch is untouched.
pub open spec fn pitch_after_spec(pitch: int, s: CameraSettings, m: MouseSample) -> int {
    if m.look_held {
        clamp_i(pitch + pitch_delta_spec(s, m), s.pitch_min as int, s.pitch_max as int)
    } else {
        pitch
    }
}

/// Yaw after one tick: while the look button is held, the movement
/// accumulates, saturating at the modeling bound; otherwise yaw is
/// untouched.
pub open spec fn yaw_after_spec(yaw: int, s: CameraSettings, m: MouseSample) -> int {
    if m.look_held {
        clamp_i(yaw + yaw_delta_spec(s, m), -ANGLE_LIMIT as int, ANGLE_LIMIT as int)
    } else {
        yaw
    }
}

/// The sum of the amounts of the line-unit events in a scroll sequence;
/// pixel-unit events contribute nothing.
pub open spec fn line_sum(events: Seq<ScrollEvent>) -> int
    decreases events.len(),
{
    if events.len() == 0 {
        0
    } else {
        line_sum(events.drop_last()) + if events.last().unit is Line {
            events.last().amount as int
        } else {
            0
        }
    }
}

/// The field of view after one tick: each line of downward scroll narrows
/// it by the configured step, and the result is clamped into the configured
/// range.
pub open spec fn fov_after_spec(fov: int, s: CameraSettings, events: Seq<ScrollEvent>) -> int {
    clamp_i(fov - s.fov_step * line_sum(events), s.fov_min as int, s.fov_max as int)
}

/// Runs the camera controller's orientation and zoom update for one tick.
///
/// While the look button is held, the mouse delta accumulates onto yaw and
/// pitch (sign-inverted in cockpit mode) and pitch is clamped into the
/// configured range; roll is never touched. In cockpit mode the position is
/// pinned to the cockpit seat; in orbit mode the position is left for
/// [`camera_place_orbit`], which needs the orientation's forward direction.
/// When the camera holds a perspective projection, scroll-wheel line events
/// zoom the field of view, clamped to its configured range; pixel-unit
/// events are ignored, and without a perspective projection the zoom is a
/// no-op for the tick.
pub fn camera_controller(
    pose: &mut CameraPose,
    settings: &CameraSettings,
    mouse: &MouseSample,
    scroll: &Vec<ScrollEvent>,
    has_perspective: bool,
)
    requires
        old(pose).wf(),
        settings.wf(),
        mouse.wf(),
        scroll@.len() <= 16384,
        forall|i: int| 0 <= i < scroll@.len() ==> (#[trigger] scroll@[i]).wf(),
    ensures
        final(pose).yaw == yaw_after_spec(old(pose).yaw as int, *settings, *mouse),
        final(pose).pitch == pitch_after_spec(old(pose).pitch as int, *settings, *mouse),
        final(pose).roll == old(pose).roll,
        settings.view is Cockpit ==> final(pose).position == settings.cockpit_default_position,
        settings.view is Orbit ==> final(pose).position == old(pose).position,
        has_perspective ==> final(pose).fov == fov_after_spec(
            old(pose).fov as int,
            *settings,
            scroll@,
        ),
        !has_perspective ==> final(pose).fov == old(pose).fov,
        final(pose).wf(),
{
    proof {
        lemma_mul_bound(mouse.delta_y as int, settings.pitch_speed as int, 1_000_000, 1_000_000);
        lemma_mul_bound(mouse.delta_x as int, settings.yaw_speed as int, 1_000_000, 1_000_000);
    }
    let cockpit: bool = settings.view == ViewMode::Cockpit;

    let raw_pitch_delta: i64 = mouse.delta_y * settings.pitch_speed;
    let raw_yaw_delta: i64 = mouse.delta_x * settings.yaw_speed;
    let (pitch_delta, yaw_delta): (i64, i64) = if cockpit {
        (-raw_pitch_delta, -raw_yaw_delta)
    } else {
        (raw_pitch_delta, raw_yaw_delta)
    };

    if mouse.look_held {
        pose.pitch = clamp64(pose.pitch + pitch_delta, settings.pitch_min, settings.pitch_max);
        pose.yaw = clamp64(pose.yaw + yaw_delta, -ANGLE_LIMIT, ANGLE_LIMIT);
    }

    if cockpit {
        pose.position = settings.cockpit_default_position;
    }

    if has_perspective {
        let mut sum: i64 = 0;
        let mut i: usize = 0;
        while i < scroll.len()
            invariant
                0 <= i <= scroll@.len(),
                scroll@.len() <= 16384,
                forall|j: int| 0 <= j < scroll@.len() ==> (#[trigger] scroll@[j]).wf(),
                sum == line_sum(scroll@.take(i as int)),
                -(i * 1_000_000) <= sum <= i * 1_000_000,
            decreases scroll@.len() - i,
        {
            proof {
                assert(scroll@.take(i as int + 1).drop_last() =~= scroll@.take(i as int));
                assert(scroll@.take(i as int + 1).last() == scroll@[i as int]);
            }
            if scroll[i].unit == ScrollUnit::Line {
                sum = sum + scroll[i].amount;
            }
            i = i + 1;
        }
        proof {
            assert(scroll@.take(scroll@.len() as int) =~= scroll@);
            lemma_mul_bound(settings.fov_step as int, sum as int, 1_000_000, 16_384_000_000);
        }
        pose.fov = clamp64(pose.fov - settings.fov_step * sum, settings.fov_min, settings.fov_max);
    }
}

/// Recomputes an orbiting camera's position for this tick, given the
/// forward unit direction of its (already updated) orientation, then
/// applies the reset action.
///
/// Without a reset, the position becomes the look-at target minus the
/// forward direction scaled by the orbit distance, so the camera keeps
/// orbiting the target. A reset instead snaps the position to the
/// configured default and re-aims the orientation at the target, whatever
/// the prior state was.
pub fn camera_place_orbit(
    pose: &mut CameraPose,
    settings: &CameraSettings,
    forward: &Vec3i,
    reset_pressed: bool,
)
    requires
        old(pose).wf(),
        settings.wf(),
        forward.is_milli_dir(),
        settings.view is Orbit,
    ensures
        !reset_pressed ==> {
            &&& final(pose).position == vsub_sat(
                settings.follow_default_lookat,
                vscale_milli(*forward, settings.orbit_distance as int),
                POS_LIMIT as int,
            )
            &&& final(pose).yaw == old(pose).yaw
            &&& final(pose).pitch == old(pose).pitch
            &&& final(pose).roll == old(pose).roll
        },
        reset_pressed ==> {
            &&& final(pose).position == settings.follow_default_position
            &&& final(pose).yaw == settings.default_yaw
            &&& final(pose).pitch == settings.default_pitch
            &&& final(pose).roll == 0
        },
        final(pose).fov == old(pose).fov,
        final(pose).wf(),
{
    if reset_pressed {
        pose.position = settings.follow_default_position;
        pose.yaw = settings.default_yaw;
        pose.pitch = settings.default_pitch;
        pose.roll = 0;
    } else {
        let offset = scale_milli(forward, settings.orbit_distance);
        pose.position = sub_sat(&settings.follow_default_lookat, &offset, POS_LIMIT);
    }
}

/// Pitch after a whole sequence of mouse ticks.
pub open spec fn pitch_after_all(pitch: int, s: CameraSettings, moves: Seq<MouseSample>) -> int
    decreases moves.len(),
{
    if moves.len() == 0 {
        pitch
    } else {
        pitch_after_spec(pitch_after_all(pitch, s, moves.drop_last()), s, moves.last())
    }
}

/// Camera pitch never leaves the configured range: starting inside the
/// range, any sequence of mouse-delta inputs — look button held or not —
/// leaves it inside the range.
pub proof fn lemma_pitch_stays_in_range(pitch: int, s: CameraSettings, moves: Seq<MouseSample>)
    requires
        s.wf(),
        s.pitch_min <= pitch <= s.pitch_max,
    ensures
        s.pitch_min <= pitch_after_all(pitch, s, moves) <= s.pitch_max,
    decreases moves.len(),
{
    if moves.len() > 0 {
        lemma_pitch_stays_in_range(pitch, s, moves.drop_last());
    }
}

} // verus!
