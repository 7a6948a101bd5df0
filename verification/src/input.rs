//! The input mapper: once per tick it reads the raw device samples the
//! caller collected (keyboard, gamepad, connection events) and commits the
//! normalized [`ControlAxes`] control vector.
//!
//! Device priority is a one-way latch: once a gamepad connection event has
//! been seen, the gamepad drives pitch, roll and yaw for the rest of the
//! session, even if keys are still held; until then the keyboard key pairs
//! drive them. Throttle keys work in both regimes.

use crate::axes::{
    apply_deadzone, key_pair_axis, key_pair_axis_spec, snap_spec, throttle_tick,
    throttle_tick_spec, ControlAxes, ThrottleSettings,
};
use crate::AXIS_UNIT;
use vstd::prelude::*;

verus! {

/// Whether a gamepad has ever connected during this session. The flag only
/// moves from false to true, never back: a one-way latch.
#[derive(Clone, Copy, Debug, PartialEq, Eq, Structural)]
pub struct GamepadConnectionState {
    pub connected: bool,
}

impl GamepadConnectionState {
    /// A fresh session: no gamepad has connected yet.
    pub fn new() -> (r: GamepadConnectionState)
        ensures
            !r.connected,
    {
        GamepadConnectionState { connected: false }
    }
}

/// Configuration of the analog deadzone snap.
#[derive(Clone, Copy, Debug, PartialEq, Eq, Structural)]
pub struct GamepadSettings {
    /// Whether near-zero analog readings are snapped to exactly zero.
    pub snap_enabled: bool,
    /// Readings with magnitude strictly below this are snapped, in
    /// thousandths of full deflection.
    pub snap_threshold: i64,
}

impl GamepadSettings {
    pub open spec fn wf(self) -> bool {
        0 <= self.snap_threshold <= AXIS_UNIT
    }
}

impl Default for GamepadSettings {
    /// Snapping on, with a five-percent threshold.
    fn default() -> (r: GamepadSettings)
        ensures
            r == (GamepadSettings { snap_enabled: true, snap_threshold: 50 }),
            r.wf(),
    {
        GamepadSettings { snap_enabled: true, snap_threshold: 50 }
    }
}

/// The held state of each bound key for one tick.
#[derive(Clone, Copy, Debug, PartialEq, Eq, Structural)]
pub struct KeyboardSample {
    pub pitch_up: bool,
    pub pitch_down: bool,
    pub roll_left: bool,
    pub roll_right: bool,
    pub yaw_left: bool,
    pub yaw_right: bool,
    pub throttle_up: bool,
    pub throttle_down: bool,
}

/// The raw gamepad readings for one tick, in thousandths of full
/// deflection. A missing or not-yet-reporting device is represented by
/// all-zero readings and no connection event.
#[derive(Clone, Copy, Debug, PartialEq, Eq, Structural)]
pub struct GamepadSample {
    /// A connection event fired this tick.
    pub connection_event: bool,
    /// Left stick, horizontal: drives roll.
    pub left_stick_x: i64,
    /// Left stick, vertical: drives pitch.
    pub left_stick_y: i64,
    /// Right stick, horizontal: drives yaw. Exactly zero is the device's
    /// "no data" sentinel and falls back to the directional pad.
    pub right_stick_x: i64,
    /// Directional-pad button pressures, zero to `AXIS_UNIT`.
    pub dpad_left: i64,
    pub dpad_right: i64,
}

impl GamepadSample {
    pub open spec fn wf(self) -> bool {
        &&& -AXIS_UNIT <= self.left_stick_x <= AXIS_UNIT
        &&& -AXIS_UNIT <= self.left_stick_y <= AXIS_UNIT
        &&& -AXIS_UNIT <= self.right_stick_x <= AXIS_UNIT
        &&& 0 <= self.dpad_left <= AXIS_UNIT
        &&& 0 <= self.dpad_right <= AXIS_UNIT
    }
}

/// The raw yaw reading: the right stick where it reports data, otherwise the
/// directional pad as a discrete fallback (right wins when both directions
/// are pressed past half pressure).
pub open spec fn yaw_source_spec(gp: GamepadSample) -> int {
    if gp.right_stick_x != 0 {
        gp.right_stick_x as int
    } else if gp.dpad_right > 500 {
        -AXIS_UNIT as int
    } else if gp.dpad_left > 500 {
        AXIS_UNIT as int
    } else {
        0
    }
}

/// Reads pitch, roll and yaw from the gamepad sample, before the deadzone
/// snap: left stick vertical is pitch, left stick horizontal is roll, and
/// yaw comes from the right stick with the directional pad substituting
/// while the stick reports its "no data" sentinel of exactly zero.
pub fn gamepad_input_system(gp: &GamepadSample) -> (r: (i64, i64, i64))
    requires
        gp.wf(),
    ensures
        r.0 == gp.left_stick_y,
        r.1 == gp.left_stick_x,
        r.2 == yaw_source_spec(*gp),
        -AXIS_UNIT <= r.2 <= AXIS_UNIT,
{
    let yaw: i64 = if gp.right_stick_x != 0 {
        gp.right_stick_x
    } else if gp.dpad_right > 500 {
        -AXIS_UNIT
    } else if gp.dpad_left > 500 {
        AXIS_UNIT
    } else {
        0
    };
    (gp.left_stick_y, gp.left_stick_x, yaw)
}

/// Commits the keyboard mapping: each of pitch, yaw and roll takes the value
/// of its key pair (positive key wins a tie), and the throttle is nudged and
/// clamped. Pitch up, roll left and yaw right are the positive keys.
pub fn button_input_system(
    input: &mut ControlAxes,
    kb: &KeyboardSample,
    ts: &ThrottleSettings,
)
    requires
        old(input).wf(),
        ts.wf(),
    ensures
        final(input).pitch == key_pair_axis_spec(kb.pitch_up, kb.pitch_down),
        final(input).roll == key_pair_axis_spec(kb.roll_left, kb.roll_right),
        final(input).yaw == key_pair_axis_spec(kb.yaw_right, kb.yaw_left),
        final(input).throttle == throttle_tick_spec(
            old(input).throttle as int,
            kb.throttle_up,
            kb.throttle_down,
            *ts,
        ),
        final(input).wf(),
{
    input.pitch = key_pair_axis(kb.pitch_up, kb.pitch_down);
    input.roll = key_pair_axis(kb.roll_left, kb.roll_right);
    input.yaw = key_pair_axis(kb.yaw_right, kb.yaw_left);
    input.throttle = throttle_tick(input.throttle, kb.throttle_up, kb.throttle_down, ts);
}

/// The mapped gamepad pitch reading: the raw stick value after the snap.
pub open spec fn gamepad_pitch_spec(gp: GamepadSample, gs: GamepadSettings) -> int {
    snap_spec(gp.left_stick_y as int, gs.snap_enabled, gs.snap_threshold as int)
}

/// The mapped gamepad roll reading: the raw stick value after the snap.
pub open spec fn gamepad_roll_spec(gp: GamepadSample, gs: GamepadSettings) -> int {
    snap_spec(gp.left_stick_x as int, gs.snap_enabled, gs.snap_threshold as int)
}

/// The mapped gamepad yaw reading: the stick-or-pad source after the snap.
pub open spec fn gamepad_yaw_spec(gp: GamepadSample, gs: GamepadSettings) -> int {
    snap_spec(yaw_source_spec(gp), gs.snap_enabled, gs.snap_threshold as int)
}

/// Runs the input mapper for one tick.
///
/// The connection latch absorbs this tick's connection event and never
/// falls back to false. While no gamepad has ever connected, the keyboard
/// key pairs drive pitch, roll and yaw; from the first connection event on,
/// the gamepad readings drive them (after the deadzone snap) and held keys
/// are ignored for those three axes. The throttle keys nudge and clamp the
/// throttle in both regimes.
pub fn input_system(
    latch: &mut GamepadConnectionState,
    input: &mut ControlAxes,
    kb: &KeyboardSample,
    gp: &GamepadSample,
    gs: &GamepadSettings,
    ts: &ThrottleSettings,
)
    requires
        old(input).wf(),
        gp.wf(),
        gs.wf(),
        ts.wf(),
    ensures
        final(latch).connected == (old(latch).connected || gp.connection_event),
        final(latch).connected ==> {
            &&& final(input).pitch == gamepad_pitch_spec(*gp, *gs)
            &&& final(input).roll == gamepad_roll_spec(*gp, *gs)
            &&& final(input).yaw == gamepad_yaw_spec(*gp, *gs)
        },
        !final(latch).connected ==> {
            &&& final(input).pitch == key_pair_axis_spec(kb.pitch_up, kb.pitch_down)
            &&& final(input).roll == key_pair_axis_spec(kb.roll_left, kb.roll_right)
            &&& final(input).yaw == key_pair_axis_spec(kb.yaw_right, kb.yaw_left)
        },
        final(input).throttle == throttle_tick_spec(
            old(input).throttle as int,
            kb.throttle_up,
            kb.throttle_down,
            *ts,
        ),
        final(input).wf(),
{
    if gp.connection_event {
        latch.connected = true;
    }
    if !latch.connected {
        button_input_system(input, kb, ts);
    } else {
        let (pitch_raw, roll_raw, yaw_raw) = gamepad_input_system(gp);
        input.pitch = apply_deadzone(pitch_raw, gs.snap_enabled, gs.snap_threshold);
        input.roll = apply_deadzone(roll_raw, gs.snap_enabled, gs.snap_threshold);
        input.yaw = apply_deadzone(yaw_raw, gs.snap_enabled, gs.snap_threshold);
        input.throttle = throttle_tick(input.throttle, kb.throttle_up, kb.throttle_down, ts);
    }
}

} // verus!
