//! The normalized control vector and the per-axis policies that fill it:
//! discrete key pairs, the analog deadzone snap, and throttle accumulation.

use crate::fixed::{abs_i, clamp_i, clamp64};
use crate::AXIS_UNIT;
use vstd::prelude::*;

verus! {

/// The four-axis control vector committed once per tick by the input mapper
/// and read by the flight-dynamics updater. Values are in thousandths of
/// full deflection.
#[derive(Clone, Copy, Debug, PartialEq, Eq, Structural)]
pub struct ControlAxes {
    pub pitch: i64,
    pub roll: i64,
    pub yaw: i64,
    pub throttle: i64,
}

impl ControlAxes {
    /// Every axis lies within one full deflection of zero.
    pub open spec fn wf(self) -> bool {
        &&& -AXIS_UNIT <= self.pitch <= AXIS_UNIT
        &&& -AXIS_UNIT <= self.roll <= AXIS_UNIT
        &&& -AXIS_UNIT <= self.yaw <= AXIS_UNIT
        &&& -AXIS_UNIT <= self.throttle <= AXIS_UNIT
    }

    /// The control vector a session starts from: neutral attitude controls
    /// and full throttle.
    pub fn new() -> (r: ControlAxes)
        ensures
            r == (ControlAxes { pitch: 0, roll: 0, yaw: 0, throttle: AXIS_UNIT }),
            r.wf(),
    {
        ControlAxes { pitch: 0, roll: 0, yaw: 0, throttle: AXIS_UNIT }
    }
}

/// Configuration of the incremental throttle: the nudge applied per tick
/// while a throttle key is held, and the range the value is clamped to.
#[derive(Clone, Copy, Debug, PartialEq, Eq, Structural)]
pub struct ThrottleSettings {
    pub step: i64,
    pub min: i64,
    pub max: i64,
}

impl ThrottleSettings {
    pub open spec fn wf(self) -> bool {
        &&& 0 <= self.step <= AXIS_UNIT
        &&& -AXIS_UNIT <= self.min <= self.max <= AXIS_UNIT
    }
}

impl Default for ThrottleSettings {
    /// A one-percent nudge per tick, clamped to the signed range.
    fn default() -> (r: ThrottleSettings)
        ensures
            r == (ThrottleSettings { step: 10, min: (-1000) as i64, max: 1000 }),
            r.wf(),
    {
        ThrottleSettings { step: 10, min: -AXIS_UNIT, max: AXIS_UNIT }
    }
}

/// The axis value produced by a pair of discrete keys: the positive key
/// wins when both are held.
pub open spec fn key_pair_axis_spec(pos: bool, neg: bool) -> int {
    if pos {
        AXIS_UNIT as int
    } else if neg {
        -AXIS_UNIT as int
    } else {
        0
    }
}

/// Maps one discrete key pair to an axis value: `AXIS_UNIT` while the
/// positive key is held, `-AXIS_UNIT` while only the negative key is held,
/// and exactly zero while neither is held. Holding both keys is resolved
/// deterministically in favor of the positive key.
pub fn key_pair_axis(pos: bool, neg: bool) -> (r: i64)
    ensures
        r == key_pair_axis_spec(pos, neg),
        -AXIS_UNIT <= r <= AXIS_UNIT,
{
    if pos {
        AXIS_UNIT
    } else if neg {
        -AXIS_UNIT
    } else {
        0
    }
}

/// The deadzone snap policy: readings strictly inside the symmetric
/// threshold become exactly zero; all other readings pass through unchanged.
pub open spec fn snap_spec(v: int, enabled: bool, threshold: int) -> int {
    if enabled && abs_i(v) < threshold {
        0
    } else {
        v
    }
}

/// Snaps a raw analog reading to exactly zero when the snap policy is
/// enabled and the reading's magnitude is strictly below the threshold;
/// otherwise returns the reading unchanged (identity outside the deadzone,
/// with no rescaling).
pub fn apply_deadzone(v: i64, enabled: bool, threshold: i64) -> (r: i64)
    requires
        -AXIS_UNIT <= v <= AXIS_UNIT,
        0 <= threshold,
    ensures
        r == snap_spec(v as int, enabled, threshold as int),
        -AXIS_UNIT <= r <= AXIS_UNIT,
{
    if enabled && -threshold < v && v < threshold {
        0
    } else {
        v
    }
}

/// The throttle value after one tick: nudged up and/or down by the step for
/// each throttle key held, then clamped into the configured range.
pub open spec fn throttle_tick_spec(t: int, up: bool, down: bool, s: ThrottleSettings) -> int {
    clamp_i(
        t + (if up {
            s.step as int
        } else {
            0
        }) - (if down {
            s.step as int
        } else {
            0
        }),
        s.min as int,
        s.max as int,
    )
}

/// Advances the throttle by one tick: while the throttle-up key is held the
/// value rises by the configured step, while the throttle-down key is held
/// it falls by the step (holding both cancels out), and the result is
/// clamped into the configured range.
pub fn throttle_tick(t: i64, up: bool, down: bool, s: &ThrottleSettings) -> (r: i64)
    requires
        s.wf(),
        -2 * AXIS_UNIT <= t <= 2 * AXIS_UNIT,
    ensures
        r == throttle_tick_spec(t as int, up, down, *s),
        s.min <= r <= s.max,
{
    let mut t2: i64 = t;
    if up {
        t2 = t2 + s.step;
    }
    if down {
        t2 = t2 - s.step;
    }
    clamp64(t2, s.min, s.max)
}

/// The throttle value after a whole sequence of ticks, each tick given as
/// the pair (throttle-up held, throttle-down held).
pub open spec fn throttle_after(t: int, presses: Seq<(bool, bool)>, s: ThrottleSettings) -> int
    decreases presses.len(),
{
    if presses.len() == 0 {
        t
    } else {
        throttle_tick_spec(
            throttle_after(t, presses.drop_last(), s),
            presses.last().0,
            presses.last().1,
            s,
        )
    }
}

/// After every tick the throttle lies in its configured range, whatever
/// value it started from and whatever sequence of throttle inputs was fed
/// in, rapid toggling included.
pub proof fn lemma_throttle_always_clamped(t: int, presses: Seq<(bool, bool)>, s: ThrottleSettings)
    requires
        s.wf(),
        presses.len() > 0,
    ensures
        s.min <= throttle_after(t, presses, s) <= s.max,
    decreases presses.len(),
{
    if presses.len() > 1 {
        lemma_throttle_always_clamped(t, presses.drop_last(), s);
    }
}

} // verus!
