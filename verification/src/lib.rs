//! Core logic of a small flight simulator: an input mapper that turns raw
//! device samples into a normalized control vector, a flight-dynamics updater
//! that turns the control vector into either a force/torque request or a
//! direct kinematic pose update, and an orbit/cockpit camera controller.
//!
//! The host engine owns rendering, physics integration and device I/O; this
//! crate holds only the per-tick decision and arithmetic logic, over plain
//! fixed-point integers. The conventions, used throughout:
//!
//! - Control axis values are in thousandths of full deflection
//!   (`AXIS_UNIT == 1000` is full positive deflection).
//! - Angles are in microradians.
//! - Lengths and positions are in thousandths of a world unit.
//! - Time deltas are in microseconds.
//!
//! The caller (the engine-side shell) converts the engine's floating-point
//! samples into these units before each tick and converts the results back
//! afterwards; everything in between is verified exact integer arithmetic.

use vstd::prelude::*;

pub mod axes;
pub mod camera;
pub mod dynamics;
pub mod fixed;
pub mod input;

verus! {

/// Full positive deflection of a control axis, in axis units.
pub const AXIS_UNIT: i64 = 1000;

} // verus!
