//! A verified core for a small real-time rendering engine.
//!
//! The engine turns per-frame input (movement keys, mouse deltas) into
//! GPU-ready transform data: a free-flying camera pose with derived view and
//! view-projection matrices, a grid of per-object instance transforms, and an
//! orbiting point light. All of that state lives here, modelled over exact
//! fixed-point integers so that every derivation is deterministic and proved:
//!
//! - lengths are in milliunits (`SCALE` = 1000 milliunits per world unit);
//! - angles are in deci-degrees (`TURN` = 3600 deci-degrees per full turn),
//!   kept normalized to `[0, TURN)`;
//! - trigonometric values and matrix entries are scaled by `SCALE`.
//!
//! The unverified shell around this crate owns the window, the GPU device and
//! the swapchain; it converts the milliunit values produced here to the
//! floating-point buffers the GPU consumes and performs the draw calls that
//! the frame plan prescribes.

use vstd::prelude::*;

pub mod angle;
pub mod camera;
pub mod engine;
pub mod fixed;
pub mod instance;
pub mod light;
pub mod mat;
pub mod vec3;

verus! {

/// Milliunits per world unit: the length scale of all fixed-point values.
pub const SCALE: i64 = 1000;

/// Deci-degrees per full turn: the angle scale of all fixed-point angles.
pub const TURN: i64 = 3600;

} // verus!
