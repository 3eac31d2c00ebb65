//! Verified simulation core of a Breakout-style arcade game.
//!
//! A paddle deflects balls into a grid of destructible blocks while the
//! session tracks score, lives and level progression.  All game logic —
//! rectangle collision resolution, entity updates, board initialization and
//! the per-frame state machine — lives here, stated over integer fixed-point
//! coordinates.  Rendering and input polling are left to the host program.
//!
//! Units: positions and sizes are whole pixels; ball velocities are direction
//! vectors scaled by [`VEL_UNIT`] (so a unit component is 1000); time steps
//! are milliseconds.

pub mod ball;
pub mod block;
pub mod game;
pub mod geom;
pub mod motion;
pub mod player;
pub mod powerup;

use vstd::prelude::*;

verus! {

/// Upper bound on coordinate magnitudes accepted by the geometry routines;
/// generous enough that a session never approaches it, small enough that all
/// intermediate arithmetic fits in `i64`.
pub const COORD_LIMIT: i64 = 100_000_000_000_000;

/// Bound on entity coordinates within a well-formed game state.
pub const POS_LIMIT: i64 = 1_000_000_000_000;

/// Bound on entity coordinates accepted by the per-entity update routines;
/// looser than [`POS_LIMIT`] so that positions may drift within one frame.
pub const POS_SLACK: i64 = 10_000_000_000_000;

/// Largest screen dimension, in pixels, the simulation accepts.
pub const SCREEN_LIMIT: u64 = 1_000_000;

/// Largest time step, in milliseconds, the simulation accepts per frame.
pub const DT_LIMIT: u64 = 10_000;

/// Scale of ball velocity components: a component of `VEL_UNIT` stands for a
/// full unit of the original direction vector.
pub const VEL_UNIT: i64 = 1_000;

/// Bound on the magnitude of any entity velocity component.
pub const VEL_LIMIT: i64 = 1_000;

/// Bound on the magnitude of a single per-frame position step.
pub const STEP_LIMIT: i64 = 10_000_000_000;

/// Paddle width in pixels.
pub const PLAYER_W: i64 = 150;

/// Paddle height in pixels.
pub const PLAYER_H: i64 = 20;

/// Block width in pixels.
pub const BLOCK_W: i64 = 75;

/// Block height in pixels.
pub const BLOCK_H: i64 = 20;

/// Ball side length in pixels (the ball is drawn as a circle but collides as
/// a square).
pub const BALL_SIZE: i64 = 20;

/// Power-up side length in pixels.
pub const POWERUP_SIZE: i64 = 20;

/// Ball speed: pixels per second per velocity unit.
pub const BALL_SPEED: u64 = 250;

/// Power-up fall speed multiplier.
pub const POWER_UP_SPEED: u64 = 5;

/// x component of the launch direction, the unit vector (1, -1) normalized,
/// in [`VEL_UNIT`] scale.
pub const LAUNCH_VX: i64 = 707;

/// y component of the launch direction (negative: upward).
pub const LAUNCH_VY: i64 = -707;

/// Downward velocity of a falling power-up.
pub const POWERUP_FALL_VY: i64 = 50;

/// Whether a coordinate is within the slack range entity updates accept.
pub open spec fn coord_ok(v: int) -> bool {
    -POS_SLACK <= v <= POS_SLACK
}

} // verus!
