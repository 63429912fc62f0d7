//! Game constants.
//!
//! Coordinates and velocities are fixed-point integers in milli-units:
//! `UNIT` (1000) stands for one world unit, so `-2500` is the world
//! x-coordinate -2.5. Velocities are milli-units per second; a tick advances
//! the world by `dt_ms` milliseconds.

use vstd::prelude::*;

verus! {

/// Fixed-point scale: this many milli-units make one world unit.
pub const UNIT: i64 = 1000;

/// Horizontal velocity given to every obstacle piece at spawn (leftward).
pub const OBSTACLE_MOVEMENT_SPEED: i64 = -4000;

/// A new gate spawns only when the closest trigger-bearing gate has drifted
/// further than this from the spawn boundary.
pub const OBSTACLE_DISTANCE: i64 = 4000;

/// The x-coordinate where both pieces of a new gate appear.
pub const OBSTACLE_SPAWN_X: i64 = 8000;

/// Obstacles whose x falls below this are destroyed.
pub const OBSTACLE_CLEANUP_X: i64 = -8000;

/// A gate scores one point the first tick its trigger piece is left of this.
pub const SCORE_TRIGGER_X: i64 = -2500;

/// Upward lift added to the player's (non-negative) vertical speed per press.
pub const FLY_SPEED: i64 = 8000;

/// Cap on the vertical speed a lift press can produce.
pub const MAX_FLY_SPEED: i64 = 3800;

/// Above this altitude the player is nudged back down.
pub const CEILING_Y: i64 = 7000;

/// The small downward speed forced while the player is above the ceiling.
pub const CEILING_PUSHBACK_VY: i64 = -100;

/// Downward acceleration applied to the player, in milli-units per second
/// per second.
pub const GRAVITY: i64 = 12800;

/// Terminal fall speed of the model: gravity never pushes the player's
/// vertical velocity below this, which keeps every velocity in a small range.
pub const TERMINAL_FALL_VY: i64 = -100_000;

/// Where the player is (re)created on entering a session.
pub const PLAYER_SPAWN_X: i64 = -2000;

/// Altitude at which the player is (re)created.
pub const PLAYER_SPAWN_Y: i64 = 5000;

/// Base altitude of a gate's upper piece; the shared random offset is added.
pub const UPPER_PIECE_BASE_Y: i64 = 7000;

/// Base altitude of a gate's lower piece; the shared random offset is added.
pub const LOWER_PIECE_BASE_Y: i64 = -1000;

/// Half-height of a gate's upper piece.
pub const UPPER_PIECE_HALF_HEIGHT: i64 = 4000;

/// Half-height of a gate's lower piece.
pub const LOWER_PIECE_HALF_HEIGHT: i64 = 3000;

/// Each gate's vertical offset is drawn uniformly from `[0, GATE_OFFSET_RANGE)`.
pub const GATE_OFFSET_RANGE: i64 = 4000;

/// The player's altitude is saturated to `[-POSITION_LIMIT, POSITION_LIMIT]`
/// by the integration step, so positions always stay in machine range.
pub const POSITION_LIMIT: i64 = 1_000_000_000;

/// Velocities handed to the integration step must lie within this magnitude.
pub const VELOCITY_LIMIT: i64 = 2_000_000;

/// Upper bound on the milliseconds one tick may advance.
pub const MAX_TICK_MS: u64 = 1000;

/// The furthest an obstacle can scroll in one tick:
/// `|OBSTACLE_MOVEMENT_SPEED| * MAX_TICK_MS / UNIT`.
pub const MAX_SCROLL_PER_TICK: i64 = 4000;

/// Lower bound of the vertical-speed range that the cosmetic body tilt is
/// derived over.
pub const TILT_RANGE_MIN: i64 = -3000;

/// Upper bound of the vertical-speed range that the cosmetic body tilt is
/// derived over.
pub const TILT_RANGE_MAX: i64 = 3000;

} // verus!
