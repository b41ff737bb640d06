//! The numbers the game is tuned with.
use vstd::prelude::*;

verus! {

/// Width of the visible grid, in columns.
pub const SCREEN_WIDTH: i32 = 80;

/// Height of the visible grid, in rows.
pub const SCREEN_HEIGHT: i32 = 50;

/// Time between two simulation steps, in microseconds.
pub const FRAME_DURATION: u32 = 75_000;

/// Column in which a fresh player starts.
pub const START_X: i32 = 5;

/// Row in which a fresh player starts.
pub const START_Y: i32 = 25;

/// Velocity units that make up one row per step.  A velocity is counted in
/// fifths of a row per step, so that gravity is exactly one unit.
pub const VELOCITY_UNITS_PER_ROW: i32 = 5;

/// What one simulation step adds to a velocity below the terminal velocity.
pub const GRAVITY: i32 = 1;

/// The downward velocity at which gravity stops accelerating the player.
pub const TERMINAL_VELOCITY: i32 = 10;

/// What one flap takes off the velocity.
pub const FLAP_IMPULSE: i32 = 10;

/// Lowest row a gap center may be drawn at.
pub const GAP_MIN: i32 = 10;

/// First row past the range of gap centers.
pub const GAP_MAX: i32 = 40;

/// Gap height at score zero.
pub const BASE_GAP_SIZE: i32 = 20;

/// Gap height that no score shrinks the gap below.
pub const MIN_GAP_SIZE: i32 = 2;

} // verus!
