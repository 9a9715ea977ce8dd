//! Simulation core of a vertical endless-runner arcade game.
//!
//! A player sprite is pulled down by constant gravity, falls through a
//! scrolling field of randomly spawned platforms, bounces upward on landing,
//! and loses the run when it falls past the bottom of the play field.
//!
//! All lengths, coordinates and velocities are integers counted in
//! *half units*: one half unit is half of one screen unit. The physics
//! constants of the game are all multiples of half a screen unit, so every
//! quantity of the simulation is exact in this representation and no
//! floating point is needed.

use vstd::prelude::*;

pub mod collision;
pub mod geometry;
pub mod platform;
pub mod player;
mod rng;
pub mod score;
pub mod sim;

verus! {

/// Downward velocity change per physics tick (half units): 0.5 units.
pub const GRAVITY: i64 = 1;

/// Bound on the horizontal displacement per tick (half units): 3 units.
pub const MAX_INPUT_SPEED: i64 = 6;

/// Upward velocity set by a bounce (half units): 12 units.
pub const BOUNCE_VELOCITY: i64 = 24;

/// The player is dead once its vertical position is below this line
/// (half units): -400 units.
pub const DEATH_LINE: i64 = -800;

/// Platforms spawn with a horizontal offset drawn uniformly from
/// `[-SPAWN_X_RANGE, SPAWN_X_RANGE]` (half units): 150 units.
pub const SPAWN_X_RANGE: i64 = 300;

/// Fixed vertical spawn line of new platforms, above the visible field
/// (half units): 250 units.
pub const PLATFORM_SPAWN_Y: i64 = 500;

/// Every platform scrolls down by this step each tick (half units): 1 unit.
pub const SCROLL_STEP: i64 = 2;

/// Platforms that scroll below this boundary are removed (half units):
/// -450 units, safely below the death line.
pub const CLEANUP_Y: i64 = -900;

/// Horizontal position at which the player appears on its first input.
pub const PLAYER_START_X: i64 = 0;

/// Vertical position at which the player appears on its first input
/// (half units): -350 units.
pub const PLAYER_START_Y: i64 = -700;

/// Initial upward velocity of a freshly spawned player (half units):
/// 25 units.
pub const PLAYER_START_VELOCITY: i64 = 50;

/// Width of the player's hitbox (half units): 25 units.
pub const PLAYER_WIDTH: i64 = 50;

/// Height of the player's hitbox (half units): 40 units.
pub const PLAYER_HEIGHT: i64 = 80;

/// A new platform is spawned every this many simulation ticks
/// (1.5 seconds at 60 ticks per second).
pub const SPAWN_CADENCE_TICKS: u64 = 90;

/// The score updates every this many simulation ticks
/// (0.1 seconds at 60 ticks per second).
pub const SCORE_CADENCE_TICKS: u64 = 6;

/// Bound under which a single addition or overlap test on coordinates
/// cannot overflow an `i64`.
pub const COORD_LIMIT: i64 = 0x1000_0000_0000_0000;

/// Tighter bound a state must satisfy at the start of a tick, so that every
/// intermediate value of that tick stays under `COORD_LIMIT`.
pub const TICK_LIMIT: i64 = 0x400_0000_0000_0000;

/// A value small enough that one addition or overlap test on it cannot
/// overflow an `i64`.
pub open spec fn fits(v: int) -> bool {
    -COORD_LIMIT <= v && v <= COORD_LIMIT
}

/// A value small enough that a whole tick of arithmetic starting from it
/// keeps every intermediate value within `fits`.
pub open spec fn fits_tick(v: int) -> bool {
    -TICK_LIMIT <= v && v <= TICK_LIMIT
}

} // verus!
