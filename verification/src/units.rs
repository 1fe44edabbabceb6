//! The fixed-point units of the simulation.
//!
//! Lengths are whole numbers of sub-pixels and spans of time whole numbers of
//! ticks. One pixel holds as many sub-pixels as one second holds ticks, so a
//! speed given in pixels per second is the same number of sub-pixels per tick.

use vstd::prelude::*;

verus! {

/// Sub-pixels in a pixel, and ticks in a second.
pub const SCALE: i64 = 1_000_000;

/// Sideways speed of the ship under thrust, in pixels per second.
pub const SHIP_SPEED: i64 = 200;

/// Upward speed of a projectile, in pixels per second.
pub const PROJECTILE_SPEED: i64 = 1000;

/// Downward speed of an asteroid, in pixels per second.
pub const ASTEROID_SPEED: i64 = 100;

/// Ticks that must pass after a shot before the next one.
pub const FIRE_COOLDOWN: i64 = 600_000;

/// The fire cooldown of a fresh ship: below zero, so that the first shot is immediate.
pub const INITIAL_COOLDOWN: i64 = -1_000_000;

/// Ticks in the spawn period: an asteroid is due every `SPAWN_PERIOD / (score + 1)` ticks.
pub const SPAWN_PERIOD: i64 = 10_000_000;

/// How far the lower edge of the screen lies below the ship's lane, in
/// sub-pixels. An asteroid that has fallen this far has left the field.
pub const LANE_FLOOR: i64 = 50_000_000;

/// Half the side of an asteroid's square, in sub-pixels.
pub const ASTEROID_HALF: i64 = 8_000_000;

/// Half the side of a projectile's square, in sub-pixels.
pub const PROJECTILE_HALF: i64 = 2_000_000;

/// Half the width and half the height of the ship's triangle, in sub-pixels.
pub const SHIP_HALF: i64 = 20_000_000;

/// The longest step of simulated time, in ticks.
pub const MAX_STEP: i64 = 0xffff_ffff;

/// The greatest half-width of the ship's lane, in sub-pixels: half of the widest viewport.
pub const MAX_HALF_WIDTH: i64 = 2_147_483_647_500_000;

/// The greatest height of a viewport, in sub-pixels.
pub const MAX_HEIGHT: i64 = 4_294_967_295_000_000;

} // verus!
