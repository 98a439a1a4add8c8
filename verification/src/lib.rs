//! Kinematic simulation and collision-resolution core for a tile-based 2D
//! platformer.
//!
//! The library advances an actor's position under gravity, player-driven
//! acceleration, friction and jump impulses, and resolves contact against a
//! static grid of tiles so that the actor never penetrates solid tiles and
//! always knows whether it stands on the ground.  Everything here is pure
//! computation on integers: rendering, input translation and frame pacing
//! live outside the library and talk to it through plain values.

use vstd::prelude::*;

pub mod backdrop;
pub mod collision;
pub mod collision_info;
pub mod collision_tile;
pub mod geometry;
pub mod log;
pub mod map;
pub mod motion;
pub mod player;
pub mod sprite;
pub mod sprite_state;
pub mod tile;
pub mod units;

verus! {

/// Edge length of one grid tile, in pixels.
pub const TILE_SIZE: i64 = 32;

/// Largest frame time, in milliseconds, that one simulation step accepts.
/// This is a machine limit that keeps 64-bit velocity and position
/// arithmetic exact; it is far beyond any real frame time.
pub const MAX_ELAPSED_MS: i64 = 1_000_000_000;

/// Width of the visible play field, in pixels.
pub const SCREEN_WIDTH: i64 = 640;

/// Height of the visible play field, in pixels.
pub const SCREEN_HEIGHT: i64 = 480;

} // verus!
