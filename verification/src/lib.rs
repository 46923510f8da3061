//! A small grid-maze arcade game, verified.
//!
//! A player sprite moves through a fixed tile grid, turns are snapped to
//! grid lines, walls block movement, food pips are eaten on contact and
//! counted in a score, and the sprite's mouth animation cycles on a timer.
//!
//! All coordinates are integers measured in millipixels (one thousandth of
//! a screen pixel), which makes every quantity of the game's arithmetic —
//! tile size, speed per millisecond, snap threshold, eating radius — an
//! exact integer.

use vstd::prelude::*;

pub mod anim;
pub mod food;
pub mod game;
pub mod geom;
pub mod grid;
pub mod level;
pub mod movement;
pub mod score;

verus! {

/// Side of one maze tile, in millipixels (40 pixels).
pub const TILE_MPX: i64 = 40_000;

/// Player speed in millipixels per millisecond (200 pixels per second).
pub const SPEED_MPX_PER_MS: i64 = 200;

/// Side of the player and enemy sprites, in millipixels (40 pixels).
pub const CHARACTER_SIZE_MPX: i64 = 40_000;

/// How close to a grid line the player must be for an assisted turn to
/// snap it onto that line: a fifth of a tile (8 pixels).
pub const SNAP_THRESHOLD_MPX: i64 = 8_000;

/// A food pip is eaten when the player's center is strictly closer than
/// this to the pip's center (20 pixels).
pub const EAT_RADIUS_MPX: i64 = 20_000;

} // verus!
