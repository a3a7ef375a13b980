//! The fixed measures of the playing field.

use vstd::prelude::*;

verus! {

/// Units of length in one pixel.
pub const UNITS_PER_PIXEL: i64 = 1_000_000;

/// Width of the window.
pub const WINDOW_WIDTH: i64 = 1_280_000_000;

/// Height of the window.
pub const WINDOW_HEIGHT: i64 = 720_000_000;

/// Radius of the ball, which is also the side of its bounding box.
pub const PROJ_RADIUS: i64 = 16_000_000;

/// Speed of a fresh ball, in pixels per second.
pub const PROJ_SPEED: u32 = 500;

/// The shortest time between two frames, in microseconds (a sixtieth of a second, rounded down).
pub const FRAME_DURATION: u64 = 16_666;

/// Width of the racket.
pub const RACKET_WIDTH: i64 = 128_000_000;

/// Height of the racket.
pub const RACKET_HEIGHT: i64 = 16_000_000;

/// The racket's fixed vertical position.
pub const RACKET_POS_Y: i64 = 640_000_000;

/// Speed of the racket, in pixels per second.
pub const RACKET_SPEED: i64 = 700;

/// The rightmost position of the racket's left edge.
pub const RACKET_MAX_X: i64 = 1_152_000_000;

/// Width of a brick.
pub const BRICK_WIDTH: i64 = 122_500_000;

/// Height of a brick.
pub const BRICK_HEIGHT: i64 = 32_000_000;

/// Gap between neighbouring bricks, and between the first column and the left wall.
pub const BRICK_GAP: i64 = 5_000_000;

/// Distance between the left edges of two neighbouring columns of bricks.
pub const BRICK_PITCH_X: i64 = 127_500_000;

/// Distance between the top edges of two neighbouring rows of bricks.
pub const BRICK_PITCH_Y: i64 = 37_000_000;

/// Vertical position of the first row of bricks.
pub const BRICK_TOP: i64 = 100_000_000;

/// Columns of the brick grid.
pub const BRICK_COLUMNS: usize = 10;

/// Rows of the brick grid.
pub const BRICK_ROWS: usize = 5;

/// Health of a fresh brick.
pub const BRICK_HEALTH: usize = 1;

/// Number of colour tiers; a brick's health is always below it.
pub const PALETTE_SIZE: usize = 6;

/// Distance of the life markers from the window's edge and from each other.
pub const LIFE_MARGIN: i64 = 5_000_000;

/// Height of the banner's letters, in pixels.
pub const BANNER_SIZE: i32 = 50;

/// Lives at the start of a game.
pub const INITIAL_LIVES: usize = 3;

/// The time a fresh ball rests before it can be launched, in microseconds.
pub const GRACE_PERIOD: u64 = 500_000;

/// Speed gained when the ball hits a wall or the racket.
pub const BOUNCE_GAIN: u32 = 2;

/// Speed gained when the ball hits a brick.
pub const BRICK_GAIN: u32 = 4;

/// Numerator of the rational that stands for the inverse of the square root of two.
pub const DIAGONAL_NUM: u128 = 707_107;

/// Denominator of the rational that stands for the inverse of the square root of two.
pub const DIAGONAL_DEN: u128 = 1_000_000;

} // verus!
