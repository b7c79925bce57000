//! Fixed dimensions and speeds of the game, in milli-units and microseconds.
use vstd::prelude::*;

verus! {

/// Microseconds in one second.
pub const MICROS_PER_SEC: u64 = 1_000_000;

/// Window width.
pub const WINDOW_WIDTH: i64 = 640_000;

/// Window height.
pub const WINDOW_HEIGHT: i64 = 1_000_000;

pub const AIRCRAFT_WIDTH: i64 = 67_200;

pub const AIRCRAFT_HEIGHT: i64 = 80_000;

/// Speed of the aircraft along each pressed axis.
pub const AIRCRAFT_SPEED: u64 = 500_000;

pub const BULLET_WIDTH: i64 = 16_250;

pub const BULLET_HEIGHT: i64 = 40_000;

/// Upward speed of every bullet.
pub const BULLET_SPEED: u64 = 540_000;

/// Time between two bullets while the primary fire is held.
pub const BULLET_INTERVAL: u64 = 100_000;

/// Width and height of a bubble.
pub const BUBBLE_SIZE: i64 = 40_000;

/// Number of bubble sprite variants.
pub const BUBBLE_VARIANTS: u64 = 3;

/// Smallest bubble speed (inclusive).
pub const BUBBLE_SPEED_MIN: u64 = 50_000;

/// Largest bubble speed (exclusive).
pub const BUBBLE_SPEED_MAX: u64 = 200_000;

/// Resolution of a drawn bubble direction component, which lies in `[0, DIRECTION_SCALE)`.
pub const DIRECTION_SCALE: u64 = 1000;

pub const OBSTACLE_WIDTH: i64 = 60_000;

pub const OBSTACLE_HEIGHT: i64 = 60_000;

/// Smallest obstacle speed (inclusive).
pub const OBSTACLE_SPEED_MIN: u64 = 100_000;

/// Largest obstacle speed (exclusive).
pub const OBSTACLE_SPEED_MAX: u64 = 300_000;

/// Upper bound (exclusive) of the randomised time between two obstacles.
pub const OBSTACLE_INTERVAL_MAX: u64 = 3_000_000;

/// Time before the first obstacle.
pub const OBSTACLE_FIRST_INTERVAL: u64 = 100_000;

/// Largest distance of an obstacle's spawn point from the vertical centre line (exclusive).
pub const OBSTACLE_SPAWN_HALF_WIDTH: u64 = 290_000;

/// Width and height of a background tile (square, as wide as the window).
pub const TILE_SIZE: i64 = 640_000;

/// Number of background tiles stacked vertically.
pub const TILE_COUNT: i64 = 3;

/// Downward scroll speed of the background.
pub const SCROLL_SPEED: u64 = 40_000;

/// Centre of the lowest tile at startup.
pub const TILE_BOTTOM: i64 = -180_000;

/// A tile whose centre falls below this line wraps to the top of the stack.
pub const TILE_WRAP_Y: i64 = -820_000;

/// Length of the whole stack of tiles, the period of the wrap.
pub const TILE_SPAN: i64 = 1_920_000;

/// Largest centre coordinate of the aircraft on the x axis.
pub const AIRCRAFT_MAX_X: i64 = 286_400;

/// Largest centre coordinate of the aircraft on the y axis.
pub const AIRCRAFT_MAX_Y: i64 = 460_000;

/// Start height of the aircraft.
pub const AIRCRAFT_START_Y: i64 = -340_000;

/// A bullet whose centre rises above this line has left the window.
pub const BULLET_EXIT_Y: i64 = 520_000;

/// An obstacle whose centre falls below this line has left the window.
pub const OBSTACLE_EXIT_Y: i64 = -530_000;

/// Height at which new obstacles appear, just above the window.
pub const OBSTACLE_SPAWN_Y: i64 = 530_000;

/// Largest centre coordinate of a bubble on the x axis before it bounces.
pub const BUBBLE_MAX_X: i64 = 300_000;

/// Largest centre coordinate of a bubble on the y axis before it bounces.
pub const BUBBLE_MAX_Y: i64 = 480_000;

/// Facts that tie the derived constants to the window and sprite sizes.
pub proof fn lemma_layout()
    ensures
        AIRCRAFT_MAX_X == WINDOW_WIDTH / 2 - AIRCRAFT_WIDTH / 2,
        AIRCRAFT_MAX_Y == WINDOW_HEIGHT / 2 - AIRCRAFT_HEIGHT / 2,
        AIRCRAFT_START_Y == -(WINDOW_HEIGHT / 2 - AIRCRAFT_HEIGHT * 2),
        BULLET_EXIT_Y == WINDOW_HEIGHT / 2 + BULLET_HEIGHT / 2,
        OBSTACLE_EXIT_Y == -(WINDOW_HEIGHT / 2 + OBSTACLE_HEIGHT / 2),
        OBSTACLE_SPAWN_Y == WINDOW_HEIGHT / 2 + OBSTACLE_HEIGHT / 2,
        OBSTACLE_SPAWN_HALF_WIDTH == WINDOW_WIDTH / 2 - OBSTACLE_WIDTH / 2,
        BUBBLE_MAX_X == WINDOW_WIDTH / 2 - BUBBLE_SIZE / 2,
        BUBBLE_MAX_Y == WINDOW_HEIGHT / 2 - BUBBLE_SIZE / 2,
        TILE_BOTTOM == -((WINDOW_HEIGHT - TILE_SIZE) / 2),
        TILE_WRAP_Y == TILE_BOTTOM - TILE_SIZE,
        TILE_SPAN == TILE_SIZE * TILE_COUNT,
{
}

} // verus!
