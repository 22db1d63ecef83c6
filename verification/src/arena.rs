//! The fixed geometry of the arena, in steps.

use vstd::prelude::*;

verus! {

/// Simulation ticks in one second.
pub const TICK_RATE: i64 = 60;

/// Steps in one length unit. It equals the tick rate, so a speed given in
/// units per second is the same number of steps per tick.
pub const STEPS_PER_UNIT: i64 = 60;

/// Horizontal centre of the left wall.
pub const LEFT_WALL: i64 = -450 * STEPS_PER_UNIT;

/// Horizontal centre of the right wall.
pub const RIGHT_WALL: i64 = 450 * STEPS_PER_UNIT;

/// Vertical centre of the bottom wall.
pub const BOTTOM_WALL: i64 = -300 * STEPS_PER_UNIT;

/// Vertical centre of the top wall.
pub const TOP_WALL: i64 = 300 * STEPS_PER_UNIT;

/// Thickness of every wall.
pub const WALL_THICKNESS: i64 = 10 * STEPS_PER_UNIT;

/// Width of a paddle.
pub const PADDLE_WIDTH: i64 = 20 * STEPS_PER_UNIT;

/// Height of a paddle.
pub const PADDLE_HEIGHT: i64 = 120 * STEPS_PER_UNIT;

/// Width and height of the ball.
pub const BALL_SIZE: i64 = 30 * STEPS_PER_UNIT;

/// Distance between the centre of a side wall and the centre of the paddle
/// in front of it.
pub const GAP_BETWEEN_PADDLE_AND_WALL: i64 = 20 * STEPS_PER_UNIT;

/// Paddle speed in units per second, which is steps per tick.
pub const PADDLE_SPEED: i64 = 500;

/// Speed of the ball along each axis when a match starts, in units per
/// second.
pub const BALL_START_SPEED: i64 = 400;

/// Half the thickness of a wall.
pub const HALF_WALL_THICKNESS: i64 = 5 * STEPS_PER_UNIT;

/// Half the height of a paddle.
pub const HALF_PADDLE_HEIGHT: i64 = 60 * STEPS_PER_UNIT;

/// Lowest legal height of a paddle's centre: the paddle then touches the
/// inner face of the bottom wall.
pub const PADDLE_BOTTOM_BOUND: i64 = BOTTOM_WALL + HALF_WALL_THICKNESS + HALF_PADDLE_HEIGHT;

/// Highest legal height of a paddle's centre: the paddle then touches the
/// inner face of the top wall.
pub const PADDLE_TOP_BOUND: i64 = TOP_WALL - HALF_WALL_THICKNESS - HALF_PADDLE_HEIGHT;

/// Whether `y` is a legal height for a paddle's centre.
pub open spec fn in_paddle_band(y: int) -> bool {
    PADDLE_BOTTOM_BOUND <= y <= PADDLE_TOP_BOUND
}

/// The legal band for a paddle's centre runs from 235 units below the centre
/// line to 235 units above it.
pub proof fn lemma_paddle_band_bounds()
    ensures
        2 * HALF_WALL_THICKNESS == WALL_THICKNESS,
        2 * HALF_PADDLE_HEIGHT == PADDLE_HEIGHT,
        PADDLE_BOTTOM_BOUND == -235 * STEPS_PER_UNIT,
        PADDLE_TOP_BOUND == 235 * STEPS_PER_UNIT,
        forall|y: int| in_paddle_band(y) <==> -14100 <= y <= 14100,
{
}

} // verus!
