pub mod dragon;
pub mod game;
pub mod obstacle;
mod rng;

use vstd::prelude::*;

verus! {

/// Width of the visible playfield, in cells.
pub const SCREEN_WIDTH: i32 = 80;

/// Height of the visible playfield, in cells.
pub const SCREEN_HEIGHT: i32 = 50;

/// Milliseconds of accumulated frame time after which one physics tick runs.
pub const FRAME_DURATION_MS: i32 = 75;

/// Starting horizontal position of the dragon.
pub const DRAGON_START_X: i32 = 5;

/// Starting vertical position of the dragon.
pub const DRAGON_START_Y: i32 = 25;

/// Lowest row (inclusive) at which an obstacle gap may be centered.
pub const GAP_Y_MIN: i32 = 10;

/// Highest row (exclusive) at which an obstacle gap may be centered.
pub const GAP_Y_MAX: i32 = 40;

} // verus!
