use vstd::prelude::*;

verus! {

/// Lives at the start of every level.
pub const LIVES: u8 = 5;

/// Length of a level in seconds.
pub const LEVEL_DURATION_SECS: u64 = 40;

/// Length of a level in milliseconds.
pub const LEVEL_DURATION_MILLIS: u64 = 1000 * LEVEL_DURATION_SECS;

/// Time between two spawns of a falling object, in milliseconds.
pub const FALLING_OBJECT_UPDATE_MILLIS: u64 = 800;

/// How long a bad object lingers after it was hit, and how long the player
/// blinks after a hit, in milliseconds.
pub const LINGER_MILLIS: u64 = 1000;

/// Length units in one pixel. Every coordinate, size and speed is a whole
/// number of these units, so that all of the game's scalings are exact.
pub const PX: i64 = 100;

// Dimensions, in length units.
pub const WINDOW_WIDTH: i64 = 1000 * PX;

pub const WINDOW_HEIGHT: i64 = 800 * PX;

pub const TEXT_BUTTON_WIDTH: i64 = 200 * PX;

pub const TEXT_BUTTON_HEIGHT: i64 = 50 * PX;

pub const BUTTON_SPACING: i64 = 10 * PX;

/// Distance that the spawner keeps from the left and right border.
pub const SPAWN_MARGIN: i64 = 25 * PX;

/// Distance that one key press moves the player.
pub const PLAYER_STEP: i64 = 20 * PX;

// Text sizes, in pixels.
pub const BUTTON_TEXT_SIZE: u32 = 26;

pub const TEXT_SIZE: u32 = 34;

pub const TITLE_TEXT_SIZE: u32 = 48;

// Scalings, in percent of a picture's size.
pub const PLAYER_SCALING: u16 = 40;

pub const OBJECT_SCALING: u16 = 8;

/// Points for a good object that carries no value.
pub const PLAIN_SCORE: i32 = 10;

/// Length of one pulse cycle of a high-value object, in millionths
/// (a full turn of the angle that the renderer feeds to its sine).
pub const PULSE_PERIOD: u64 = 6_283_185;

/// What one update adds to the pulse time of a high-value object, in millionths.
pub const PULSE_STEP: u64 = 100_000;

} // verus!
