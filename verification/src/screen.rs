//! Frame-rate and layout figures shared by the terminal screens.

use vstd::prelude::*;

verus! {

/// Frames per second of the game loop.
pub const FPS: u64 = 60;

/// Frames per second of the welcome screen animation.
pub const WELCOME_FPS: u64 = 100;

/// Frames per second of the menu animation.
pub const MENU_FPS: u64 = 20;

/// Converts a span of milliseconds into a number of frames at `fps`.
pub fn millis_to_frames(millis: u64, fps: u64) -> (r: u64)
    requires
        fps * millis <= u64::MAX,
    ensures
        r == fps * millis / 1000,
{
    fps * millis / 1000
}

/// Half of a blink cycle of the welcome screen's snake banner, in frames.
pub const SNAKE_BLINK_TIME: u64 = WELCOME_FPS * 200 / 1000;

/// The delay before the continue hint appears, counted in frames from the
/// moment the snake banner starts blinking.
pub const CONTINUE_DELAY: u64 = WELCOME_FPS * 1000 / 1000;

/// The width of the welcome banner, in cells.
pub const WELCOME_WIDTH: u16 = 52;

/// The height of the welcome banner, in rows.
pub const WELCOME_HEIGHT: u16 = 11;

/// The width of the snake banner, in cells.
pub const SNAKE_WIDTH: u16 = 47;

/// The height of the snake banner, in rows.
pub const SNAKE_HEIGHT: u16 = 5;

/// The width of the welcome screen's continue hint, in cells.
pub const CONTINUE_WIDTH: u16 = 27;

/// The height of the welcome screen's continue hint, in rows.
pub const CONTINUE_HEIGHT: u16 = 1;

/// The width of the menu's key legend, in cells.
pub const KEYS_WIDTH: u16 = 37;

/// The width of the menu's level list, in cells.
pub const LEVELS_WIDTH: u16 = 38;

/// The height of the menu's level list, in rows.
pub const LEVELS_HEIGHT: u16 = 5;

} // verus!
