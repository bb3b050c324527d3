//! Where things go in the window: the display of the machine in the middle,
//! the registers to its left and the keypad to its right.

use vstd::prelude::*;

verus! {

/// Width of the window.
pub const WINDOW_WIDTH: i32 = 1250;

/// Height of the window.
pub const WINDOW_HEIGHT: i32 = 500;

/// Width of the display of the machine in the window.
pub const GAME_WIDTH: i32 = 640;

/// Height of the display of the machine in the window.
pub const GAME_HEIGHT: i32 = 320;

/// Side of the square that shows one pixel of the machine.
pub const GAME_PIXEL_SCALE_FACTOR: i32 = 10;

/// Top left corner of the square that shows the pixel in column `x` of row
/// `y`. The display of the machine is centred in the window.
pub fn game_pixel_origin(x: usize, y: usize) -> (origin: (i32, i32))
    requires
        x < 64,
        y < 32,
    ensures
        origin.0 == x * 10 + 305,
        origin.1 == y * 10 + 90,
{
    (
        (x as i32 * GAME_PIXEL_SCALE_FACTOR) + (WINDOW_WIDTH / 2) - (GAME_WIDTH / 2),
        (y as i32 * GAME_PIXEL_SCALE_FACTOR) + (WINDOW_HEIGHT / 2) - (GAME_HEIGHT / 2),
    )
}

/// Top left corner of the box that shows register `register`: the
/// registers stand in four rows of four, 70 apart.
pub fn register_box_origin(register: usize) -> (origin: (i32, i32))
    requires
        register < 16,
    ensures
        origin.0 == 20 + 70 * (register % 4),
        origin.1 == 225 + 70 * (register / 4),
{
    (20 + 70 * (register % 4) as i32, 225 + 70 * (register / 4) as i32)
}

/// Top left corner of the box that shows the key at `position` of the
/// keypad: the keys stand in four rows of four, 65 apart.
pub fn keypad_box_origin(position: usize) -> (origin: (i32, i32))
    requires
        position < 16,
    ensures
        origin.0 == 970 + 65 * (position % 4),
        origin.1 == 50 + 65 * (position / 4),
{
    (970 + 65 * (position % 4) as i32, 50 + 65 * (position / 4) as i32)
}

} // verus!
