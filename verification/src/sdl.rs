//! Raw SDL gamepad ids, as SDL numbers buttons and axes.

use vstd::prelude::*;

verus! {

pub const SDL_BUTTON_SOUTH: i32 = 0;
pub const SDL_BUTTON_EAST: i32 = 1;
pub const SDL_BUTTON_WEST: i32 = 2;
pub const SDL_BUTTON_NORTH: i32 = 3;
pub const SDL_BUTTON_BACK: i32 = 4;
pub const SDL_BUTTON_GUIDE: i32 = 5;
pub const SDL_BUTTON_START: i32 = 6;
pub const SDL_BUTTON_LEFT_STICK: i32 = 7;
pub const SDL_BUTTON_RIGHT_STICK: i32 = 8;
pub const SDL_BUTTON_LEFT_SHOULDER: i32 = 9;
pub const SDL_BUTTON_RIGHT_SHOULDER: i32 = 10;
pub const SDL_BUTTON_DPAD_UP: i32 = 11;
pub const SDL_BUTTON_DPAD_DOWN: i32 = 12;
pub const SDL_BUTTON_DPAD_LEFT: i32 = 13;
pub const SDL_BUTTON_DPAD_RIGHT: i32 = 14;
pub const SDL_BUTTON_MISC1: i32 = 15;
pub const SDL_BUTTON_RIGHT_PADDLE1: i32 = 16;
pub const SDL_BUTTON_LEFT_PADDLE1: i32 = 17;
pub const SDL_BUTTON_RIGHT_PADDLE2: i32 = 18;
pub const SDL_BUTTON_LEFT_PADDLE2: i32 = 19;
pub const SDL_BUTTON_TOUCHPAD: i32 = 20;
pub const SDL_BUTTON_MISC2: i32 = 21;
pub const SDL_BUTTON_MISC3: i32 = 22;
pub const SDL_BUTTON_MISC4: i32 = 23;
pub const SDL_BUTTON_MISC5: i32 = 24;
pub const SDL_BUTTON_MISC6: i32 = 25;
/// Number of SDL gamepad buttons.
pub const SDL_BUTTON_COUNT: i32 = 26;

pub const SDL_AXIS_LEFTX: i32 = 0;
pub const SDL_AXIS_LEFTY: i32 = 1;
pub const SDL_AXIS_RIGHTX: i32 = 2;
pub const SDL_AXIS_RIGHTY: i32 = 3;
pub const SDL_AXIS_LEFT_TRIGGER: i32 = 4;
pub const SDL_AXIS_RIGHT_TRIGGER: i32 = 5;
/// Number of SDL gamepad axes.
pub const SDL_AXIS_COUNT: i32 = 6;

/// Whether a raw id names an SDL gamepad button.
pub open spec fn is_sdl_button(id: int) -> bool {
    0 <= id < SDL_BUTTON_COUNT
}

/// Whether a raw id names an SDL gamepad axis.
pub open spec fn is_sdl_axis(id: int) -> bool {
    0 <= id < SDL_AXIS_COUNT
}

} // verus!
