//! The key and button codes that the driver sends, as the input layer
//! numbers them.

use vstd::prelude::*;

verus! {

/// Number of key codes that the input layer knows: valid codes lie below it.
pub const KEY_CNT: u16 = 0x300;

pub const KEY_ESC: u16 = 1;

pub const KEY_TAB: u16 = 15;

pub const KEY_LEFTBRACE: u16 = 26;

pub const KEY_RIGHTBRACE: u16 = 27;

pub const KEY_LEFTCTRL: u16 = 29;

pub const KEY_D: u16 = 32;

pub const KEY_B: u16 = 48;

pub const KEY_LEFTALT: u16 = 56;

pub const KEY_SPACE: u16 = 57;

pub const KEY_KPMINUS: u16 = 74;

pub const KEY_KPPLUS: u16 = 78;

pub const KEY_HOME: u16 = 102;

pub const KEY_PAGEUP: u16 = 104;

pub const KEY_PAGEDOWN: u16 = 109;

pub const KEY_MUTE: u16 = 113;

pub const KEY_VOLUMEDOWN: u16 = 114;

pub const KEY_VOLUMEUP: u16 = 115;

pub const KEY_LEFTMETA: u16 = 125;

pub const KEY_CALC: u16 = 140;

pub const KEY_NEXTSONG: u16 = 163;

pub const KEY_PLAYPAUSE: u16 = 164;

pub const KEY_PREVIOUSSONG: u16 = 165;

pub const KEY_PLAYER: u16 = 0x183;

pub const BTN_LEFT: u16 = 0x110;

pub const BTN_RIGHT: u16 = 0x111;

/// Tells that a pen is within reach of the surface.
pub const BTN_TOOL_PEN: u16 = 0x140;

/// Tells that the pen touches the surface.
pub const BTN_TOUCH: u16 = 0x14a;

/// The first button on the pen's barrel.
pub const BTN_STYLUS: u16 = 0x14b;

/// The second button on the pen's barrel.
pub const BTN_STYLUS2: u16 = 0x14c;

} // verus!
