//! The X11 key symbols that the adapter recognises, by their standard
//! names and values.
#![allow(non_upper_case_globals)]

use vstd::prelude::*;

verus! {

/// A raw platform key symbol.
pub type Keysym = u32;

pub const KEY_space: Keysym = 0x0020;

/// First of the ten digit symbols of the main row, `0` to `9`.
pub const KEY_0: Keysym = 0x0030;

pub const KEY_9: Keysym = 0x0039;

/// First of the twenty-six capital letter symbols, `A` to `Z`.
pub const KEY_A: Keysym = 0x0041;

pub const KEY_Z: Keysym = 0x005a;

/// First of the twenty-six small letter symbols, `a` to `z`.
pub const KEY_a: Keysym = 0x0061;

pub const KEY_z: Keysym = 0x007a;

pub const KEY_BackSpace: Keysym = 0xff08;

pub const KEY_Tab: Keysym = 0xff09;

pub const KEY_Return: Keysym = 0xff0d;

pub const KEY_Escape: Keysym = 0xff1b;

pub const KEY_Home: Keysym = 0xff50;

pub const KEY_Left: Keysym = 0xff51;

pub const KEY_Up: Keysym = 0xff52;

pub const KEY_Right: Keysym = 0xff53;

pub const KEY_Down: Keysym = 0xff54;

pub const KEY_Page_Up: Keysym = 0xff55;

pub const KEY_Page_Down: Keysym = 0xff56;

pub const KEY_End: Keysym = 0xff57;

pub const KEY_Insert: Keysym = 0xff63;

/// First of the ten digit symbols of the keypad, `KP_0` to `KP_9`.
pub const KEY_KP_0: Keysym = 0xffb0;

pub const KEY_KP_9: Keysym = 0xffb9;

pub const KEY_Delete: Keysym = 0xffff;

} // verus!
