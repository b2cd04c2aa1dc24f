//! Modifier bits and key symbols.
//!
//! A modifier set is a bitset over the held modifier keys; sets combine by
//! bitwise or. Key symbols carry the standard XKB keysym values, so the
//! host-facing shell can hand them through unchanged.

use vstd::prelude::*;

verus! {

/// The Shift modifier.
pub const MOD_SHIFT: u32 = 0x1;
/// The CapsLock modifier.
pub const MOD_CAPS: u32 = 0x2;
/// The Ctrl modifier.
pub const MOD_CTRL: u32 = 0x4;
/// The Alt modifier.
pub const MOD_ALT: u32 = 0x8;
/// The NumLock modifier.
pub const MOD_NUM: u32 = 0x10;
/// The Logo (Super) modifier.
pub const MOD_LOGO: u32 = 0x40;
/// The empty modifier set.
pub const MOD_NONE: u32 = 0x0;

pub const KEY_A: u32 = 0x61;
pub const KEY_C: u32 = 0x63;
pub const KEY_D: u32 = 0x64;
pub const KEY_E: u32 = 0x65;
pub const KEY_F: u32 = 0x66;
pub const KEY_H: u32 = 0x68;
pub const KEY_I: u32 = 0x69;
pub const KEY_J: u32 = 0x6a;
pub const KEY_K: u32 = 0x6b;
pub const KEY_L: u32 = 0x6c;
pub const KEY_M: u32 = 0x6d;
pub const KEY_N: u32 = 0x6e;
pub const KEY_O: u32 = 0x6f;
pub const KEY_P: u32 = 0x70;
pub const KEY_Q: u32 = 0x71;
pub const KEY_R: u32 = 0x72;
pub const KEY_T: u32 = 0x74;
pub const KEY_U: u32 = 0x75;
pub const KEY_V: u32 = 0x76;
pub const KEY_Y: u32 = 0x79;

/// The left Super key as a plain symbol (bindable without modifiers).
pub const KEY_SUPER_L: u32 = 0xffeb;

pub const KEY_F1: u32 = 0xffbe;
pub const KEY_F2: u32 = 0xffbf;
pub const KEY_F3: u32 = 0xffc0;
pub const KEY_F4: u32 = 0xffc1;
pub const KEY_F5: u32 = 0xffc2;
pub const KEY_F6: u32 = 0xffc3;
pub const KEY_F7: u32 = 0xffc4;
pub const KEY_F8: u32 = 0xffc5;
pub const KEY_F9: u32 = 0xffc6;
pub const KEY_F10: u32 = 0xffc7;
pub const KEY_F11: u32 = 0xffc8;
pub const KEY_F12: u32 = 0xffc9;
pub const KEY_F13: u32 = 0xffca;
pub const KEY_F14: u32 = 0xffcb;
pub const KEY_F15: u32 = 0xffcc;
pub const KEY_F16: u32 = 0xffcd;
pub const KEY_F17: u32 = 0xffce;
pub const KEY_F18: u32 = 0xffcf;
pub const KEY_F19: u32 = 0xffd0;
pub const KEY_F20: u32 = 0xffd1;
pub const KEY_F21: u32 = 0xffd2;
pub const KEY_F22: u32 = 0xffd3;
pub const KEY_F23: u32 = 0xffd4;
pub const KEY_F24: u32 = 0xffd5;
pub const KEY_F25: u32 = 0xffd6;

} // verus!
