//! Key-press codes for text: each character of a string becomes the codes of
//! the keys that type it on a fixed keyboard layout.

pub mod hex;
pub mod keymap;
pub mod sequence;

pub use keymap::{KEY_LEFTCTRL, KEY_LEFTSHIFT, KEY_SPACE, KEY_U};
pub use sequence::{resolve, string_to_scancodes, Resolution};
