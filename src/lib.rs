//! Synthesises keyboard input: turns virtual keys and Unicode characters into
//! keystrokes, and keystroke chains into raw key events ready for injection.
pub mod keycode;
pub mod layout;
pub mod translate;
pub mod input;
pub mod sender;
pub mod keyboard;
