//! Input devices the bus exposes to the CPU.

pub mod joypad;

pub use joypad::{Joypad, JoypadButton};
