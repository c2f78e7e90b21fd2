//! Emulation core for a late-1980s 8-bit home console: CPU, picture unit,
//! memory bus, cartridge mapping, and a software renderer.

pub mod apu;
pub mod basic_cpu;
pub mod bus;
pub mod cartridge;
pub mod config;
pub mod cpu;
pub mod errors;
pub mod input;
pub mod ppu;
pub mod render;
mod interrupts;
mod utils;

pub use bus::Bus;
pub use cartridge::Rom;
pub use cpu::{Address, Cpu, Memory};
pub use errors::EmulatorError;

use vstd::prelude::*;

verus! {

/// One octet of data, the machine's natural word size.
pub type Byte = u8;

} // verus!
