//! The cartridge: ROM container parsing and bank mapping.

pub mod mappers;
pub mod mirroring_type;
pub mod rom;

pub use mirroring_type::MirroringType;
pub use rom::Rom;

use vstd::prelude::*;

verus! {

/// Size of one program-ROM bank in bytes (16KB).
pub const PRG_ROM_BANK_SIZE: usize = 16384;

/// Size of one graphics-ROM bank in bytes (8KB).
pub const CHR_ROM_BANK_SIZE: usize = 8192;

} // verus!
