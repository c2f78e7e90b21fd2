//! The NROM cartridge boards: the simplest bank-mapping family.
//!
//! The suffixes 128 and 256 refer to kilobits of program ROM: one 16KB bank
//! mirrored twice, or two banks filling the whole 32KB window.

use crate::cartridge::mappers::Mapper;
use crate::errors::EmulatorError;
use vstd::prelude::*;

verus! {

/// One 16KB bank, mirrored twice across the 32KB window.
#[derive(Debug, Clone, Copy, PartialEq, Eq, Structural)]
pub struct Nrom128 {}

/// Two 16KB banks: the full 32KB window, mapped through unchanged.
#[derive(Debug, Clone, Copy, PartialEq, Eq, Structural)]
pub struct Nrom256 {}

impl Mapper for Nrom128 {
    open spec fn spec_map_address(&self, address: u16) -> u16 {
        (address % 0x4000) as u16
    }

    fn map_address(&self, address: u16) -> (r: Result<u16, EmulatorError>) {
        Ok(
            if address >= 0x4000 {
                address % 0x4000
            } else {
                address
            },
        )
    }
}

impl Mapper for Nrom256 {
    open spec fn spec_map_address(&self, address: u16) -> u16 {
        address
    }

    fn map_address(&self, address: u16) -> (r: Result<u16, EmulatorError>) {
        Ok(address)
    }
}

} // verus!
