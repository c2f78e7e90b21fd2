//! Bank mapping: turning a ROM-relative address into a physical ROM offset.

pub mod nrom;

pub use nrom::{Nrom128, Nrom256};

use crate::errors::EmulatorError;
use vstd::prelude::*;

verus! {

/// A bank-mapping capability: maps a program-ROM-relative address to a
/// physical offset inside the program ROM array.
pub trait Mapper: Sized {
    /// The offset `map_address` computes.
    spec fn spec_map_address(&self, address: u16) -> u16;

    /// Map a ROM-relative address to a physical offset.
    fn map_address(&self, address: u16) -> (r: Result<u16, EmulatorError>)
        ensures
            r == Ok::<u16, EmulatorError>(self.spec_map_address(address)),
    ;
}

/// The mapping schemes this core registers, selected at cartridge load.
#[derive(Debug, Clone, Copy, PartialEq, Eq, Structural)]
pub enum MapperKind {
    /// 16KB of program ROM mirrored twice to fill the 32KB window.
    Nrom128(Nrom128),
    /// 32KB of program ROM, addresses passed through unchanged.
    Nrom256(Nrom256),
}

impl Mapper for MapperKind {
    open spec fn spec_map_address(&self, address: u16) -> u16 {
        match self {
            MapperKind::Nrom128(m) => m.spec_map_address(address),
            MapperKind::Nrom256(m) => m.spec_map_address(address),
        }
    }

    fn map_address(&self, address: u16) -> (r: Result<u16, EmulatorError>) {
        match self {
            MapperKind::Nrom128(m) => m.map_address(address),
            MapperKind::Nrom256(m) => m.map_address(address),
        }
    }
}

} // verus!
