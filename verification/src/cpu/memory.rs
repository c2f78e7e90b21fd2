//! Byte- and word-level access to the CPU's address space.

use crate::errors::EmulatorError;
use vstd::prelude::*;

verus! {

/// A device the CPU can read from and write to, byte by byte, with
/// little-endian word access built on top. Each implementation names the
/// machine states it accepts and preserves.
pub trait Memory: Sized {
    /// The states the device accepts and preserves.
    spec fn memory_inv(&self) -> bool;

    /// Read the byte at `addr`.
    fn read(&mut self, addr: u16) -> (r: Result<u8, EmulatorError>)
        requires
            old(self).memory_inv(),
        ensures
            final(self).memory_inv(),
    ;

    /// Write `value` to `addr`.
    fn write(&mut self, addr: u16, value: u8) -> (r: Result<(), EmulatorError>)
        requires
            old(self).memory_inv(),
        ensures
            final(self).memory_inv(),
    ;

    /// Read the little-endian word starting at `addr`, wrapping at the top
    /// of the address space.
    fn read_u16(&mut self, addr: u16) -> (r: Result<u16, EmulatorError>)
        requires
            old(self).memory_inv(),
        ensures
            final(self).memory_inv(),
    ;

    /// Write `data` little-endian starting at `addr`, wrapping at the top
    /// of the address space.
    fn write_u16(&mut self, addr: u16, data: u16) -> (r: Result<(), EmulatorError>)
        requires
            old(self).memory_inv(),
        ensures
            final(self).memory_inv(),
    ;
}

} // verus!
