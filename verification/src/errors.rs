//! Typed failures raised by the emulation core.
//!
//! Every fallible boundary (ROM parsing, memory access, opcode dispatch)
//! reports one of these values instead of aborting.

use vstd::prelude::*;

verus! {

/// Why a ROM container could not be parsed.
#[derive(Debug, Clone, Copy, PartialEq, Eq, Structural)]
pub enum RomFormatError {
    /// The four-byte magic tag was absent.
    MissingTag,
    /// The header encodes a newer container format than supported.
    UnsupportedVersion,
    /// The reserved tail of the header was not zeroed.
    HeaderPadding,
    /// The file ends before the sixteen-byte header.
    TruncatedHeader,
    /// The file ends before the program data the header promises.
    TruncatedPrgData,
    /// The file ends before the graphics data the header promises.
    TruncatedChrData,
    /// The header names a bank-mapping scheme with no registered implementation.
    UnsupportedMapper(u8),
}

/// Why a memory access was refused by the bus or the picture unit.
#[derive(Debug, Clone, Copy, PartialEq, Eq, Structural)]
pub enum MemoryAccessError {
    /// A read targeted a write-only register.
    ReadFromWriteOnly(u16),
    /// A write targeted a read-only register or cartridge program data.
    WriteToReadOnly(u16),
    /// The picture unit's address latch pointed into an unmapped window.
    InvalidPpuAddress(u16),
}

/// A failure of the emulation core; fatal to the current run.
#[derive(Debug, Clone, Copy, PartialEq, Eq, Structural)]
pub enum EmulatorError {
    /// The ROM container is malformed; raised at load time.
    RomFormat(RomFormatError),
    /// A memory access was refused; raised during execution.
    MemoryAccess(MemoryAccessError),
    /// An operation code with no table entry was fetched.
    UnsupportedOpcode(u8),
    /// The step budget of a bounded run was exhausted.
    StepBudgetExhausted,
}

} // verus!
