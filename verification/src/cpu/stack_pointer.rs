//! The CPU's stack pointer: an 8-bit offset into the fixed stack page.

use vstd::prelude::*;

verus! {

/// The stack lives in page one of the address space.
pub const STACK_BEGIN_ADDR: u16 = 0x0100;

/// Offset the pointer holds after a reset.
pub const STACK_RESET: u8 = 0xfd;

/// The offset after stepping down by one, wrapping modulo 256.
pub open spec fn dec_spec(v: u8) -> u8 {
    ((v + 255) % 256) as u8
}

/// The offset after stepping up by one, wrapping modulo 256.
pub open spec fn inc_spec(v: u8) -> u8 {
    ((v + 1) % 256) as u8
}

/// A byte-wide pointer storing the stack index into which the next stack
/// element will be inserted. It is an offset, not an address: the physical
/// stack address is always `0x0100 + offset`, and stepping it wraps modulo
/// 256 with no overflow signal.
#[derive(Debug, Clone, Copy, PartialEq, Eq, Structural)]
pub struct StackPointer(pub u8);

impl Default for StackPointer {
    fn default() -> (r: Self)
        ensures
            r.0 == STACK_RESET,
    {
        Self(STACK_RESET)
    }
}

impl StackPointer {
    /// A freshly reset pointer.
    pub fn new() -> (r: Self)
        ensures
            r.0 == STACK_RESET,
    {
        Self(STACK_RESET)
    }

    /// The raw 8-bit offset.
    pub fn value(&self) -> (r: u8)
        ensures
            r == self.0,
    {
        self.0
    }

    /// The physical address the pointer designates: `0x0100 + offset`.
    pub fn address(&self) -> (r: u16)
        ensures
            r == STACK_BEGIN_ADDR + self.0,
    {
        STACK_BEGIN_ADDR + self.0 as u16
    }

    /// Overwrite the offset.
    pub fn set(&mut self, value: u8)
        ensures
            final(self).0 == value,
    {
        self.0 = value;
    }

    /// Return the offset to its reset value.
    pub fn reset(&mut self)
        ensures
            final(self).0 == STACK_RESET,
    {
        self.0 = STACK_RESET;
    }

    /// Step the offset down by one, wrapping modulo 256.
    pub fn decrement(&mut self)
        ensures
            final(self).0 == dec_spec(old(self).0),
    {
        self.0 = self.0.wrapping_sub(1);
    }

    /// Step the offset up by one, wrapping modulo 256.
    pub fn increment(&mut self)
        ensures
            final(self).0 == inc_spec(old(self).0),
    {
        self.0 = self.0.wrapping_add(1);
    }
}

/// For every 8-bit offset, stepping the pointer down and then up is the
/// identity, and so is stepping up and then down.
pub proof fn lemma_stack_pointer_step_identity(v: u8)
    ensures
        inc_spec(dec_spec(v)) == v,
        dec_spec(inc_spec(v)) == v,
{
}

} // verus!
