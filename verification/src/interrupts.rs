//! Interrupt descriptors: where the CPU vectors to and what it costs.

use vstd::prelude::*;

verus! {

/// Address of the non-maskable interrupt vector.
pub const NMI_VECTOR_ADDR: u16 = 0xfffa;

/// Fixed cycle cost of non-maskable interrupt entry.
pub const NMI_CPU_CYCLES: u8 = 2;

/// One interrupt source: its vector location and its fixed cycle cost.
#[derive(Debug, Clone, Copy, PartialEq, Eq, Structural)]
pub struct Interrupt {
    pub vector_addr: u16,
    pub cpu_cycles: u8,
}

impl Interrupt {
    /// The non-maskable interrupt raised by the picture unit at vblank.
    pub fn nmi() -> (r: Self)
        ensures
            r.vector_addr == NMI_VECTOR_ADDR,
            r.cpu_cycles == NMI_CPU_CYCLES,
    {
        Interrupt { vector_addr: NMI_VECTOR_ADDR, cpu_cycles: NMI_CPU_CYCLES }
    }
}

} // verus!
