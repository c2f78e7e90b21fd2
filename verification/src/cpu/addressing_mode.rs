//! The ways an instruction can designate its operand.

use vstd::prelude::*;

verus! {

/// How the operand address is computed from the instruction stream and the
/// index registers.
#[derive(Debug, Clone, Copy, PartialEq, Eq, Structural)]
pub enum AddressingMode {
    Immediate,
    ZeroPage,
    ZeroPageX,
    ZeroPageY,
    Absolute,
    AbsoluteX,
    AbsoluteY,
    IndirectX,
    IndirectY,
    Implied,
    Accumulator,
    Relative,
    Indirect,
}

} // verus!
