//! The 256-entry operation-code table: pure read-only dispatch data.
//!
//! Every documented instruction and the undocumented variants the hardware
//! accepts are listed; a code with no entry is an unsupported opcode.

use crate::cpu::addressing_mode::AddressingMode;
use vstd::prelude::*;

verus! {

/// The operation an instruction performs, by mnemonic.
#[derive(Debug, Clone, Copy, PartialEq, Eq, Structural)]
pub enum Mnemonic {
    Adc, And, Asl, Bcc, Bcs, Beq, Bit, Bmi, Bne, Bpl, Brk, Bvc, Bvs, Clc,
    Cld, Cli, Clv, Cmp, Cpx, Cpy, Dec, Dex, Dey, Eor, Inc, Inx, Iny, Jmp,
    Jsr, Lda, Ldx, Ldy, Lsr, Nop, Ora, Pha, Php, Pla, Plp, Rol, Ror, Rti,
    Rts, Sbc, Sec, Sed, Sei, Sta, Stx, Sty, Tax, Tay, Tsx, Txa, Txs, Tya,
    Lax, Sax, Dcp, Isb, Slo, Rla, Sre, Rra,
}

/// One immutable table record: the operation code, its mnemonic, the total
/// instruction length in bytes, the base cycle cost, the addressing mode,
/// and whether crossing a page boundary costs one extra cycle.
#[derive(Debug, Clone, Copy, PartialEq, Eq, Structural)]
pub struct Opcode {
    pub code: u8,
    pub name: Mnemonic,
    pub bytes: u8,
    pub cycles: u8,
    pub addressing_mode: AddressingMode,
    pub needs_page_cross_check: bool,
}

impl Opcode {
    /// Assemble a table record.
    pub fn new(
        code: u8,
        name: Mnemonic,
        bytes: u8,
        cycles: u8,
        addressing_mode: AddressingMode,
        needs_page_cross_check: bool,
    ) -> (r: Self)
        ensures
            r == (Opcode { code, name, bytes, cycles, addressing_mode, needs_page_cross_check }),
    {
        Self { code, name, bytes, cycles, addressing_mode, needs_page_cross_check }
    }

    /// How far the program counter advances past the operation code itself.
    pub fn length(&self) -> (r: u8)
        requires
            self.bytes >= 1,
        ensures
            r == self.bytes - 1,
    {
        self.bytes - 1
    }
}

/// The table itself: the record a code designates, or `None` for a code the
/// hardware documentation leaves unassigned.
pub open spec fn opcode_for(code: u8) -> Option<Opcode> {
    match code {
        0x00 => Some(Opcode { code: 0x00, name: Mnemonic::Brk, bytes: 1, cycles: 7, addressing_mode: AddressingMode::Implied, needs_page_cross_check: false }),
        0x01 => Some(Opcode { code: 0x01, name: Mnemonic::Ora, bytes: 2, cycles: 6, addressing_mode: AddressingMode::IndirectX, needs_page_cross_check: false }),
        0x03 => Some(Opcode { code: 0x03, name: Mnemonic::Slo, bytes: 2, cycles: 8, addressing_mode: AddressingMode::IndirectX, needs_page_cross_check: false }),
        0x04 => Some(Opcode { code: 0x04, name: Mnemonic::Nop, bytes: 2, cycles: 3, addressing_mode: AddressingMode::ZeroPage, needs_page_cross_check: false }),
        0x05 => Some(Opcode { code: 0x05, name: Mnemonic::Ora, bytes: 2, cycles: 3, addressing_mode: AddressingMode::ZeroPage, needs_page_cross_check: false }),
        0x06 => Some(Opcode { code: 0x06, name: Mnemonic::Asl, bytes: 2, cycles: 5, addressing_mode: AddressingMode::ZeroPage, needs_page_cross_check: false }),
        0x07 => Some(Opcode { code: 0x07, name: Mnemonic::Slo, bytes: 2, cycles: 5, addressing_mode: AddressingMode::ZeroPage, needs_page_cross_check: false }),
        0x08 => Some(Opcode { code: 0x08, name: Mnemonic::Php, bytes: 1, cycles: 3, addressing_mode: AddressingMode::Implied, needs_page_cross_check: false }),
        0x09 => Some(Opcode { code: 0x09, name: Mnemonic::Ora, bytes: 2, cycles: 2, addressing_mode: AddressingMode::Immediate, needs_page_cross_check: false }),
        0x0a => Some(Opcode { code: 0x0a, name: Mnemonic::Asl, bytes: 1, cycles: 2, addressing_mode: AddressingMode::Accumulator, needs_page_cross_check: false }),
        0x0c => Some(Opcode { code: 0x0c, name: Mnemonic::Nop, bytes: 3, cycles: 4, addressing_mode: AddressingMode::Absolute, needs_page_cross_check: false }),
        0x0d => Some(Opcode { code: 0x0d, name: Mnemonic::Ora, bytes: 3, cycles: 4, addressing_mode: AddressingMode::Absolute, needs_page_cross_check: false }),
        0x0e => Some(Opcode { code: 0x0e, name: Mnemonic::Asl, bytes: 3, cycles: 6, addressing_mode: AddressingMode::Absolute, needs_page_cross_check: false }),
        0x0f => Some(Opcode { code: 0x0f, name: Mnemonic::Slo, bytes: 3, cycles: 6, addressing_mode: AddressingMode::Absolute, needs_page_cross_check: false }),
        0x10 => Some(Opcode { code: 0x10, name: Mnemonic::Bpl, bytes: 2, cycles: 2, addressing_mode: AddressingMode::Relative, needs_page_cross_check: true }),
        0x11 => Some(Opcode { code: 0x11, name: Mnemonic::Ora, bytes: 2, cycles: 5, addressing_mode: AddressingMode::IndirectY, needs_page_cross_check: true }),
        0x13 => Some(Opcode { code: 0x13, name: Mnemonic::Slo, bytes: 2, cycles: 8, addressing_mode: AddressingMode::IndirectY, needs_page_cross_check: false }),
        0x14 => Some(Opcode { code: 0x14, name: Mnemonic::Nop, bytes: 2, cycles: 4, addressing_mode: AddressingMode::ZeroPageX, needs_page_cross_check: false }),
        0x15 => Some(Opcode { code: 0x15, name: Mnemonic::Ora, bytes: 2, cycles: 4, addressing_mode: AddressingMode::ZeroPageX, needs_page_cross_check: false }),
        0x16 => Some(Opcode { code: 0x16, name: Mnemonic::Asl, bytes: 2, cycles: 6, addressing_mode: AddressingMode::ZeroPageX, needs_page_cross_check: false }),
        0x17 => Some(Opcode { code: 0x17, name: Mnemonic::Slo, bytes: 2, cycles: 6, addressing_mode: AddressingMode::ZeroPageX, needs_page_cross_check: false }),
        0x18 => Some(Opcode { code: 0x18, name: Mnemonic::Clc, bytes: 1, cycles: 2, addressing_mode: AddressingMode::Implied, needs_page_cross_check: false }),
        0x19 => Some(Opcode { code: 0x19, name: Mnemonic::Ora, bytes: 3, cycles: 4, addressing_mode: AddressingMode::AbsoluteY, needs_page_cross_check: true }),
        0x1a => Some(Opcode { code: 0x1a, name: Mnemonic::Nop, bytes: 1, cycles: 2, addressing_mode: AddressingMode::Implied, needs_page_cross_check: false }),
        0x1b => Some(Opcode { code: 0x1b, name: Mnemonic::Slo, bytes: 3, cycles: 7, addressing_mode: AddressingMode::AbsoluteY, needs_page_cross_check: false }),
        0x1c => Some(Opcode { code: 0x1c, name: Mnemonic::Nop, bytes: 3, cycles: 4, addressing_mode: AddressingMode::AbsoluteX, needs_page_cross_check: true }),
        0x1d => Some(Opcode { code: 0x1d, name: Mnemonic::Ora, bytes: 3, cycles: 4, addressing_mode: AddressingMode::AbsoluteX, needs_page_cross_check: true }),
        0x1e => Some(Opcode { code: 0x1e, name: Mnemonic::Asl, bytes: 3, cycles: 7, addressing_mode: AddressingMode::AbsoluteX, needs_page_cross_check: false }),
        0x1f => Some(Opcode { code: 0x1f, name: Mnemonic::Slo, bytes: 3, cycles: 7, addressing_mode: AddressingMode::AbsoluteX, needs_page_cross_check: false }),
        0x20 => Some(Opcode { code: 0x20, name: Mnemonic::Jsr, bytes: 3, cycles: 6, addressing_mode: AddressingMode::Absolute, needs_page_cross_check: false }),
        0x21 => Some(Opcode { code: 0x21, name: Mnemonic::And, bytes: 2, cycles: 6, addressing_mode: AddressingMode::IndirectX, needs_page_cross_check: false }),
        0x23 => Some(Opcode { code: 0x23, name: Mnemonic::Rla, bytes: 2, cycles: 8, addressing_mode: AddressingMode::IndirectX, needs_page_cross_check: false }),
        0x24 => Some(Opcode { code: 0x24, name: Mnemonic::Bit, bytes: 2, cycles: 3, addressing_mode: AddressingMode::ZeroPage, needs_page_cross_check: false }),
        0x25 => Some(Opcode { code: 0x25, name: Mnemonic::And, bytes: 2, cycles: 3, addressing_mode: AddressingMode::ZeroPage, needs_page_cross_check: false }),
        0x26 => Some(Opcode { code: 0x26, name: Mnemonic::Rol, bytes: 2, cycles: 5, addressing_mode: AddressingMode::ZeroPage, needs_page_cross_check: false }),
        0x27 => Some(Opcode { code: 0x27, name: Mnemonic::Rla, bytes: 2, cycles: 5, addressing_mode: AddressingMode::ZeroPage, needs_page_cross_check: false }),
        0x28 => Some(Opcode { code: 0x28, name: Mnemonic::Plp, bytes: 1, cycles: 4, addressing_mode: AddressingMode::Implied, needs_page_cross_check: false }),
        0x29 => Some(Opcode { code: 0x29, name: Mnemonic::And, bytes: 2, cycles: 2, addressing_mode: AddressingMode::Immediate, needs_page_cross_check: false }),
        0x2a => Some(Opcode { code: 0x2a, name: Mnemonic::Rol, bytes: 1, cycles: 2, addressing_mode: AddressingMode::Accumulator, needs_page_cross_check: false }),
        0x2c => Some(Opcode { code: 0x2c, name: Mnemonic::Bit, bytes: 3, cycles: 4, addressing_mode: AddressingMode::Absolute, needs_page_cross_check: false }),
        0x2d => Some(Opcode { code: 0x2d, name: Mnemonic::And, bytes: 3, cycles: 4, addressing_mode: AddressingMode::Absolute, needs_page_cross_check: false }),
        0x2e => Some(Opcode { code: 0x2e, name: Mnemonic::Rol, bytes: 3, cycles: 6, addressing_mode: AddressingMode::Absolute, needs_page_cross_check: false }),
        0x2f => Some(Opcode { code: 0x2f, name: Mnemonic::Rla, bytes: 3, cycles: 6, addressing_mode: AddressingMode::Absolute, needs_page_cross_check: false }),
        0x30 => Some(Opcode { code: 0x30, name: Mnemonic::Bmi, bytes: 2, cycles: 2, addressing_mode: AddressingMode::Relative, needs_page_cross_check: true }),
        0x31 => Some(Opcode { code: 0x31, name: Mnemonic::And, bytes: 2, cycles: 5, addressing_mode: AddressingMode::IndirectY, needs_page_cross_check: true }),
        0x33 => Some(Opcode { code: 0x33, name: Mnemonic::Rla, bytes: 2, cycles: 8, addressing_mode: AddressingMode::IndirectY, needs_page_cross_check: false }),
        0x34 => Some(Opcode { code: 0x34, name: Mnemonic::Nop, bytes: 2, cycles: 4, addressing_mode: AddressingMode::ZeroPageX, needs_page_cross_check: false }),
        0x35 => Some(Opcode { code: 0x35, name: Mnemonic::And, bytes: 2, cycles: 4, addressing_mode: AddressingMode::ZeroPageX, needs_page_cross_check: false }),
        0x36 => Some(Opcode { code: 0x36, name: Mnemonic::Rol, bytes: 2, cycles: 6, addressing_mode: AddressingMode::ZeroPageX, needs_page_cross_check: false }),
        0x37 => Some(Opcode { code: 0x37, name: Mnemonic::Rla, bytes: 2, cycles: 6, addressing_mode: AddressingMode::ZeroPageX, needs_page_cross_check: false }),
        0x38 => Some(Opcode { code: 0x38, name: Mnemonic::Sec, bytes: 1, cycles: 2, addressing_mode: AddressingMode::Implied, needs_page_cross_check: false }),
        0x39 => Some(Opcode { code: 0x39, name: Mnemonic::And, bytes: 3, cycles: 4, addressing_mode: AddressingMode::AbsoluteY, needs_page_cross_check: true }),
        0x3a => Some(Opcode { code: 0x3a, name: Mnemonic::Nop, bytes: 1, cycles: 2, addressing_mode: AddressingMode::Implied, needs_page_cross_check: false }),
        0x3b => Some(Opcode { code: 0x3b, name: Mnemonic::Rla, bytes: 3, cycles: 7, addressing_mode: AddressingMode::AbsoluteY, needs_page_cross_check: false }),
        0x3c => Some(Opcode { code: 0x3c, name: Mnemonic::Nop, bytes: 3, cycles: 4, addressing_mode: AddressingMode::AbsoluteX, needs_page_cross_check: true }),
        0x3d => Some(Opcode { code: 0x3d, name: Mnemonic::And, bytes: 3, cycles: 4, addressing_mode: AddressingMode::AbsoluteX, needs_page_cross_check: true }),
        0x3e => Some(Opcode { code: 0x3e, name: Mnemonic::Rol, bytes: 3, cycles: 7, addressing_mode: AddressingMode::AbsoluteX, needs_page_cross_check: false }),
        0x3f => Some(Opcode { code: 0x3f, name: Mnemonic::Rla, bytes: 3, cycles: 7, addressing_mode: AddressingMode::AbsoluteX, needs_page_cross_check: false }),
        0x40 => Some(Opcode { code: 0x40, name: Mnemonic::Rti, bytes: 3, cycles: 6, addressing_mode: AddressingMode::Implied, needs_page_cross_check: false }),
        0x41 => Some(Opcode { code: 0x41, name: Mnemonic::Eor, bytes: 2, cycles: 6, addressing_mode: AddressingMode::IndirectX, needs_page_cross_check: false }),
        0x43 => Some(Opcode { code: 0x43, name: Mnemonic::Sre, bytes: 2, cycles: 8, addressing_mode: AddressingMode::IndirectX, needs_page_cross_check: false }),
        0x44 => Some(Opcode { code: 0x44, name: Mnemonic::Nop, bytes: 2, cycles: 3, addressing_mode: AddressingMode::ZeroPage, needs_page_cross_check: false }),
        0x45 => Some(Opcode { code: 0x45, name: Mnemonic::Eor, bytes: 2, cycles: 3, addressing_mode: AddressingMode::ZeroPage, needs_page_cross_check: false }),
        0x46 => Some(Opcode { code: 0x46, name: Mnemonic::Lsr, bytes: 2, cycles: 5, addressing_mode: AddressingMode::ZeroPage, needs_page_cross_check: false }),
        0x47 => Some(Opcode { code: 0x47, name: Mnemonic::Sre, bytes: 2, cycles: 5, addressing_mode: AddressingMode::ZeroPage, needs_page_cross_check: false }),
        0x48 => Some(Opcode { code: 0x48, name: Mnemonic::Pha, bytes: 1, cycles: 3, addressing_mode: AddressingMode::Implied, needs_page_cross_check: false }),
        0x49 => Some(Opcode { code: 0x49, name: Mnemonic::Eor, bytes: 2, cycles: 2, addressing_mode: AddressingMode::Immediate, needs_page_cross_check: false }),
        0x4a => Some(Opcode { code: 0x4a, name: Mnemonic::Lsr, bytes: 1, cycles: 2, addressing_mode: AddressingMode::Accumulator, needs_page_cross_check: false }),
        0x4c => Some(Opcode { code: 0x4c, name: Mnemonic::Jmp, bytes: 3, cycles: 3, addressing_mode: AddressingMode::Absolute, needs_page_cross_check: false }),
        0x4d => Some(Opcode { code: 0x4d, name: Mnemonic::Eor, bytes: 3, cycles: 4, addressing_mode: AddressingMode::Absolute, needs_page_cross_check: false }),
        0x4e => Some(Opcode { code: 0x4e, name: Mnemonic::Lsr, bytes: 3, cycles: 6, addressing_mode: AddressingMode::Absolute, needs_page_cross_check: false }),
        0x4f => Some(Opcode { code: 0x4f, name: Mnemonic::Sre, bytes: 3, cycles: 6, addressing_mode: AddressingMode::Absolute, needs_page_cross_check: false }),
        0x50 => Some(Opcode { code: 0x50, name: Mnemonic::Bvc, bytes: 2, cycles: 2, addressing_mode: AddressingMode::Relative, needs_page_cross_check: true }),
        0x51 => Some(Opcode { code: 0x51, name: Mnemonic::Eor, bytes: 2, cycles: 5, addressing_mode: AddressingMode::IndirectY, needs_page_cross_check: true }),
        0x53 => Some(Opcode { code: 0x53, name: Mnemonic::Sre, bytes: 2, cycles: 8, addressing_mode: AddressingMode::IndirectY, needs_page_cross_check: false }),
        0x54 => Some(Opcode { code: 0x54, name: Mnemonic::Nop, bytes: 2, cycles: 4, addressing_mode: AddressingMode::ZeroPageX, needs_page_cross_check: false }),
        0x55 => Some(Opcode { code: 0x55, name: Mnemonic::Eor, bytes: 2, cycles: 4, addressing_mode: AddressingMode::ZeroPageX, needs_page_cross_check: false }),
        0x56 => Some(Opcode { code: 0x56, name: Mnemonic::Lsr, bytes: 2, cycles: 6, addressing_mode: AddressingMode::ZeroPageX, needs_page_cross_check: false }),
        0x57 => Some(Opcode { code: 0x57, name: Mnemonic::Sre, bytes: 2, cycles: 6, addressing_mode: AddressingMode::ZeroPageX, needs_page_cross_check: false }),
        0x58 => Some(Opcode { code: 0x58, name: Mnemonic::Cli, bytes: 1, cycles: 2, addressing_mode: AddressingMode::Implied, needs_page_cross_check: false }),
        0x59 => Some(Opcode { code: 0x59, name: Mnemonic::Eor, bytes: 3, cycles: 4, addressing_mode: AddressingMode::AbsoluteY, needs_page_cross_check: true }),
        0x5a => Some(Opcode { code: 0x5a, name: Mnemonic::Nop, bytes: 1, cycles: 2, addressing_mode: AddressingMode::Implied, needs_page_cross_check: false }),
        0x5b => Some(Opcode { code: 0x5b, name: Mnemonic::Sre, bytes: 3, cycles: 7, addressing_mode: AddressingMode::AbsoluteY, needs_page_cross_check: false }),
        0x5c => Some(Opcode { code: 0x5c, name: Mnemonic::Nop, bytes: 3, cycles: 4, addressing_mode: AddressingMode::AbsoluteX, needs_page_cross_check: true }),
        0x5d => Some(Opcode { code: 0x5d, name: Mnemonic::Eor, bytes: 3, cycles: 4, addressing_mode: AddressingMode::AbsoluteX, needs_page_cross_check: true }),
        0x5e => Some(Opcode { code: 0x5e, name: Mnemonic::Lsr, bytes: 3, cycles: 7, addressing_mode: AddressingMode::AbsoluteX, needs_page_cross_check: false }),
        0x5f => Some(Opcode { code: 0x5f, name: Mnemonic::Sre, bytes: 3, cycles: 7, addressing_mode: AddressingMode::AbsoluteX, needs_page_cross_check: false }),
        0x60 => Some(Opcode { code: 0x60, name: Mnemonic::Rts, bytes: 3, cycles: 6, addressing_mode: AddressingMode::Implied, needs_page_cross_check: false }),
        0x61 => Some(Opcode { code: 0x61, name: Mnemonic::Adc, bytes: 2, cycles: 6, addressing_mode: AddressingMode::IndirectX, needs_page_cross_check: false }),
        0x63 => Some(Opcode { code: 0x63, name: Mnemonic::Rra, bytes: 2, cycles: 8, addressing_mode: AddressingMode::IndirectX, needs_page_cross_check: false }),
        0x64 => Some(Opcode { code: 0x64, name: Mnemonic::Nop, bytes: 2, cycles: 3, addressing_mode: AddressingMode::ZeroPage, needs_page_cross_check: false }),
        0x65 => Some(Opcode { code: 0x65, name: Mnemonic::Adc, bytes: 2, cycles: 3, addressing_mode: AddressingMode::ZeroPage, needs_page_cross_check: false }),
        0x66 => Some(Opcode { code: 0x66, name: Mnemonic::Ror, bytes: 2, cycles: 5, addressing_mode: AddressingMode::ZeroPage, needs_page_cross_check: false }),
        0x67 => Some(Opcode { code: 0x67, name: Mnemonic::Rra, bytes: 2, cycles: 5, addressing_mode: AddressingMode::ZeroPage, needs_page_cross_check: false }),
        0x68 => Some(Opcode { code: 0x68, name: Mnemonic::Pla, bytes: 1, cycles: 4, addressing_mode: AddressingMode::Implied, needs_page_cross_check: false }),
        0x69 => Some(Opcode { code: 0x69, name: Mnemonic::Adc, bytes: 2, cycles: 2, addressing_mode: AddressingMode::Immediate, needs_page_cross_check: false }),
        0x6a => Some(Opcode { code: 0x6a, name: Mnemonic::Ror, bytes: 1, cycles: 2, addressing_mode: AddressingMode::Accumulator, needs_page_cross_check: false }),
        0x6c => Some(Opcode { code: 0x6c, name: Mnemonic::Jmp, bytes: 3, cycles: 5, addressing_mode: AddressingMode::Indirect, needs_page_cross_check: false }),
        0x6d => Some(Opcode { code: 0x6d, name: Mnemonic::Adc, bytes: 3, cycles: 4, addressing_mode: AddressingMode::Absolute, needs_page_cross_check: false }),
        0x6e => Some(Opcode { code: 0x6e, name: Mnemonic::Ror, bytes: 3, cycles: 6, addressing_mode: AddressingMode::Absolute, needs_page_cross_check: false }),
        0x6f => Some(Opcode { code: 0x6f, name: Mnemonic::Rra, bytes: 3, cycles: 6, addressing_mode: AddressingMode::Absolute, needs_page_cross_check: false }),
        0x70 => Some(Opcode { code: 0x70, name: Mnemonic::Bvs, bytes: 2, cycles: 2, addressing_mode: AddressingMode::Relative, needs_page_cross_check: true }),
        0x71 => Some(Opcode { code: 0x71, name: Mnemonic::Adc, bytes: 2, cycles: 5, addressing_mode: AddressingMode::IndirectY, needs_page_cross_check: true }),
        0x73 => Some(Opcode { code: 0x73, name: Mnemonic::Rra, bytes: 2, cycles: 8, addressing_mode: AddressingMode::IndirectY, needs_page_cross_check: false }),
        0x74 => Some(Opcode { code: 0x74, name: Mnemonic::Nop, bytes: 2, cycles: 4, addressing_mode: AddressingMode::ZeroPageX, needs_page_cross_check: false }),
        0x75 => Some(Opcode { code: 0x75, name: Mnemonic::Adc, bytes: 2, cycles: 4, addressing_mode: AddressingMode::ZeroPageX, needs_page_cross_check: false }),
        0x76 => Some(Opcode { code: 0x76, name: Mnemonic::Ror, bytes: 2, cycles: 6, addressing_mode: AddressingMode::ZeroPageX, needs_page_cross_check: false }),
        0x77 => Some(Opcode { code: 0x77, name: Mnemonic::Rra, bytes: 2, cycles: 6, addressing_mode: AddressingMode::ZeroPageX, needs_page_cross_check: false }),
        0x78 => Some(Opcode { code: 0x78, name: Mnemonic::Sei, bytes: 1, cycles: 2, addressing_mode: AddressingMode::Implied, needs_page_cross_check: false }),
        0x79 => Some(Opcode { code: 0x79, name: Mnemonic::Adc, bytes: 3, cycles: 4, addressing_mode: AddressingMode::AbsoluteY, needs_page_cross_check: true }),
        0x7a => Some(Opcode { code: 0x7a, name: Mnemonic::Nop, bytes: 1, cycles: 2, addressing_mode: AddressingMode::Implied, needs_page_cross_check: false }),
        0x7b => Some(Opcode { code: 0x7b, name: Mnemonic::Rra, bytes: 3, cycles: 7, addressing_mode: AddressingMode::AbsoluteY, needs_page_cross_check: false }),
        0x7c => Some(Opcode { code: 0x7c, name: Mnemonic::Nop, bytes: 3, cycles: 4, addressing_mode: AddressingMode::AbsoluteX, needs_page_cross_check: true }),
        0x7d => Some(Opcode { code: 0x7d, name: Mnemonic::Adc, bytes: 3, cycles: 4, addressing_mode: AddressingMode::AbsoluteX, needs_page_cross_check: true }),
        0x7e => Some(Opcode { code: 0x7e, name: Mnemonic::Ror, bytes: 3, cycles: 7, addressing_mode: AddressingMode::AbsoluteX, needs_page_cross_check: false }),
        0x7f => Some(Opcode { code: 0x7f, name: Mnemonic::Rra, bytes: 3, cycles: 7, addressing_mode: AddressingMode::AbsoluteX, needs_page_cross_check: false }),
        0x80 => Some(Opcode { code: 0x80, name: Mnemonic::Nop, bytes: 2, cycles: 2, addressing_mode: AddressingMode::Immediate, needs_page_cross_check: false }),
        0x81 => Some(Opcode { code: 0x81, name: Mnemonic::Sta, bytes: 2, cycles: 6, addressing_mode: AddressingMode::IndirectX, needs_page_cross_check: false }),
        0x82 => Some(Opcode { code: 0x82, name: Mnemonic::Nop, bytes: 2, cycles: 2, addressing_mode: AddressingMode::Immediate, needs_page_cross_check: false }),
        0x83 => Some(Opcode { code: 0x83, name: Mnemonic::Sax, bytes: 2, cycles: 6, addressing_mode: AddressingMode::IndirectX, needs_page_cross_check: false }),
        0x84 => Some(Opcode { code: 0x84, name: Mnemonic::Sty, bytes: 2, cycles: 3, addressing_mode: AddressingMode::ZeroPage, needs_page_cross_check: false }),
        0x85 => Some(Opcode { code: 0x85, name: Mnemonic::Sta, bytes: 2, cycles: 3, addressing_mode: AddressingMode::ZeroPage, needs_page_cross_check: false }),
        0x86 => Some(Opcode { code: 0x86, name: Mnemonic::Stx, bytes: 2, cycles: 3, addressing_mode: AddressingMode::ZeroPage, needs_page_cross_check: false }),
        0x87 => Some(Opcode { code: 0x87, name: Mnemonic::Sax, bytes: 2, cycles: 3, addressing_mode: AddressingMode::ZeroPage, needs_page_cross_check: false }),
        0x88 => Some(Opcode { code: 0x88, name: Mnemonic::Dey, bytes: 1, cycles: 2, addressing_mode: AddressingMode::Implied, needs_page_cross_check: false }),
        0x89 => Some(Opcode { code: 0x89, name: Mnemonic::Nop, bytes: 2, cycles: 2, addressing_mode: AddressingMode::Immediate, needs_page_cross_check: false }),
        0x8a => Some(Opcode { code: 0x8a, name: Mnemonic::Txa, bytes: 1, cycles: 2, addressing_mode: AddressingMode::Implied, needs_page_cross_check: false }),
        0x8c => Some(Opcode { code: 0x8c, name: Mnemonic::Sty, bytes: 3, cycles: 4, addressing_mode: AddressingMode::Absolute, needs_page_cross_check: false }),
        0x8d => Some(Opcode { code: 0x8d, name: Mnemonic::Sta, bytes: 3, cycles: 4, addressing_mode: AddressingMode::Absolute, needs_page_cross_check: false }),
        0x8e => Some(Opcode { code: 0x8e, name: Mnemonic::Stx, bytes: 3, cycles: 4, addressing_mode: AddressingMode::Absolute, needs_page_cross_check: false }),
        0x8f => Some(Opcode { code: 0x8f, name: Mnemonic::Sax, bytes: 3, cycles: 4, addressing_mode: AddressingMode::Absolute, needs_page_cross_check: false }),
        0x90 => Some(Opcode { code: 0x90, name: Mnemonic::Bcc, bytes: 2, cycles: 2, addressing_mode: AddressingMode::Relative, needs_page_cross_check: true }),
        0x91 => Some(Opcode { code: 0x91, name: Mnemonic::Sta, bytes: 2, cycles: 6, addressing_mode: AddressingMode::IndirectY, needs_page_cross_check: false }),
        0x94 => Some(Opcode { code: 0x94, name: Mnemonic::Sty, bytes: 2, cycles: 4, addressing_mode: AddressingMode::ZeroPageX, needs_page_cross_check: false }),
        0x95 => Some(Opcode { code: 0x95, name: Mnemonic::Sta, bytes: 2, cycles: 4, addressing_mode: AddressingMode::ZeroPageX, needs_page_cross_check: false }),
        0x96 => Some(Opcode { code: 0x96, name: Mnemonic::Stx, bytes: 2, cycles: 4, addressing_mode: AddressingMode::ZeroPageY, needs_page_cross_check: false }),
        0x97 => Some(Opcode { code: 0x97, name: Mnemonic::Sax, bytes: 2, cycles: 4, addressing_mode: AddressingMode::ZeroPageY, needs_page_cross_check: false }),
        0x98 => Some(Opcode { code: 0x98, name: Mnemonic::Tya, bytes: 1, cycles: 2, addressing_mode: AddressingMode::Implied, needs_page_cross_check: false }),
        0x99 => Some(Opcode { code: 0x99, name: Mnemonic::Sta, bytes: 3, cycles: 5, addressing_mode: AddressingMode::AbsoluteY, needs_page_cross_check: false }),
        0x9a => Some(Opcode { code: 0x9a, name: Mnemonic::Txs, bytes: 1, cycles: 2, addressing_mode: AddressingMode::Implied, needs_page_cross_check: false }),
        0x9d => Some(Opcode { code: 0x9d, name: Mnemonic::Sta, bytes: 3, cycles: 5, addressing_mode: AddressingMode::AbsoluteX, needs_page_cross_check: false }),
        0xa0 => Some(Opcode { code: 0xa0, name: Mnemonic::Ldy, bytes: 2, cycles: 2, addressing_mode: AddressingMode::Immediate, needs_page_cross_check: false }),
        0xa1 => Some(Opcode { code: 0xa1, name: Mnemonic::Lda, bytes: 2, cycles: 6, addressing_mode: AddressingMode::IndirectX, needs_page_cross_check: false }),
        0xa2 => Some(Opcode { code: 0xa2, name: Mnemonic::Ldx, bytes: 2, cycles: 2, addressing_mode: AddressingMode::Immediate, needs_page_cross_check: false }),
        0xa3 => Some(Opcode { code: 0xa3, name: Mnemonic::Lax, bytes: 2, cycles: 6, addressing_mode: AddressingMode::IndirectX, needs_page_cross_check: false }),
        0xa4 => Some(Opcode { code: 0xa4, name: Mnemonic::Ldy, bytes: 2, cycles: 3, addressing_mode: AddressingMode::ZeroPage, needs_page_cross_check: false }),
        0xa5 => Some(Opcode { code: 0xa5, name: Mnemonic::Lda, bytes: 2, cycles: 3, addressing_mode: AddressingMode::ZeroPage, needs_page_cross_check: false }),
        0xa6 => Some(Opcode { code: 0xa6, name: Mnemonic::Ldx, bytes: 2, cycles: 3, addressing_mode: AddressingMode::ZeroPage, needs_page_cross_check: false }),
        0xa7 => Some(Opcode { code: 0xa7, name: Mnemonic::Lax, bytes: 2, cycles: 3, addressing_mode: AddressingMode::ZeroPage, needs_page_cross_check: false }),
        0xa8 => Some(Opcode { code: 0xa8, name: Mnemonic::Tay, bytes: 1, cycles: 2, addressing_mode: AddressingMode::Implied, needs_page_cross_check: false }),
        0xa9 => Some(Opcode { code: 0xa9, name: Mnemonic::Lda, bytes: 2, cycles: 2, addressing_mode: AddressingMode::Immediate, needs_page_cross_check: false }),
        0xaa => Some(Opcode { code: 0xaa, name: Mnemonic::Tax, bytes: 1, cycles: 2, addressing_mode: AddressingMode::Implied, needs_page_cross_check: false }),
        0xab => Some(Opcode { code: 0xab, name: Mnemonic::Lax, bytes: 2, cycles: 2, addressing_mode: AddressingMode::Immediate, needs_page_cross_check: false }),
        0xac => Some(Opcode { code: 0xac, name: Mnemonic::Ldy, bytes: 3, cycles: 4, addressing_mode: AddressingMode::Absolute, needs_page_cross_check: false }),
        0xad => Some(Opcode { code: 0xad, name: Mnemonic::Lda, bytes: 3, cycles: 4, addressing_mode: AddressingMode::Absolute, needs_page_cross_check: false }),
        0xae => Some(Opcode { code: 0xae, name: Mnemonic::Ldx, bytes: 3, cycles: 4, addressing_mode: AddressingMode::Absolute, needs_page_cross_check: false }),
        0xaf => Some(Opcode { code: 0xaf, name: Mnemonic::Lax, bytes: 3, cycles: 4, addressing_mode: AddressingMode::Absolute, needs_page_cross_check: false }),
        0xb0 => Some(Opcode { code: 0xb0, name: Mnemonic::Bcs, bytes: 2, cycles: 2, addressing_mode: AddressingMode::Relative, needs_page_cross_check: true }),
        0xb1 => Some(Opcode { code: 0xb1, name: Mnemonic::Lda, bytes: 2, cycles: 5, addressing_mode: AddressingMode::IndirectY, needs_page_cross_check: true }),
        0xb3 => Some(Opcode { code: 0xb3, name: Mnemonic::Lax, bytes: 2, cycles: 5, addressing_mode: AddressingMode::IndirectY, needs_page_cross_check: true }),
        0xb4 => Some(Opcode { code: 0xb4, name: Mnemonic::Ldy, bytes: 2, cycles: 4, addressing_mode: AddressingMode::ZeroPageX, needs_page_cross_check: false }),
        0xb5 => Some(Opcode { code: 0xb5, name: Mnemonic::Lda, bytes: 2, cycles: 4, addressing_mode: AddressingMode::ZeroPageX, needs_page_cross_check: false }),
        0xb6 => Some(Opcode { code: 0xb6, name: Mnemonic::Ldx, bytes: 2, cycles: 3, addressing_mode: AddressingMode::ZeroPageY, needs_page_cross_check: false }),
        0xb7 => Some(Opcode { code: 0xb7, name: Mnemonic::Lax, bytes: 2, cycles: 4, addressing_mode: AddressingMode::ZeroPageY, needs_page_cross_check: false }),
        0xb8 => Some(Opcode { code: 0xb8, name: Mnemonic::Clv, bytes: 1, cycles: 2, addressing_mode: AddressingMode::Implied, needs_page_cross_check: false }),
        0xb9 => Some(Opcode { code: 0xb9, name: Mnemonic::Lda, bytes: 3, cycles: 4, addressing_mode: AddressingMode::AbsoluteY, needs_page_cross_check: true }),
        0xba => Some(Opcode { code: 0xba, name: Mnemonic::Tsx, bytes: 1, cycles: 2, addressing_mode: AddressingMode::Implied, needs_page_cross_check: false }),
        0xbc => Some(Opcode { code: 0xbc, name: Mnemonic::Ldy, bytes: 3, cycles: 4, addressing_mode: AddressingMode::AbsoluteX, needs_page_cross_check: true }),
        0xbd => Some(Opcode { code: 0xbd, name: Mnemonic::Lda, bytes: 3, cycles: 4, addressing_mode: AddressingMode::AbsoluteX, needs_page_cross_check: true }),
        0xbe => Some(Opcode { code: 0xbe, name: Mnemonic::Ldx, bytes: 3, cycles: 4, addressing_mode: AddressingMode::AbsoluteY, needs_page_cross_check: true }),
        0xbf => Some(Opcode { code: 0xbf, name: Mnemonic::Lax, bytes: 3, cycles: 4, addressing_mode: AddressingMode::AbsoluteY, needs_page_cross_check: true }),
        0xc0 => Some(Opcode { code: 0xc0, name: Mnemonic::Cpy, bytes: 2, cycles: 2, addressing_mode: AddressingMode::Immediate, needs_page_cross_check: false }),
        0xc1 => Some(Opcode { code: 0xc1, name: Mnemonic::Cmp, bytes: 2, cycles: 6, addressing_mode: AddressingMode::IndirectX, needs_page_cross_check: false }),
        0xc2 => Some(Opcode { code: 0xc2, name: Mnemonic::Nop, bytes: 2, cycles: 2, addressing_mode: AddressingMode::Immediate, needs_page_cross_check: false }),
        0xc3 => Some(Opcode { code: 0xc3, name: Mnemonic::Dcp, bytes: 2, cycles: 8, addressing_mode: AddressingMode::IndirectX, needs_page_cross_check: false }),
        0xc4 => Some(Opcode { code: 0xc4, name: Mnemonic::Cpy, bytes: 2, cycles: 3, addressing_mode: AddressingMode::ZeroPage, needs_page_cross_check: false }),
        0xc5 => Some(Opcode { code: 0xc5, name: Mnemonic::Cmp, bytes: 2, cycles: 3, addressing_mode: AddressingMode::ZeroPage, needs_page_cross_check: false }),
        0xc6 => Some(Opcode { code: 0xc6, name: Mnemonic::Dec, bytes: 2, cycles: 5, addressing_mode: AddressingMode::ZeroPage, needs_page_cross_check: false }),
        0xc7 => Some(Opcode { code: 0xc7, name: Mnemonic::Dcp, bytes: 2, cycles: 5, addressing_mode: AddressingMode::ZeroPage, needs_page_cross_check: false }),
        0xc8 => Some(Opcode { code: 0xc8, name: Mnemonic::Iny, bytes: 1, cycles: 2, addressing_mode: AddressingMode::Implied, needs_page_cross_check: false }),
        0xc9 => Some(Opcode { code: 0xc9, name: Mnemonic::Cmp, bytes: 2, cycles: 2, addressing_mode: AddressingMode::Immediate, needs_page_cross_check: false }),
        0xca => Some(Opcode { code: 0xca, name: Mnemonic::Dex, bytes: 1, cycles: 2, addressing_mode: AddressingMode::Implied, needs_page_cross_check: false }),
        0xcc => Some(Opcode { code: 0xcc, name: Mnemonic::Cpy, bytes: 3, cycles: 4, addressing_mode: AddressingMode::Absolute, needs_page_cross_check: false }),
        0xcd => Some(Opcode { code: 0xcd, name: Mnemonic::Cmp, bytes: 3, cycles: 4, addressing_mode: AddressingMode::Absolute, needs_page_cross_check: false }),
        0xce => Some(Opcode { code: 0xce, name: Mnemonic::Dec, bytes: 3, cycles: 6, addressing_mode: AddressingMode::Absolute, needs_page_cross_check: false }),
        0xcf => Some(Opcode { code: 0xcf, name: Mnemonic::Dcp, bytes: 3, cycles: 6, addressing_mode: AddressingMode::Absolute, needs_page_cross_check: false }),
        0xd0 => Some(Opcode { code: 0xd0, name: Mnemonic::Bne, bytes: 2, cycles: 2, addressing_mode: AddressingMode::Relative, needs_page_cross_check: true }),
        0xd1 => Some(Opcode { code: 0xd1, name: Mnemonic::Cmp, bytes: 2, cycles: 5, addressing_mode: AddressingMode::IndirectY, needs_page_cross_check: true }),
        0xd3 => Some(Opcode { code: 0xd3, name: Mnemonic::Dcp, bytes: 2, cycles: 8, addressing_mode: AddressingMode::IndirectY, needs_page_cross_check: false }),
        0xd4 => Some(Opcode { code: 0xd4, name: Mnemonic::Nop, bytes: 2, cycles: 4, addressing_mode: AddressingMode::ZeroPageX, needs_page_cross_check: false }),
        0xd5 => Some(Opcode { code: 0xd5, name: Mnemonic::Cmp, bytes: 2, cycles: 4, addressing_mode: AddressingMode::ZeroPageX, needs_page_cross_check: false }),
        0xd6 => Some(Opcode { code: 0xd6, name: Mnemonic::Dec, bytes: 2, cycles: 6, addressing_mode: AddressingMode::ZeroPageX, needs_page_cross_check: false }),
        0xd7 => Some(Opcode { code: 0xd7, name: Mnemonic::Dcp, bytes: 2, cycles: 6, addressing_mode: AddressingMode::ZeroPageX, needs_page_cross_check: false }),
        0xd8 => Some(Opcode { code: 0xd8, name: Mnemonic::Cld, bytes: 1, cycles: 2, addressing_mode: AddressingMode::Implied, needs_page_cross_check: false }),
        0xd9 => Some(Opcode { code: 0xd9, name: Mnemonic::Cmp, bytes: 3, cycles: 4, addressing_mode: AddressingMode::AbsoluteY, needs_page_cross_check: true }),
        0xda => Some(Opcode { code: 0xda, name: Mnemonic::Nop, bytes: 1, cycles: 2, addressing_mode: AddressingMode::Implied, needs_page_cross_check: false }),
        0xdb => Some(Opcode { code: 0xdb, name: Mnemonic::Dcp, bytes: 3, cycles: 7, addressing_mode: AddressingMode::AbsoluteY, needs_page_cross_check: false }),
        0xdc => Some(Opcode { code: 0xdc, name: Mnemonic::Nop, bytes: 3, cycles: 4, addressing_mode: AddressingMode::AbsoluteX, needs_page_cross_check: true }),
        0xdd => Some(Opcode { code: 0xdd, name: Mnemonic::Cmp, bytes: 3, cycles: 4, addressing_mode: AddressingMode::AbsoluteX, needs_page_cross_check: true }),
        0xde => Some(Opcode { code: 0xde, name: Mnemonic::Dec, bytes: 3, cycles: 7, addressing_mode: AddressingMode::AbsoluteX, needs_page_cross_check: false }),
        0xdf => Some(Opcode { code: 0xdf, name: Mnemonic::Dcp, bytes: 3, cycles: 7, addressing_mode: AddressingMode::AbsoluteX, needs_page_cross_check: false }),
        0xe0 => Some(Opcode { code: 0xe0, name: Mnemonic::Cpx, bytes: 2, cycles: 2, addressing_mode: AddressingMode::Immediate, needs_page_cross_check: false }),
        0xe1 => Some(Opcode { code: 0xe1, name: Mnemonic::Sbc, bytes: 2, cycles: 6, addressing_mode: AddressingMode::IndirectX, needs_page_cross_check: false }),
        0xe2 => Some(Opcode { code: 0xe2, name: Mnemonic::Nop, bytes: 2, cycles: 2, addressing_mode: AddressingMode::Immediate, needs_page_cross_check: false }),
        0xe3 => Some(Opcode { code: 0xe3, name: Mnemonic::Isb, bytes: 2, cycles: 8, addressing_mode: AddressingMode::IndirectX, needs_page_cross_check: false }),
        0xe4 => Some(Opcode { code: 0xe4, name: Mnemonic::Cpx, bytes: 2, cycles: 3, addressing_mode: AddressingMode::ZeroPage, needs_page_cross_check: false }),
        0xe5 => Some(Opcode { code: 0xe5, name: Mnemonic::Sbc, bytes: 2, cycles: 3, addressing_mode: AddressingMode::ZeroPage, needs_page_cross_check: false }),
        0xe6 => Some(Opcode { code: 0xe6, name: Mnemonic::Inc, bytes: 2, cycles: 5, addressing_mode: AddressingMode::ZeroPage, needs_page_cross_check: false }),
        0xe7 => Some(Opcode { code: 0xe7, name: Mnemonic::Isb, bytes: 2, cycles: 5, addressing_mode: AddressingMode::ZeroPage, needs_page_cross_check: false }),
        0xe8 => Some(Opcode { code: 0xe8, name: Mnemonic::Inx, bytes: 1, cycles: 2, addressing_mode: AddressingMode::Implied, needs_page_cross_check: false }),
        0xe9 => Some(Opcode { code: 0xe9, name: Mnemonic::Sbc, bytes: 2, cycles: 2, addressing_mode: AddressingMode::Immediate, needs_page_cross_check: false }),
0xea => Some(Opcode { code: 0xea, name: Mnemonic::Nop, bytes: 1, cycles: 2, addressing_mode: AddressingMode::Implied, needs_page_cross_check: false }),
        0xeb => Some(Opcode { code: 0xeb, name: Mnemonic::Sbc, bytes: 2, cycles: 2, addressing_mode: AddressingMode::Immediate, needs_page_cross_check: false }),
        0xec => Some(Opcode { code: 0xec, name: Mnemonic::Cpx, bytes: 3, cycles: 4, addressing_mode: AddressingMode::Absolute, needs_page_cross_check: false }),
        0xed => Some(Opcode { code: 0xed, name: Mnemonic::Sbc, bytes: 3, cycles: 4, addressing_mode: AddressingMode::Absolute, needs_page_cross_check: false }),
        0xee => Some(Opcode { code: 0xee, name: Mnemonic::Inc, bytes: 3, cycles: 6, addressing_mode: AddressingMode::Absolute, needs_page_cross_check: false }),
        0xef => Some(Opcode { code: 0xef, name: Mnemonic::Isb, bytes: 3, cycles: 6, addressing_mode: AddressingMode::Absolute, needs_page_cross_check: false }),
        0xf0 => Some(Opcode { code: 0xf0, name: Mnemonic::Beq, bytes: 2, cycles: 2, addressing_mode: AddressingMode::Relative, needs_page_cross_check: true }),
        0xf1 => Some(Opcode { code: 0xf1, name: Mnemonic::Sbc, bytes: 2, cycles: 5, addressing_mode: AddressingMode::IndirectY, needs_page_cross_check: true }),
        0xf3 => Some(Opcode { code: 0xf3, name: Mnemonic::Isb, bytes: 2, cycles: 8, addressing_mode: AddressingMode::IndirectY, needs_page_cross_check: false }),
        0xf4 => Some(Opcode { code: 0xf4, name: Mnemonic::Nop, bytes: 2, cycles: 4, addressing_mode: AddressingMode::ZeroPageX, needs_page_cross_check: false }),
        0xf5 => Some(Opcode { code: 0xf5, name: Mnemonic::Sbc, bytes: 2, cycles: 4, addressing_mode: AddressingMode::ZeroPageX, needs_page_cross_check: false }),
        0xf6 => Some(Opcode { code: 0xf6, name: Mnemonic::Inc, bytes: 2, cycles: 6, addressing_mode: AddressingMode::ZeroPageX, needs_page_cross_check: false }),
        0xf7 => Some(Opcode { code: 0xf7, name: Mnemonic::Isb, bytes: 2, cycles: 6, addressing_mode: AddressingMode::ZeroPageX, needs_page_cross_check: false }),
        0xf8 => Some(Opcode { code: 0xf8, name: Mnemonic::Sed, bytes: 1, cycles: 2, addressing_mode: AddressingMode::Implied, needs_page_cross_check: false }),
        0xf9 => Some(Opcode { code: 0xf9, name: Mnemonic::Sbc, bytes: 3, cycles: 4, addressing_mode: AddressingMode::AbsoluteY, needs_page_cross_check: true }),
        0xfa => Some(Opcode { code: 0xfa, name: Mnemonic::Nop, bytes: 1, cycles: 2, addressing_mode: AddressingMode::Implied, needs_page_cross_check: false }),
        0xfb => Some(Opcode { code: 0xfb, name: Mnemonic::Isb, bytes: 3, cycles: 7, addressing_mode: AddressingMode::AbsoluteY, needs_page_cross_check: false }),
        0xfc => Some(Opcode { code: 0xfc, name: Mnemonic::Nop, bytes: 3, cycles: 4, addressing_mode: AddressingMode::AbsoluteX, needs_page_cross_check: true }),
        0xfd => Some(Opcode { code: 0xfd, name: Mnemonic::Sbc, bytes: 3, cycles: 4, addressing_mode: AddressingMode::AbsoluteX, needs_page_cross_check: true }),
        0xfe => Some(Opcode { code: 0xfe, name: Mnemonic::Inc, bytes: 3, cycles: 7, addressing_mode: AddressingMode::AbsoluteX, needs_page_cross_check: false }),
        0xff => Some(Opcode { code: 0xff, name: Mnemonic::Isb, bytes: 3, cycles: 7, addressing_mode: AddressingMode::AbsoluteX, needs_page_cross_check: false }),
        _ => None,
    }
}

/// Look an operation code up in the table.
pub fn opcode_lookup(code: u8) -> (r: Option<Opcode>)
    ensures
        r == opcode_for(code),
{
    match code {
        0x00 => Some(Opcode { code: 0x00, name: Mnemonic::Brk, bytes: 1, cycles: 7, addressing_mode: AddressingMode::Implied, needs_page_cross_check: false }),
        0x01 => Some(Opcode { code: 0x01, name: Mnemonic::Ora, bytes: 2, cycles: 6, addressing_mode: AddressingMode::IndirectX, needs_page_cross_check: false }),
        0x03 => Some(Opcode { code: 0x03, name: Mnemonic::Slo, bytes: 2, cycles: 8, addressing_mode: AddressingMode::IndirectX, needs_page_cross_check: false }),
        0x04 => Some(Opcode { code: 0x04, name: Mnemonic::Nop, bytes: 2, cycles: 3, addressing_mode: AddressingMode::ZeroPage, needs_page_cross_check: false }),
        0x05 => Some(Opcode { code: 0x05, name: Mnemonic::Ora, bytes: 2, cycles: 3, addressing_mode: AddressingMode::ZeroPage, needs_page_cross_check: false }),
        0x06 => Some(Opcode { code: 0x06, name: Mnemonic::Asl, bytes: 2, cycles: 5, addressing_mode: AddressingMode::ZeroPage, needs_page_cross_check: false }),
        0x07 => Some(Opcode { code: 0x07, name: Mnemonic::Slo, bytes: 2, cycles: 5, addressing_mode: AddressingMode::ZeroPage, needs_page_cross_check: false }),
        0x08 => Some(Opcode { code: 0x08, name: Mnemonic::Php, bytes: 1, cycles: 3, addressing_mode: AddressingMode::Implied, needs_page_cross_check: false }),
        0x09 => Some(Opcode { code: 0x09, name: Mnemonic::Ora, bytes: 2, cycles: 2, addressing_mode: AddressingMode::Immediate, needs_page_cross_check: false }),
        0x0a => Some(Opcode { code: 0x0a, name: Mnemonic::Asl, bytes: 1, cycles: 2, addressing_mode: AddressingMode::Accumulator, needs_page_cross_check: false }),
        0x0c => Some(Opcode { code: 0x0c, name: Mnemonic::Nop, bytes: 3, cycles: 4, addressing_mode: AddressingMode::Absolute, needs_page_cross_check: false }),
        0x0d => Some(Opcode { code: 0x0d, name: Mnemonic::Ora, bytes: 3, cycles: 4, addressing_mode: AddressingMode::Absolute, needs_page_cross_check: false }),
        0x0e => Some(Opcode { code: 0x0e, name: Mnemonic::Asl, bytes: 3, cycles: 6, addressing_mode: AddressingMode::Absolute, needs_page_cross_check: false }),
        0x0f => Some(Opcode { code: 0x0f, name: Mnemonic::Slo, bytes: 3, cycles: 6, addressing_mode: AddressingMode::Absolute, needs_page_cross_check: false }),
        0x10 => Some(Opcode { code: 0x10, name: Mnemonic::Bpl, bytes: 2, cycles: 2, addressing_mode: AddressingMode::Relative, needs_page_cross_check: true }),
        0x11 => Some(Opcode { code: 0x11, name: Mnemonic::Ora, bytes: 2, cycles: 5, addressing_mode: AddressingMode::IndirectY, needs_page_cross_check: true }),
        0x13 => Some(Opcode { code: 0x13, name: Mnemonic::Slo, bytes: 2, cycles: 8, addressing_mode: AddressingMode::IndirectY, needs_page_cross_check: false }),
        0x14 => Some(Opcode { code: 0x14, name: Mnemonic::Nop, bytes: 2, cycles: 4, addressing_mode: AddressingMode::ZeroPageX, needs_page_cross_check: false }),
        0x15 => Some(Opcode { code: 0x15, name: Mnemonic::Ora, bytes: 2, cycles: 4, addressing_mode: AddressingMode::ZeroPageX, needs_page_cross_check: false }),
        0x16 => Some(Opcode { code: 0x16, name: Mnemonic::Asl, bytes: 2, cycles: 6, addressing_mode: AddressingMode::ZeroPageX, needs_page_cross_check: false }),
        0x17 => Some(Opcode { code: 0x17, name: Mnemonic::Slo, bytes: 2, cycles: 6, addressing_mode: AddressingMode::ZeroPageX, needs_page_cross_check: false }),
        0x18 => Some(Opcode { code: 0x18, name: Mnemonic::Clc, bytes: 1, cycles: 2, addressing_mode: AddressingMode::Implied, needs_page_cross_check: false }),
        0x19 => Some(Opcode { code: 0x19, name: Mnemonic::Ora, bytes: 3, cycles: 4, addressing_mode: AddressingMode::AbsoluteY, needs_page_cross_check: true }),
        0x1a => Some(Opcode { code: 0x1a, name: Mnemonic::Nop, bytes: 1, cycles: 2, addressing_mode: AddressingMode::Implied, needs_page_cross_check: false }),
        0x1b => Some(Opcode { code: 0x1b, name: Mnemonic::Slo, bytes: 3, cycles: 7, addressing_mode: AddressingMode::AbsoluteY, needs_page_cross_check: false }),
        0x1c => Some(Opcode { code: 0x1c, name: Mnemonic::Nop, bytes: 3, cycles: 4, addressing_mode: AddressingMode::AbsoluteX, needs_page_cross_check: true }),
        0x1d => Some(Opcode { code: 0x1d, name: Mnemonic::Ora, bytes: 3, cycles: 4, addressing_mode: AddressingMode::AbsoluteX, needs_page_cross_check: true }),
        0x1e => Some(Opcode { code: 0x1e, name: Mnemonic::Asl, bytes: 3, cycles: 7, addressing_mode: AddressingMode::AbsoluteX, needs_page_cross_check: false }),
        0x1f => Some(Opcode { code: 0x1f, name: Mnemonic::Slo, bytes: 3, cycles: 7, addressing_mode: AddressingMode::AbsoluteX, needs_page_cross_check: false }),
        0x20 => Some(Opcode { code: 0x20, name: Mnemonic::Jsr, bytes: 3, cycles: 6, addressing_mode: AddressingMode::Absolute, needs_page_cross_check: false }),
        0x21 => Some(Opcode { code: 0x21, name: Mnemonic::And, bytes: 2, cycles: 6, addressing_mode: AddressingMode::IndirectX, needs_page_cross_check: false }),
        0x23 => Some(Opcode { code: 0x23, name: Mnemonic::Rla, bytes: 2, cycles: 8, addressing_mode: AddressingMode::IndirectX, needs_page_cross_check: false }),
        0x24 => Some(Opcode { code: 0x24, name: Mnemonic::Bit, bytes: 2, cycles: 3, addressing_mode: AddressingMode::ZeroPage, needs_page_cross_check: false }),
        0x25 => Some(Opcode { code: 0x25, name: Mnemonic::And, bytes: 2, cycles: 3, addressing_mode: AddressingMode::ZeroPage, needs_page_cross_check: false }),
        0x26 => Some(Opcode { code: 0x26, name: Mnemonic::Rol, bytes: 2, cycles: 5, addressing_mode: AddressingMode::ZeroPage, needs_page_cross_check: false }),
        0x27 => Some(Opcode { code: 0x27, name: Mnemonic::Rla, bytes: 2, cycles: 5, addressing_mode: AddressingMode::ZeroPage, needs_page_cross_check: false }),
        0x28 => Some(Opcode { code: 0x28, name: Mnemonic::Plp, bytes: 1, cycles: 4, addressing_mode: AddressingMode::Implied, needs_page_cross_check: false }),
        0x29 => Some(Opcode { code: 0x29, name: Mnemonic::And, bytes: 2, cycles: 2, addressing_mode: AddressingMode::Immediate, needs_page_cross_check: false }),
        0x2a => Some(Opcode { code: 0x2a, name: Mnemonic::Rol, bytes: 1, cycles: 2, addressing_mode: AddressingMode::Accumulator, needs_page_cross_check: false }),
        0x2c => Some(Opcode { code: 0x2c, name: Mnemonic::Bit, bytes: 3, cycles: 4, addressing_mode: AddressingMode::Absolute, needs_page_cross_check: false }),
        0x2d => Some(Opcode { code: 0x2d, name: Mnemonic::And, bytes: 3, cycles: 4, addressing_mode: AddressingMode::Absolute, needs_page_cross_check: false }),
        0x2e => Some(Opcode { code: 0x2e, name: Mnemonic::Rol, bytes: 3, cycles: 6, addressing_mode: AddressingMode::Absolute, needs_page_cross_check: false }),
        0x2f => Some(Opcode { code: 0x2f, name: Mnemonic::Rla, bytes: 3, cycles: 6, addressing_mode: AddressingMode::Absolute, needs_page_cross_check: false }),
        0x30 => Some(Opcode { code: 0x30, name: Mnemonic::Bmi, bytes: 2, cycles: 2, addressing_mode: AddressingMode::Relative, needs_page_cross_check: true }),
        0x31 => Some(Opcode { code: 0x31, name: Mnemonic::And, bytes: 2, cycles: 5, addressing_mode: AddressingMode::IndirectY, needs_page_cross_check: true }),
        0x33 => Some(Opcode { code: 0x33, name: Mnemonic::Rla, bytes: 2, cycles: 8, addressing_mode: AddressingMode::IndirectY, needs_page_cross_check: false }),
        0x34 => Some(Opcode { code: 0x34, name: Mnemonic::Nop, bytes: 2, cycles: 4, addressing_mode: AddressingMode::ZeroPageX, needs_page_cross_check: false }),
        0x35 => Some(Opcode { code: 0x35, name: Mnemonic::And, bytes: 2, cycles: 4, addressing_mode: AddressingMode::ZeroPageX, needs_page_cross_check: false }),
        0x36 => Some(Opcode { code: 0x36, name: Mnemonic::Rol, bytes: 2, cycles: 6, addressing_mode: AddressingMode::ZeroPageX, needs_page_cross_check: false }),
        0x37 => Some(Opcode { code: 0x37, name: Mnemonic::Rla, bytes: 2, cycles: 6, addressing_mode: AddressingMode::ZeroPageX, needs_page_cross_check: false }),
        0x38 => Some(Opcode { code: 0x38, name: Mnemonic::Sec, bytes: 1, cycles: 2, addressing_mode: AddressingMode::Implied, needs_page_cross_check: false }),
        0x39 => Some(Opcode { code: 0x39, name: Mnemonic::And, bytes: 3, cycles: 4, addressing_mode: AddressingMode::AbsoluteY, needs_page_cross_check: true }),
        0x3a => Some(Opcode { code: 0x3a, name: Mnemonic::Nop, bytes: 1, cycles: 2, addressing_mode: AddressingMode::Implied, needs_page_cross_check: false }),
        0x3b => Some(Opcode { code: 0x3b, name: Mnemonic::Rla, bytes: 3, cycles: 7, addressing_mode: AddressingMode::AbsoluteY, needs_page_cross_check: false }),
        0x3c => Some(Opcode { code: 0x3c, name: Mnemonic::Nop, bytes: 3, cycles: 4, addressing_mode: AddressingMode::AbsoluteX, needs_page_cross_check: true }),
        0x3d => Some(Opcode { code: 0x3d, name: Mnemonic::And, bytes: 3, cycles: 4, addressing_mode: AddressingMode::AbsoluteX, needs_page_cross_check: true }),
        0x3e => Some(Opcode { code: 0x3e, name: Mnemonic::Rol, bytes: 3, cycles: 7, addressing_mode: AddressingMode::AbsoluteX, needs_page_cross_check: false }),
        0x3f => Some(Opcode { code: 0x3f, name: Mnemonic::Rla, bytes: 3, cycles: 7, addressing_mode: AddressingMode::AbsoluteX, needs_page_cross_check: false }),
        0x40 => Some(Opcode { code: 0x40, name: Mnemonic::Rti, bytes: 3, cycles: 6, addressing_mode: AddressingMode::Implied, needs_page_cross_check: false }),
        0x41 => Some(Opcode { code: 0x41, name: Mnemonic::Eor, bytes: 2, cycles: 6, addressing_mode: AddressingMode::IndirectX, needs_page_cross_check: false }),
        0x43 => Some(Opcode { code: 0x43, name: Mnemonic::Sre, bytes: 2, cycles: 8, addressing_mode: AddressingMode::IndirectX, needs_page_cross_check: false }),
        0x44 => Some(Opcode { code: 0x44, name: Mnemonic::Nop, bytes: 2, cycles: 3, addressing_mode: AddressingMode::ZeroPage, needs_page_cross_check: false }),
        0x45 => Some(Opcode { code: 0x45, name: Mnemonic::Eor, bytes: 2, cycles: 3, addressing_mode: AddressingMode::ZeroPage, needs_page_cross_check: false }),
        0x46 => Some(Opcode { code: 0x46, name: Mnemonic::Lsr, bytes: 2, cycles: 5, addressing_mode: AddressingMode::ZeroPage, needs_page_cross_check: false }),
        0x47 => Some(Opcode { code: 0x47, name: Mnemonic::Sre, bytes: 2, cycles: 5, addressing_mode: AddressingMode::ZeroPage, needs_page_cross_check: false }),
        0x48 => Some(Opcode { code: 0x48, name: Mnemonic::Pha, bytes: 1, cycles: 3, addressing_mode: AddressingMode::Implied, needs_page_cross_check: false }),
        0x49 => Some(Opcode { code: 0x49, name: Mnemonic::Eor, bytes: 2, cycles: 2, addressing_mode: AddressingMode::Immediate, needs_page_cross_check: false }),
        0x4a => Some(Opcode { code: 0x4a, name: Mnemonic::Lsr, bytes: 1, cycles: 2, addressing_mode: AddressingMode::Accumulator, needs_page_cross_check: false }),
        0x4c => Some(Opcode { code: 0x4c, name: Mnemonic::Jmp, bytes: 3, cycles: 3, addressing_mode: AddressingMode::Absolute, needs_page_cross_check: false }),
        0x4d => Some(Opcode { code: 0x4d, name: Mnemonic::Eor, bytes: 3, cycles: 4, addressing_mode: AddressingMode::Absolute, needs_page_cross_check: false }),
        0x4e => Some(Opcode { code: 0x4e, name: Mnemonic::Lsr, bytes: 3, cycles: 6, addressing_mode: AddressingMode::Absolute, needs_page_cross_check: false }),
        0x4f => Some(Opcode { code: 0x4f, name: Mnemonic::Sre, bytes: 3, cycles: 6, addressing_mode: AddressingMode::Absolute, needs_page_cross_check: false }),
        0x50 => Some(Opcode { code: 0x50, name: Mnemonic::Bvc, bytes: 2, cycles: 2, addressing_mode: AddressingMode::Relative, needs_page_cross_check: true }),
        0x51 => Some(Opcode { code: 0x51, name: Mnemonic::Eor, bytes: 2, cycles: 5, addressing_mode: AddressingMode::IndirectY, needs_page_cross_check: true }),
        0x53 => Some(Opcode { code: 0x53, name: Mnemonic::Sre, bytes: 2, cycles: 8, addressing_mode: AddressingMode::IndirectY, needs_page_cross_check: false }),
        0x54 => Some(Opcode { code: 0x54, name: Mnemonic::Nop, bytes: 2, cycles: 4, addressing_mode: AddressingMode::ZeroPageX, needs_page_cross_check: false }),
        0x55 => Some(Opcode { code: 0x55, name: Mnemonic::Eor, bytes: 2, cycles: 4, addressing_mode: AddressingMode::ZeroPageX, needs_page_cross_check: false }),
        0x56 => Some(Opcode { code: 0x56, name: Mnemonic::Lsr, bytes: 2, cycles: 6, addressing_mode: AddressingMode::ZeroPageX, needs_page_cross_check: false }),
        0x57 => Some(Opcode { code: 0x57, name: Mnemonic::Sre, bytes: 2, cycles: 6, addressing_mode: AddressingMode::ZeroPageX, needs_page_cross_check: false }),
        0x58 => Some(Opcode { code: 0x58, name: Mnemonic::Cli, bytes: 1, cycles: 2, addressing_mode: AddressingMode::Implied, needs_page_cross_check: false }),
        0x59 => Some(Opcode { code: 0x59, name: Mnemonic::Eor, bytes: 3, cycles: 4, addressing_mode: AddressingMode::AbsoluteY, needs_page_cross_check: true }),
        0x5a => Some(Opcode { code: 0x5a, name: Mnemonic::Nop, bytes: 1, cycles: 2, addressing_mode: AddressingMode::Implied, needs_page_cross_check: false }),
        0x5b => Some(Opcode { code: 0x5b, name: Mnemonic::Sre, bytes: 3, cycles: 7, addressing_mode: AddressingMode::AbsoluteY, needs_page_cross_check: false }),
        0x5c => Some(Opcode { code: 0x5c, name: Mnemonic::Nop, bytes: 3, cycles: 4, addressing_mode: AddressingMode::AbsoluteX, needs_page_cross_check: true }),
        0x5d => Some(Opcode { code: 0x5d, name: Mnemonic::Eor, bytes: 3, cycles: 4, addressing_mode: AddressingMode::AbsoluteX, needs_page_cross_check: true }),
        0x5e => Some(Opcode { code: 0x5e, name: Mnemonic::Lsr, bytes: 3, cycles: 7, addressing_mode: AddressingMode::AbsoluteX, needs_page_cross_check: false }),
        0x5f => Some(Opcode { code: 0x5f, name: Mnemonic::Sre, bytes: 3, cycles: 7, addressing_mode: AddressingMode::AbsoluteX, needs_page_cross_check: false }),
        0x60 => Some(Opcode { code: 0x60, name: Mnemonic::Rts, bytes: 3, cycles: 6, addressing_mode: AddressingMode::Implied, needs_page_cross_check: false }),
        0x61 => Some(Opcode { code: 0x61, name: Mnemonic::Adc, bytes: 2, cycles: 6, addressing_mode: AddressingMode::IndirectX, needs_page_cross_check: false }),
        0x63 => Some(Opcode { code: 0x63, name: Mnemonic::Rra, bytes: 2, cycles: 8, addressing_mode: AddressingMode::IndirectX, needs_page_cross_check: false }),
        0x64 => Some(Opcode { code: 0x64, name: Mnemonic::Nop, bytes: 2, cycles: 3, addressing_mode: AddressingMode::ZeroPage, needs_page_cross_check: false }),
        0x65 => Some(Opcode { code: 0x65, name: Mnemonic::Adc, bytes: 2, cycles: 3, addressing_mode: AddressingMode::ZeroPage, needs_page_cross_check: false }),
        0x66 => Some(Opcode { code: 0x66, name: Mnemonic::Ror, bytes: 2, cycles: 5, addressing_mode: AddressingMode::ZeroPage, needs_page_cross_check: false }),
        0x67 => Some(Opcode { code: 0x67, name: Mnemonic::Rra, bytes: 2, cycles: 5, addressing_mode: AddressingMode::ZeroPage, needs_page_cross_check: false }),
        0x68 => Some(Opcode { code: 0x68, name: Mnemonic::Pla, bytes: 1, cycles: 4, addressing_mode: AddressingMode::Implied, needs_page_cross_check: false }),
        0x69 => Some(Opcode { code: 0x69, name: Mnemonic::Adc, bytes: 2, cycles: 2, addressing_mode: AddressingMode::Immediate, needs_page_cross_check: false }),
        0x6a => Some(Opcode { code: 0x6a, name: Mnemonic::Ror, bytes: 1, cycles: 2, addressing_mode: AddressingMode::Accumulator, needs_page_cross_check: false }),
        0x6c => Some(Opcode { code: 0x6c, name: Mnemonic::Jmp, bytes: 3, cycles: 5, addressing_mode: AddressingMode::Indirect, needs_page_cross_check: false }),
        0x6d => Some(Opcode { code: 0x6d, name: Mnemonic::Adc, bytes: 3, cycles: 4, addressing_mode: AddressingMode::Absolute, needs_page_cross_check: false }),
        0x6e => Some(Opcode { code: 0x6e, name: Mnemonic::Ror, bytes: 3, cycles: 6, addressing_mode: AddressingMode::Absolute, needs_page_cross_check: false }),
        0x6f => Some(Opcode { code: 0x6f, name: Mnemonic::Rra, bytes: 3, cycles: 6, addressing_mode: AddressingMode::Absolute, needs_page_cross_check: false }),
        0x70 => Some(Opcode { code: 0x70, name: Mnemonic::Bvs, bytes: 2, cycles: 2, addressing_mode: AddressingMode::Relative, needs_page_cross_check: true }),
        0x71 => Some(Opcode { code: 0x71, name: Mnemonic::Adc, bytes: 2, cycles: 5, addressing_mode: AddressingMode::IndirectY, needs_page_cross_check: true }),
        0x73 => Some(Opcode { code: 0x73, name: Mnemonic::Rra, bytes: 2, cycles: 8, addressing_mode: AddressingMode::IndirectY, needs_page_cross_check: false }),
        0x74 => Some(Opcode { code: 0x74, name: Mnemonic::Nop, bytes: 2, cycles: 4, addressing_mode: AddressingMode::ZeroPageX, needs_page_cross_check: false }),
        0x75 => Some(Opcode { code: 0x75, name: Mnemonic::Adc, bytes: 2, cycles: 4, addressing_mode: AddressingMode::ZeroPageX, needs_page_cross_check: false }),
        0x76 => Some(Opcode { code: 0x76, name: Mnemonic::Ror, bytes: 2, cycles: 6, addressing_mode: AddressingMode::ZeroPageX, needs_page_cross_check: false }),
        0x77 => Some(Opcode { code: 0x77, name: Mnemonic::Rra, bytes: 2, cycles: 6, addressing_mode: AddressingMode::ZeroPageX, needs_page_cross_check: false }),
        0x78 => Some(Opcode { code: 0x78, name: Mnemonic::Sei, bytes: 1, cycles: 2, addressing_mode: AddressingMode::Implied, needs_page_cross_check: false }),
        0x79 => Some(Opcode { code: 0x79, name: Mnemonic::Adc, bytes: 3, cycles: 4, addressing_mode: AddressingMode::AbsoluteY, needs_page_cross_check: true }),
        0x7a => Some(Opcode { code: 0x7a, name: Mnemonic::Nop, bytes: 1, cycles: 2, addressing_mode: AddressingMode::Implied, needs_page_cross_check: false }),
        0x7b => Some(Opcode { code: 0x7b, name: Mnemonic::Rra, bytes: 3, cycles: 7, addressing_mode: AddressingMode::AbsoluteY, needs_page_cross_check: false }),
        0x7c => Some(Opcode { code: 0x7c, name: Mnemonic::Nop, bytes: 3, cycles: 4, addressing_mode: AddressingMode::AbsoluteX, needs_page_cross_check: true }),
        0x7d => Some(Opcode { code: 0x7d, name: Mnemonic::Adc, bytes: 3, cycles: 4, addressing_mode: AddressingMode::AbsoluteX, needs_page_cross_check: true }),
        0x7e => Some(Opcode { code: 0x7e, name: Mnemonic::Ror, bytes: 3, cycles: 7, addressing_mode: AddressingMode::AbsoluteX, needs_page_cross_check: false }),
        0x7f => Some(Opcode { code: 0x7f, name: Mnemonic::Rra, bytes: 3, cycles: 7, addressing_mode: AddressingMode::AbsoluteX, needs_page_cross_check: false }),
        0x80 => Some(Opcode { code: 0x80, name: Mnemonic::Nop, bytes: 2, cycles: 2, addressing_mode: AddressingMode::Immediate, needs_page_cross_check: false }),
        0x81 => Some(Opcode { code: 0x81, name: Mnemonic::Sta, bytes: 2, cycles: 6, addressing_mode: AddressingMode::IndirectX, needs_page_cross_check: false }),
        0x82 => Some(Opcode { code: 0x82, name: Mnemonic::Nop, bytes: 2, cycles: 2, addressing_mode: AddressingMode::Immediate, needs_page_cross_check: false }),
        0x83 => Some(Opcode { code: 0x83, name: Mnemonic::Sax, bytes: 2, cycles: 6, addressing_mode: AddressingMode::IndirectX, needs_page_cross_check: false }),
        0x84 => Some(Opcode { code: 0x84, name: Mnemonic::Sty, bytes: 2, cycles: 3, addressing_mode: AddressingMode::ZeroPage, needs_page_cross_check: false }),
        0x85 => Some(Opcode { code: 0x85, name: Mnemonic::Sta, bytes: 2, cycles: 3, addressing_mode: AddressingMode::ZeroPage, needs_page_cross_check: false }),
        0x86 => Some(Opcode { code: 0x86, name: Mnemonic::Stx, bytes: 2, cycles: 3, addressing_mode: AddressingMode::ZeroPage, needs_page_cross_check: false }),
        0x87 => Some(Opcode { code: 0x87, name: Mnemonic::Sax, bytes: 2, cycles: 3, addressing_mode: AddressingMode::ZeroPage, needs_page_cross_check: false }),
        0x88 => Some(Opcode { code: 0x88, name: Mnemonic::Dey, bytes: 1, cycles: 2, addressing_mode: AddressingMode::Implied, needs_page_cross_check: false }),
        0x89 => Some(Opcode { code: 0x89, name: Mnemonic::Nop, bytes: 2, cycles: 2, addressing_mode: AddressingMode::Immediate, needs_page_cross_check: false }),
        0x8a => Some(Opcode { code: 0x8a, name: Mnemonic::Txa, bytes: 1, cycles: 2, addressing_mode: AddressingMode::Implied, needs_page_cross_check: false }),
        0x8c => Some(Opcode { code: 0x8c, name: Mnemonic::Sty, bytes: 3, cycles: 4, addressing_mode: AddressingMode::Absolute, needs_page_cross_check: false }),
        0x8d => Some(Opcode { code: 0x8d, name: Mnemonic::Sta, bytes: 3, cycles: 4, addressing_mode: AddressingMode::Absolute, needs_page_cross_check: false }),
        0x8e => Some(Opcode { code: 0x8e, name: Mnemonic::Stx, bytes: 3, cycles: 4, addressing_mode: AddressingMode::Absolute, needs_page_cross_check: false }),
        0x8f => Some(Opcode { code: 0x8f, name: Mnemonic::Sax, bytes: 3, cycles: 4, addressing_mode: AddressingMode::Absolute, needs_page_cross_check: false }),
        0x90 => Some(Opcode { code: 0x90, name: Mnemonic::Bcc, bytes: 2, cycles: 2, addressing_mode: AddressingMode::Relative, needs_page_cross_check: true }),
        0x91 => Some(Opcode { code: 0x91, name: Mnemonic::Sta, bytes: 2, cycles: 6, addressing_mode: AddressingMode::IndirectY, needs_page_cross_check: false }),
        0x94 => Some(Opcode { code: 0x94, name: Mnemonic::Sty, bytes: 2, cycles: 4, addressing_mode: AddressingMode::ZeroPageX, needs_page_cross_check: false }),
        0x95 => Some(Opcode { code: 0x95, name: Mnemonic::Sta, bytes: 2, cycles: 4, addressing_mode: AddressingMode::ZeroPageX, needs_page_cross_check: false }),
        0x96 => Some(Opcode { code: 0x96, name: Mnemonic::Stx, bytes: 2, cycles: 4, addressing_mode: AddressingMode::ZeroPageY, needs_page_cross_check: false }),
        0x97 => Some(Opcode { code: 0x97, name: Mnemonic::Sax, bytes: 2, cycles: 4, addressing_mode: AddressingMode::ZeroPageY, needs_page_cross_check: false }),
        0x98 => Some(Opcode { code: 0x98, name: Mnemonic::Tya, bytes: 1, cycles: 2, addressing_mode: AddressingMode::Implied, needs_page_cross_check: false }),
        0x99 => Some(Opcode { code: 0x99, name: Mnemonic::Sta, bytes: 3, cycles: 5, addressing_mode: AddressingMode::AbsoluteY, needs_page_cross_check: false }),
        0x9a => Some(Opcode { code: 0x9a, name: Mnemonic::Txs, bytes: 1, cycles: 2, addressing_mode: AddressingMode::Implied, needs_page_cross_check: false }),
        0x9d => Some(Opcode { code: 0x9d, name: Mnemonic::Sta, bytes: 3, cycles: 5, addressing_mode: AddressingMode::AbsoluteX, needs_page_cross_check: false }),
        0xa0 => Some(Opcode { code: 0xa0, name: Mnemonic::Ldy, bytes: 2, cycles: 2, addressing_mode: AddressingMode::Immediate, needs_page_cross_check: false }),
        0xa1 => Some(Opcode { code: 0xa1, name: Mnemonic::Lda, bytes: 2, cycles: 6, addressing_mode: AddressingMode::IndirectX, needs_page_cross_check: false }),
        0xa2 => Some(Opcode { code: 0xa2, name: Mnemonic::Ldx, bytes: 2, cycles: 2, addressing_mode: AddressingMode::Immediate, needs_page_cross_check: false }),
        0xa3 => Some(Opcode { code: 0xa3, name: Mnemonic::Lax, bytes: 2, cycles: 6, addressing_mode: AddressingMode::IndirectX, needs_page_cross_check: false }),
        0xa4 => Some(Opcode { code: 0xa4, name: Mnemonic::Ldy, bytes: 2, cycles: 3, addressing_mode: AddressingMode::ZeroPage, needs_page_cross_check: false }),
        0xa5 => Some(Opcode { code: 0xa5, name: Mnemonic::Lda, bytes: 2, cycles: 3, addressing_mode: AddressingMode::ZeroPage, needs_page_cross_check: false }),
        0xa6 => Some(Opcode { code: 0xa6, name: Mnemonic::Ldx, bytes: 2, cycles: 3, addressing_mode: AddressingMode::ZeroPage, needs_page_cross_check: false }),
        0xa7 => Some(Opcode { code: 0xa7, name: Mnemonic::Lax, bytes: 2, cycles: 3, addressing_mode: AddressingMode::ZeroPage, needs_page_cross_check: false }),
        0xa8 => Some(Opcode { code: 0xa8, name: Mnemonic::Tay, bytes: 1, cycles: 2, addressing_mode: AddressingMode::Implied, needs_page_cross_check: false }),
        0xa9 => Some(Opcode { code: 0xa9, name: Mnemonic::Lda, bytes: 2, cycles: 2, addressing_mode: AddressingMode::Immediate, needs_page_cross_check: false }),
        0xaa => Some(Opcode { code: 0xaa, name: Mnemonic::Tax, bytes: 1, cycles: 2, addressing_mode: AddressingMode::Implied, needs_page_cross_check: false }),
        0xab => Some(Opcode { code: 0xab, name: Mnemonic::Lax, bytes: 2, cycles: 2, addressing_mode: AddressingMode::Immediate, needs_page_cross_check: false }),
        0xac => Some(Opcode { code: 0xac, name: Mnemonic::Ldy, bytes: 3, cycles: 4, addressing_mode: AddressingMode::Absolute, needs_page_cross_check: false }),
        0xad => Some(Opcode { code: 0xad, name: Mnemonic::Lda, bytes: 3, cycles: 4, addressing_mode: AddressingMode::Absolute, needs_page_cross_check: false }),
        0xae => Some(Opcode { code: 0xae, name: Mnemonic::Ldx, bytes: 3, cycles: 4, addressing_mode: AddressingMode::Absolute, needs_page_cross_check: false }),
        0xaf => Some(Opcode { code: 0xaf, name: Mnemonic::Lax, bytes: 3, cycles: 4, addressing_mode: AddressingMode::Absolute, needs_page_cross_check: false }),
        0xb0 => Some(Opcode { code: 0xb0, name: Mnemonic::Bcs, bytes: 2, cycles: 2, addressing_mode: AddressingMode::Relative, needs_page_cross_check: true }),
        0xb1 => Some(Opcode { code: 0xb1, name: Mnemonic::Lda, bytes: 2, cycles: 5, addressing_mode: AddressingMode::IndirectY, needs_page_cross_check: true }),
        0xb3 => Some(Opcode { code: 0xb3, name: Mnemonic::Lax, bytes: 2, cycles: 5, addressing_mode: AddressingMode::IndirectY, needs_page_cross_check: true }),
        0xb4 => Some(Opcode { code: 0xb4, name: Mnemonic::Ldy, bytes: 2, cycles: 4, addressing_mode: AddressingMode::ZeroPageX, needs_page_cross_check: false }),
        0xb5 => Some(Opcode { code: 0xb5, name: Mnemonic::Lda, bytes: 2, cycles: 4, addressing_mode: AddressingMode::ZeroPageX, needs_page_cross_check: false }),
        0xb6 => Some(Opcode { code: 0xb6, name: Mnemonic::Ldx, bytes: 2, cycles: 3, addressing_mode: AddressingMode::ZeroPageY, needs_page_cross_check: false }),
        0xb7 => Some(Opcode { code: 0xb7, name: Mnemonic::Lax, bytes: 2, cycles: 4, addressing_mode: AddressingMode::ZeroPageY, needs_page_cross_check: false }),
        0xb8 => Some(Opcode { code: 0xb8, name: Mnemonic::Clv, bytes: 1, cycles: 2, addressing_mode: AddressingMode::Implied, needs_page_cross_check: false }),
        0xb9 => Some(Opcode { code: 0xb9, name: Mnemonic::Lda, bytes: 3, cycles: 4, addressing_mode: AddressingMode::AbsoluteY, needs_page_cross_check: true }),
        0xba => Some(Opcode { code: 0xba, name: Mnemonic::Tsx, bytes: 1, cycles: 2, addressing_mode: AddressingMode::Implied, needs_page_cross_check: false }),
        0xbc => Some(Opcode { code: 0xbc, name: Mnemonic::Ldy, bytes: 3, cycles: 4, addressing_mode: AddressingMode::AbsoluteX, needs_page_cross_check: true }),
        0xbd => Some(Opcode { code: 0xbd, name: Mnemonic::Lda, bytes: 3, cycles: 4, addressing_mode: AddressingMode::AbsoluteX, needs_page_cross_check: true }),
        0xbe => Some(Opcode { code: 0xbe, name: Mnemonic::Ldx, bytes: 3, cycles: 4, addressing_mode: AddressingMode::AbsoluteY, needs_page_cross_check: true }),
        0xbf => Some(Opcode { code: 0xbf, name: Mnemonic::Lax, bytes: 3, cycles: 4, addressing_mode: AddressingMode::AbsoluteY, needs_page_cross_check: true }),
        0xc0 => Some(Opcode { code: 0xc0, name: Mnemonic::Cpy, bytes: 2, cycles: 2, addressing_mode: AddressingMode::Immediate, needs_page_cross_check: false }),
        0xc1 => Some(Opcode { code: 0xc1, name: Mnemonic::Cmp, bytes: 2, cycles: 6, addressing_mode: AddressingMode::IndirectX, needs_page_cross_check: false }),
        0xc2 => Some(Opcode { code: 0xc2, name: Mnemonic::Nop, bytes: 2, cycles: 2, addressing_mode: AddressingMode::Immediate, needs_page_cross_check: false }),
        0xc3 => Some(Opcode { code: 0xc3, name: Mnemonic::Dcp, bytes: 2, cycles: 8, addressing_mode: AddressingMode::IndirectX, needs_page_cross_check: false }),
        0xc4 => Some(Opcode { code: 0xc4, name: Mnemonic::Cpy, bytes: 2, cycles: 3, addressing_mode: AddressingMode::ZeroPage, needs_page_cross_check: false }),
        0xc5 => Some(Opcode { code: 0xc5, name: Mnemonic::Cmp, bytes: 2, cycles: 3, addressing_mode: AddressingMode::ZeroPage, needs_page_cross_check: false }),
        0xc6 => Some(Opcode { code: 0xc6, name: Mnemonic::Dec, bytes: 2, cycles: 5, addressing_mode: AddressingMode::ZeroPage, needs_page_cross_check: false }),
        0xc7 => Some(Opcode { code: 0xc7, name: Mnemonic::Dcp, bytes: 2, cycles: 5, addressing_mode: AddressingMode::ZeroPage, needs_page_cross_check: false }),
        0xc8 => Some(Opcode { code: 0xc8, name: Mnemonic::Iny, bytes: 1, cycles: 2, addressing_mode: AddressingMode::Implied, needs_page_cross_check: false }),
        0xc9 => Some(Opcode { code: 0xc9, name: Mnemonic::Cmp, bytes: 2, cycles: 2, addressing_mode: AddressingMode::Immediate, needs_page_cross_check: false }),
        0xca => Some(Opcode { code: 0xca, name: Mnemonic::Dex, bytes: 1, cycles: 2, addressing_mode: AddressingMode::Implied, needs_page_cross_check: false }),
        0xcc => Some(Opcode { code: 0xcc, name: Mnemonic::Cpy, bytes: 3, cycles: 4, addressing_mode: AddressingMode::Absolute, needs_page_cross_check: false }),
        0xcd => Some(Opcode { code: 0xcd, name: Mnemonic::Cmp, bytes: 3, cycles: 4, addressing_mode: AddressingMode::Absolute, needs_page_cross_check: false }),
        0xce => Some(Opcode { code: 0xce, name: Mnemonic::Dec, bytes: 3, cycles: 6, addressing_mode: AddressingMode::Absolute, needs_page_cross_check: false }),
        0xcf => Some(Opcode { code: 0xcf, name: Mnemonic::Dcp, bytes: 3, cycles: 6, addressing_mode: AddressingMode::Absolute, needs_page_cross_check: false }),
        0xd0 => Some(Opcode { code: 0xd0, name: Mnemonic::Bne, bytes: 2, cycles: 2, addressing_mode: AddressingMode::Relative, needs_page_cross_check: true }),
        0xd1 => Some(Opcode { code: 0xd1, name: Mnemonic::Cmp, bytes: 2, cycles: 5, addressing_mode: AddressingMode::IndirectY, needs_page_cross_check: true }),
        0xd3 => Some(Opcode { code: 0xd3, name: Mnemonic::Dcp, bytes: 2, cycles: 8, addressing_mode: AddressingMode::IndirectY, needs_page_cross_check: false }),
        0xd4 => Some(Opcode { code: 0xd4, name: Mnemonic::Nop, bytes: 2, cycles: 4, addressing_mode: AddressingMode::ZeroPageX, needs_page_cross_check: false }),
        0xd5 => Some(Opcode { code: 0xd5, name: Mnemonic::Cmp, bytes: 2, cycles: 4, addressing_mode: AddressingMode::ZeroPageX, needs_page_cross_check: false }),
        0xd6 => Some(Opcode { code: 0xd6, name: Mnemonic::Dec, bytes: 2, cycles: 6, addressing_mode: AddressingMode::ZeroPageX, needs_page_cross_check: false }),
        0xd7 => Some(Opcode { code: 0xd7, name: Mnemonic::Dcp, bytes: 2, cycles: 6, addressing_mode: AddressingMode::ZeroPageX, needs_page_cross_check: false }),
        0xd8 => Some(Opcode { code: 0xd8, name: Mnemonic::Cld, bytes: 1, cycles: 2, addressing_mode: AddressingMode::Implied, needs_page_cross_check: false }),
        0xd9 => Some(Opcode { code: 0xd9, name: Mnemonic::Cmp, bytes: 3, cycles: 4, addressing_mode: AddressingMode::AbsoluteY, needs_page_cross_check: true }),
        0xda => Some(Opcode { code: 0xda, name: Mnemonic::Nop, bytes: 1, cycles: 2, addressing_mode: AddressingMode::Implied, needs_page_cross_check: false }),
        0xdb => Some(Opcode { code: 0xdb, name: Mnemonic::Dcp, bytes: 3, cycles: 7, addressing_mode: AddressingMode::AbsoluteY, needs_page_cross_check: false }),
        0xdc => Some(Opcode { code: 0xdc, name: Mnemonic::Nop, bytes: 3, cycles: 4, addressing_mode: AddressingMode::AbsoluteX, needs_page_cross_check: true }),
        0xdd => Some(Opcode { code: 0xdd, name: Mnemonic::Cmp, bytes: 3, cycles: 4, addressing_mode: AddressingMode::AbsoluteX, needs_page_cross_check: true }),
        0xde => Some(Opcode { code: 0xde, name: Mnemonic::Dec, bytes: 3, cycles: 7, addressing_mode: AddressingMode::AbsoluteX, needs_page_cross_check: false }),
        0xdf => Some(Opcode { code: 0xdf, name: Mnemonic::Dcp, bytes: 3, cycles: 7, addressing_mode: AddressingMode::AbsoluteX, needs_page_cross_check: false }),
        0xe0 => Some(Opcode { code: 0xe0, name: Mnemonic::Cpx, bytes: 2, cycles: 2, addressing_mode: AddressingMode::Immediate, needs_page_cross_check: false }),
        0xe1 => Some(Opcode { code: 0xe1, name: Mnemonic::Sbc, bytes: 2, cycles: 6, addressing_mode: AddressingMode::IndirectX, needs_page_cross_check: false }),
        0xe2 => Some(Opcode { code: 0xe2, name: Mnemonic::Nop, bytes: 2, cycles: 2, addressing_mode: AddressingMode::Immediate, needs_page_cross_check: false }),
        0xe3 => Some(Opcode { code: 0xe3, name: Mnemonic::Isb, bytes: 2, cycles: 8, addressing_mode: AddressingMode::IndirectX, needs_page_cross_check: false }),
        0xe4 => Some(Opcode { code: 0xe4, name: Mnemonic::Cpx, bytes: 2, cycles: 3, addressing_mode: AddressingMode::ZeroPage, needs_page_cross_check: false }),
        0xe5 => Some(Opcode { code: 0xe5, name: Mnemonic::Sbc, bytes: 2, cycles: 3, addressing_mode: AddressingMode::ZeroPage, needs_page_cross_check: false }),
        0xe6 => Some(Opcode { code: 0xe6, name: Mnemonic::Inc, bytes: 2, cycles: 5, addressing_mode: AddressingMode::ZeroPage, needs_page_cross_check: false }),
        0xe7 => Some(Opcode { code: 0xe7, name: Mnemonic::Isb, bytes: 2, cycles: 5, addressing_mode: AddressingMode::ZeroPage, needs_page_cross_check: false }),
        0xe8 => Some(Opcode { code: 0xe8, name: Mnemonic::Inx, bytes: 1, cycles: 2, addressing_mode: AddressingMode::Implied, needs_page_cross_check: false }),
        0xe9 => Some(Opcode { code: 0xe9, name: Mnemonic::Sbc, bytes: 2, cycles: 2, addressing_mode: AddressingMode::Immediate, needs_page_cross_check: false }),
0xea => Some(Opcode { code: 0xea, name: Mnemonic::Nop, bytes: 1, cycles: 2, addressing_mode: AddressingMode::Implied, needs_page_cross_check: false }),
        0xeb => Some(Opcode { code: 0xeb, name: Mnemonic::Sbc, bytes: 2, cycles: 2, addressing_mode: AddressingMode::Immediate, needs_page_cross_check: false }),
        0xec => Some(Opcode { code: 0xec, name: Mnemonic::Cpx, bytes: 3, cycles: 4, addressing_mode: AddressingMode::Absolute, needs_page_cross_check: false }),
        0xed => Some(Opcode { code: 0xed, name: Mnemonic::Sbc, bytes: 3, cycles: 4, addressing_mode: AddressingMode::Absolute, needs_page_cross_check: false }),
        0xee => Some(Opcode { code: 0xee, name: Mnemonic::Inc, bytes: 3, cycles: 6, addressing_mode: AddressingMode::Absolute, needs_page_cross_check: false }),
        0xef => Some(Opcode { code: 0xef, name: Mnemonic::Isb, bytes: 3, cycles: 6, addressing_mode: AddressingMode::Absolute, needs_page_cross_check: false }),
        0xf0 => Some(Opcode { code: 0xf0, name: Mnemonic::Beq, bytes: 2, cycles: 2, addressing_mode: AddressingMode::Relative, needs_page_cross_check: true }),
        0xf1 => Some(Opcode { code: 0xf1, name: Mnemonic::Sbc, bytes: 2, cycles: 5, addressing_mode: AddressingMode::IndirectY, needs_page_cross_check: true }),
        0xf3 => Some(Opcode { code: 0xf3, name: Mnemonic::Isb, bytes: 2, cycles: 8, addressing_mode: AddressingMode::IndirectY, needs_page_cross_check: false }),
        0xf4 => Some(Opcode { code: 0xf4, name: Mnemonic::Nop, bytes: 2, cycles: 4, addressing_mode: AddressingMode::ZeroPageX, needs_page_cross_check: false }),
        0xf5 => Some(Opcode { code: 0xf5, name: Mnemonic::Sbc, bytes: 2, cycles: 4, addressing_mode: AddressingMode::ZeroPageX, needs_page_cross_check: false }),
        0xf6 => Some(Opcode { code: 0xf6, name: Mnemonic::Inc, bytes: 2, cycles: 6, addressing_mode: AddressingMode::ZeroPageX, needs_page_cross_check: false }),
        0xf7 => Some(Opcode { code: 0xf7, name: Mnemonic::Isb, bytes: 2, cycles: 6, addressing_mode: AddressingMode::ZeroPageX, needs_page_cross_check: false }),
        0xf8 => Some(Opcode { code: 0xf8, name: Mnemonic::Sed, bytes: 1, cycles: 2, addressing_mode: AddressingMode::Implied, needs_page_cross_check: false }),
        0xf9 => Some(Opcode { code: 0xf9, name: Mnemonic::Sbc, bytes: 3, cycles: 4, addressing_mode: AddressingMode::AbsoluteY, needs_page_cross_check: true }),
        0xfa => Some(Opcode { code: 0xfa, name: Mnemonic::Nop, bytes: 1, cycles: 2, addressing_mode: AddressingMode::Implied, needs_page_cross_check: false }),
        0xfb => Some(Opcode { code: 0xfb, name: Mnemonic::Isb, bytes: 3, cycles: 7, addressing_mode: AddressingMode::AbsoluteY, needs_page_cross_check: false }),
        0xfc => Some(Opcode { code: 0xfc, name: Mnemonic::Nop, bytes: 3, cycles: 4, addressing_mode: AddressingMode::AbsoluteX, needs_page_cross_check: true }),
        0xfd => Some(Opcode { code: 0xfd, name: Mnemonic::Sbc, bytes: 3, cycles: 4, addressing_mode: AddressingMode::AbsoluteX, needs_page_cross_check: true }),
        0xfe => Some(Opcode { code: 0xfe, name: Mnemonic::Inc, bytes: 3, cycles: 7, addressing_mode: AddressingMode::AbsoluteX, needs_page_cross_check: false }),
        0xff => Some(Opcode { code: 0xff, name: Mnemonic::Isb, bytes: 3, cycles: 7, addressing_mode: AddressingMode::AbsoluteX, needs_page_cross_check: false }),
        _ => None,
    }
}

/// Every record the table hands out carries its own code, a plausible
/// instruction length, and a bounded cycle cost.
pub proof fn lemma_opcode_table_well_formed(code: u8)
    ensures
        opcode_for(code) matches Some(op) ==> op.code == code && 1 <= op.bytes <= 3 && 2
            <= op.cycles <= 8,
{
}

} // verus!
