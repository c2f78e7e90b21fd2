//! The CPU's status register (flag register, or processor status).
//!
//! Eight independent one-bit flags. Instructions that save or restore the
//! flags map them to bits of an architectural byte as follows, from bit 0
//! upward: Carry, Zero, InterruptDisable, Decimal, Break, Break2 (unused by
//! the hardware but preserved for push/pop fidelity), Overflow, Negative.

use vstd::prelude::*;

verus! {

/// The eight flags, each held as a named boolean.
#[derive(Debug, Clone, Copy, PartialEq, Eq, Structural)]
pub struct StatusRegister {
    pub carry: bool,
    pub zero: bool,
    pub interrupt_disable: bool,
    pub decimal: bool,
    pub break_flag: bool,
    pub break2: bool,
    pub overflow: bool,
    pub negative: bool,
}

/// The architectural byte a register packs into.
pub open spec fn bits_spec(s: StatusRegister) -> u8 {
    ((if s.carry { 0x01int } else { 0 }) + (if s.zero { 0x02int } else { 0 })
        + (if s.interrupt_disable { 0x04int } else { 0 }) + (if s.decimal { 0x08int } else { 0 })
        + (if s.break_flag { 0x10int } else { 0 }) + (if s.break2 { 0x20int } else { 0 })
        + (if s.overflow { 0x40int } else { 0 }) + (if s.negative { 0x80int } else { 0 })) as u8
}

/// The register a byte unpacks into.
pub open spec fn from_bits_spec(value: u8) -> StatusRegister {
    StatusRegister {
        carry: value % 2 == 1,
        zero: value / 0x02 % 2 == 1,
        interrupt_disable: value / 0x04 % 2 == 1,
        decimal: value / 0x08 % 2 == 1,
        break_flag: value / 0x10 % 2 == 1,
        break2: value / 0x20 % 2 == 1,
        overflow: value / 0x40 % 2 == 1,
        negative: value / 0x80 % 2 == 1,
    }
}

impl StatusRegister {
    /// All flags clear.
    pub fn empty() -> (r: Self)
        ensures
            r == (StatusRegister {
                carry: false,
                zero: false,
                interrupt_disable: false,
                decimal: false,
                break_flag: false,
                break2: false,
                overflow: false,
                negative: false,
            }),
    {
        StatusRegister {
            carry: false,
            zero: false,
            interrupt_disable: false,
            decimal: false,
            break_flag: false,
            break2: false,
            overflow: false,
            negative: false,
        }
    }

    /// The power-on value: InterruptDisable and Break2 set.
    pub fn init() -> (r: Self)
        ensures
            r == (StatusRegister { interrupt_disable: true, break2: true, ..Self::empty_spec() }),
    {
        StatusRegister { interrupt_disable: true, break2: true, ..Self::empty() }
    }

    /// All flags clear, for use in contracts.
    pub open spec fn empty_spec() -> Self {
        StatusRegister {
            carry: false,
            zero: false,
            interrupt_disable: false,
            decimal: false,
            break_flag: false,
            break2: false,
            overflow: false,
            negative: false,
        }
    }

    /// True when no flag is set.
    pub fn is_empty(&self) -> (r: bool)
        ensures
            r == (*self == Self::empty_spec()),
    {
        !self.carry && !self.zero && !self.interrupt_disable && !self.decimal && !self.break_flag
            && !self.break2 && !self.overflow && !self.negative
    }

    /// Pack the flags into their architectural byte.
    pub fn bits(&self) -> (r: u8)
        ensures
            r == bits_spec(*self),
    {
        (if self.carry {
            0x01u8
        } else {
            0
        }) + (if self.zero {
            0x02u8
        } else {
            0
        }) + (if self.interrupt_disable {
            0x04u8
        } else {
            0
        }) + (if self.decimal {
            0x08u8
        } else {
            0
        }) + (if self.break_flag {
            0x10u8
        } else {
            0
        }) + (if self.break2 {
            0x20u8
        } else {
            0
        }) + (if self.overflow {
            0x40u8
        } else {
            0
        }) + (if self.negative {
            0x80u8
        } else {
            0
        })
    }

    /// Unpack an architectural byte into flags.
    pub fn from_bits(value: u8) -> (r: Self)
        ensures
            r == from_bits_spec(value),
    {
        StatusRegister {
            carry: value % 2 == 1,
            zero: value / 0x02 % 2 == 1,
            interrupt_disable: value / 0x04 % 2 == 1,
            decimal: value / 0x08 % 2 == 1,
            break_flag: value / 0x10 % 2 == 1,
            break2: value / 0x20 % 2 == 1,
            overflow: value / 0x40 % 2 == 1,
            negative: value / 0x80 % 2 == 1,
        }
    }

    /// Set Zero when `value` is zero and Negative from its top bit, leaving
    /// the other flags unchanged.
    pub fn update_zero_and_negative_flags(&mut self, value: u8)
        ensures
            *final(self) == (StatusRegister {
                zero: value == 0,
                negative: value >= 0x80,
                ..*old(self)
            }),
    {
        self.zero = value == 0;
        self.negative = value >= 0x80;
    }

    /// Set or clear Carry.
    pub fn set_carry_flag(&mut self, value: bool)
        ensures
            *final(self) == (StatusRegister { carry: value, ..*old(self) }),
    {
        self.carry = value;
    }

    /// Set or clear Decimal.
    pub fn set_decimal_flag(&mut self, value: bool)
        ensures
            *final(self) == (StatusRegister { decimal: value, ..*old(self) }),
    {
        self.decimal = value;
    }

    /// Set or clear InterruptDisable.
    pub fn set_interrupt_flag(&mut self, value: bool)
        ensures
            *final(self) == (StatusRegister { interrupt_disable: value, ..*old(self) }),
    {
        self.interrupt_disable = value;
    }

    /// Set or clear Overflow.
    pub fn set_overflow_flag(&mut self, value: bool)
        ensures
            *final(self) == (StatusRegister { overflow: value, ..*old(self) }),
    {
        self.overflow = value;
    }

    /// Set or clear Negative.
    pub fn set_negative_flag(&mut self, value: bool)
        ensures
            *final(self) == (StatusRegister { negative: value, ..*old(self) }),
    {
        self.negative = value;
    }

    /// Set or clear Zero.
    pub fn set_zero_flag(&mut self, value: bool)
        ensures
            *final(self) == (StatusRegister { zero: value, ..*old(self) }),
    {
        self.zero = value;
    }

    /// Raise InterruptDisable, as interrupt entry does.
    pub fn disable_interrupt(&mut self)
        ensures
            *final(self) == (StatusRegister { interrupt_disable: true, ..*old(self) }),
    {
        self.interrupt_disable = true;
    }
}

/// Unpacking the packed byte restores the flags, for every register value.
pub proof fn lemma_status_bits_round_trip(s: StatusRegister)
    ensures
        from_bits_spec(bits_spec(s)) == s,
{
}

} // verus!
