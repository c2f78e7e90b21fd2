//! Small bit- and address-manipulation helpers shared across the core.

use vstd::prelude::*;

verus! {

/// Access to a single bit of a machine word.
pub trait NthBit: Sized {
    /// Which bit positions exist in the word.
    spec fn valid_bit(bit_n: Self) -> bool;

    /// What `nth_bit` returns.
    spec fn spec_nth_bit(&self, bit_n: Self) -> bool;

    /// True when bit `bit_n` (counting from the least significant) is set.
    fn nth_bit(&self, bit_n: Self) -> (r: bool)
        requires
            Self::valid_bit(bit_n),
        ensures
            r == self.spec_nth_bit(bit_n),
    ;
}

impl NthBit for u8 {
    open spec fn valid_bit(bit_n: u8) -> bool {
        bit_n < 8
    }

    open spec fn spec_nth_bit(&self, bit_n: u8) -> bool {
        *self >> bit_n & 1 == 1
    }

    fn nth_bit(&self, bit_n: u8) -> (r: bool) {
        *self >> bit_n & 1 == 1
    }
}

/// Aliasing rules of the console's address space.
pub trait MirroredAddress: Sized {
    /// What `mirror_cpu_vram_addr` returns.
    spec fn spec_mirror_cpu_vram_addr(&self) -> Self;

    /// What `mirror_ppu_addr` returns.
    spec fn spec_mirror_ppu_addr(&self) -> Self;

    /// Fold a RAM address into the 2KB physical window.
    fn mirror_cpu_vram_addr(&self) -> (r: Self)
        ensures
            r == self.spec_mirror_cpu_vram_addr(),
    ;

    /// Fold an address into the picture unit's 4KB nametable window.
    fn mirror_ppu_addr(&self) -> (r: Self)
        ensures
            r == self.spec_mirror_ppu_addr(),
    ;
}

impl MirroredAddress for u16 {
    open spec fn spec_mirror_cpu_vram_addr(&self) -> u16 {
        (*self % 0x0800) as u16
    }

    open spec fn spec_mirror_ppu_addr(&self) -> u16 {
        (*self % 0x1000 + 0x2000) as u16
    }

    fn mirror_cpu_vram_addr(&self) -> (r: u16) {
        *self % 0x0800
    }

    fn mirror_ppu_addr(&self) -> (r: u16) {
        *self % 0x1000 + 0x2000
    }
}

/// Shift a byte left by one place, discarding the top bit.
pub fn shift_left(value: u8) -> (r: u8)
    ensures
        r == (2 * value) % 256,
{
    value.wrapping_mul(2)
}

/// Shift a byte right by one place, discarding the bottom bit.
pub fn shift_right(value: u8) -> (r: u8)
    ensures
        r == value / 2,
{
    value / 2
}

} // verus!
