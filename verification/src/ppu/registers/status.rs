//! The picture unit's status register: the three readable flags.
//!
//! Bit 5 reports sprite overflow, bit 6 the sprite-zero hit, and bit 7
//! whether vertical blanking has started. The low bits read as zero.

use vstd::prelude::*;

verus! {

/// The three status flags, each held as a named boolean.
#[derive(Debug, Clone, Copy, PartialEq, Eq, Structural)]
pub struct StatusRegister {
    pub sprite_overflow: bool,
    pub sprite_zero_hit: bool,
    pub vblank_started: bool,
}

/// The byte the status register reads as.
pub open spec fn status_bits_spec(s: StatusRegister) -> u8 {
    ((if s.sprite_overflow { 0x20int } else { 0 }) + (if s.sprite_zero_hit { 0x40int } else { 0 })
        + (if s.vblank_started { 0x80int } else { 0 })) as u8
}

impl Default for StatusRegister {
    fn default() -> (r: Self)
        ensures
            r == (StatusRegister {
                sprite_overflow: false,
                sprite_zero_hit: false,
                vblank_started: false,
            }),
    {
        StatusRegister { sprite_overflow: false, sprite_zero_hit: false, vblank_started: false }
    }
}

impl StatusRegister {
    /// Pack the flags into the byte the CPU reads.
    pub fn bits(&self) -> (r: u8)
        ensures
            r == status_bits_spec(*self),
    {
        (if self.sprite_overflow {
            0x20u8
        } else {
            0
        }) + (if self.sprite_zero_hit {
            0x40u8
        } else {
            0
        }) + (if self.vblank_started {
            0x80u8
        } else {
            0
        })
    }

    /// Set or clear the vblank flag.
    pub fn set_vblank_started(&mut self, value: bool)
        ensures
            *final(self) == (StatusRegister { vblank_started: value, ..*old(self) }),
    {
        self.vblank_started = value;
    }

    /// Set or clear the sprite-zero-hit flag.
    pub fn set_sprite_zero_hit(&mut self, value: bool)
        ensures
            *final(self) == (StatusRegister { sprite_zero_hit: value, ..*old(self) }),
    {
        self.sprite_zero_hit = value;
    }

    /// Set or clear the sprite-overflow flag.
    pub fn set_sprite_overflow(&mut self, value: bool)
        ensures
            *final(self) == (StatusRegister { sprite_overflow: value, ..*old(self) }),
    {
        self.sprite_overflow = value;
    }
}

} // verus!
