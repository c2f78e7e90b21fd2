//! The audio unit's channel-enable status flags.

use vstd::prelude::*;

verus! {

/// The five channel-enable bits, each held as a named boolean.
#[derive(Debug, Clone, Copy, PartialEq, Eq, Structural)]
pub struct ApuFlags {
    pub square_channel_1_enabled: bool,
    pub square_channel_2_enabled: bool,
    pub triangle_channel_enabled: bool,
    pub noise_channel_enabled: bool,
    pub dmc_enabled: bool,
}

/// The flags a written byte decodes into.
pub open spec fn apu_flags_from_bits(value: u8) -> ApuFlags {
    ApuFlags {
        square_channel_1_enabled: value % 2 == 1,
        square_channel_2_enabled: value / 0x02 % 2 == 1,
        triangle_channel_enabled: value / 0x04 % 2 == 1,
        noise_channel_enabled: value / 0x08 % 2 == 1,
        dmc_enabled: value / 0x10 % 2 == 1,
    }
}

/// The byte the flags read back as; the unused top bits read as zero.
pub open spec fn apu_flags_bits_spec(f: ApuFlags) -> u8 {
    ((if f.square_channel_1_enabled { 0x01int } else { 0 }) + (if f.square_channel_2_enabled {
        0x02int
    } else {
        0
    }) + (if f.triangle_channel_enabled { 0x04int } else { 0 }) + (if f.noise_channel_enabled {
        0x08int
    } else {
        0
    }) + (if f.dmc_enabled { 0x10int } else { 0 })) as u8
}

impl Default for ApuFlags {
    fn default() -> (r: Self)
        ensures
            r == apu_flags_from_bits(0),
    {
        ApuFlags {
            square_channel_1_enabled: false,
            square_channel_2_enabled: false,
            triangle_channel_enabled: false,
            noise_channel_enabled: false,
            dmc_enabled: false,
        }
    }
}

impl ApuFlags {
    /// Unpack a written byte.
    pub fn from_bits(value: u8) -> (r: Self)
        ensures
            r == apu_flags_from_bits(value),
    {
        ApuFlags {
            square_channel_1_enabled: value % 2 == 1,
            square_channel_2_enabled: value / 0x02 % 2 == 1,
            triangle_channel_enabled: value / 0x04 % 2 == 1,
            noise_channel_enabled: value / 0x08 % 2 == 1,
            dmc_enabled: value / 0x10 % 2 == 1,
        }
    }

    /// Pack the flags into the byte the CPU reads.
    pub fn bits(&self) -> (r: u8)
        ensures
            r == apu_flags_bits_spec(*self),
    {
        (if self.square_channel_1_enabled {
            0x01u8
        } else {
            0
        }) + (if self.square_channel_2_enabled {
            0x02u8
        } else {
            0
        }) + (if self.triangle_channel_enabled {
            0x04u8
        } else {
            0
        }) + (if self.noise_channel_enabled {
            0x08u8
        } else {
            0
        }) + (if self.dmc_enabled {
            0x10u8
        } else {
            0
        })
    }
}

} // verus!
