//! The picture unit's control register, decoded into its named bits.
//!
//! From bit 0 upward: two base-nametable bits, the VRAM increment select,
//! the sprite pattern bank, the background pattern bank, the sprite size,
//! the master/slave select, and the NMI-enable bit.

use vstd::prelude::*;

verus! {

/// The eight control bits, each held as a named boolean.
#[derive(Debug, Clone, Copy, PartialEq, Eq, Structural)]
pub struct ControlRegister {
    pub nametable1: bool,
    pub nametable2: bool,
    pub vram_addr_increment: bool,
    pub sprite_pattern_addr: bool,
    pub background_pattern_addr: bool,
    pub sprite_size: bool,
    pub master_slave_select: bool,
    pub generate_nmi: bool,
}

/// The register a written byte decodes into.
pub open spec fn control_from_bits(value: u8) -> ControlRegister {
    ControlRegister {
        nametable1: value % 2 == 1,
        nametable2: value / 0x02 % 2 == 1,
        vram_addr_increment: value / 0x04 % 2 == 1,
        sprite_pattern_addr: value / 0x08 % 2 == 1,
        background_pattern_addr: value / 0x10 % 2 == 1,
        sprite_size: value / 0x20 % 2 == 1,
        master_slave_select: value / 0x40 % 2 == 1,
        generate_nmi: value / 0x80 % 2 == 1,
    }
}

impl Default for ControlRegister {
    fn default() -> (r: Self)
        ensures
            r == control_from_bits(0),
    {
        ControlRegister {
            nametable1: false,
            nametable2: false,
            vram_addr_increment: false,
            sprite_pattern_addr: false,
            background_pattern_addr: false,
            sprite_size: false,
            master_slave_select: false,
            generate_nmi: false,
        }
    }
}

impl ControlRegister {
    /// Replace the register with a freshly written byte.
    pub fn update(&mut self, value: u8)
        ensures
            *final(self) == control_from_bits(value),
    {
        *self = ControlRegister {
            nametable1: value % 2 == 1,
            nametable2: value / 0x02 % 2 == 1,
            vram_addr_increment: value / 0x04 % 2 == 1,
            sprite_pattern_addr: value / 0x08 % 2 == 1,
            background_pattern_addr: value / 0x10 % 2 == 1,
            sprite_size: value / 0x20 % 2 == 1,
            master_slave_select: value / 0x40 % 2 == 1,
            generate_nmi: value / 0x80 % 2 == 1,
        };
    }

    /// How far the data port steps the VRAM address: 1 going across, 32
    /// going down.
    pub fn vram_addr_increment(&self) -> (r: u8)
        ensures
            r == (if self.vram_addr_increment {
                32u8
            } else {
                1u8
            }),
    {
        if self.vram_addr_increment {
            32
        } else {
            1
        }
    }

    /// Which pattern bank 8x8 sprites are fetched from.
    pub fn sprite_pattern_address(&self) -> (r: u16)
        ensures
            r == (if self.sprite_pattern_addr {
                0x1000u16
            } else {
                0u16
            }),
    {
        if self.sprite_pattern_addr {
            0x1000
        } else {
            0
        }
    }

    /// The base address of the selected nametable.
    pub fn name_table_address(&self) -> (r: u16)
        ensures
            r == 0x2000 + (if self.nametable1 {
                0x400int
            } else {
                0int
            }) + (if self.nametable2 {
                0x800int
            } else {
                0int
            }),
    {
        let address_lower: u16 = if self.nametable1 {
            0x400
        } else {
            0
        };
        let address_higher: u16 = if self.nametable2 {
            0x800
        } else {
            0
        };

        0x2000 + address_lower + address_higher
    }

    /// Whether an NMI is raised at the start of vertical blanking.
    pub fn is_generating_nmi(&self) -> (r: bool)
        ensures
            r == self.generate_nmi,
    {
        self.generate_nmi
    }
}

} // verus!
