//! The picture unit's five programmer-visible registers and its sprite
//! memory, gathered behind one facade.

pub mod address;
pub mod control;
pub mod mask;
pub mod oam;
pub mod scroll;
pub mod status;

pub use address::AddressRegister;
pub use control::ControlRegister;
pub use mask::MaskRegister;
pub use oam::{Oam, SpriteData};
pub use scroll::ScrollRegister;
pub use status::StatusRegister;

use vstd::prelude::*;

verus! {

/// The register file: address, control, mask, scroll and status registers,
/// plus the sprite memory and its port address.
#[derive(Debug, Clone, Copy)]
pub struct PpuRegisters {
    pub address: AddressRegister,
    pub control: ControlRegister,
    pub mask: MaskRegister,
    pub scroll: ScrollRegister,
    pub status: StatusRegister,
    pub oam: Oam,
}

impl Default for PpuRegisters {
    fn default() -> (r: Self)
        ensures
            r.address == (AddressRegister { high: 0, low: 0, hi_ptr: true }),
            r.control == control::control_from_bits(0),
            r.mask == mask::mask_from_bits(0),
            r.scroll == (ScrollRegister { scroll_x: 0, scroll_y: 0, latch: false }),
            r.status == (StatusRegister {
                sprite_overflow: false,
                sprite_zero_hit: false,
                vblank_started: false,
            }),
            r.oam.address == 0,
            forall|i: int| 0 <= i < 256 ==> oam::oam_byte_at(r.oam, i) == 0,
    {
        Self {
            address: AddressRegister::default(),
            control: ControlRegister::default(),
            mask: MaskRegister::default(),
            scroll: ScrollRegister::default(),
            status: StatusRegister::default(),
            oam: Oam::default(),
        }
    }
}

impl PpuRegisters {
    /// The VRAM address the address latch currently forms.
    pub fn read_address(&self) -> (r: u16)
        ensures
            r == address::get_spec(self.address),
    {
        self.address.get()
    }

    /// The sprite-memory byte at the current port address.
    pub fn read_oam_data(&self) -> (r: u8)
        ensures
            r == oam::oam_byte_at(self.oam, self.oam.address as int),
    {
        self.oam.read()
    }

    /// The whole sprite table, in index order.
    pub fn read_oam_dma(&self) -> (r: &[SpriteData; 64])
        ensures
            r == &self.oam.sprites,
    {
        self.oam.read_all()
    }

    /// Read the status byte; the read clears the vblank flag and resets both
    /// write toggles.
    pub fn read_status(&mut self) -> (r: u8)
        ensures
            r == status::status_bits_spec(old(self).status),
            *final(self) == (PpuRegisters {
                status: StatusRegister { vblank_started: false, ..old(self).status },
                address: AddressRegister { hi_ptr: true, ..old(self).address },
                scroll: ScrollRegister { latch: false, ..old(self).scroll },
                ..*old(self)
            }),
    {
        let status = self.status.bits();

        self.status.set_vblank_started(false);
        self.address.reset_latch();
        self.scroll.reset_latch();

        status
    }

    /// Which pattern bank 8x8 sprites are fetched from.
    pub fn read_sprite_pattern_address(&self) -> (r: u16)
        ensures
            r == (if self.control.sprite_pattern_addr {
                0x1000u16
            } else {
                0u16
            }),
    {
        self.control.sprite_pattern_address()
    }

    /// Latch one byte of the VRAM address.
    pub fn write_address(&mut self, value: u8)
        ensures
            *final(self) == (PpuRegisters {
                address: address::update_spec(old(self).address, value),
                ..*old(self)
            }),
    {
        self.address.update(value);
    }

    /// Replace the control register.
    pub fn write_control(&mut self, value: u8)
        ensures
            *final(self) == (PpuRegisters {
                control: control::control_from_bits(value),
                ..*old(self)
            }),
    {
        self.control.update(value);
    }

    /// Replace the mask register.
    pub fn write_mask(&mut self, value: u8)
        ensures
            *final(self) == (PpuRegisters { mask: mask::mask_from_bits(value), ..*old(self) }),
    {
        self.mask.update(value);
    }

    /// Aim the sprite-memory port at a byte offset.
    pub fn write_oam_address(&mut self, value: u8)
        ensures
            *final(self) == (PpuRegisters {
                oam: Oam { address: value, ..old(self).oam },
                ..*old(self)
            }),
    {
        self.oam.write_address(value);
    }

    /// Store one sprite-memory byte and advance the port address.
    pub fn write_oam_data(&mut self, value: u8)
        ensures
            final(self).oam == oam::oam_write_spec(old(self).oam, value),
            final(self).oam.address == (old(self).oam.address + 1) % 256,
            oam::oam_byte_at(final(self).oam, old(self).oam.address as int) == value,
            forall|i: int|
                0 <= i < 256 && i != old(self).oam.address ==> oam::oam_byte_at(
                    final(self).oam,
                    i,
                ) == oam::oam_byte_at(old(self).oam, i),
            *final(self) == (PpuRegisters { oam: final(self).oam, ..*old(self) }),
    {
        self.oam.write(value);
    }

    /// Store a full page of sprite-memory bytes starting at the current port
    /// address.
    pub fn write_oam_dma(&mut self, buffer: &[u8])
        requires
            buffer@.len() == 256,
        ensures
            final(self).oam.address == old(self).oam.address,
            forall|k: int|
                0 <= k < 256 ==> oam::oam_byte_at(
                    final(self).oam,
                    (old(self).oam.address + k) % 256,
                ) == buffer@[k],
            *final(self) == (PpuRegisters { oam: final(self).oam, ..*old(self) }),
    {
        self.oam.write_all(buffer);
    }

    /// Latch one byte of the scroll position.
    pub fn write_scroll(&mut self, value: u8)
        ensures
            *final(self) == (PpuRegisters {
                scroll: if old(self).scroll.latch {
                    ScrollRegister { scroll_y: value, latch: false, ..old(self).scroll }
                } else {
                    ScrollRegister { scroll_x: value, latch: true, ..old(self).scroll }
                },
                ..*old(self)
            }),
    {
        self.scroll.write(value);
    }

    /// Raise the vblank flag.
    pub fn set_vblank(&mut self)
        ensures
            *final(self) == (PpuRegisters {
                status: StatusRegister { vblank_started: true, ..old(self).status },
                ..*old(self)
            }),
    {
        self.status.set_vblank_started(true);
    }

    /// Clear the vblank flag.
    pub fn reset_vblank(&mut self)
        ensures
            *final(self) == (PpuRegisters {
                status: StatusRegister { vblank_started: false, ..old(self).status },
                ..*old(self)
            }),
    {
        self.status.set_vblank_started(false);
    }

    /// Latch the sprite-zero-hit flag.
    pub fn set_sprite_zero_hit(&mut self)
        ensures
            *final(self) == (PpuRegisters {
                status: StatusRegister { sprite_zero_hit: true, ..old(self).status },
                ..*old(self)
            }),
    {
        self.status.set_sprite_zero_hit(true);
    }

    /// Clear the sprite-zero-hit flag.
    pub fn reset_sprite_zero_hit(&mut self)
        ensures
            *final(self) == (PpuRegisters {
                status: StatusRegister { sprite_zero_hit: false, ..old(self).status },
                ..*old(self)
            }),
    {
        self.status.set_sprite_zero_hit(false);
    }

    /// Whether an NMI is raised at the start of vertical blanking.
    pub fn is_generating_nmi(&self) -> (r: bool)
        ensures
            r == self.control.generate_nmi,
    {
        self.control.is_generating_nmi()
    }

    /// Whether the vblank flag is currently up.
    pub fn is_in_vblank(&self) -> (r: bool)
        ensures
            r == self.status.vblank_started,
    {
        self.status.vblank_started
    }

    /// Which pattern bank background tiles are fetched from.
    pub fn background_pattern_address(&self) -> (r: u16)
        ensures
            r == (if self.control.background_pattern_addr {
                0x1000u16
            } else {
                0u16
            }),
    {
        if self.control.background_pattern_addr {
            0x1000
        } else {
            0
        }
    }

    /// Step the VRAM address by the stride the control register selects.
    pub fn increment_vram_address(&mut self)
        ensures
            *final(self) == (PpuRegisters {
                address: address::increment_spec(
                    old(self).address,
                    if old(self).control.vram_addr_increment {
                        32u8
                    } else {
                        1u8
                    },
                ),
                ..*old(self)
            }),
    {
        let step = self.control.vram_addr_increment();
        self.address.increment(step);
    }

    /// The base address of the selected nametable.
    pub fn read_name_table_address(&self) -> (r: u16)
        ensures
            r == 0x2000 + (if self.control.nametable1 {
                0x400int
            } else {
                0int
            }) + (if self.control.nametable2 {
                0x800int
            } else {
                0int
            }),
    {
        self.control.name_table_address()
    }

    /// The latched horizontal scroll.
    pub fn read_scroll_x(&self) -> (r: u8)
        ensures
            r == self.scroll.scroll_x,
    {
        self.scroll.scroll_x
    }

    /// The latched vertical scroll.
    pub fn read_scroll_y(&self) -> (r: u8)
        ensures
            r == self.scroll.scroll_y,
    {
        self.scroll.scroll_y
    }

    /// Whether the sprite layer is drawn.
    pub fn show_sprites(&self) -> (r: bool)
        ensures
            r == self.mask.show_sprites,
    {
        self.mask.show_sprites()
    }

    /// Whether the background layer is drawn.
    pub fn show_background(&self) -> (r: bool)
        ensures
            r == self.mask.show_background,
    {
        self.mask.show_background()
    }
}

} // verus!
