//! The picture-generation unit: its memories, registers, and the
//! scanline/cycle state machine that raises the vblank interrupt.

pub mod nmi_status;
pub mod registers;

pub use nmi_status::NmiStatus;

use crate::cartridge::MirroringType;
use crate::errors::{EmulatorError, MemoryAccessError};
use crate::ppu::registers::address::{get_spec, increment_spec};
use crate::ppu::registers::control::control_from_bits;
use crate::ppu::registers::{AddressRegister, PpuRegisters, ScrollRegister};
use crate::ppu::registers::status::StatusRegister;
use vstd::prelude::*;
use vstd::slice::slice_to_vec;

verus! {

/// Bytes of nametable RAM the unit owns.
pub const VRAM_SIZE: usize = 2048;

/// Bytes of palette memory the unit owns.
pub const PALETTE_TABLE_SIZE: usize = 32;

/// Cycles in one scanline.
pub const CYCLES_PER_SCANLINE: usize = 341;

/// The scanline on which vertical blanking starts.
pub const VBLANK_SCANLINE: u16 = 241;

/// The scanline count at which the frame wraps.
pub const SCANLINES_PER_FRAME: u16 = 262;

/// The picture unit's full state.
#[derive(Debug, Clone)]
pub struct Ppu {
    /// Pattern tables: the game's graphics, read from the cartridge.
    pub chr_rom: Vec<u8>,
    /// Palette memory used by the screen.
    pub palette_table: [u8; 32],
    /// 2KB of nametable RAM holding background information.
    pub vram: [u8; 2048],
    /// The nametable arrangement, fixed by the cartridge.
    pub mirroring: MirroringType,
    /// The programmer-visible registers and the sprite memory.
    pub registers: PpuRegisters,
    /// The scanline the clock stands on, 0 to 261.
    pub scanline: u16,
    /// Cycles accumulated within the current scanline.
    pub cycles: usize,
    /// The edge-triggered interrupt signal.
    pub nmi_interrupt: NmiStatus,
    /// The latch that buffers data-port reads.
    pub internal_data_buffer: u8,
}

/// The state the clock and latches may legally stand in: the cycle counter
/// below one scanline, the scanline within the frame, the address latch
/// inside the mappable window, and the vblank flag only up inside the
/// vblank region.
pub open spec fn ppu_wf(p: Ppu) -> bool {
    &&& p.cycles < CYCLES_PER_SCANLINE
    &&& p.scanline < SCANLINES_PER_FRAME
    &&& get_spec(p.registers.address) <= 0x3fff
    &&& (p.registers.status.vblank_started ==> VBLANK_SCANLINE <= p.scanline)
}

/// Where a nametable address lands inside the 2KB of physical VRAM, by the
/// arrangement table: each of the four logical nametables is either the
/// first or the second physical table. Four-screen layouts are folded into
/// the same 2KB window this unit owns.
pub open spec fn mirror_vram_spec(mirroring: MirroringType, addr: u16) -> int {
    let idx = addr % 0x1000;
    let name_table = idx / 0x400;
    if mirroring == MirroringType::FourScreen {
        (idx % 0x800) as int
    } else if mirroring == MirroringType::Vertical && (name_table == 2 || name_table == 3) {
        idx - 0x800
    } else if mirroring == MirroringType::Horizontal && (name_table == 1 || name_table == 2) {
        idx - 0x400
    } else if mirroring == MirroringType::Horizontal && name_table == 3 {
        idx - 0x800
    } else {
        idx as int
    }
}

/// Where a palette address lands inside the 32 bytes of palette memory:
/// folded modulo 32, with the four documented mirror pairs folded down.
pub open spec fn palette_index_spec(addr: u16) -> int {
    let off = (addr - 0x3f00) % 32;
    if off == 0x10 || off == 0x14 || off == 0x18 || off == 0x1c {
        off - 0x10
    } else {
        off as int
    }
}

/// The unit after its VRAM address auto-increments by the stride the
/// control register selects.
pub open spec fn incremented_spec(p: Ppu) -> Ppu {
    Ppu {
        registers: PpuRegisters {
            address: increment_spec(
                p.registers.address,
                if p.registers.control.vram_addr_increment {
                    32u8
                } else {
                    1u8
                },
            ),
            ..p.registers
        },
        ..p
    }
}

/// What one write to the data port does: the value lands in VRAM or palette
/// memory (mirrored), pattern tables are read-only, the in-between window is
/// unmapped, and a successful write auto-increments the address.
#[verifier::opaque]
pub open spec fn ppu_data_write_spec(p: Ppu, value: u8) -> Result<Ppu, EmulatorError> {
    let addr = get_spec(p.registers.address);
    if addr < 0x2000 {
        Err(EmulatorError::MemoryAccess(MemoryAccessError::WriteToReadOnly(addr)))
    } else if addr < 0x3000 {
        Ok(
            incremented_spec(
                Ppu { vram: vstd::array::spec_array_update(p.vram, mirror_vram_spec(p.mirroring, addr), value), ..p },
            ),
        )
    } else if addr < 0x3f00 {
        Err(EmulatorError::MemoryAccess(MemoryAccessError::InvalidPpuAddress(addr)))
    } else {
        Ok(
            incremented_spec(
                Ppu { palette_table: vstd::array::spec_array_update(p.palette_table, palette_index_spec(addr), value), ..p },
            ),
        )
    }
}

/// What one read of the data port does: pattern-table and VRAM reads return
/// the previous latched byte and refill the latch; palette reads are
/// immediate; either way the address auto-increments first.
#[verifier::opaque]
pub open spec fn ppu_data_read_spec(p: Ppu) -> Result<(u8, Ppu), EmulatorError> {
    let addr = get_spec(p.registers.address);
    let stepped = incremented_spec(p);
    if addr < 0x2000 {
        Ok((p.internal_data_buffer, Ppu { internal_data_buffer: p.chr_rom@[addr as int], ..stepped }))
    } else if addr < 0x3000 {
        Ok(
            (
                p.internal_data_buffer,
                Ppu {
                    internal_data_buffer: p.vram@[mirror_vram_spec(p.mirroring, addr)],
                    ..stepped
                },
            ),
        )
    } else if addr < 0x3f00 {
        Err(EmulatorError::MemoryAccess(MemoryAccessError::InvalidPpuAddress(addr)))
    } else {
        Ok((p.palette_table@[palette_index_spec(addr)], stepped))
    }
}

/// The unit after one byte is stored through the sprite-memory data port.
pub open spec fn oam_data_write_spec(p: Ppu, value: u8) -> Ppu {
    Ppu {
        registers: PpuRegisters {
            oam: registers::oam::oam_write_spec(p.registers.oam, value),
            ..p.registers
        },
        ..p
    }
}

/// Whether a unit is in its power-on state, holding the given graphics and
/// arrangement.
pub open spec fn ppu_is_new(p: Ppu, chr_rom: Seq<u8>, mirroring: MirroringType) -> bool {
    &&& p.chr_rom@ == chr_rom
    &&& p.mirroring == mirroring
    &&& p.palette_table@ == Seq::new(32, |i: int| 0u8)
    &&& p.vram@ == Seq::new(2048, |i: int| 0u8)
    &&& p.scanline == 0
    &&& p.cycles == 0
    &&& p.nmi_interrupt == NmiStatus::Inactive
    &&& p.internal_data_buffer == 0
    &&& p.registers.address == (AddressRegister { high: 0, low: 0, hi_ptr: true })
    &&& p.registers.control == control_from_bits(0)
    &&& p.registers.scroll == (ScrollRegister { scroll_x: 0, scroll_y: 0, latch: false })
    &&& p.registers.oam.address == 0
    &&& !p.registers.status.vblank_started
    &&& !p.registers.status.sprite_zero_hit
}

/// Whether sprite zero touches the current scanline and cycle while sprites
/// are visible.
pub open spec fn sprite_zero_hit_spec(p: Ppu) -> bool {
    &&& p.registers.oam.sprites@[0].y == p.scanline
    &&& p.registers.oam.sprites@[0].x <= p.cycles
    &&& p.registers.mask.show_sprites
}

/// What advancing the clock does: cycles accumulate; the sprite-zero test
/// latches its flag; at the end of a scanline the counter rolls over; on
/// scanline 241 the vblank flag rises and, if enabled, the interrupt; at the
/// end of the frame everything is cleared and the signal forced inactive.
#[verifier::opaque]
pub open spec fn ppu_tick_spec(p: Ppu, cycles: u8) -> Ppu {
    let accumulated = Ppu { cycles: (p.cycles + cycles) as usize, ..p };
    let hit = Ppu {
        registers: PpuRegisters {
            status: StatusRegister {
                sprite_zero_hit: p.registers.status.sprite_zero_hit || sprite_zero_hit_spec(
                    accumulated,
                ),
                ..p.registers.status
            },
            ..p.registers
        },
        ..accumulated
    };
    if hit.cycles >= CYCLES_PER_SCANLINE {
        let rolled = Ppu {
            cycles: (hit.cycles - CYCLES_PER_SCANLINE) as usize,
            scanline: (hit.scanline + 1) as u16,
            ..hit
        };
        if rolled.scanline == VBLANK_SCANLINE {
            Ppu {
                registers: PpuRegisters {
                    status: StatusRegister { vblank_started: true, ..rolled.registers.status },
                    ..rolled.registers
                },
                nmi_interrupt: if rolled.registers.control.generate_nmi {
                    NmiStatus::Active
                } else {
                    rolled.nmi_interrupt
                },
                ..rolled
            }
        } else if rolled.scanline == SCANLINES_PER_FRAME {
            Ppu {
                scanline: 0,
                nmi_interrupt: NmiStatus::Inactive,
                registers: PpuRegisters {
                    status: StatusRegister {
                        vblank_started: false,
                        sprite_zero_hit: false,
                        ..rolled.registers.status
                    },
                    ..rolled.registers
                },
                ..rolled
            }
        } else {
            rolled
        }
    } else {
        hit
    }
}

/// What a control-register write does: the register is replaced, and if the
/// NMI-enable bit rises while the unit is already in vblank, the interrupt
/// signal rises immediately.
pub open spec fn ppu_write_control_spec(p: Ppu, value: u8) -> Ppu {
    let updated = Ppu {
        registers: PpuRegisters { control: control_from_bits(value), ..p.registers },
        ..p
    };
    if !p.registers.control.generate_nmi && updated.registers.control.generate_nmi
        && p.registers.status.vblank_started {
        Ppu { nmi_interrupt: NmiStatus::Active, ..updated }
    } else {
        updated
    }
}

/// What reading the status register does: the byte handed back, with the
/// vblank flag cleared and both write toggles reset afterwards.
pub open spec fn ppu_read_status_spec(p: Ppu) -> (Ppu, u8) {
    (
        Ppu {
            registers: PpuRegisters {
                status: StatusRegister { vblank_started: false, ..p.registers.status },
                address: AddressRegister { hi_ptr: true, ..p.registers.address },
                scroll: ScrollRegister { latch: false, ..p.registers.scroll },
                ..p.registers
            },
            ..p
        },
        registers::status::status_bits_spec(p.registers.status),
    )
}

impl Ppu {
    /// A freshly powered-on unit holding the cartridge's graphics.
    pub fn new(chr_rom: &[u8], mirroring: MirroringType) -> (r: Self)
        ensures
            r.chr_rom@ == chr_rom@,
            r.mirroring == mirroring,
            r.palette_table@ == Seq::new(32, |i: int| 0u8),
            r.vram@ == Seq::new(2048, |i: int| 0u8),
            r.scanline == 0,
            r.cycles == 0,
            r.nmi_interrupt == NmiStatus::Inactive,
            r.internal_data_buffer == 0,
            r.registers.address == (AddressRegister { high: 0, low: 0, hi_ptr: true }),
            r.registers.control == control_from_bits(0),
            r.registers.scroll == (ScrollRegister { scroll_x: 0, scroll_y: 0, latch: false }),
            !r.registers.status.vblank_started,
            !r.registers.status.sprite_zero_hit,
            ppu_is_new(r, chr_rom@, mirroring),
            ppu_wf(r),
    {
        let r = Self {
            chr_rom: slice_to_vec(chr_rom),
            palette_table: [0; 32],
            vram: [0; 2048],
            mirroring,
            registers: PpuRegisters::default(),
            cycles: 0,
            scanline: 0,
            nmi_interrupt: NmiStatus::Inactive,
            internal_data_buffer: 0,
        };
        proof {
            assert(r.palette_table@ =~= Seq::new(32, |i: int| 0u8));
            assert(r.vram@ =~= Seq::new(2048, |i: int| 0u8));
        }
        r
    }

    /// Advance the clock by `cycles` picture-unit cycles and report the
    /// interrupt signal afterwards.
    pub fn tick(&mut self, cycles: u8) -> (r: NmiStatus)
        requires
            ppu_wf(*old(self)),
        ensures
            *final(self) == ppu_tick_spec(*old(self), cycles),
            r == final(self).nmi_interrupt,
            final(self).chr_rom == old(self).chr_rom,
            final(self).mirroring == old(self).mirroring,
            final(self).vram == old(self).vram,
            final(self).palette_table == old(self).palette_table,
            final(self).registers.oam == old(self).registers.oam,
            final(self).registers.control == old(self).registers.control,
            final(self).registers.mask == old(self).registers.mask,
            final(self).registers.address == old(self).registers.address,
            final(self).registers.scroll == old(self).registers.scroll,
            ppu_wf(*final(self)),
    {
        proof {
            reveal(ppu_tick_spec);
        }
        self.cycles += cycles as usize;

        if self.is_sprite_zero_hit() {
            self.registers.set_sprite_zero_hit();
        }

        if self.cycles >= CYCLES_PER_SCANLINE {
            self.cycles -= CYCLES_PER_SCANLINE;
            self.scanline += 1;

            if self.scanline == VBLANK_SCANLINE {
                self.registers.set_vblank();
                if self.registers.is_generating_nmi() {
                    self.nmi_interrupt = NmiStatus::Active;
                }
            }

            if self.scanline == SCANLINES_PER_FRAME {
                self.scanline = 0;
                self.nmi_interrupt = NmiStatus::Inactive;
                self.registers.reset_vblank();
                self.registers.reset_sprite_zero_hit();
            }
        }

        self.nmi_interrupt
    }

    /// Whether sprite zero touches the current scanline and cycle while
    /// sprites are visible.
    fn is_sprite_zero_hit(&self) -> (r: bool)
        ensures
            r == sprite_zero_hit_spec(*self),
    {
        let sprites = self.registers.read_oam_dma();
        let y = sprites[0].y as u16;
        let x = sprites[0].x as usize;

        y == self.scanline && x <= self.cycles && self.registers.show_sprites()
    }

    /// Step the VRAM address by the stride the control register selects.
    pub fn increment_vram_address(&mut self)
        ensures
            *final(self) == incremented_spec(*old(self)),
    {
        self.registers.increment_vram_address();
    }

    /// Read the status register; the read clears the vblank flag and resets
    /// both write toggles.
    pub fn read_status_register(&mut self) -> (r: u8)
        ensures
            *final(self) == ppu_read_status_spec(*old(self)).0,
            r == ppu_read_status_spec(*old(self)).1,
    {
        self.registers.read_status()
    }

    /// The sprite-memory byte at the current port address.
    pub fn read_oam_data(&self) -> (r: u8)
        ensures
            r == registers::oam::oam_byte_at(self.registers.oam, self.registers.oam.address as int),
    {
        self.registers.read_oam_data()
    }

    /// Which pattern bank 8x8 sprites are fetched from.
    pub fn read_sprite_pattern_address(&self) -> (r: u16)
        ensures
            r == (if self.registers.control.sprite_pattern_addr {
                0x1000u16
            } else {
                0u16
            }),
    {
        self.registers.read_sprite_pattern_address()
    }

    /// Latch one byte of the VRAM address.
    pub fn write_to_addr_register(&mut self, value: u8)
        ensures
            *final(self) == (Ppu {
                registers: PpuRegisters {
                    address: registers::address::update_spec(old(self).registers.address, value),
                    ..old(self).registers
                },
                ..*old(self)
            }),
    {
        self.registers.write_address(value);
    }

    /// Write the control register, raising the interrupt signal immediately
    /// when the NMI-enable bit rises during vblank.
    pub fn write_to_control_register(&mut self, value: u8)
        ensures
            *final(self) == ppu_write_control_spec(*old(self), value),
    {
        let before = self.registers.is_generating_nmi();
        self.registers.write_control(value);
        let after = self.registers.is_generating_nmi();

        if !before && after && self.registers.is_in_vblank() {
            self.nmi_interrupt = NmiStatus::Active;
        }
    }

    /// Write the mask register.
    pub fn write_to_mask_register(&mut self, value: u8)
        ensures
            *final(self) == (Ppu {
                registers: PpuRegisters {
                    mask: registers::mask::mask_from_bits(value),
                    ..old(self).registers
                },
                ..*old(self)
            }),
    {
        self.registers.write_mask(value);
    }

    /// Aim the sprite-memory port at a byte offset.
    pub fn write_to_oam_address_register(&mut self, value: u8)
        ensures
            *final(self) == (Ppu {
                registers: PpuRegisters {
                    oam: registers::Oam { address: value, ..old(self).registers.oam },
                    ..old(self).registers
                },
                ..*old(self)
            }),
    {
        self.registers.write_oam_address(value);
    }

    /// Store one sprite-memory byte and advance the port address.
    pub fn write_to_oam_data(&mut self, value: u8)
        ensures
            *final(self) == oam_data_write_spec(*old(self), value),
            final(self).registers.oam.address == (old(self).registers.oam.address + 1) % 256,
            registers::oam::oam_byte_at(
                final(self).registers.oam,
                old(self).registers.oam.address as int,
            ) == value,
            forall|i: int|
                0 <= i < 256 && i != old(self).registers.oam.address ==> registers::oam::oam_byte_at(
                    final(self).registers.oam,
                    i,
                ) == registers::oam::oam_byte_at(old(self).registers.oam, i),
            *final(self) == (Ppu {
                registers: PpuRegisters {
                    oam: final(self).registers.oam,
                    ..old(self).registers
                },
                ..*old(self)
            }),
    {
        self.registers.write_oam_data(value);
    }

    /// Hand the sprite memory a full page of bytes at once.
    pub fn write_to_oam_dma(&mut self, buffer: &[u8; 256])
        ensures
            final(self).registers.oam.address == old(self).registers.oam.address,
            forall|k: int|
                0 <= k < 256 ==> registers::oam::oam_byte_at(
                    final(self).registers.oam,
                    (old(self).registers.oam.address + k) % 256,
                ) == buffer@[k],
            *final(self) == (Ppu {
                registers: PpuRegisters {
                    oam: final(self).registers.oam,
                    ..old(self).registers
                },
                ..*old(self)
            }),
    {
        self.registers.write_oam_dma(vstd::array::array_as_slice(buffer));
    }

    /// Latch one byte of the scroll position.
    pub fn write_to_scroll_register(&mut self, value: u8)
        ensures
            *final(self) == (Ppu {
                registers: PpuRegisters {
                    scroll: if old(self).registers.scroll.latch {
                        ScrollRegister {
                            scroll_y: value,
                            latch: false,
                            ..old(self).registers.scroll
                        }
                    } else {
                        ScrollRegister { scroll_x: value, latch: true, ..old(self).registers.scroll }
                    },
                    ..old(self).registers
                },
                ..*old(self)
            }),
    {
        self.registers.write_scroll(value);
    }

    /// Write one byte through the data port to the address the latch forms.
    pub fn write(&mut self, value: u8) -> (r: Result<(), EmulatorError>)
        requires
            ppu_wf(*old(self)),
        ensures
            match ppu_data_write_spec(*old(self), value) {
                Ok(p2) => r == Ok::<(), EmulatorError>(()) && *final(self) == p2,
                Err(e) => r == Err::<(), EmulatorError>(e) && *final(self) == *old(self),
            },
            final(self).chr_rom == old(self).chr_rom,
            final(self).mirroring == old(self).mirroring,
            final(self).scanline == old(self).scanline,
            final(self).cycles == old(self).cycles,
            final(self).nmi_interrupt == old(self).nmi_interrupt,
            final(self).registers.status == old(self).registers.status,
            ppu_wf(*final(self)),
    {
        proof {
            reveal(ppu_data_write_spec);
        }
        let addr = self.registers.read_address();

        if addr < 0x2000 {
            return Err(EmulatorError::MemoryAccess(MemoryAccessError::WriteToReadOnly(addr)));
        } else if addr < 0x3000 {
            let mirrored_addr = self.mirror_vram_addr(addr);
            self.vram[mirrored_addr as usize] = value;
        } else if addr < 0x3f00 {
            return Err(EmulatorError::MemoryAccess(MemoryAccessError::InvalidPpuAddress(addr)));
        } else {
            let offset = palette_offset(addr);
            self.palette_table[offset] = value;
        }

        self.increment_vram_address();

        Ok(())
    }

    /// Read one byte through the data port from the address the latch forms.
    pub fn read(&mut self) -> (r: Result<u8, EmulatorError>)
        requires
            ppu_wf(*old(self)),
            get_spec(old(self).registers.address) < 0x2000 ==> old(self).chr_rom@.len() >= 0x2000,
        ensures
            match ppu_data_read_spec(*old(self)) {
                Ok((value, p2)) => r == Ok::<u8, EmulatorError>(value) && *final(self) == p2,
                Err(e) => r == Err::<u8, EmulatorError>(e) && *final(self) == incremented_spec(
                    *old(self),
                ),
            },
            final(self).chr_rom == old(self).chr_rom,
            final(self).mirroring == old(self).mirroring,
            final(self).scanline == old(self).scanline,
            final(self).cycles == old(self).cycles,
            final(self).nmi_interrupt == old(self).nmi_interrupt,
            final(self).registers.status == old(self).registers.status,
            final(self).vram == old(self).vram,
            final(self).palette_table == old(self).palette_table,
            ppu_wf(*final(self)),
    {
        proof {
            reveal(ppu_data_read_spec);
        }
        let addr = self.registers.read_address();
        self.increment_vram_address();

        if addr < 0x2000 {
            let result = self.internal_data_buffer;
            self.internal_data_buffer = self.chr_rom[addr as usize];

            Ok(result)
        } else if addr < 0x3000 {
            let result = self.internal_data_buffer;
            let mirrored_addr = self.mirror_vram_addr(addr);
            self.internal_data_buffer = self.vram[mirrored_addr as usize];

            Ok(result)
        } else if addr < 0x3f00 {
            Err(EmulatorError::MemoryAccess(MemoryAccessError::InvalidPpuAddress(addr)))
        } else {
            let offset = palette_offset(addr);
            Ok(self.palette_table[offset])
        }
    }

    /// Where a nametable address lands inside the 2KB of physical VRAM.
    pub fn mirror_vram_addr(&self, addr: u16) -> (r: u16)
        ensures
            r == mirror_vram_spec(self.mirroring, addr),
            r < 0x800,
    {
        let idx = addr % 0x1000;
        let name_table = idx / 0x400;

        match self.mirroring {
            MirroringType::FourScreen => idx % 0x800,
            MirroringType::Vertical => {
                if name_table == 2 || name_table == 3 {
                    idx - 0x800
                } else {
                    idx
                }
            },
            MirroringType::Horizontal => {
                if name_table == 1 || name_table == 2 {
                    idx - 0x400
                } else if name_table == 3 {
                    idx - 0x800
                } else {
                    idx
                }
            },
        }
    }
}

/// Where a palette address lands inside the 32 bytes of palette memory.
fn palette_offset(addr: u16) -> (r: usize)
    requires
        addr >= 0x3f00,
    ensures
        r == palette_index_spec(addr),
        r < 32,
{
    let off = ((addr - 0x3f00) % 32) as usize;
    if off == 0x10 || off == 0x14 || off == 0x18 || off == 0x1c {
        off - 0x10
    } else {
        off
    }
}


/// Advancing the clock raises the interrupt signal only on a rising edge of
/// the conjunction of vblank and NMI-enabled: the conjunction was false
/// before the tick and holds afterwards.
pub proof fn lemma_tick_raises_only_on_rising_edge(p: Ppu, cycles: u8)
    requires
        ppu_wf(p),
    ensures
        ({
            let p2 = ppu_tick_spec(p, cycles);
            (p.nmi_interrupt != NmiStatus::Active && p2.nmi_interrupt == NmiStatus::Active) ==> {
                &&& !(p.registers.status.vblank_started && p.registers.control.generate_nmi)
                &&& p2.registers.status.vblank_started && p2.registers.control.generate_nmi
            }
        }),
{
    reveal(ppu_tick_spec);
}

/// A control-register write raises the interrupt signal only on a rising
/// edge of the conjunction of vblank and NMI-enabled; and writing the
/// enable bit again while it is already set leaves the signal exactly as it
/// was, so toggling it twice during one vblank cannot fire twice.
pub proof fn lemma_control_write_raises_only_on_rising_edge(p: Ppu, value: u8)
    ensures
        ({
            let p2 = ppu_write_control_spec(p, value);
            &&& ((p.nmi_interrupt != NmiStatus::Active && p2.nmi_interrupt == NmiStatus::Active)
                ==> {
                &&& !(p.registers.status.vblank_started && p.registers.control.generate_nmi)
                &&& p2.registers.status.vblank_started && p2.registers.control.generate_nmi
            })
            &&& (p.registers.control.generate_nmi ==> p2.nmi_interrupt == p.nmi_interrupt)
        }),
{
}

/// Wrapping the frame always forces the interrupt signal inactive, so the
/// next activation is detectable as a rising edge.
pub proof fn lemma_frame_wrap_clears_signal(p: Ppu, cycles: u8)
    requires
        ppu_wf(p),
    ensures
        ({
            let p2 = ppu_tick_spec(p, cycles);
            p2.scanline == 0 && p.scanline != 0 ==> p2.nmi_interrupt == NmiStatus::Inactive
                && !p2.registers.status.vblank_started
        }),
{
    reveal(ppu_tick_spec);
}

} // verus!
