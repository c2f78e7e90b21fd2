//! The memory bus: the single authority for every CPU memory access.
//!
//! It decodes each 16-bit address into RAM, a picture-unit register, an
//! audio register, the sprite-DMA trigger, the joypad port or cartridge
//! program ROM, forwards CPU clock ticks to the picture unit (three picture
//! cycles per CPU cycle), and hands control to the host exactly once per
//! video frame.

use crate::apu::{apu_flags, Apu};
use crate::cartridge::mappers::{Mapper, MapperKind};
use crate::cartridge::Rom;
use crate::errors::{EmulatorError, MemoryAccessError};
use crate::input::joypad::{joypad_read_spec, Joypad};
use crate::ppu::{
    ppu_data_read_spec, ppu_data_write_spec, ppu_read_status_spec, ppu_tick_spec,
    ppu_write_control_spec, ppu_wf, NmiStatus, Ppu,
};
use vstd::prelude::*;

verus! {

/// Bytes of CPU RAM the bus owns.
pub const VRAM_SIZE: usize = 2048;

/// A host capability the bus invokes synchronously, exactly once per vblank
/// rising edge, with read access to the picture unit and mutable access to
/// the joypad. It must not call back into the CPU or bus it is nested
/// inside; nothing here enforces that, so it is a contractual obligation on
/// the host.
pub trait FrameHandler: Sized {
    /// Present the finished frame and poll input; a failure terminates the
    /// run loop.
    fn on_frame(&mut self, ppu: &Ppu, joypad: &mut Joypad) -> Result<(), EmulatorError>;
}

/// A host that ignores frames; used when no video output is wanted.
#[derive(Debug, Clone, Copy, PartialEq, Eq, Structural)]
pub struct NoopFrameHandler {}

impl FrameHandler for NoopFrameHandler {
    fn on_frame(&mut self, ppu: &Ppu, joypad: &mut Joypad) -> (r: Result<(), EmulatorError>) {
        Ok(())
    }
}

/// The bus: CPU RAM, the cartridge, the picture and audio units, the
/// joypad, the accumulated cycle count, and the host's frame handler.
pub struct Bus<H: FrameHandler> {
    pub cpu_vram: [u8; 2048],
    pub rom: Rom,
    pub ppu: Ppu,
    pub apu: Apu,
    pub joypad: Joypad,
    pub cycles: u64,
    pub gameloop_handler: H,
}

/// Whether the cartridge holds the program bytes its mapper can point into.
pub open spec fn rom_wf(rom: Rom) -> bool {
    match rom.mapper {
        MapperKind::Nrom128(m) => rom.prg_rom@.len() >= 0x4000,
        MapperKind::Nrom256(m) => rom.prg_rom@.len() >= 0x8000,
    }
}

/// The states a bus may legally stand in: a well-formed picture unit, a full
/// pattern-table window, and a cartridge whose mapper stays inside its
/// program bytes.
pub open spec fn bus_wf<H: FrameHandler>(b: Bus<H>) -> bool {
    &&& ppu_wf(b.ppu)
    &&& b.ppu.chr_rom@.len() >= 0x2000
    &&& rom_wf(b.rom)
}

/// Fold a bus address onto the register it designates: RAM mirrors collapse
/// to the 2KB window, and the picture unit's eight registers repeat every
/// eight bytes across their window.
pub open spec fn normalize_addr(addr: u16) -> u16 {
    if addr < 0x2000 {
        (addr % 0x0800) as u16
    } else if addr <= 0x3fff {
        (0x2000 + addr % 8) as u16
    } else {
        addr
    }
}

/// The physical program-ROM offset a bus address reaches through the mapper.
pub open spec fn prg_offset_spec(rom: Rom, addr: u16) -> int {
    match rom.mapper {
        MapperKind::Nrom128(m) => m.spec_map_address((addr - 0x8000) as u16) as int,
        MapperKind::Nrom256(m) => m.spec_map_address((addr - 0x8000) as u16) as int,
    }
}

/// What one bus read does: the state afterwards and the byte or failure it
/// hands back. Reads of the picture unit's status, data and joypad ports
/// change state; every other read leaves the bus as it was.
#[verifier::opaque]
pub open spec fn bus_read_outcome<H: FrameHandler>(b: Bus<H>, addr: u16) -> (
    Bus<H>,
    Result<u8, EmulatorError>,
) {
    let a = normalize_addr(addr);
    if a < 0x2000 {
        (b, Ok(b.cpu_vram@[a as int]))
    } else if a == 0x2000 || a == 0x2001 || a == 0x2003 || a == 0x2005 || a == 0x2006 {
        (b, Err(EmulatorError::MemoryAccess(MemoryAccessError::ReadFromWriteOnly(a))))
    } else if a == 0x2002 {
        (Bus { ppu: ppu_read_status_spec(b.ppu).0, ..b }, Ok(ppu_read_status_spec(b.ppu).1))
    } else if a == 0x2004 {
        (b, Ok(crate::ppu::registers::oam::oam_byte_at(b.ppu.registers.oam, b.ppu.registers.oam.address as int)))
    } else if a == 0x2007 {
        match ppu_data_read_spec(b.ppu) {
            Ok((value, p2)) => (Bus { ppu: p2, ..b }, Ok(value)),
            Err(e) => (Bus { ppu: crate::ppu::incremented_spec(b.ppu), ..b }, Err(e)),
        }
    } else if a == 0x4000 {
        (b, Ok(b.apu.square_channel1.volume))
    } else if a == 0x4001 {
        (b, Ok(b.apu.square_channel1.sweep))
    } else if a == 0x4002 {
        (b, Ok(b.apu.square_channel1.timer_low))
    } else if a == 0x4003 {
        (b, Ok(b.apu.square_channel1.length_and_timer_high))
    } else if a == 0x4004 {
        (b, Ok(b.apu.square_channel2.volume))
    } else if a == 0x4005 {
        (b, Ok(b.apu.square_channel2.sweep))
    } else if a == 0x4006 {
        (b, Ok(b.apu.square_channel2.timer_low))
    } else if a == 0x4007 {
        (b, Ok(b.apu.square_channel2.length_and_timer_high))
    } else if a == 0x4008 {
        (b, Ok(b.apu.triangle_channel.linear_counter))
    } else if a == 0x400a {
        (b, Ok(b.apu.triangle_channel.timer_low))
    } else if a == 0x400b {
        (b, Ok(b.apu.triangle_channel.length_and_timer_high))
    } else if a == 0x400c {
        (b, Ok(b.apu.noise_channel.volume))
    } else if a == 0x400e {
        (b, Ok(b.apu.noise_channel.mode_and_period))
    } else if a == 0x400f {
        (b, Ok(b.apu.noise_channel.len_counter_and_env_restart))
    } else if a == 0x4010 {
        (b, Ok(b.apu.dmc.flags_and_rate))
    } else if a == 0x4011 {
        (b, Ok(b.apu.dmc.direct_load))
    } else if a == 0x4012 {
        (b, Ok(b.apu.dmc.sample_address))
    } else if a == 0x4013 {
        (b, Ok(b.apu.dmc.sample_length))
    } else if a == 0x4014 {
        (b, Err(EmulatorError::MemoryAccess(MemoryAccessError::ReadFromWriteOnly(a))))
    } else if a == 0x4015 {
        (b, Ok(apu_flags::apu_flags_bits_spec(b.apu.flags)))
    } else if a == 0x4016 {
        (Bus { joypad: joypad_read_spec(b.joypad).0, ..b }, Ok(joypad_read_spec(b.joypad).1))
    } else if a >= 0x8000 {
        (b, Ok(b.rom.prg_rom@[prg_offset_spec(b.rom, a)]))
    } else {
        (b, Ok(0u8))
    }
}

/// What one bus write does, for every target except a sprite-DMA trigger
/// that reads from a device page: the state afterwards and success or the
/// failure. `None` stands for the device-page DMA cases, whose effect on the
/// sprite memory depends on reads with their own side effects.
#[verifier::opaque]
pub open spec fn bus_write_outcome<H: FrameHandler>(b: Bus<H>, addr: u16, value: u8) -> Option<
    (Bus<H>, Result<(), EmulatorError>),
> {
    let a = normalize_addr(addr);
    if a < 0x2000 {
        Some(
            (
                Bus { cpu_vram: vstd::array::spec_array_update(b.cpu_vram, a as int, value), ..b },
                Ok(()),
            ),
        )
    } else if a == 0x2000 {
        Some((Bus { ppu: ppu_write_control_spec(b.ppu, value), ..b }, Ok(())))
    } else if a == 0x2001 {
        Some(
            (
                Bus {
                    ppu: Ppu {
                        registers: crate::ppu::registers::PpuRegisters {
                            mask: crate::ppu::registers::mask::mask_from_bits(value),
                            ..b.ppu.registers
                        },
                        ..b.ppu
                    },
                    ..b
                },
                Ok(()),
            ),
        )
    } else if a == 0x2002 {
        Some((b, Err(EmulatorError::MemoryAccess(MemoryAccessError::WriteToReadOnly(a)))))
    } else if a == 0x2003 {
        Some(
            (
                Bus {
                    ppu: Ppu {
                        registers: crate::ppu::registers::PpuRegisters {
                            oam: crate::ppu::registers::Oam {
                                address: value,
                                ..b.ppu.registers.oam
                            },
                            ..b.ppu.registers
                        },
                        ..b.ppu
                    },
                    ..b
                },
                Ok(()),
            ),
        )
    } else if a == 0x2004 {
        Some((Bus { ppu: crate::ppu::oam_data_write_spec(b.ppu, value), ..b }, Ok(())))
    } else if a == 0x2005 {
        Some(
            (
                Bus {
                    ppu: Ppu {
                        registers: crate::ppu::registers::PpuRegisters {
                            scroll: if b.ppu.registers.scroll.latch {
                                crate::ppu::registers::ScrollRegister {
                                    scroll_y: value,
                                    latch: false,
                                    ..b.ppu.registers.scroll
                                }
                            } else {
                                crate::ppu::registers::ScrollRegister {
                                    scroll_x: value,
                                    latch: true,
                                    ..b.ppu.registers.scroll
                                }
                            },
                            ..b.ppu.registers
                        },
                        ..b.ppu
                    },
                    ..b
                },
                Ok(()),
            ),
        )
    } else if a == 0x2006 {
        Some(
            (
                Bus {
                    ppu: Ppu {
                        registers: crate::ppu::registers::PpuRegisters {
                            address: crate::ppu::registers::address::update_spec(
                                b.ppu.registers.address,
                                value,
                            ),
                            ..b.ppu.registers
                        },
                        ..b.ppu
                    },
                    ..b
                },
                Ok(()),
            ),
        )
    } else if a == 0x2007 {
        match ppu_data_write_spec(b.ppu, value) {
            Ok(p2) => Some((Bus { ppu: p2, ..b }, Ok(()))),
            Err(e) => Some((b, Err(e))),
        }
    } else if a == 0x4000 {
        Some((apu_update(b, Apu { square_channel1: crate::apu::SquareChannel { volume: value, ..b.apu.square_channel1 }, ..b.apu }), Ok(())))
    } else if a == 0x4001 {
        Some((apu_update(b, Apu { square_channel1: crate::apu::SquareChannel { sweep: value, ..b.apu.square_channel1 }, ..b.apu }), Ok(())))
    } else if a == 0x4002 {
        Some((apu_update(b, Apu { square_channel1: crate::apu::SquareChannel { timer_low: value, ..b.apu.square_channel1 }, ..b.apu }), Ok(())))
    } else if a == 0x4003 {
        Some((apu_update(b, Apu { square_channel1: crate::apu::SquareChannel { length_and_timer_high: value, ..b.apu.square_channel1 }, ..b.apu }), Ok(())))
    } else if a == 0x4004 {
        Some((apu_update(b, Apu { square_channel2: crate::apu::SquareChannel { volume: value, ..b.apu.square_channel2 }, ..b.apu }), Ok(())))
    } else if a == 0x4005 {
        Some((apu_update(b, Apu { square_channel2: crate::apu::SquareChannel { sweep: value, ..b.apu.square_channel2 }, ..b.apu }), Ok(())))
    } else if a == 0x4006 {
        Some((apu_update(b, Apu { square_channel2: crate::apu::SquareChannel { timer_low: value, ..b.apu.square_channel2 }, ..b.apu }), Ok(())))
    } else if a == 0x4007 {
        Some((apu_update(b, Apu { square_channel2: crate::apu::SquareChannel { length_and_timer_high: value, ..b.apu.square_channel2 }, ..b.apu }), Ok(())))
    } else if a == 0x4008 {
        Some((apu_update(b, Apu { triangle_channel: crate::apu::TriangleChannel { linear_counter: value, ..b.apu.triangle_channel }, ..b.apu }), Ok(())))
    } else if a == 0x400a {
        Some((apu_update(b, Apu { triangle_channel: crate::apu::TriangleChannel { timer_low: value, ..b.apu.triangle_channel }, ..b.apu }), Ok(())))
    } else if a == 0x400b {
        Some((apu_update(b, Apu { triangle_channel: crate::apu::TriangleChannel { length_and_timer_high: value, ..b.apu.triangle_channel }, ..b.apu }), Ok(())))
    } else if a == 0x400c {
        Some((apu_update(b, Apu { noise_channel: crate::apu::NoiseChannel { volume: value, ..b.apu.noise_channel }, ..b.apu }), Ok(())))
    } else if a == 0x400e {
        Some((apu_update(b, Apu { noise_channel: crate::apu::NoiseChannel { mode_and_period: value, ..b.apu.noise_channel }, ..b.apu }), Ok(())))
    } else if a == 0x400f {
        Some((apu_update(b, Apu { noise_channel: crate::apu::NoiseChannel { len_counter_and_env_restart: value, ..b.apu.noise_channel }, ..b.apu }), Ok(())))
    } else if a == 0x4010 {
        Some((apu_update(b, Apu { dmc: crate::apu::Dmc { flags_and_rate: value, ..b.apu.dmc }, ..b.apu }), Ok(())))
    } else if a == 0x4011 {
        Some((apu_update(b, Apu { dmc: crate::apu::Dmc { direct_load: value, ..b.apu.dmc }, ..b.apu }), Ok(())))
    } else if a == 0x4012 {
        Some((apu_update(b, Apu { dmc: crate::apu::Dmc { sample_address: value, ..b.apu.dmc }, ..b.apu }), Ok(())))
    } else if a == 0x4013 {
        Some((apu_update(b, Apu { dmc: crate::apu::Dmc { sample_length: value, ..b.apu.dmc }, ..b.apu }), Ok(())))
    } else if a == 0x4014 {
        None
    } else if a == 0x4015 {
        Some((apu_update(b, Apu { flags: apu_flags::apu_flags_from_bits(value), ..b.apu }), Ok(())))
    } else if a == 0x4016 {
        Some(
            (
                Bus {
                    joypad: Joypad {
                        strobe_mode: value % 2 == 1,
                        button_index: if value % 2 == 1 {
                            0u8
                        } else {
                            b.joypad.button_index
                        },
                        ..b.joypad
                    },
                    ..b
                },
                Ok(()),
            ),
        )
    } else if a >= 0x8000 {
        Some((b, Err(EmulatorError::MemoryAccess(MemoryAccessError::WriteToReadOnly(a)))))
    } else {
        Some((b, Ok(())))
    }
}

/// The bus with only its audio registers replaced.
pub open spec fn apu_update<H: FrameHandler>(b: Bus<H>, apu: Apu) -> Bus<H> {
    Bus { apu, ..b }
}

/// The page of bytes a RAM-sourced sprite DMA hands the picture unit.
pub open spec fn dma_page_from_ram<H: FrameHandler>(b: Bus<H>, page: u8) -> Seq<u8> {
    Seq::new(256, |k: int| b.cpu_vram@[(page * 256 + k) % 0x800])
}

/// The page of bytes a ROM-sourced sprite DMA hands the picture unit.
pub open spec fn dma_page_from_rom<H: FrameHandler>(b: Bus<H>, page: u8) -> Seq<u8> {
    Seq::new(256, |k: int| b.rom.prg_rom@[prg_offset_spec(b.rom, (page * 256 + k) as u16)])
}

impl<H: FrameHandler> Bus<H> {
    /// A bus over a cartridge, with a host handler for finished frames.
    pub fn new_with_callback(rom: Rom, gameloop_handler: H) -> (r: Bus<H>)
        requires
            rom.chr_rom@.len() >= 0x2000,
            rom_wf(rom),
        ensures
            r.cpu_vram@ == Seq::new(2048, |i: int| 0u8),
            crate::ppu::ppu_is_new(r.ppu, r.rom.chr_rom@, r.rom.screen_mirroring),
            r.rom == rom,
            r.apu == crate::apu::apu_default_spec(),
            r.joypad == (Joypad { strobe_mode: false, button_index: 0, button_status: 0 }),
            r.cycles == 0,
            r.gameloop_handler == gameloop_handler,
            bus_wf(r),
    {
        let ppu = Ppu::new(rom.chr_rom.as_slice(), rom.screen_mirroring);

        let r = Bus {
            cpu_vram: [0; 2048],
            rom,
            ppu,
            apu: Apu::default(),
            joypad: Joypad::default(),
            cycles: 0,
            gameloop_handler,
        };
        proof {
            assert(r.cpu_vram@ =~= Seq::new(2048, |i: int| 0u8));
        }
        r
    }

    /// Advance the shared clock by `cycles` CPU cycles: the picture unit
    /// moves three times as far, and on the rising edge of its interrupt
    /// signal the host's frame handler runs before control returns.
    pub fn tick(&mut self, cycles: u8) -> (r: Result<(), EmulatorError>)
        requires
            bus_wf(*old(self)),
            cycles <= 85,
        ensures
            bus_wf(*final(self)),
            final(self).cycles == (old(self).cycles + cycles) % 0x1_0000_0000_0000_0000int,
            final(self).ppu == ppu_tick_spec(old(self).ppu, (cycles * 3) as u8),
            final(self).cpu_vram == old(self).cpu_vram,
            final(self).rom == old(self).rom,
            final(self).apu == old(self).apu,
            !nmi_rising(old(self).ppu, final(self).ppu) ==> r == Ok::<(), EmulatorError>(())
                && final(self).joypad == old(self).joypad && final(self).gameloop_handler == old(
                self,
            ).gameloop_handler,
            r is Err ==> nmi_rising(old(self).ppu, final(self).ppu),
    {
        self.cycles = self.cycles.wrapping_add(cycles as u64);

        let nmi_before = self.ppu.nmi_interrupt;
        let nmi_after = self.ppu.tick(cycles * 3);

        if NmiStatus::activated(nmi_before, nmi_after) {
            self.gameloop_handler.on_frame(&self.ppu, &mut self.joypad)?;
        }

        Ok(())
    }

    /// Hand back the interrupt signal and clear it, so that each rising edge
    /// is observed once.
    pub fn poll_nmi_status(&mut self) -> (r: NmiStatus)
        ensures
            r == old(self).ppu.nmi_interrupt,
            *final(self) == (Bus {
                ppu: Ppu { nmi_interrupt: NmiStatus::Inactive, ..old(self).ppu },
                ..*old(self)
            }),
    {
        let current = self.ppu.nmi_interrupt;
        self.ppu.nmi_interrupt = NmiStatus::Inactive;

        current
    }
}

/// True exactly when the interrupt signal rises between two unit states.
pub open spec fn nmi_rising(before: Ppu, after: Ppu) -> bool {
    before.nmi_interrupt == NmiStatus::Inactive && after.nmi_interrupt == NmiStatus::Active
}

/// A bus read never touches RAM contents, the cartridge, the audio
/// registers, the cycle count or the host handler.
pub proof fn lemma_bus_read_frame<H: FrameHandler>(b: Bus<H>, addr: u16)
    ensures
        bus_read_outcome(b, addr).0.cpu_vram == b.cpu_vram,
        bus_read_outcome(b, addr).0.rom == b.rom,
        bus_read_outcome(b, addr).0.apu == b.apu,
        bus_read_outcome(b, addr).0.cycles == b.cycles,
        bus_read_outcome(b, addr).0.gameloop_handler == b.gameloop_handler,
{
    reveal(bus_read_outcome);
}

impl Bus<NoopFrameHandler> {
    /// A bus over a cartridge, ignoring finished frames.
    pub fn new(rom: Rom) -> (r: Bus<NoopFrameHandler>)
        requires
            rom.chr_rom@.len() >= 0x2000,
            rom_wf(rom),
        ensures
            r.cpu_vram@ == Seq::new(2048, |i: int| 0u8),
            crate::ppu::ppu_is_new(r.ppu, r.rom.chr_rom@, r.rom.screen_mirroring),
            r.rom == rom,
            r.apu == crate::apu::apu_default_spec(),
            r.joypad == (Joypad { strobe_mode: false, button_index: 0, button_status: 0 }),
            r.cycles == 0,
            bus_wf(r),
    {
        Self::new_with_callback(rom, NoopFrameHandler {})
    }
}

/// Fold a bus address onto the register it designates.
fn normalize(addr: u16) -> (r: u16)
    ensures
        r == normalize_addr(addr),
{
    if addr < 0x2000 {
        addr % 0x0800
    } else if addr <= 0x3fff {
        0x2000 + addr % 8
    } else {
        addr
    }
}

impl<H: FrameHandler> Bus<H> {
    /// Read the byte at `addr`, decoding the address to the device it
    /// designates. Unmapped but legal addresses read as 0; a read of a
    /// write-only register fails.
    pub fn read(&mut self, addr: u16) -> (r: Result<u8, EmulatorError>)
        requires
            bus_wf(*old(self)),
        ensures
            bus_wf(*final(self)),
            *final(self) == bus_read_outcome(*old(self), addr).0,
            r == bus_read_outcome(*old(self), addr).1,
    {
        proof {
            reveal(bus_read_outcome);
        }
        let a = normalize(addr);
        if a < 0x2000 {
            Ok(self.cpu_vram[a as usize])
        } else if a == 0x2000 || a == 0x2001 || a == 0x2003 || a == 0x2005 || a == 0x2006 {
            Err(EmulatorError::MemoryAccess(MemoryAccessError::ReadFromWriteOnly(a)))
        } else if a == 0x2002 {
            Ok(self.ppu.read_status_register())
        } else if a == 0x2004 {
            Ok(self.ppu.read_oam_data())
        } else if a == 0x2007 {
            self.ppu.read()
        } else if a == 0x4000 {
            Ok(self.apu.square_channel1.volume)
        } else if a == 0x4001 {
            Ok(self.apu.square_channel1.sweep)
        } else if a == 0x4002 {
            Ok(self.apu.square_channel1.timer_low)
        } else if a == 0x4003 {
            Ok(self.apu.square_channel1.length_and_timer_high)
        } else if a == 0x4004 {
            Ok(self.apu.square_channel2.volume)
        } else if a == 0x4005 {
            Ok(self.apu.square_channel2.sweep)
        } else if a == 0x4006 {
            Ok(self.apu.square_channel2.timer_low)
        } else if a == 0x4007 {
            Ok(self.apu.square_channel2.length_and_timer_high)
        } else if a == 0x4008 {
            Ok(self.apu.triangle_channel.linear_counter)
        } else if a == 0x400a {
            Ok(self.apu.triangle_channel.timer_low)
        } else if a == 0x400b {
            Ok(self.apu.triangle_channel.length_and_timer_high)
        } else if a == 0x400c {
            Ok(self.apu.noise_channel.volume)
        } else if a == 0x400e {
            Ok(self.apu.noise_channel.mode_and_period)
        } else if a == 0x400f {
            Ok(self.apu.noise_channel.len_counter_and_env_restart)
        } else if a == 0x4010 {
            Ok(self.apu.dmc.flags_and_rate)
        } else if a == 0x4011 {
            Ok(self.apu.dmc.direct_load)
        } else if a == 0x4012 {
            Ok(self.apu.dmc.sample_address)
        } else if a == 0x4013 {
            Ok(self.apu.dmc.sample_length)
        } else if a == 0x4014 {
            Err(EmulatorError::MemoryAccess(MemoryAccessError::ReadFromWriteOnly(a)))
        } else if a == 0x4015 {
            Ok(self.apu.status_register())
        } else if a == 0x4016 {
            Ok(self.joypad.read())
        } else if a >= 0x8000 {
            let mapped_address = match &self.rom.mapper {
                MapperKind::Nrom128(m) => m.map_address(a - 0x8000)?,
                MapperKind::Nrom256(m) => m.map_address(a - 0x8000)?,
            };
            Ok(self.rom.prg_rom[mapped_address as usize])
        } else {
            Ok(0)
        }
    }

    /// Write `value` to `addr`, decoding the address to the device it
    /// designates. Unmapped but legal addresses ignore the write; a write to
    /// a read-only register or to cartridge ROM fails. Writing the sprite-DMA
    /// trigger reads a whole page and hands it to the sprite memory.
    #[verifier::rlimit(100)]
    pub fn write(&mut self, addr: u16, value: u8) -> (r: Result<(), EmulatorError>)
        requires
            bus_wf(*old(self)),
        ensures
            bus_wf(*final(self)),
            final(self).rom == old(self).rom,
            final(self).cpu_vram == (if normalize_addr(addr) < 0x2000 {
                vstd::array::spec_array_update(
                    old(self).cpu_vram,
                    normalize_addr(addr) as int,
                    value,
                )
            } else {
                old(self).cpu_vram
            }),
            match bus_write_outcome(*old(self), addr, value) {
                Some((b2, res)) => *final(self) == b2 && r == res,
                None => {
                    &&& final(self).apu == old(self).apu
                    &&& final(self).cycles == old(self).cycles
                    &&& final(self).gameloop_handler == old(self).gameloop_handler
                },
            },
            normalize_addr(addr) == 0x4014 && value < 0x20 ==> {
                &&& r == Ok::<(), EmulatorError>(())
                &&& final(self).ppu.registers.oam.address == old(self).ppu.registers.oam.address
                &&& (forall|k: int|
                    0 <= k < 256 ==> crate::ppu::registers::oam::oam_byte_at(
                        final(self).ppu.registers.oam,
                        (old(self).ppu.registers.oam.address + k) % 256,
                    ) == dma_page_from_ram(*old(self), value)[k])
                &&& final(self).ppu == (Ppu {
                    registers: crate::ppu::registers::PpuRegisters {
                        oam: final(self).ppu.registers.oam,
                        ..old(self).ppu.registers
                    },
                    ..old(self).ppu
                })
                &&& final(self).joypad == old(self).joypad
            },
            normalize_addr(addr) == 0x4014 && value >= 0x80 ==> {
                &&& r == Ok::<(), EmulatorError>(())
                &&& final(self).ppu.registers.oam.address == old(self).ppu.registers.oam.address
                &&& (forall|k: int|
                    0 <= k < 256 ==> crate::ppu::registers::oam::oam_byte_at(
                        final(self).ppu.registers.oam,
                        (old(self).ppu.registers.oam.address + k) % 256,
                    ) == dma_page_from_rom(*old(self), value)[k])
                &&& final(self).ppu == (Ppu {
                    registers: crate::ppu::registers::PpuRegisters {
                        oam: final(self).ppu.registers.oam,
                        ..old(self).ppu.registers
                    },
                    ..old(self).ppu
                })
                &&& final(self).joypad == old(self).joypad
            },
    {
        proof {
            reveal(bus_read_outcome);
            reveal(bus_write_outcome);
        }
        let a = normalize(addr);
        if a < 0x2000 {
            self.cpu_vram[a as usize] = value;
            proof {
                assert(self.cpu_vram =~= vstd::array::spec_array_update(
                    old(self).cpu_vram,
                    a as int,
                    value,
                ));
            }
        } else if a == 0x2000 {
            self.ppu.write_to_control_register(value);
        } else if a == 0x2001 {
            self.ppu.write_to_mask_register(value);
        } else if a == 0x2002 {
            return Err(EmulatorError::MemoryAccess(MemoryAccessError::WriteToReadOnly(a)));
        } else if a == 0x2003 {
            self.ppu.write_to_oam_address_register(value);
        } else if a == 0x2004 {
            self.ppu.write_to_oam_data(value);
        } else if a == 0x2005 {
            self.ppu.write_to_scroll_register(value);
        } else if a == 0x2006 {
            self.ppu.write_to_addr_register(value);
        } else if a == 0x2007 {
            self.ppu.write(value)?;
        } else if a == 0x4000 {
            self.apu.square_channel1.volume = value;
        } else if a == 0x4001 {
            self.apu.square_channel1.sweep = value;
        } else if a == 0x4002 {
            self.apu.square_channel1.timer_low = value;
        } else if a == 0x4003 {
            self.apu.square_channel1.length_and_timer_high = value;
        } else if a == 0x4004 {
            self.apu.square_channel2.volume = value;
        } else if a == 0x4005 {
            self.apu.square_channel2.sweep = value;
        } else if a == 0x4006 {
            self.apu.square_channel2.timer_low = value;
        } else if a == 0x4007 {
            self.apu.square_channel2.length_and_timer_high = value;
        } else if a == 0x4008 {
            self.apu.triangle_channel.linear_counter = value;
        } else if a == 0x400a {
            self.apu.triangle_channel.timer_low = value;
        } else if a == 0x400b {
            self.apu.triangle_channel.length_and_timer_high = value;
        } else if a == 0x400c {
            self.apu.noise_channel.volume = value;
        } else if a == 0x400e {
            self.apu.noise_channel.mode_and_period = value;
        } else if a == 0x400f {
            self.apu.noise_channel.len_counter_and_env_restart = value;
        } else if a == 0x4010 {
            self.apu.dmc.flags_and_rate = value;
        } else if a == 0x4011 {
            self.apu.dmc.direct_load = value;
        } else if a == 0x4012 {
            self.apu.dmc.sample_address = value;
        } else if a == 0x4013 {
            self.apu.dmc.sample_length = value;
        } else if a == 0x4014 {
            self.dma_transfer(value)?;
        } else if a == 0x4015 {
            self.apu.set_status_register(value);
        } else if a == 0x4016 {
            self.joypad.write(value);
        } else if a >= 0x8000 {
            return Err(EmulatorError::MemoryAccess(MemoryAccessError::WriteToReadOnly(a)));
        }

        Ok(())
    }


    /// Serve a write of the sprite-DMA trigger: read the 256 bytes of the
    /// CPU page `value` designates through the normal read path and hand
    /// them to the sprite memory in one burst. A page in RAM or cartridge
    /// ROM always succeeds and lands exactly; a page over device registers
    /// takes whatever those reads return, and a failing read aborts the
    /// burst.
    fn dma_transfer(&mut self, value: u8) -> (r: Result<(), EmulatorError>)
        requires
            bus_wf(*old(self)),
        ensures
            bus_wf(*final(self)),
            final(self).rom == old(self).rom,
            final(self).cpu_vram == old(self).cpu_vram,
            final(self).apu == old(self).apu,
            final(self).cycles == old(self).cycles,
            final(self).gameloop_handler == old(self).gameloop_handler,
            value < 0x20 ==> {
                &&& r == Ok::<(), EmulatorError>(())
                &&& final(self).ppu.registers.oam.address == old(self).ppu.registers.oam.address
                &&& (forall|k: int|
                    0 <= k < 256 ==> crate::ppu::registers::oam::oam_byte_at(
                        final(self).ppu.registers.oam,
                        (old(self).ppu.registers.oam.address + k) % 256,
                    ) == dma_page_from_ram(*old(self), value)[k])
                &&& final(self).ppu == (Ppu {
                    registers: crate::ppu::registers::PpuRegisters {
                        oam: final(self).ppu.registers.oam,
                        ..old(self).ppu.registers
                    },
                    ..old(self).ppu
                })
                &&& final(self).joypad == old(self).joypad
            },
            value >= 0x80 ==> {
                &&& r == Ok::<(), EmulatorError>(())
                &&& final(self).ppu.registers.oam.address == old(self).ppu.registers.oam.address
                &&& (forall|k: int|
                    0 <= k < 256 ==> crate::ppu::registers::oam::oam_byte_at(
                        final(self).ppu.registers.oam,
                        (old(self).ppu.registers.oam.address + k) % 256,
                    ) == dma_page_from_rom(*old(self), value)[k])
                &&& final(self).ppu == (Ppu {
                    registers: crate::ppu::registers::PpuRegisters {
                        oam: final(self).ppu.registers.oam,
                        ..old(self).ppu.registers
                    },
                    ..old(self).ppu
                })
                &&& final(self).joypad == old(self).joypad
            },
    {
        proof {
            reveal(bus_read_outcome);
        }
            let mut buffer = [0u8; 256];
            let hi: u16 = value as u16 * 256;
            let mut i: usize = 0;
            while i < 256
                invariant
                    bus_wf(*self),
                    i <= 256,
                    hi == value * 256,
                    self.rom == old(self).rom,
                    self.cpu_vram == old(self).cpu_vram,
                    self.apu == old(self).apu,
                    self.cycles == old(self).cycles,
                    self.gameloop_handler == old(self).gameloop_handler,
                    value < 0x20 || value >= 0x80 ==> *self == *old(self),
                    value < 0x20 ==> forall|k: int|
                        0 <= k < i ==> buffer@[k] == dma_page_from_ram(*old(self), value)[k],
                    value >= 0x80 ==> forall|k: int|
                        0 <= k < i ==> buffer@[k] == dma_page_from_rom(*old(self), value)[k],
                decreases 256 - i,
            {
                let ghost pre = *self;
                let byte = match self.read(hi + i as u16) {
                    Ok(byte) => byte,
                    Err(e) => {
                        proof {
                            reveal(bus_read_outcome);
                            lemma_bus_read_frame(pre, (hi + i) as u16);
                            if value < 0x20 {
                                assert(hi + i < 0x2000);
                                assert(bus_read_outcome(pre, (hi + i) as u16) == (
                                    pre,
                                    Ok::<u8, EmulatorError>(pre.cpu_vram@[(hi + i) % 0x800]),
                                ));
                            }
                            if value >= 0x80 {
                                assert(hi + i >= 0x8000);
                                assert(bus_read_outcome(pre, (hi + i) as u16) == (
                                    pre,
                                    Ok::<u8, EmulatorError>(
                                        pre.rom.prg_rom@[prg_offset_spec(pre.rom, (hi + i) as u16)],
                                    ),
                                ));
                            }
                        }
                        return Err(e);
                    },
                };
                proof {
                    reveal(bus_read_outcome);
                    lemma_bus_read_frame(pre, (hi + i) as u16);
                    if value < 0x20 {
                        assert(hi + i < 0x2000);
                        assert(normalize_addr((hi + i) as u16) == (hi + i) % 0x800);
                        assert(bus_read_outcome(pre, (hi + i) as u16) == (
                            pre,
                            Ok::<u8, EmulatorError>(pre.cpu_vram@[(hi + i) % 0x800]),
                        ));
                        assert((hi + i) % 0x800 == (value * 256 + i) % 0x800);
                    }
                    if value >= 0x80 {
                        assert(hi + i >= 0x8000);
                        assert(normalize_addr((hi + i) as u16) == hi + i);
                        assert(bus_read_outcome(pre, (hi + i) as u16) == (
                            pre,
                            Ok::<u8, EmulatorError>(
                                pre.rom.prg_rom@[prg_offset_spec(pre.rom, (hi + i) as u16)],
                            ),
                        ));
                    }
                }
                buffer[i] = byte;
                i += 1;
            }
            self.ppu.write_to_oam_dma(&buffer);
            proof {
                if value < 0x20 {
                    assert(self.ppu.registers.oam.address == old(self).ppu.registers.oam.address);
                    assert(forall|k: int|
                        0 <= k < 256 ==> crate::ppu::registers::oam::oam_byte_at(
                            self.ppu.registers.oam,
                            (old(self).ppu.registers.oam.address + k) % 256,
                        ) == buffer@[k]);
                    assert(forall|k: int|
                        0 <= k < 256 ==> buffer@[k] == dma_page_from_ram(*old(self), value)[k]);
                    assert forall|k: int|
                        0 <= k < 256 implies crate::ppu::registers::oam::oam_byte_at(
                        self.ppu.registers.oam,
                        (old(self).ppu.registers.oam.address + k) % 256,
                    ) == dma_page_from_ram(*old(self), value)[k] by {
                        assert(buffer@[k] == dma_page_from_ram(*old(self), value)[k]);
                    }
                    assert(self.ppu == (Ppu {
                        registers: crate::ppu::registers::PpuRegisters {
                            oam: self.ppu.registers.oam,
                            ..old(self).ppu.registers
                        },
                        ..old(self).ppu
                    }));
                    assert(self.joypad == old(self).joypad);
                }
                if value >= 0x80 {
                    assert(self.ppu.registers.oam.address == old(self).ppu.registers.oam.address);
                    assert(forall|k: int|
                        0 <= k < 256 ==> crate::ppu::registers::oam::oam_byte_at(
                            self.ppu.registers.oam,
                            (old(self).ppu.registers.oam.address + k) % 256,
                        ) == buffer@[k]);
                    assert(forall|k: int|
                        0 <= k < 256 ==> buffer@[k] == dma_page_from_rom(*old(self), value)[k]);
                    assert forall|k: int|
                        0 <= k < 256 implies crate::ppu::registers::oam::oam_byte_at(
                        self.ppu.registers.oam,
                        (old(self).ppu.registers.oam.address + k) % 256,
                    ) == dma_page_from_rom(*old(self), value)[k] by {
                        assert(buffer@[k] == dma_page_from_rom(*old(self), value)[k]);
                    }
                    assert(self.ppu == (Ppu {
                        registers: crate::ppu::registers::PpuRegisters {
                            oam: self.ppu.registers.oam,
                            ..old(self).ppu.registers
                        },
                        ..old(self).ppu
                    }));
                    assert(self.joypad == old(self).joypad);
                }
            }

        Ok(())
    }

    /// Read the little-endian word at `addr` and the following address,
    /// wrapping at the top of the address space.
    pub fn read_u16(&mut self, addr: u16) -> (r: Result<u16, EmulatorError>)
        requires
            bus_wf(*old(self)),
        ensures
            bus_wf(*final(self)),
            ({
                let (b1, r1) = bus_read_outcome(*old(self), addr);
                match r1 {
                    Err(e) => *final(self) == b1 && r == Err::<u16, EmulatorError>(e),
                    Ok(lo) => {
                        let (b2, r2) = bus_read_outcome(b1, ((addr + 1) % 0x10000) as u16);
                        match r2 {
                            Err(e) => *final(self) == b2 && r == Err::<u16, EmulatorError>(e),
                            Ok(hi) => *final(self) == b2 && r == Ok::<u16, EmulatorError>(
                                (hi * 256 + lo) as u16,
                            ),
                        }
                    },
                }
            }),
    {
        let lo = self.read(addr)?;
        let hi = self.read(addr.wrapping_add(1))?;

        Ok(hi as u16 * 256 + lo as u16)
    }

    /// Write `data` little-endian to `addr` and the following address,
    /// wrapping at the top of the address space.
    pub fn write_u16(&mut self, addr: u16, data: u16) -> (r: Result<(), EmulatorError>)
        requires
            bus_wf(*old(self)),
        ensures
            bus_wf(*final(self)),
            ({
                let lo = (data % 256) as u8;
                let hi = (data / 256) as u8;
                match bus_write_outcome(*old(self), addr, lo) {
                    Some((b1, Err(e))) => *final(self) == b1 && r == Err::<(), EmulatorError>(e),
                    Some((b1, Ok(()))) => match bus_write_outcome(b1, ((addr + 1) % 0x10000) as u16, hi) {
                        Some((b2, res)) => *final(self) == b2 && r == res,
                        None => true,
                    },
                    None => true,
                }
            }),
    {
        let lo = (data % 256) as u8;
        let hi = (data / 256) as u8;

        self.write(addr, lo)?;
        self.write(addr.wrapping_add(1), hi)?;

        Ok(())
    }
}

} // verus!
