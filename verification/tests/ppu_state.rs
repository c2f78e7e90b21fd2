//! Picture-unit state tests: VRAM access through the ports, mirroring,
//! registers, sprite memory, and the bus around them.

use sabi_nes::bus::{Bus, NoopFrameHandler};
use sabi_nes::cartridge::mappers::{MapperKind, Nrom128};
use sabi_nes::cartridge::{MirroringType, Rom};
use sabi_nes::errors::{EmulatorError, MemoryAccessError};
use sabi_nes::ppu::registers::{AddressRegister, ControlRegister, MaskRegister};
use sabi_nes::ppu::registers::mask::Color;
use sabi_nes::ppu::{NmiStatus, Ppu};
use sabi_nes::input::joypad::{Joypad, JoypadButton};
use sabi_nes::render::{render, Frame};

fn test_ppu() -> Ppu {
    Ppu::new(&[0; 2048], MirroringType::Horizontal)
}

#[test]
fn mod_ppu_vram_writes() {
    let mut ppu = test_ppu();
    ppu.write_to_addr_register(0x23);
    ppu.write_to_addr_register(0x05);
    ppu.write(0x66).expect("Failed to write");

    assert_eq!(ppu.vram[0x0305], 0x66);
}

#[test]
fn mod_ppu_vram_reads() {
    let mut ppu = test_ppu();
    ppu.write_to_control_register(0);
    ppu.vram[0x0305] = 0x66;

    ppu.write_to_addr_register(0x23);
    ppu.write_to_addr_register(0x05);

    ppu.read().expect("Failed to perform dummy read");

    assert_eq!(ppu.registers.read_address(), 0x2306);
    assert_eq!(ppu.read().unwrap(), 0x66);
}

#[test]
fn mod_ppu_vram_reads_with_step_32() {
    let mut ppu = test_ppu();

    ppu.write_to_control_register(0b0100);
    ppu.vram[0x01ff] = 0x66;
    ppu.vram[0x01ff + 32] = 0x77;
    ppu.vram[0x01ff + 64] = 0x88;

    ppu.registers.write_address(0x21);
    ppu.registers.write_address(0xff);

    ppu.read().expect("Failed to perform dummy read");

    assert_eq!(ppu.read().unwrap(), 0x66);
    assert_eq!(ppu.read().unwrap(), 0x77);
    assert_eq!(ppu.read().unwrap(), 0x88);
}

#[test]
fn mod_vram_horizontal_mirror() {
    let mut ppu = test_ppu();

    ppu.registers.write_address(0x24);
    ppu.registers.write_address(0x05);

    ppu.write(0x66).unwrap();

    ppu.registers.write_address(0x28);
    ppu.registers.write_address(0x05);

    ppu.write(0x77).unwrap();

    ppu.registers.write_address(0x20);
    ppu.registers.write_address(0x05);

    ppu.read().unwrap();
    assert_eq!(ppu.read().unwrap(), 0x66);

    ppu.registers.write_address(0x2c);
    ppu.registers.write_address(0x05);

    ppu.read().unwrap();
    assert_eq!(ppu.read().unwrap(), 0x77);
}

#[test]
fn mod_vram_vertical_mirror() {
    let mut ppu = test_ppu();
    ppu.mirroring = MirroringType::Vertical;

    ppu.registers.write_address(0x20);
    ppu.registers.write_address(0x05);

    ppu.write(0x66).unwrap();

    ppu.registers.write_address(0x2c);
    ppu.registers.write_address(0x05);

    ppu.write(0x77).unwrap();

    ppu.registers.write_address(0x28);
    ppu.registers.write_address(0x05);

    ppu.read().unwrap();
    assert_eq!(ppu.read().unwrap(), 0x66);

    ppu.registers.write_address(0x24);
    ppu.registers.write_address(0x05);

    ppu.read().unwrap();
    assert_eq!(ppu.read().unwrap(), 0x77);
}

#[test]
fn mod_reading_status_resets_latch() {
    let mut ppu = test_ppu();
    ppu.vram[0x0305] = 0x66;

    ppu.registers.write_address(0x21);
    ppu.registers.write_address(0x23);
    ppu.registers.write_address(0x05);

    ppu.read().unwrap();
    assert_ne!(ppu.read().unwrap(), 0x66);

    ppu.read_status_register();

    ppu.registers.write_address(0x23);
    ppu.registers.write_address(0x05);

    ppu.read().unwrap();
    assert_eq!(ppu.read().unwrap(), 0x66);
}

#[test]
fn mod_vram_mirroring() {
    let mut ppu = test_ppu();
    ppu.write_to_control_register(0);
    ppu.vram[0x0305] = 0x66;

    ppu.registers.write_address(0x63);
    ppu.registers.write_address(0x05);

    ppu.read().unwrap();
    assert_eq!(ppu.read().unwrap(), 0x66);
}

#[test]
fn mod_reading_status_resets_vblank() {
    let mut ppu = test_ppu();
    ppu.registers.set_vblank();

    let status = ppu.read_status_register();

    assert_eq!(status >> 7, 1);
    assert_eq!(ppu.registers.read_status() >> 7, 0);
}

#[test]
fn mod_oam_read_write() {
    let mut ppu = test_ppu();
    ppu.write_to_oam_address_register(0x10);
    ppu.write_to_oam_data(0x66);
    ppu.write_to_oam_data(0x77);

    ppu.write_to_oam_address_register(0x10);
    assert_eq!(ppu.read_oam_data(), 0x66);

    ppu.write_to_oam_address_register(0x11);
    assert_eq!(ppu.read_oam_data(), 0x77);
}

#[test]
fn single_write_fills_high_byte() {
    let mut addr_reg = AddressRegister::default();
    addr_reg.update(0x01);

    let expected = AddressRegister { high: 0x01, low: 0x00, hi_ptr: false };

    assert_eq!(expected, addr_reg);
    assert_eq!(0x0100, addr_reg.get());
}

#[test]
fn double_write_fills_both_bites() {
    let mut addr_reg = AddressRegister::default();
    addr_reg.update(0x12);
    addr_reg.update(0x34);

    let expected = AddressRegister { high: 0x12, low: 0x34, hi_ptr: true };

    assert_eq!(expected, addr_reg);
    assert_eq!(0x1234, addr_reg.get());
}

#[test]
fn multiple_writes_store_only_two_last_values() {
    let mut addr_reg = AddressRegister::default();
    addr_reg.update(0x01);
    addr_reg.update(0x12);
    addr_reg.update(0x02);
    addr_reg.update(0x23);
    addr_reg.update(0x2f);

    let expected = AddressRegister { high: 0x2f, low: 0x23, hi_ptr: false };

    assert_eq!(expected, addr_reg);
}

#[test]
fn write_with_mirroring() {
    let mut addr_reg = AddressRegister::default();
    addr_reg.update(0x4f);

    let expected = AddressRegister { high: 0x0f, low: 0x00, hi_ptr: false };

    assert_eq!(expected, addr_reg);
}

#[test]
fn control_vram_addr_increment_disabled() {
    let register = ControlRegister::default();

    assert_eq!(1, register.vram_addr_increment());
}

#[test]
fn control_vram_addr_increment_enabled() {
    let mut register = ControlRegister::default();
    register.update(0b0100);

    assert_eq!(32, register.vram_addr_increment());
}

#[test]
fn no_colors_to_emphasize() {
    let register = MaskRegister::default();
    let emphasized_colors = register.emphasized_colors();
    let expected = Vec::<Color>::new();

    assert_eq!(expected, emphasized_colors);
}

#[test]
fn all_colors_emphasized() {
    let mut register = MaskRegister::default();
    register.update(0b1110_0000);
    let emphasized_colors = register.emphasized_colors();
    let expected = vec![Color::Red, Color::Green, Color::Blue];

    assert_eq!(expected, emphasized_colors);
}

fn test_rom() -> Rom {
    Rom {
        prg_rom: vec![0x10; 16384],
        chr_rom: vec![0x20; 8192],
        mapper: MapperKind::Nrom128(Nrom128 {}),
        screen_mirroring: MirroringType::Horizontal,
    }
}

fn test_bus() -> Bus<NoopFrameHandler> {
    Bus::new(test_rom())
}

#[test]
fn bus_write_to_ram() {
    let mut bus = test_bus();
    bus.write(0x0012, 0xaa).expect("Failed to write to RAM");

    assert_eq!(bus.read(0x0012), Ok(0xaa));
}

#[test]
fn bus_write_to_ram_with_mirroring() {
    let mut bus = test_bus();
    bus.write(0x1eff, 0xaa).expect("Failed to write to RAM");

    assert_eq!(bus.read(0x1eff), Ok(0xaa));
    // 0x1eff folded into the 2KB window is 0x06ff
    assert_eq!(bus.read(0x06ff), Ok(0xaa));
}

#[test]
fn bus_read_from_cartridge_rom() {
    let mut bus = test_bus();

    assert_eq!(bus.read(0x9000), Ok(0x10));
}

#[test]
fn bus_write_to_cartridge_rom_fails() {
    let mut bus = test_bus();

    assert_eq!(
        bus.write(0x9000, 0xef),
        Err(EmulatorError::MemoryAccess(MemoryAccessError::WriteToReadOnly(0x9000)))
    );
}

#[test]
fn bus_read_of_write_only_register_fails() {
    let mut bus = test_bus();

    assert_eq!(
        bus.read(0x2000),
        Err(EmulatorError::MemoryAccess(MemoryAccessError::ReadFromWriteOnly(0x2000)))
    );
}

#[test]
fn bus_unmapped_address_reads_as_zero() {
    let mut bus = test_bus();

    assert_eq!(bus.read(0x4020), Ok(0));
    assert_eq!(bus.write(0x4020, 0x55), Ok(()));
}

#[test]
fn bus_oam_dma_copies_a_ram_page() {
    let mut bus = test_bus();
    for i in 0..256u16 {
        bus.write(0x0200 + i, i as u8).unwrap();
    }
    bus.write(0x4014, 0x02).unwrap();

    assert_eq!(bus.read(0x2004), Ok(0));
    bus.write(0x2003, 0x77).unwrap();
    assert_eq!(bus.read(0x2004), Ok(0x77));
}

#[test]
fn nmi_fires_on_vblank_rising_edge() {
    let mut ppu = test_ppu();
    // enable NMI generation
    ppu.write_to_control_register(0b1000_0000);
    // advance to scanline 241
    for _ in 0..242 {
        ppu.tick(255);
        ppu.tick(86);
    }
    assert_eq!(ppu.nmi_interrupt, NmiStatus::Active);
}

#[test]
fn toggling_nmi_enable_during_vblank_raises_once() {
    let mut ppu = test_ppu();
    for _ in 0..242 {
        ppu.tick(255);
        ppu.tick(86);
    }
    assert!(ppu.registers.is_in_vblank());
    assert_eq!(ppu.nmi_interrupt, NmiStatus::Inactive);

    ppu.write_to_control_register(0b1000_0000);
    assert_eq!(ppu.nmi_interrupt, NmiStatus::Active);

    // writing the enable bit again produces no new rising edge
    let before = ppu.nmi_interrupt;
    ppu.write_to_control_register(0b1000_0000);
    assert_eq!(ppu.nmi_interrupt, before);
}

#[test]
fn joypad_reports_buttons_in_order() {
    let mut joypad = Joypad::default();
    joypad.press_button(JoypadButton::Down);
    joypad.press_button(JoypadButton::ButtonA);
    joypad.write(1);
    joypad.write(0);

    let mut reads = Vec::new();
    for _ in 0..9 {
        reads.push(joypad.read());
    }

    // A, B, Select, Start, Up, Down, Left, Right, then always 1
    assert_eq!(reads, vec![1, 0, 0, 0, 0, 1, 0, 0, 1]);
}

#[test]
fn render_paints_backdrop_color() {
    let mut ppu = Ppu::new(&[0; 8192], MirroringType::Horizontal);
    // make the background visible and set the backdrop palette entry
    ppu.write_to_mask_register(0b0000_1000);
    ppu.registers.write_address(0x3f);
    ppu.registers.write_address(0x00);
    ppu.write(0x01).unwrap();

    let mut frame = Frame::default();
    render(&ppu, &mut frame).expect("Failed to render");

    // colour 0x01 of the system palette
    assert_eq!(frame.pixel_data[0], 0x00);
    assert_eq!(frame.pixel_data[1], 0x3d);
    assert_eq!(frame.pixel_data[2], 0xa6);
}
