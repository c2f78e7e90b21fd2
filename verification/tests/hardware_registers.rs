//! Register-storage tests: the audio channels, the cartridge parser, the
//! stack pointer, and the minimal interpreter.

use sabi_nes::apu::{Dmc, NoiseChannel, NoiseMode, SquareChannel, TriangleChannel};
use sabi_nes::basic_cpu::Cpu as BasicCpu;
use sabi_nes::cartridge::mappers::{Mapper, MapperKind, Nrom128, Nrom256};
use sabi_nes::cartridge::{MirroringType, Rom};
use sabi_nes::cpu::StackPointer;
use sabi_nes::errors::RomFormatError;
use sabi_nes::EmulatorError;

#[test]
fn flags_and_rate_data() {
    let dmc = Dmc { flags_and_rate: 0b1010_0011, ..Dmc::default() };

    assert!(dmc.is_irq_enabled());
    assert!(!dmc.is_looping());
    assert_eq!(0b0011, dmc.rate_index());
}

#[test]
fn direct_load_data() {
    let dmc = Dmc { direct_load: 0b1010_0101, ..Dmc::default() };

    assert_eq!(0b0010_0101, dmc.direct_load());
}

#[test]
fn noise_channel_volume_data() {
    let channel = NoiseChannel { volume: 0b1011_1010, ..NoiseChannel::default() };

    assert!(channel.is_length_counter_halted());
    assert!(channel.is_constant_volume());
    assert_eq!(0b1010, channel.volume_divider_period());
}

#[test]
fn mode_and_period_data() {
    let channel = NoiseChannel { mode_and_period: 0b1010_0011, ..NoiseChannel::default() };

    assert_eq!(NoiseMode::Short, channel.mode());
    assert_eq!(0b0011, channel.timer_period());
}

#[test]
fn square_channel_volume_data() {
    let channel = SquareChannel { volume: 0b1011_0101, ..SquareChannel::default() };

    assert_eq!(0b10, channel.duty());
    assert!(channel.is_length_counter_halted());
    assert!(channel.is_constant_volume());
    assert_eq!(0b0101, channel.volume());
}

#[test]
fn sweep_data() {
    let channel = SquareChannel { sweep: 0b1011_1101, ..SquareChannel::default() };

    assert!(channel.is_sweep_enabled());
    assert_eq!(0b011, channel.sweep_period());
    assert!(channel.is_sweep_negated());
    assert_eq!(0b101, channel.sweep_shift());
}

#[test]
fn timer_and_length_counter_data() {
    let channel = SquareChannel {
        timer_low: 0b1011_1001,
        length_and_timer_high: 0b1011_1010,
        ..SquareChannel::default()
    };

    assert_eq!(0b0001_0111, channel.length_counter_load());
    assert_eq!(0b0010_1011_1001, channel.timer());
}

#[test]
fn linear_counter_data() {
    let channel = TriangleChannel { linear_counter: 0b1011_0100, ..TriangleChannel::default() };

    assert!(channel.is_linear_counter_enabled());
    assert_eq!(0b0011_0100, channel.counter_reload());
}

#[test]
fn timer_data() {
    let channel = TriangleChannel {
        timer_low: 0b1101_1011,
        length_and_timer_high: 0b1011_0011,
        ..TriangleChannel::default()
    };

    assert_eq!(0b0001_0110, channel.length_counter_load());
    assert_eq!(0b0011_1101_1011, channel.timer());
}

#[test]
fn cpu_immediate_load() {
    let mut cpu = BasicCpu::default();
    let data = vec![0xa9, 0x05, 0x00];

    cpu.interpret(&data);

    assert_eq!(cpu.register_a, 0x05);
    assert_eq!(cpu.status & 0b000_0010, 0b00);
    assert_eq!(cpu.status & 0b1000_0000, 0b00)
}

#[test]
fn zero_flag() {
    let mut cpu = BasicCpu::default();
    let data = vec![0xa9, 0x00, 0x00];

    cpu.interpret(&data);

    assert_eq!(cpu.status & 0b000_0010, 0b10);
}

#[test]
fn moves_reg_a_value_to_reg_x() {
    let mut cpu = BasicCpu { register_a: 10, ..BasicCpu::default() };
    let data = vec![0xaa, 0x00];

    cpu.interpret(&data);

    assert_eq!(cpu.register_x, 10);
}

#[test]
fn cpu_inx_overflow() {
    let mut cpu = BasicCpu { register_x: 0xff, ..BasicCpu::default() };
    let data = vec![0xe8, 0xe8, 0x00];

    cpu.interpret(&data);

    assert_eq!(cpu.register_x, 1);
}

#[test]
fn simple_5_ops_working_together() {
    let mut cpu = BasicCpu::default();
    let data = vec![0xa9, 0xc0, 0xaa, 0xe8, 0x00];

    cpu.interpret(&data);

    assert_eq!(cpu.register_x, 0xc1);
}

fn container(prg_banks: u8, chr_banks: u8, byte6: u8, byte7: u8) -> Vec<u8> {
    let mut rom = vec![0x4e, 0x45, 0x53, 0x1a, prg_banks, chr_banks, byte6, byte7];
    rom.extend(vec![0x00u8; 8]);
    rom.extend(vec![0xabu8; prg_banks as usize * 16384]);
    rom.extend(vec![0xcdu8; chr_banks as usize * 8192]);

    rom
}

#[test]
fn rom_parses_one_bank_cartridge() {
    let rom = Rom::new(&container(1, 1, 0, 0)).expect("Failed to parse");

    assert_eq!(rom.prg_rom.len(), 16384);
    assert_eq!(rom.chr_rom.len(), 8192);
    assert_eq!(rom.mapper, MapperKind::Nrom128(Nrom128 {}));
    assert_eq!(rom.screen_mirroring, MirroringType::Horizontal);
}

#[test]
fn rom_mirroring_flags_decode() {
    let vertical = Rom::new(&container(1, 1, 0b0000_0001, 0)).expect("Failed to parse");
    let four_screen = Rom::new(&container(1, 1, 0b0000_1001, 0)).expect("Failed to parse");

    assert_eq!(vertical.screen_mirroring, MirroringType::Vertical);
    assert_eq!(four_screen.screen_mirroring, MirroringType::FourScreen);
}

#[test]
fn rom_missing_tag_rejected() {
    let mut data = container(1, 1, 0, 0);
    data[0] = 0x00;

    assert_eq!(Rom::new(&data).err(), Some(EmulatorError::RomFormat(RomFormatError::MissingTag)));
}

#[test]
fn rom_newer_container_version_rejected() {
    assert_eq!(
        Rom::new(&container(1, 1, 0, 0b0000_1000)).err(),
        Some(EmulatorError::RomFormat(RomFormatError::UnsupportedVersion))
    );
}

#[test]
fn rom_nonzero_padding_rejected() {
    let mut data = container(1, 1, 0, 0);
    data[9] = 1;

    assert_eq!(
        Rom::new(&data).err(),
        Some(EmulatorError::RomFormat(RomFormatError::HeaderPadding))
    );
}

#[test]
fn rom_unknown_mapper_rejected() {
    assert_eq!(
        Rom::new(&container(1, 1, 0b0001_0000, 0)).err(),
        Some(EmulatorError::RomFormat(RomFormatError::UnsupportedMapper(1)))
    );
}

#[test]
fn rom_truncated_data_rejected() {
    let mut data = container(2, 1, 0, 0);
    data.truncate(16 + 16384);

    assert_eq!(
        Rom::new(&data).err(),
        Some(EmulatorError::RomFormat(RomFormatError::TruncatedPrgData))
    );
    assert_eq!(
        Rom::new(&data[0..10]).err(),
        Some(EmulatorError::RomFormat(RomFormatError::TruncatedHeader))
    );

    let mut short_chr = container(1, 1, 0, 0);
    short_chr.truncate(16 + 16384 + 100);
    assert_eq!(
        Rom::new(&short_chr).err(),
        Some(EmulatorError::RomFormat(RomFormatError::TruncatedChrData))
    );
}

#[test]
fn nrom_mapping_mirrors_one_bank() {
    assert_eq!(Nrom128 {}.map_address(0x1234), Ok(0x1234));
    assert_eq!(Nrom128 {}.map_address(0x5234), Ok(0x1234));
    assert_eq!(Nrom256 {}.map_address(0x5234), Ok(0x5234));
}

#[test]
fn stack_pointer_step_round_trip() {
    // stepping down then up is the identity, for every 8-bit value
    for v in 0..=255u8 {
        let mut pointer = StackPointer(v);
        pointer.decrement();
        pointer.increment();
        assert_eq!(pointer.value(), v);
        assert_eq!(pointer.address(), 0x0100 + v as u16);
    }
}
