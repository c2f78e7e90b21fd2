//! Instruction-level tests: small programs run on a fresh machine.

use sabi_nes::bus::{Bus, NoopFrameHandler};
use sabi_nes::cartridge::Rom;
use sabi_nes::cpu::{Cpu, StatusRegister};
use sabi_nes::errors::MemoryAccessError;
use sabi_nes::EmulatorError;

fn test_rom_bytes() -> Vec<u8> {
    let mut rom = vec![
        0x4e, 0x45, 0x53, 0x1a, 0x02, 0x01, 0x01, 0x00, 0x00, 0x00, 0x00, 0x00, 0x00, 0x00, 0x00,
        0x00,
    ];
    rom.extend(vec![0x00u8; 2 * 16384]);
    rom.extend(vec![0x00u8; 8192]);

    rom
}

fn build_and_run(writes: &[(u16, u8)], writes_u16: &[(u16, u16)], data: &[u8]) -> Cpu<NoopFrameHandler> {
    let rom = Rom::new(&test_rom_bytes()).expect("Failed to parse test ROM");
    let bus = Bus::new(rom);
    let mut cpu = Cpu::new(bus);
    cpu.status_register = StatusRegister::empty();

    for &(address, value) in writes {
        cpu.write(address, value).expect("Failed to write");
    }
    for &(address, value) in writes_u16 {
        cpu.write_u16(address, value).expect("Failed to write u16");
    }

    cpu.load_and_run(data).expect("Failed to load and run");

    cpu
}

fn flags(cpu: &Cpu<NoopFrameHandler>) -> StatusRegister {
    cpu.status_register
}

fn only_carry() -> StatusRegister {
    StatusRegister { carry: true, ..StatusRegister::empty() }
}

fn only_negative() -> StatusRegister {
    StatusRegister { negative: true, ..StatusRegister::empty() }
}

#[test]
fn mod_immediate_load() {
    let data = [0xa9, 0x05, 0x00];
    let cpu = build_and_run(&[], &[], &data);

    assert_eq!(cpu.accumulator, 0x05);
    assert!(!cpu.status_register.zero);
    assert!(!cpu.status_register.negative);
}

#[test]
fn zero_flag_set() {
    let data = [0xa9, 0x00, 0x00];
    let cpu = build_and_run(&[], &[], &data);

    assert!(cpu.status_register.zero);
}

#[test]
fn load_from_memory() {
    let data = [0xa5, 0x10, 0x00];
    let cpu = build_and_run(&[(0x10, 0x55)], &[], &data);

    assert_eq!(cpu.accumulator, 0x55);
}

#[test]
fn ldx_absolute() {
    let data = [0xae, 0x34, 0x12, 0x00];
    let cpu = build_and_run(&[], &[(0x1234, 0xff)], &data);

    assert_eq!(cpu.register_x, 0xff);
    assert!(!cpu.status_register.zero);
    assert!(cpu.status_register.negative);
}

#[test]
fn ldy_zero_page() {
    let data = [0xa4, 0xaa, 0x00];
    let cpu = build_and_run(&[(0xaa, 0x66)], &[], &data);

    assert_eq!(cpu.register_y, 0x66);
    assert!(!cpu.status_register.zero);
    assert!(!cpu.status_register.negative);
}

#[test]
fn sta_absolute() {
    let data = [0xa9, 0x75, 0x8d, 0x34, 0x12, 0x00];
    let mut cpu = build_and_run(&[], &[], &data);

    assert_eq!(cpu.read_u16(0x1234), Ok(0x75));
    assert!(cpu.status_register.is_empty());
}

#[test]
fn stx_zero_page() {
    let data = [0x86, 0xee, 0x00];
    let mut cpu = build_and_run(&[(0xee, 0x12)], &[], &data);

    assert_eq!(cpu.read(0xee), Ok(0x00));
    // STX does not modify any flags
    assert_eq!(flags(&cpu), StatusRegister::empty());
}

#[test]
fn sty_zero_page_x() {
    let data = [0xa6, 0x01, 0xa4, 0x03, 0x94, 0x00];
    let mut cpu = build_and_run(&[(0x01, 0x02), (0x03, 0x04)], &[], &data);

    assert_eq!(cpu.register_x, 0x02);
    assert_eq!(cpu.register_y, 0x04);
    assert_eq!(cpu.read(0x02), Ok(0x04));
    assert_eq!(flags(&cpu), StatusRegister::empty());
}

#[test]
fn tax() {
    let data = [0xa9, 0x0a, 0xaa, 0x00];
    let cpu = build_and_run(&[], &[], &data);

    assert_eq!(cpu.accumulator, 10);
    assert_eq!(cpu.register_x, 10);
}

#[test]
fn dec_zero_page() {
    let data = [0xc6, 0x11, 0x00];
    let mut cpu = build_and_run(&[(0x11, 0xf1)], &[], &data);

    assert_eq!(cpu.read(0x11), Ok(0xf0));
}

#[test]
fn dex_underflow() {
    let data = [0xca, 0x00];
    let cpu = build_and_run(&[], &[], &data);

    assert_eq!(cpu.register_x, 0xff);
    assert_eq!(flags(&cpu), only_negative());
}

#[test]
fn dey_underflow() {
    let data = [0x88, 0x00];
    let cpu = build_and_run(&[], &[], &data);

    assert_eq!(cpu.register_y, 0xff);
    assert_eq!(flags(&cpu), only_negative());
}

#[test]
fn inc_absolute_two_times() {
    // increment the value under one address twice
    let data = [0xee, 0x34, 0x12, 0xee, 0x34, 0x12, 0x00];
    let mut cpu = build_and_run(&[], &[], &data);

    assert_eq!(cpu.read(0x1234), Ok(0x02));
    assert_eq!(flags(&cpu), StatusRegister::empty());
}

#[test]
fn mod_inx_overflow() {
    let data = [0xa9, 0xff, 0xaa, 0xe8, 0xe8, 0x00];
    let cpu = build_and_run(&[], &[], &data);

    assert_eq!(cpu.register_x, 1);
}

#[test]
fn iny_three_times() {
    let data = [0xc8, 0xc8, 0xc8, 0x00];
    let cpu = build_and_run(&[], &[], &data);

    assert_eq!(cpu.register_y, 3);
    assert_eq!(flags(&cpu), StatusRegister::empty());
}

#[test]
fn and_immediate() {
    let data = [0xa9, 0b1101_1010, 0x29, 0b1100_0110, 0x00];
    let cpu = build_and_run(&[], &[], &data);

    assert_eq!(cpu.accumulator, 0b1100_0010);
    assert_eq!(flags(&cpu), only_negative());
}

#[test]
fn bit_zero_page() {
    let data = [0xa9, 0b1101_1010, 0x24, 0xdd, 0x00];
    let cpu = build_and_run(&[(0xdd, 0b1110_1010)], &[], &data);

    // accumulator value should not change
    assert_eq!(cpu.accumulator, 0b1101_1010);
    assert_eq!(
        flags(&cpu),
        StatusRegister { overflow: true, negative: true, ..StatusRegister::empty() }
    );
}

#[test]
fn eor_absolute() {
    let data = [0xa9, 0b1101_0110, 0x4d, 0xef, 0x1a, 0x00];
    let cpu = build_and_run(&[(0x1aef, 0b1010_0000)], &[], &data);

    assert_eq!(cpu.accumulator, 0b0111_0110);
    assert_eq!(flags(&cpu), StatusRegister::empty());
}

#[test]
fn ora_zero_page() {
    let data = [0xa9, 0b1101_0110, 0x05, 0xcc, 0x00];
    let cpu = build_and_run(&[(0xcc, 0b0011_1011)], &[], &data);

    assert_eq!(cpu.accumulator, 0b1111_1111);
    assert_eq!(flags(&cpu), only_negative());
}

#[test]
fn asl_accumulator() {
    let data = [0xa9, 0b1101_0111, 0x0a, 0x00];
    let cpu = build_and_run(&[], &[], &data);

    assert!(cpu.status_register.carry);
    assert!(!cpu.status_register.zero);
    assert!(cpu.status_register.negative);
    assert_eq!(cpu.accumulator, 0b1010_1110);
}

#[test]
fn asl_zero_page_x() {
    let data = [0xe8, 0x16, 0xaa, 0x00];
    let mut cpu = build_and_run(&[(0xab, 0b0100_1101)], &[], &data);

    assert_eq!(cpu.register_x, 1);
    assert_eq!(cpu.read(0xab), Ok(0b1001_1010));
    assert_eq!(flags(&cpu), only_negative());
}

#[test]
fn lsr_accumulator() {
    let data = [0xa9, 0b1101_0111, 0x4a, 0x00];
    let cpu = build_and_run(&[], &[], &data);

    assert_eq!(cpu.accumulator, 0b0110_1011);
    assert!(cpu.status_register.carry);
    assert!(!cpu.status_register.zero);
    assert!(!cpu.status_register.negative);
}

#[test]
fn lsr_absolute_shift_into_carry() {
    let data = [0x4e, 0xda, 0x0a, 0x00];
    let mut cpu = build_and_run(&[(0x0ada, 0b0101_0111)], &[], &data);

    assert_eq!(cpu.read(0x0ada), Ok(0b0010_1011));
    assert_eq!(flags(&cpu), only_carry());
}

#[test]
fn rol_accumulator_with_carry() {
    let data = [0xa9, 0b0101_0010, 0x38, 0x2a, 0x00];
    let cpu = build_and_run(&[], &[], &data);

    assert_eq!(cpu.accumulator, 0b1010_0101);
    assert!(!cpu.status_register.carry);
    assert!(!cpu.status_register.zero);
    assert!(cpu.status_register.negative);
}

#[test]
fn rol_with_carry_zero_page() {
    let data = [0x38, 0x26, 0xff, 0x00];
    let mut cpu = build_and_run(&[(0xff, 0b1010_1101)], &[], &data);

    assert_eq!(cpu.read(0xff), Ok(0b0101_1011));
    assert_eq!(flags(&cpu), only_carry());
}

#[test]
fn ror_accumulator_with_carry() {
    let data = [0xa9, 0b0101_0010, 0x38, 0x6a, 0x00];
    let cpu = build_and_run(&[], &[], &data);

    assert_eq!(cpu.accumulator, 0b1010_1001);
    assert!(!cpu.status_register.carry);
    assert!(!cpu.status_register.zero);
    assert!(cpu.status_register.negative);
}

#[test]
fn ror_absolute_x_without_carry() {
    let data = [0xe8, 0x7e, 0x33, 0x12, 0x00];
    let mut cpu = build_and_run(&[], &[(0x1234, 0b0100_1101)], &data);

    assert_eq!(cpu.read(0x1234), Ok(0b0010_0110));
    assert_eq!(flags(&cpu), only_carry());
}

#[test]
fn bcc_skips_lda() {
    // the branch jumps two bytes forward, over the immediate load
    let data = [0x90, 0x02, 0xa9, 0xff, 0x00];
    let cpu = build_and_run(&[], &[], &data);

    assert_eq!(cpu.accumulator, 0);
    assert_eq!(flags(&cpu), StatusRegister::empty());
}

#[test]
fn bcs_does_not_skip() {
    // the branch is not taken, because the carry flag is clear
    let data = [0xb0, 0x01, 0xa9, 0xff, 0x00];
    let cpu = build_and_run(&[], &[], &data);

    assert_eq!(cpu.accumulator, 0xff);
    assert_eq!(flags(&cpu), only_negative());
}

#[test]
fn adc_immediate_with_carry() {
    let data = [0xa9, 0xab, 0x38, 0x69, 0x11, 0x00];
    let cpu = build_and_run(&[], &[], &data);

    // 0xab + 0x11 + 0x1
    assert_eq!(cpu.accumulator, 0xbd);
    assert_eq!(flags(&cpu), only_negative());
}

#[test]
fn adc_zero_page_with_wrapping() {
    let data = [0xa9, 0xfe, 0x38, 0x65, 0x11, 0x00];
    let cpu = build_and_run(&[(0x11, 0xaa)], &[], &data);

    // 0xfe + 0x1 + 0xaa wrapped
    assert_eq!(cpu.accumulator, 0xa9);
    assert_eq!(
        flags(&cpu),
        StatusRegister { carry: true, negative: true, ..StatusRegister::empty() }
    );
}

#[test]
fn cmp_absolute_same_values() {
    let data = [0xa9, 0x11, 0xcd, 0xde, 0x1e, 0x00];
    let cpu = build_and_run(&[(0x1ede, 0x11)], &[], &data);

    assert_eq!(cpu.accumulator, 0x11);
    assert_eq!(
        flags(&cpu),
        StatusRegister { zero: true, carry: true, ..StatusRegister::empty() }
    );
}

#[test]
fn cmp_immediate_with_greater_value() {
    let data = [0xa9, 0xaa, 0xc9, 0xbb, 0x00];
    let cpu = build_and_run(&[], &[], &data);

    assert_eq!(cpu.accumulator, 0xaa);
    assert_eq!(flags(&cpu), only_negative());
}

#[test]
fn cpx_zero_page() {
    // compare register X = 0x2 with value 0xfe
    let data = [0xe8, 0xe8, 0xe4, 0xdd, 0x00];
    let cpu = build_and_run(&[(0xdd, 0xfe)], &[], &data);

    assert_eq!(cpu.register_x, 0x2);
    assert_eq!(flags(&cpu), StatusRegister::empty());
}

#[test]
fn cpy_immediate() {
    // compare register Y = 0x3 with immediate value 0x0
    let data = [0xc8, 0xc8, 0xc8, 0xc0, 0x00, 0x00];
    let cpu = build_and_run(&[], &[], &data);

    assert_eq!(cpu.register_y, 0x3);
    assert_eq!(flags(&cpu), only_carry());
}

#[test]
fn jmp_absolute() {
    let data = [0x4c, 0x33, 0x12, 0x00];
    let cpu = build_and_run(&[], &[], &data);

    assert_eq!(cpu.program_counter, 0x1234);
    assert_eq!(flags(&cpu), StatusRegister::empty());
}

#[test]
fn jmp_indirect() {
    let data = [0x6c, 0x34, 0x12];
    let cpu = build_and_run(&[], &[(0x1234, 0xbeee)], &data);

    assert_eq!(cpu.program_counter, 0xbeef);
    assert_eq!(flags(&cpu), StatusRegister::empty());
}

#[test]
fn carry_flag_enabled() {
    let data = [0x38, 0x00];
    let cpu = build_and_run(&[], &[], &data);

    assert_eq!(flags(&cpu), only_carry());
}

#[test]
fn decimal_flag_enabled() {
    let data = [0xf8, 0x00];
    let cpu = build_and_run(&[], &[], &data);

    assert_eq!(flags(&cpu), StatusRegister { decimal: true, ..StatusRegister::empty() });
}

#[test]
fn interrupt_flag_enabled() {
    let data = [0x78, 0x00];
    let cpu = build_and_run(&[], &[], &data);

    assert_eq!(
        flags(&cpu),
        StatusRegister { interrupt_disable: true, ..StatusRegister::empty() }
    );
}

#[test]
fn sbc_immediate_borrow() {
    // 0x10 - 0x08 with carry set: no borrow, result 0x08
    let data = [0xa9, 0x10, 0x38, 0xe9, 0x08, 0x00];
    let cpu = build_and_run(&[], &[], &data);

    assert_eq!(cpu.accumulator, 0x08);
    assert!(cpu.status_register.carry);
}

#[test]
fn page_cross_charges_extra_cycle_only_when_sensitive() {
    // LDA absolute,X with X pushing the address across a page boundary
    // charges one extra cycle; STA absolute,X never does.
    let lda_cross = [0xa2, 0x01, 0xbd, 0xff, 0x00, 0x00];
    let cpu = build_and_run(&[], &[], &lda_cross);
    let lda_no_cross = [0xa2, 0x01, 0xbd, 0x00, 0x00, 0x00];
    let cpu2 = build_and_run(&[], &[], &lda_no_cross);

    assert_eq!(cpu.bus().cycles, cpu2.bus().cycles + 1);
}

#[test]
fn stack_push_pop_round_trip() {
    // PHA then LDA #$00 then PLA restores the accumulator
    let data = [0xa9, 0x77, 0x48, 0xa9, 0x00, 0x68, 0x00];
    let cpu = build_and_run(&[], &[], &data);

    assert_eq!(cpu.accumulator, 0x77);
    assert_eq!(cpu.stack_pointer.value(), 0xfd);
}

#[test]
fn jsr_and_rts_return_after_call() {
    // JSR to a subroutine at 0x0610 that sets X and returns; INY after the
    // call proves the return address.
    let mut data = vec![0x20, 0x10, 0x06, 0xc8, 0x00];
    data.extend(vec![0xea; 11]);
    data.extend(vec![0xe8, 0x60]);
    let cpu = build_and_run(&[], &[], &data);

    assert_eq!(cpu.register_x, 1);
    assert_eq!(cpu.register_y, 1);
}

#[test]
fn unsupported_opcode_reported() {
    let rom = Rom::new(&test_rom_bytes()).expect("Failed to parse test ROM");
    let bus = Bus::new(rom);
    let mut cpu = Cpu::new(bus);
    // 0x02 has no table entry
    let result = cpu.load_and_run(&[0x02, 0x00]);

    assert_eq!(result, Err(EmulatorError::UnsupportedOpcode(0x02)));
}

#[test]
fn write_to_rom_fails_during_run() {
    // STA into the cartridge window is refused
    let data = [0xa9, 0x01, 0x8d, 0x00, 0x90, 0x00];
    let rom = Rom::new(&test_rom_bytes()).expect("Failed to parse test ROM");
    let bus = Bus::new(rom);
    let mut cpu = Cpu::new(bus);
    let result = cpu.load_and_run(&data);

    assert_eq!(
        result,
        Err(EmulatorError::MemoryAccess(MemoryAccessError::WriteToReadOnly(0x9000)))
    );
}
