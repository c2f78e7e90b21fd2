//! The fetch/decode/execute engine and its supporting parts.

pub mod addressing_mode;
pub mod memory;
pub mod opcodes;
pub mod stack_pointer;
pub mod status_register;

pub use addressing_mode::AddressingMode;
pub use memory::Memory;
pub use stack_pointer::StackPointer;
pub use status_register::StatusRegister;

use crate::bus::{
    bus_read_outcome, bus_wf, bus_write_outcome, nmi_rising, Bus, FrameHandler,
};
use crate::cpu::opcodes::{opcode_for, opcode_lookup, Mnemonic, Opcode};
use crate::cpu::stack_pointer::{dec_spec, inc_spec};
use crate::errors::EmulatorError;
use crate::interrupts::Interrupt;
use crate::ppu::{ppu_tick_spec, NmiStatus};
use crate::utils::{shift_left, shift_right};
use vstd::prelude::*;

verus! {

/// A location in the CPU's 64KB logical address space.
pub type Address = u16;

/// The program counter is an address.
pub type ProgramCounter = Address;

/// Where a plain program is loaded for the instruction-level harness.
pub const PROGRAM_ROM_BEGIN_ADDR: Address = 0x0600;

/// Where the reset vector lives.
pub const RESET_VECTOR_BEGIN_ADDR: Address = 0xfffc;

/// What one executed instruction decided: keep running, or stop because a
/// BRK was fetched.
#[derive(Debug, Clone, Copy, PartialEq, Eq, Structural)]
pub enum StepOutcome {
    Continue,
    Break,
}

/// A byte before and after an in-place modification.
struct ByteUpdate {
    previous: u8,
    new: u8,
}

/// The execution engine: the three 8-bit registers, the status register,
/// the program counter, the stack pointer, and the bus it drives.
pub struct Cpu<H: FrameHandler> {
    pub accumulator: u8,
    pub register_x: u8,
    pub register_y: u8,
    pub status_register: StatusRegister,
    pub program_counter: ProgramCounter,
    pub stack_pointer: StackPointer,
    pub bus: Bus<H>,
}

/// A host capability invoked once before every instruction, used for
/// tracing and testing. It receives the whole CPU mutably so it can inspect
/// memory through the bus; it must leave the machine well formed, which is
/// an obligation on every implementation.
pub trait StepHook<H: FrameHandler>: Sized {
    /// Observe the machine between instructions; a failure terminates the
    /// run loop.
    fn on_step(&mut self, cpu: &mut Cpu<H>) -> (r: Result<(), EmulatorError>)
        requires
            cpu_wf(*old(cpu)),
        ensures
            cpu_wf(*final(cpu)),
    ;
}

/// A hook that observes nothing.
#[derive(Debug, Clone, Copy, PartialEq, Eq, Structural)]
pub struct NoopStepHook {}

impl<H: FrameHandler> StepHook<H> for NoopStepHook {
    fn on_step(&mut self, cpu: &mut Cpu<H>) -> (r: Result<(), EmulatorError>) {
        Ok(())
    }
}

/// The machine states the engine may run from: a well-formed bus.
pub open spec fn cpu_wf<H: FrameHandler>(c: Cpu<H>) -> bool {
    bus_wf(c.bus)
}

/// The status register with Zero and Negative refreshed from a result byte.
pub open spec fn upd_zn(s: StatusRegister, v: u8) -> StatusRegister {
    StatusRegister { zero: v == 0, negative: v >= 0x80, ..s }
}

/// The accumulator, carry, overflow, zero and negative state after the
/// shared add primitive consumes one operand byte.
pub open spec fn add_to_acc_spec<H: FrameHandler>(c: Cpu<H>, data: u8) -> Cpu<H> {
    let sum = c.accumulator + data + (if c.status_register.carry {
        1int
    } else {
        0int
    });
    let result = (sum % 256) as u8;
    Cpu {
        accumulator: result,
        status_register: StatusRegister {
            carry: sum > 0xff,
            overflow: ((data >= 0x80) == (c.accumulator >= 0x80)) && ((result >= 0x80) != (
            c.accumulator >= 0x80)),
            zero: result == 0,
            negative: result >= 0x80,
            ..c.status_register
        },
        ..c
    }
}

/// A page boundary lies between two addresses exactly when their high bytes
/// differ.
pub open spec fn page_crossed_spec(before: u16, after: u16) -> bool {
    before / 256 != after / 256
}

/// The bus after a clock tick on which the host was not called: cycles
/// accumulate and the picture unit advances three times as far.
pub open spec fn quiet_tick<H: FrameHandler>(b: Bus<H>, cycles: u8) -> Bus<H> {
    Bus {
        cycles: ((b.cycles + cycles) % 0x1_0000_0000_0000_0000int) as u64,
        ppu: ppu_tick_spec(b.ppu, (cycles * 3) as u8),
        ..b
    }
}

/// Whether a tick of `cycles` would pass without a vblank rising edge, so
/// that the host is not called and the tick's effect is fully determined.
pub open spec fn tick_quiet<H: FrameHandler>(b: Bus<H>, cycles: u8) -> bool {
    !nmi_rising(b.ppu, ppu_tick_spec(b.ppu, (cycles * 3) as u8))
}

impl<H: FrameHandler> Cpu<H> {
    /// A freshly powered-on engine over a bus.
    pub fn new(bus: Bus<H>) -> (r: Cpu<H>)
        ensures
            r.accumulator == 0,
            r.register_x == 0,
            r.register_y == 0,
            r.status_register == (StatusRegister {
                interrupt_disable: true,
                break2: true,
                ..StatusRegister::empty_spec()
            }),
            r.program_counter == 0,
            r.stack_pointer.0 == stack_pointer::STACK_RESET,
            r.bus == bus,
    {
        Cpu {
            accumulator: 0,
            register_x: 0,
            register_y: 0,
            status_register: StatusRegister::init(),
            program_counter: 0,
            stack_pointer: StackPointer::default(),
            bus,
        }
    }

    /// The bus the engine drives.
    pub fn bus(&self) -> (r: &Bus<H>)
        ensures
            r == &self.bus,
    {
        &self.bus
    }

    /// Read the byte at `addr` through the bus.
    pub fn read(&mut self, addr: Address) -> (r: Result<u8, EmulatorError>)
        requires
            cpu_wf(*old(self)),
        ensures
            cpu_wf(*final(self)),
            *final(self) == (Cpu { bus: bus_read_outcome(old(self).bus, addr).0, ..*old(self) }),
            r == bus_read_outcome(old(self).bus, addr).1,
    {
        self.bus.read(addr)
    }

    /// Write `value` to `addr` through the bus.
    pub fn write(&mut self, addr: Address, value: u8) -> (r: Result<(), EmulatorError>)
        requires
            cpu_wf(*old(self)),
        ensures
            cpu_wf(*final(self)),
            final(self).accumulator == old(self).accumulator,
            final(self).register_x == old(self).register_x,
            final(self).register_y == old(self).register_y,
            final(self).status_register == old(self).status_register,
            final(self).program_counter == old(self).program_counter,
            final(self).stack_pointer == old(self).stack_pointer,
            match bus_write_outcome(old(self).bus, addr, value) {
                Some((b2, res)) => final(self).bus == b2 && r == res,
                None => true,
            },
    {
        self.bus.write(addr, value)
    }

    /// Read the little-endian word starting at `addr` through the bus,
    /// wrapping at the top of the address space.
    pub fn read_u16(&mut self, addr: Address) -> (r: Result<u16, EmulatorError>)
        requires
            cpu_wf(*old(self)),
        ensures
            cpu_wf(*final(self)),
            ({
                let (b1, r1) = bus_read_outcome(old(self).bus, addr);
                match r1 {
                    Err(e) => *final(self) == (Cpu { bus: b1, ..*old(self) }) && r == Err::<
                        u16,
                        EmulatorError,
                    >(e),
                    Ok(lo) => {
                        let (b2, r2) = bus_read_outcome(b1, ((addr + 1) % 0x10000) as u16);
                        match r2 {
                            Err(e) => *final(self) == (Cpu { bus: b2, ..*old(self) }) && r == Err::<
                                u16,
                                EmulatorError,
                            >(e),
                            Ok(hi) => *final(self) == (Cpu { bus: b2, ..*old(self) }) && r == Ok::<
                                u16,
                                EmulatorError,
                            >((hi * 256 + lo) as u16),
                        }
                    },
                }
            }),
    {
        self.bus.read_u16(addr)
    }

    /// Write `data` little-endian starting at `addr` through the bus,
    /// wrapping at the top of the address space.
    pub fn write_u16(&mut self, addr: Address, data: u16) -> (r: Result<(), EmulatorError>)
        requires
            cpu_wf(*old(self)),
        ensures
            cpu_wf(*final(self)),
            final(self).accumulator == old(self).accumulator,
            final(self).register_x == old(self).register_x,
            final(self).register_y == old(self).register_y,
            final(self).status_register == old(self).status_register,
            final(self).program_counter == old(self).program_counter,
            final(self).stack_pointer == old(self).stack_pointer,
            ({
                let lo = (data % 256) as u8;
                let hi = (data / 256) as u8;
                match bus_write_outcome(old(self).bus, addr, lo) {
                    Some((b1, Err(e))) => final(self).bus == b1 && r == Err::<(), EmulatorError>(e),
                    Some((b1, Ok(()))) => match bus_write_outcome(b1, ((addr + 1) % 0x10000) as u16, hi) {
                        Some((b2, res)) => final(self).bus == b2 && r == res,
                        None => true,
                    },
                    None => true,
                }
            }),
    {
        self.bus.write_u16(addr, data)
    }
}


impl<H: FrameHandler> Cpu<H> {
    /// The shared add primitive: both addition and subtraction route
    /// through it so that carry and overflow behave identically. A 9-bit
    /// intermediate sum sets Carry on bit 8; Overflow rises when both
    /// operands share a sign the result does not.
    fn add_to_acc(&mut self, data: u8)
        ensures
            *final(self) == add_to_acc_spec(*old(self), data),
    {
        let input_carry: u16 = if self.status_register.carry {
            1
        } else {
            0
        };
        let sum_wide: u16 = self.accumulator as u16 + data as u16 + input_carry;
        let result: u8 = (sum_wide % 256) as u8;

        self.status_register.set_carry_flag(sum_wide > 0xff);
        self.status_register.set_overflow_flag(
            ((data >= 0x80) == (self.accumulator >= 0x80)) && ((result >= 0x80) != (self.accumulator
                >= 0x80)),
        );

        self.accumulator = result;
        self.status_register.update_zero_and_negative_flags(result);
    }

    /// Add the byte at `address` and the carry into the accumulator.
    fn adc(&mut self, address: Address) -> (r: Result<(), EmulatorError>)
        requires
            cpu_wf(*old(self)),
        ensures
            cpu_wf(*final(self)),
            adc_post(*old(self), address, *final(self), r),
    {
        let value = self.read(address)?;
        self.add_to_acc(value);

        Ok(())
    }

    /// Subtract the byte at `address` from the accumulator by feeding its
    /// one's complement into the shared add primitive.
    fn sbc(&mut self, address: Address) -> (r: Result<(), EmulatorError>)
        requires
            cpu_wf(*old(self)),
        ensures
            cpu_wf(*final(self)),
            sbc_post(*old(self), address, *final(self), r),
    {
        let value = self.read(address)?;
        let neg = 255 - value;

        self.add_to_acc(neg);

        Ok(())
    }

    /// Compare a register with the byte at `address`: Carry rises when the
    /// register is at least the operand, and the wrapped difference feeds
    /// the zero and negative flags.
    fn compare(&mut self, address: Address, register: u8) -> (r: Result<(), EmulatorError>)
        requires
            cpu_wf(*old(self)),
        ensures
            cpu_wf(*final(self)),
            compare_post(*old(self), address, register, *final(self), r),
    {
        let value = self.read(address)?;
        let result = register.wrapping_sub(value);

        self.status_register.set_carry_flag(value <= register);
        self.status_register.update_zero_and_negative_flags(result);

        Ok(())
    }

    /// AND the byte at `address` into the accumulator.
    fn and(&mut self, address: Address) -> (r: Result<(), EmulatorError>)
        requires
            cpu_wf(*old(self)),
        ensures
            cpu_wf(*final(self)),
            and_post(*old(self), address, *final(self), r),
    {
        let value = self.read(address)?;

        self.accumulator = self.accumulator & value;
        self.status_register.update_zero_and_negative_flags(self.accumulator);

        Ok(())
    }

    /// XOR the byte at `address` into the accumulator.
    fn eor(&mut self, address: Address) -> (r: Result<(), EmulatorError>)
        requires
            cpu_wf(*old(self)),
        ensures
            cpu_wf(*final(self)),
            eor_post(*old(self), address, *final(self), r),
    {
        let value = self.read(address)?;

        self.accumulator = self.accumulator ^ value;
        self.status_register.update_zero_and_negative_flags(self.accumulator);

        Ok(())
    }

    /// OR the byte at `address` into the accumulator.
    fn ora(&mut self, address: Address) -> (r: Result<(), EmulatorError>)
        requires
            cpu_wf(*old(self)),
        ensures
            cpu_wf(*final(self)),
            ora_post(*old(self), address, *final(self), r),
    {
        let value = self.read(address)?;

        self.accumulator = self.accumulator | value;
        self.status_register.update_zero_and_negative_flags(self.accumulator);

        Ok(())
    }

    /// Test accumulator bits against the byte at `address`: Zero from the
    /// AND, Overflow and Negative copied from operand bits 6 and 7.
    fn bit(&mut self, address: Address) -> (r: Result<(), EmulatorError>)
        requires
            cpu_wf(*old(self)),
        ensures
            cpu_wf(*final(self)),
            bit_post(*old(self), address, *final(self), r),
    {
        let value = self.read(address)?;

        self.status_register.set_overflow_flag(value / 0x40 % 2 == 1);
        self.status_register.set_negative_flag(value >= 0x80);
        self.status_register.set_zero_flag(value & self.accumulator == 0);

        Ok(())
    }

    /// Load a byte and refresh the zero and negative flags from it.
    fn load_value(&mut self, address: Address) -> (r: Result<u8, EmulatorError>)
        requires
            cpu_wf(*old(self)),
        ensures
            cpu_wf(*final(self)),
            ({
                let (b1, rv) = bus_read_outcome(old(self).bus, address);
                match rv {
                    Err(e) => r == Err::<u8, EmulatorError>(e) && *final(self) == (Cpu {
                        bus: b1,
                        ..*old(self)
                    }),
                    Ok(v) => r == Ok::<u8, EmulatorError>(v) && *final(self) == (Cpu {
                        status_register: upd_zn(old(self).status_register, v),
                        bus: b1,
                        ..*old(self)
                    }),
                }
            }),
    {
        let value = self.read(address)?;
        self.status_register.update_zero_and_negative_flags(value);

        Ok(value)
    }

    /// Load the accumulator from `address`.
    fn lda(&mut self, address: Address) -> (r: Result<(), EmulatorError>)
        requires
            cpu_wf(*old(self)),
        ensures
            cpu_wf(*final(self)),
            lda_post(*old(self), address, *final(self), r),
    {
        self.accumulator = self.load_value(address)?;

        Ok(())
    }

    /// Load index X from `address`.
    fn ldx(&mut self, address: Address) -> (r: Result<(), EmulatorError>)
        requires
            cpu_wf(*old(self)),
        ensures
            cpu_wf(*final(self)),
            ldx_post(*old(self), address, *final(self), r),
    {
        self.register_x = self.load_value(address)?;

        Ok(())
    }

    /// Load index Y from `address`.
    fn ldy(&mut self, address: Address) -> (r: Result<(), EmulatorError>)
        requires
            cpu_wf(*old(self)),
        ensures
            cpu_wf(*final(self)),
            ldy_post(*old(self), address, *final(self), r),
    {
        self.register_y = self.load_value(address)?;

        Ok(())
    }

    /// Load the accumulator and index X together (undocumented).
    fn lax(&mut self, address: Address) -> (r: Result<(), EmulatorError>)
        requires
            cpu_wf(*old(self)),
        ensures
            cpu_wf(*final(self)),
            lax_post(*old(self), address, *final(self), r),
    {
        self.accumulator = self.load_value(address)?;
        self.register_x = self.accumulator;

        Ok(())
    }

    /// Store the AND of accumulator and index X (undocumented).
    fn sax(&mut self, address: Address) -> (r: Result<(), EmulatorError>)
        requires
            cpu_wf(*old(self)),
        ensures
            cpu_wf(*final(self)),
            final(self).accumulator == old(self).accumulator,
            final(self).register_x == old(self).register_x,
            final(self).register_y == old(self).register_y,
            final(self).status_register == old(self).status_register,
            final(self).program_counter == old(self).program_counter,
            final(self).stack_pointer == old(self).stack_pointer,
            match bus_write_outcome(
                old(self).bus,
                address,
                (old(self).accumulator & old(self).register_x) as u8,
            ) {
                Some((b2, res)) => final(self).bus == b2 && r == res,
                None => true,
            },
    {
        let result = self.accumulator & self.register_x;
        self.write(address, result)?;

        Ok(())
    }

    /// Copy the accumulator into index X.
    fn tax(&mut self)
        ensures
            *final(self) == (Cpu {
                register_x: old(self).accumulator,
                status_register: upd_zn(old(self).status_register, old(self).accumulator),
                ..*old(self)
            }),
    {
        self.register_x = self.accumulator;
        self.status_register.update_zero_and_negative_flags(self.register_x);
    }

    /// Copy the accumulator into index Y.
    fn tay(&mut self)
        ensures
            *final(self) == (Cpu {
                register_y: old(self).accumulator,
                status_register: upd_zn(old(self).status_register, old(self).accumulator),
                ..*old(self)
            }),
    {
        self.register_y = self.accumulator;
        self.status_register.update_zero_and_negative_flags(self.register_y);
    }

    /// Copy the stack pointer into index X.
    fn tsx(&mut self)
        ensures
            *final(self) == (Cpu {
                register_x: old(self).stack_pointer.0,
                status_register: upd_zn(old(self).status_register, old(self).stack_pointer.0),
                ..*old(self)
            }),
    {
        self.register_x = self.stack_pointer.value();
        self.status_register.update_zero_and_negative_flags(self.register_x);
    }

    /// Copy index X into the accumulator.
    fn txa(&mut self)
        ensures
            *final(self) == (Cpu {
                accumulator: old(self).register_x,
                status_register: upd_zn(old(self).status_register, old(self).register_x),
                ..*old(self)
            }),
    {
        self.accumulator = self.register_x;
        self.status_register.update_zero_and_negative_flags(self.accumulator);
    }

    /// Copy index Y into the accumulator.
    fn tya(&mut self)
        ensures
            *final(self) == (Cpu {
                accumulator: old(self).register_y,
                status_register: upd_zn(old(self).status_register, old(self).register_y),
                ..*old(self)
            }),
    {
        self.accumulator = self.register_y;
        self.status_register.update_zero_and_negative_flags(self.accumulator);
    }

    /// Step index X down by one, wrapping.
    fn dex(&mut self)
        ensures
            *final(self) == (Cpu {
                register_x: dec_spec(old(self).register_x),
                status_register: upd_zn(old(self).status_register, dec_spec(old(self).register_x)),
                ..*old(self)
            }),
    {
        self.register_x = self.register_x.wrapping_sub(1);
        self.status_register.update_zero_and_negative_flags(self.register_x);
    }

    /// Step index Y down by one, wrapping.
    fn dey(&mut self)
        ensures
            *final(self) == (Cpu {
                register_y: dec_spec(old(self).register_y),
                status_register: upd_zn(old(self).status_register, dec_spec(old(self).register_y)),
                ..*old(self)
            }),
    {
        self.register_y = self.register_y.wrapping_sub(1);
        self.status_register.update_zero_and_negative_flags(self.register_y);
    }

    /// Step index X up by one, wrapping.
    fn inx(&mut self)
        ensures
            *final(self) == (Cpu {
                register_x: inc_spec(old(self).register_x),
                status_register: upd_zn(old(self).status_register, inc_spec(old(self).register_x)),
                ..*old(self)
            }),
    {
        self.register_x = self.register_x.wrapping_add(1);
        self.status_register.update_zero_and_negative_flags(self.register_x);
    }

    /// Step index Y up by one, wrapping.
    fn iny(&mut self)
        ensures
            *final(self) == (Cpu {
                register_y: inc_spec(old(self).register_y),
                status_register: upd_zn(old(self).status_register, inc_spec(old(self).register_y)),
                ..*old(self)
            }),
    {
        self.register_y = self.register_y.wrapping_add(1);
        self.status_register.update_zero_and_negative_flags(self.register_y);
    }
}


impl<H: FrameHandler> Cpu<H> {
    /// Step the byte at `address` down by one, wrapping, and refresh the
    /// zero and negative flags from the result.
    #[verifier::rlimit(100)]
    #[verifier::spinoff_prover]
    fn dec(&mut self, address: Address) -> (r: Result<(), EmulatorError>)
        requires
            cpu_wf(*old(self)),
        ensures
            cpu_wf(*final(self)),
            dec_mem_post(*old(self), address, *final(self), r),
    {
        let value = self.read(address)?;
        let dec_value = value.wrapping_sub(1);

        self.write(address, dec_value)?;
        self.status_register.update_zero_and_negative_flags(dec_value);

        Ok(())
    }

    /// Step the byte at `address` up by one, wrapping, and refresh the zero
    /// and negative flags from the result.
    #[verifier::rlimit(100)]
    fn inc(&mut self, address: Address) -> (r: Result<(), EmulatorError>)
        requires
            cpu_wf(*old(self)),
        ensures
            cpu_wf(*final(self)),
            inc_mem_post(*old(self), address, *final(self), r),
    {
        let value = self.read(address)?;
        let inc_value = value.wrapping_add(1);

        self.write(address, inc_value)?;
        self.status_register.update_zero_and_negative_flags(inc_value);

        Ok(())
    }

    /// Shift or rotate the accumulator, or the byte at `address`, one place
    /// in the given direction, merging `input_carry` into the vacated bit;
    /// hands back the byte before and after.
    #[verifier::rlimit(100)]
    fn shift(&mut self, address: Address, mode: AddressingMode, input_carry: u8, left: bool) -> (r:
        Result<ByteUpdate, EmulatorError>)
        requires
            cpu_wf(*old(self)),
            left ==> input_carry <= 1,
            !left ==> input_carry == 0 || input_carry == 0x80,
        ensures
            cpu_wf(*final(self)),
            final(self).register_x == old(self).register_x,
            final(self).register_y == old(self).register_y,
            final(self).program_counter == old(self).program_counter,
            final(self).stack_pointer == old(self).stack_pointer,
            final(self).status_register == old(self).status_register,
            mode != AddressingMode::Accumulator ==> final(self).accumulator == old(
                self,
            ).accumulator,
            mode == AddressingMode::Accumulator ==> ({
                let nv = shift_apply(left, input_carry, old(self).accumulator);
                &&& *final(self) == (Cpu { accumulator: nv, ..*old(self) })
                &&& (r matches Ok(u) && u.previous == old(self).accumulator && u.new == nv)
            }),
            mode != AddressingMode::Accumulator ==> ({
                let (b1, rv) = bus_read_outcome(old(self).bus, address);
                match rv {
                    Err(e) => r matches Err(e2) && e2 == e && *final(self) == (Cpu {
                        bus: b1,
                        ..*old(self)
                    }),
                    Ok(v) => {
                        let nv = shift_apply(left, input_carry, v);
                        match bus_write_outcome(b1, address, nv) {
                            Some((b2, Ok(()))) => (r matches Ok(u) && u.previous == v && u.new
                                == nv) && *final(self) == (Cpu { bus: b2, ..*old(self) }),
                            Some((b2, Err(e))) => (r matches Err(e2) && e2 == e) && *final(self)
                                == (Cpu { bus: b2, ..*old(self) }),
                            None => true,
                        }
                    },
                }
            }),
    {
        match mode {
            AddressingMode::Accumulator => {
                let old_acc = self.accumulator;
                let shifted = if left {
                    shift_left(self.accumulator)
                } else {
                    shift_right(self.accumulator)
                };
                self.accumulator = shifted + input_carry;

                Ok(ByteUpdate { previous: old_acc, new: self.accumulator })
            },
            _ => {
                let value = self.read(address)?;
                let shifted = if left {
                    shift_left(value)
                } else {
                    shift_right(value)
                } + input_carry;

                self.write(address, shifted)?;

                Ok(ByteUpdate { previous: value, new: shifted })
            },
        }
    }

    /// Arithmetic shift left: Carry takes the bit shifted out of the top.
    fn asl(&mut self, address: Address, mode: AddressingMode) -> (r: Result<(), EmulatorError>)
        requires
            cpu_wf(*old(self)),
        ensures
            cpu_wf(*final(self)),
            final(self).register_x == old(self).register_x,
            final(self).register_y == old(self).register_y,
            final(self).program_counter == old(self).program_counter,
            final(self).stack_pointer == old(self).stack_pointer,
            shift_instruction_post(*old(self), address, mode, 0, true, *final(self), r),
    {
        let update = self.shift(address, mode, 0, true)?;

        self.status_register.set_carry_flag(update.previous >= 0x80);
        self.status_register.update_zero_and_negative_flags(update.new);

        Ok(())
    }

    /// Logical shift right: Carry takes the bit shifted out of the bottom.
    fn lsr(&mut self, address: Address, mode: AddressingMode) -> (r: Result<(), EmulatorError>)
        requires
            cpu_wf(*old(self)),
        ensures
            cpu_wf(*final(self)),
            final(self).register_x == old(self).register_x,
            final(self).register_y == old(self).register_y,
            final(self).program_counter == old(self).program_counter,
            final(self).stack_pointer == old(self).stack_pointer,
            shift_instruction_post(*old(self), address, mode, 0, false, *final(self), r),
    {
        let update = self.shift(address, mode, 0, false)?;

        self.status_register.set_carry_flag(update.previous % 2 == 1);
        self.status_register.update_zero_and_negative_flags(update.new);

        Ok(())
    }

    /// Rotate left through the carry flag.
    #[verifier::rlimit(100)]
    fn rol(&mut self, address: Address, mode: AddressingMode) -> (r: Result<(), EmulatorError>)
        requires
            cpu_wf(*old(self)),
        ensures
            cpu_wf(*final(self)),
            final(self).register_x == old(self).register_x,
            final(self).register_y == old(self).register_y,
            final(self).program_counter == old(self).program_counter,
            final(self).stack_pointer == old(self).stack_pointer,
            shift_instruction_post(
                *old(self),
                address,
                mode,
                if old(self).status_register.carry {
                    1u8
                } else {
                    0u8
                },
                true,
                *final(self),
                r,
            ),
    {
        let input_carry: u8 = if self.status_register.carry {
            1
        } else {
            0
        };
        let update = self.shift(address, mode, input_carry, true)?;

        self.status_register.set_carry_flag(update.previous >= 0x80);
        self.status_register.update_zero_and_negative_flags(update.new);

        Ok(())
    }

    /// Rotate right through the carry flag.
    #[verifier::rlimit(100)]
    fn ror(&mut self, address: Address, mode: AddressingMode) -> (r: Result<(), EmulatorError>)
        requires
            cpu_wf(*old(self)),
        ensures
            cpu_wf(*final(self)),
            final(self).register_x == old(self).register_x,
            final(self).register_y == old(self).register_y,
            final(self).program_counter == old(self).program_counter,
            final(self).stack_pointer == old(self).stack_pointer,
            shift_instruction_post(
                *old(self),
                address,
                mode,
                if old(self).status_register.carry {
                    0x80u8
                } else {
                    0u8
                },
                false,
                *final(self),
                r,
            ),
    {
        let input_carry: u8 = if self.status_register.carry {
            0x80
        } else {
            0
        };
        let update = self.shift(address, mode, input_carry, false)?;

        self.status_register.set_carry_flag(update.previous % 2 == 1);
        self.status_register.update_zero_and_negative_flags(update.new);

        Ok(())
    }

    /// Push one byte at the stack pointer's address and step it down.
    fn push_stack(&mut self, value: u8) -> (r: Result<(), EmulatorError>)
        requires
            cpu_wf(*old(self)),
        ensures
            cpu_wf(*final(self)),
            r == Ok::<(), EmulatorError>(()),
            *final(self) == (Cpu {
                stack_pointer: StackPointer(dec_spec(old(self).stack_pointer.0)),
                bus: Bus {
                    cpu_vram: vstd::array::spec_array_update(
                        old(self).bus.cpu_vram,
                        0x100 + old(self).stack_pointer.0,
                        value,
                    ),
                    ..old(self).bus
                },
                ..*old(self)
            }),
    {
        proof {
            reveal(crate::bus::bus_write_outcome);
        }
        self.write(self.stack_pointer.address(), value)?;

        self.stack_pointer.decrement();

        Ok(())
    }

    /// Push a word, high byte first.
    fn push_stack_wide(&mut self, value: u16) -> (r: Result<(), EmulatorError>)
        requires
            cpu_wf(*old(self)),
        ensures
            cpu_wf(*final(self)),
            r == Ok::<(), EmulatorError>(()),
            *final(self) == (Cpu {
                stack_pointer: StackPointer(dec_spec(dec_spec(old(self).stack_pointer.0))),
                bus: Bus {
                    cpu_vram: vstd::array::spec_array_update(
                        vstd::array::spec_array_update(
                            old(self).bus.cpu_vram,
                            0x100 + old(self).stack_pointer.0,
                            (value / 256) as u8,
                        ),
                        0x100 + dec_spec(old(self).stack_pointer.0),
                        (value % 256) as u8,
                    ),
                    ..old(self).bus
                },
                ..*old(self)
            }),
    {
        let lo = (value % 256) as u8;
        let hi = (value / 256) as u8;

        self.push_stack(hi)?;
        self.push_stack(lo)?;

        Ok(())
    }

    /// Step the stack pointer up and read the byte it then designates.
    fn pop_stack(&mut self) -> (r: Result<u8, EmulatorError>)
        requires
            cpu_wf(*old(self)),
        ensures
            cpu_wf(*final(self)),
            r == Ok::<u8, EmulatorError>(
                old(self).bus.cpu_vram@[0x100 + inc_spec(old(self).stack_pointer.0)],
            ),
            *final(self) == (Cpu {
                stack_pointer: StackPointer(inc_spec(old(self).stack_pointer.0)),
                ..*old(self)
            }),
    {
        proof {
            reveal(crate::bus::bus_read_outcome);
        }
        self.stack_pointer.increment();
        self.read(self.stack_pointer.address())
    }

    /// Pop a word, low byte first.
    fn pop_stack_u16(&mut self) -> (r: Result<u16, EmulatorError>)
        requires
            cpu_wf(*old(self)),
        ensures
            cpu_wf(*final(self)),
            ({
                let lo = old(self).bus.cpu_vram@[0x100 + inc_spec(old(self).stack_pointer.0)];
                let hi = old(self).bus.cpu_vram@[0x100 + inc_spec(
                    inc_spec(old(self).stack_pointer.0),
                )];
                &&& r == Ok::<u16, EmulatorError>((hi * 256 + lo) as u16)
                &&& *final(self) == (Cpu {
                    stack_pointer: StackPointer(inc_spec(inc_spec(old(self).stack_pointer.0))),
                    ..*old(self)
                })
            }),
    {
        let lo = self.pop_stack()? as u16;
        let hi = self.pop_stack()? as u16;

        Ok(hi * 256 + lo)
    }
}

/// The byte after one shift or rotate step: doubled or halved, with the
/// incoming carry merged into the vacated bit.
pub open spec fn shift_apply(left: bool, input_carry: u8, v: u8) -> u8 {
    if left {
        ((2 * v) % 256 + input_carry) as u8
    } else {
        (v / 2 + input_carry) as u8
    }
}


impl<H: FrameHandler> Cpu<H> {
    /// Push the status register with Break and Break2 set.
    fn php(&mut self) -> (r: Result<(), EmulatorError>)
        requires
            cpu_wf(*old(self)),
        ensures
            cpu_wf(*final(self)),
            php_post(*old(self), *final(self), r),
    {
        let mut status_with_b_flags = self.status_register;
        status_with_b_flags.set_zero_flag(status_with_b_flags.zero);
        status_with_b_flags.break_flag = true;
        status_with_b_flags.break2 = true;

        self.push_stack(status_with_b_flags.bits())
    }

    /// Pop the accumulator and refresh the zero and negative flags.
    fn pla(&mut self) -> (r: Result<(), EmulatorError>)
        requires
            cpu_wf(*old(self)),
        ensures
            cpu_wf(*final(self)),
            pla_post(*old(self), *final(self), r),
    {
        let value = self.pop_stack()?;

        self.accumulator = value;
        self.status_register.update_zero_and_negative_flags(self.accumulator);

        Ok(())
    }

    /// Pop the status register, clearing Break and setting Break2 for
    /// push/pop fidelity.
    fn plp(&mut self) -> (r: Result<(), EmulatorError>)
        requires
            cpu_wf(*old(self)),
        ensures
            cpu_wf(*final(self)),
            plp_post(*old(self), *final(self), r),
    {
        let value = self.pop_stack()?;

        self.status_register = StatusRegister::from_bits(value);
        self.status_register.break_flag = false;
        self.status_register.break2 = true;

        Ok(())
    }

    /// Jump to subroutine: push the address of the call's last byte, then
    /// load the program counter from the operand.
    #[verifier::rlimit(100)]
    fn jsr(&mut self) -> (r: Result<(), EmulatorError>)
        requires
            cpu_wf(*old(self)),
        ensures
            cpu_wf(*final(self)),
            jsr_post(*old(self), *final(self), r),
    {
        self.push_stack_wide(self.program_counter.wrapping_add(1))?;
        let target_address = self.read_u16(self.program_counter)?;
        self.program_counter = target_address;

        Ok(())
    }

    /// Return from interrupt: pop the status register, then the program
    /// counter.
    fn rti(&mut self) -> (r: Result<(), EmulatorError>)
        requires
            cpu_wf(*old(self)),
        ensures
            cpu_wf(*final(self)),
            rti_post(*old(self), *final(self), r),
    {
        let value = self.pop_stack()?;
        self.status_register = StatusRegister::from_bits(value);
        self.status_register.break_flag = false;
        self.status_register.break2 = true;

        self.program_counter = self.pop_stack_u16()?;

        Ok(())
    }

    /// Return from subroutine: pop the program counter and step past the
    /// call's last byte.
    fn rts(&mut self) -> (r: Result<(), EmulatorError>)
        requires
            cpu_wf(*old(self)),
        ensures
            cpu_wf(*final(self)),
            rts_post(*old(self), *final(self), r),
    {
        let target = self.pop_stack_u16()?;
        self.program_counter = target.wrapping_add(1);

        Ok(())
    }

    /// Decrement the byte at `address`, then compare it with the
    /// accumulator (undocumented); reuses the shared primitives.
    #[verifier::rlimit(100)]
    fn dcp(&mut self, address: Address) -> (r: Result<(), EmulatorError>)
        requires
            cpu_wf(*old(self)),
        ensures
            cpu_wf(*final(self)),
            dcp_post(*old(self), address, *final(self), r),
            final(self).accumulator == old(self).accumulator,
            final(self).register_x == old(self).register_x,
            final(self).register_y == old(self).register_y,
            final(self).program_counter == old(self).program_counter,
            final(self).stack_pointer == old(self).stack_pointer,
    {
        let value = self.read(address)?;
        let decremented = value.wrapping_sub(1);
        self.write(address, decremented)?;

        self.compare(address, self.accumulator)?;

        Ok(())
    }

    /// Increment the byte at `address`, then subtract it from the
    /// accumulator (undocumented); reuses the shared primitives.
    #[verifier::rlimit(100)]
    fn isb(&mut self, address: Address) -> (r: Result<(), EmulatorError>)
        requires
            cpu_wf(*old(self)),
        ensures
            cpu_wf(*final(self)),
            isb_post(*old(self), address, *final(self), r),
            final(self).register_x == old(self).register_x,
            final(self).register_y == old(self).register_y,
            final(self).program_counter == old(self).program_counter,
            final(self).stack_pointer == old(self).stack_pointer,
    {
        let value = self.read(address)?;
        let incremented = value.wrapping_add(1);

        self.write(address, incremented)?;
        self.sbc(address)?;

        Ok(())
    }

    /// Shift the byte at `address` left, then OR it into the accumulator
    /// (undocumented); reuses the shared primitives.
    #[verifier::rlimit(100)]
    fn slo(&mut self, address: Address) -> (r: Result<(), EmulatorError>)
        requires
            cpu_wf(*old(self)),
        ensures
            cpu_wf(*final(self)),
            slo_post(*old(self), address, *final(self), r),
            final(self).register_x == old(self).register_x,
            final(self).register_y == old(self).register_y,
            final(self).program_counter == old(self).program_counter,
            final(self).stack_pointer == old(self).stack_pointer,
    {
        let value = self.read(address)?;
        let shifted_left = shift_left(value);
        self.status_register.set_carry_flag(value >= 0x80);

        self.write(address, shifted_left)?;
        self.ora(address)?;

        Ok(())
    }

    /// Rotate the byte at `address` left, then AND it into the accumulator
    /// (undocumented); reuses the shared primitives.
    #[verifier::rlimit(100)]
    fn rla(&mut self, address: Address, mode: AddressingMode) -> (r: Result<(), EmulatorError>)
        requires
            cpu_wf(*old(self)),
        ensures
            cpu_wf(*final(self)),
            mode != AddressingMode::Accumulator ==> rla_post(*old(self), address, *final(self), r),
            final(self).register_x == old(self).register_x,
            final(self).register_y == old(self).register_y,
            final(self).program_counter == old(self).program_counter,
            final(self).stack_pointer == old(self).stack_pointer,
    {
        self.rol(address, mode)?;
        let value = self.read(address)?;

        self.accumulator = self.accumulator & value;

        Ok(())
    }

    /// Shift the byte at `address` right, then XOR it into the accumulator
    /// (undocumented); reuses the shared primitives.
    #[verifier::rlimit(100)]
    fn sre(&mut self, address: Address) -> (r: Result<(), EmulatorError>)
        requires
            cpu_wf(*old(self)),
        ensures
            cpu_wf(*final(self)),
            sre_post(*old(self), address, *final(self), r),
            final(self).register_x == old(self).register_x,
            final(self).register_y == old(self).register_y,
            final(self).program_counter == old(self).program_counter,
            final(self).stack_pointer == old(self).stack_pointer,
    {
        let value = self.read(address)?;
        let shifted_right = shift_right(value);

        self.status_register.set_carry_flag(value % 2 == 1);
        self.write(address, shifted_right)?;
        self.eor(address)?;

        Ok(())
    }

    /// Rotate the byte at `address` right, then add it into the accumulator
    /// (undocumented); reuses the shared add primitive.
    #[verifier::rlimit(100)]
    fn rra(&mut self, address: Address, mode: AddressingMode) -> (r: Result<(), EmulatorError>)
        requires
            cpu_wf(*old(self)),
        ensures
            cpu_wf(*final(self)),
            mode != AddressingMode::Accumulator ==> rra_post(*old(self), address, *final(self), r),
            final(self).register_x == old(self).register_x,
            final(self).register_y == old(self).register_y,
            final(self).program_counter == old(self).program_counter,
            final(self).stack_pointer == old(self).stack_pointer,
    {
        self.ror(address, mode)?;
        let value = self.read(address)?;
        self.add_to_acc(value);

        Ok(())
    }
}


/// Where a taken branch lands: one past the offset byte, plus the offset
/// taken as a signed displacement, wrapping around the address space.
pub open spec fn branch_target_spec(pc: u16, jump: u8) -> u16 {
    if jump < 0x80 {
        ((pc + 1 + jump) % 0x10000) as u16
    } else {
        ((pc + 1 + jump + 0x10000 - 0x100) % 0x10000) as u16
    }
}

impl<H: FrameHandler> Cpu<H> {
    /// Take a conditional branch when `condition` holds: one extra cycle for
    /// the taken branch, and another when the target lies on a different
    /// page than the offset byte's follower.
    #[verifier::rlimit(100)]
    fn branch(&mut self, condition: bool) -> (r: Result<(), EmulatorError>)
        requires
            cpu_wf(*old(self)),
        ensures
            cpu_wf(*final(self)),
            branch_post(*old(self), condition, *final(self), r),
    {
        if condition {
            self.bus.tick(1)?;

            let jump = self.read(self.program_counter)?;
            let jump_addr = if jump < 0x80 {
                self.program_counter.wrapping_add(1).wrapping_add(jump as u16)
            } else {
                self.program_counter.wrapping_add(1).wrapping_add(jump as u16).wrapping_sub(0x100)
            };

            if is_page_crossed(self.program_counter, jump_addr) {
                self.bus.tick(1)?;
            }

            self.program_counter = jump_addr;
        }

        Ok(())
    }

    /// Enter an interrupt: push the program counter (high byte first) and
    /// the status with Break cleared and Break2 set, raise InterruptDisable,
    /// pay the fixed cycle cost, and load the program counter from the
    /// interrupt's vector.
    #[verifier::rlimit(100)]
    fn interrupt(&mut self, interrupt: Interrupt) -> (r: Result<(), EmulatorError>)
        requires
            cpu_wf(*old(self)),
            interrupt.cpu_cycles <= 85,
        ensures
            cpu_wf(*final(self)),
            final(self).accumulator == old(self).accumulator,
            final(self).register_x == old(self).register_x,
            final(self).register_y == old(self).register_y,
            final(self).status_register == (StatusRegister {
                interrupt_disable: true,
                ..old(self).status_register
            }),
            final(self).stack_pointer == StackPointer(
                dec_spec(dec_spec(dec_spec(old(self).stack_pointer.0))),
            ),
            ({
                let pushed_bus = Bus {
                    cpu_vram: vstd::array::spec_array_update(
                        vstd::array::spec_array_update(
                            vstd::array::spec_array_update(
                                old(self).bus.cpu_vram,
                                0x100 + old(self).stack_pointer.0,
                                (old(self).program_counter / 256) as u8,
                            ),
                            0x100 + dec_spec(old(self).stack_pointer.0),
                            (old(self).program_counter % 256) as u8,
                        ),
                        0x100 + dec_spec(dec_spec(old(self).stack_pointer.0)),
                        status_register::bits_spec(
                            StatusRegister {
                                break_flag: false,
                                break2: true,
                                ..old(self).status_register
                            },
                        ),
                    ),
                    ..old(self).bus
                };
                tick_quiet(pushed_bus, interrupt.cpu_cycles) ==> ({
                    let b1 = quiet_tick(pushed_bus, interrupt.cpu_cycles);
                    let (b2, r1) = bus_read_outcome(b1, interrupt.vector_addr);
                    match r1 {
                        Err(e) => r == Err::<(), EmulatorError>(e) && final(self).bus == b2,
                        Ok(lo) => {
                            let (b3, r2) = bus_read_outcome(
                                b2,
                                ((interrupt.vector_addr + 1) % 0x10000) as u16,
                            );
                            match r2 {
                                Err(e) => r == Err::<(), EmulatorError>(e) && final(self).bus
                                    == b3,
                                Ok(hi) => r == Ok::<(), EmulatorError>(()) && final(self).bus == b3
                                    && final(self).program_counter == hi * 256 + lo,
                            }
                        },
                    }
                })
            }),
    {
        self.push_stack_wide(self.program_counter)?;
        let mut status = self.status_register;
        status.break_flag = false;
        status.break2 = true;

        self.push_stack(status.bits())?;
        self.status_register.disable_interrupt();

        self.bus.tick(interrupt.cpu_cycles)?;
        self.program_counter = self.read_u16(interrupt.vector_addr)?;

        Ok(())
    }
}

/// A page boundary lies between two addresses exactly when their high bytes
/// differ; real hardware then spends one extra cycle on indexed addressing.
pub fn is_page_crossed(before: Address, after: Address) -> (r: bool)
    ensures
        r == page_crossed_spec(before, after),
{
    let page_before = before / 256;
    let page_after = after / 256;

    page_before != page_after
}


impl<H: FrameHandler> Cpu<H> {
    /// Compute the operand address for the opcode whose arguments start at
    /// the current program counter.
    pub fn pc_operand_address(&mut self, opcode: &Opcode) -> (r: Result<Address, EmulatorError>)
        requires
            cpu_wf(*old(self)),
        ensures
            cpu_wf(*final(self)),
            final(self).accumulator == old(self).accumulator,
            final(self).register_x == old(self).register_x,
            final(self).register_y == old(self).register_y,
            final(self).status_register == old(self).status_register,
            final(self).program_counter == old(self).program_counter,
            final(self).stack_pointer == old(self).stack_pointer,
            operand_address_post(*old(self), *opcode, old(self).program_counter, *final(self), r),
    {
        let pc = self.program_counter;
        self.operand_address(opcode, pc)
    }

    /// Compute the operand address for `opcode` with its argument bytes at
    /// `address`, ticking the bus one extra cycle when indexed addressing
    /// crosses a page boundary and the opcode is marked as paying for it.
    #[verifier::rlimit(100)]
    pub fn operand_address(&mut self, opcode: &Opcode, address: Address) -> (r: Result<
        Address,
        EmulatorError,
    >)
        requires
            cpu_wf(*old(self)),
        ensures
            cpu_wf(*final(self)),
            final(self).accumulator == old(self).accumulator,
            final(self).register_x == old(self).register_x,
            final(self).register_y == old(self).register_y,
            final(self).status_register == old(self).status_register,
            final(self).program_counter == old(self).program_counter,
            final(self).stack_pointer == old(self).stack_pointer,
            operand_address_post(*old(self), *opcode, address, *final(self), r),
    {
        match opcode.addressing_mode {
            AddressingMode::Immediate => Ok(address),
            AddressingMode::ZeroPage => self.zero_page_indexed(address, 0),
            AddressingMode::Absolute => self.read_u16(address),
            AddressingMode::ZeroPageX => {
                let index = self.register_x;
                self.zero_page_indexed(address, index)
            },
            AddressingMode::ZeroPageY => {
                let index = self.register_y;
                self.zero_page_indexed(address, index)
            },
            AddressingMode::AbsoluteX => {
                let index = self.register_x;
                self.absolute_indexed(opcode, address, index)
            },
            AddressingMode::AbsoluteY => {
                let index = self.register_y;
                self.absolute_indexed(opcode, address, index)
            },
            AddressingMode::IndirectX => self.indirect_x(address),
            AddressingMode::IndirectY => self.indirect_y(opcode, address),
            AddressingMode::Indirect => self.indirect(address),
            _ => Ok(0),
        }
    }
}

/// What the operand-address computation does for each addressing mode,
/// relating the machine before (`c0`) and after (`c1`) and the result.
/// Indexed modes that cross a page boundary on a page-cross-sensitive opcode
/// pay one extra cycle; the clock outcome is pinned down whenever the tick
/// raises no frame.
pub open spec fn operand_address_post<H: FrameHandler>(
    c0: Cpu<H>,
    opcode: Opcode,
    address: u16,
    c1: Cpu<H>,
    r: Result<u16, EmulatorError>,
) -> bool {
    let mode = opcode.addressing_mode;
    &&& (mode == AddressingMode::Immediate ==> c1 == c0 && r == Ok::<u16, EmulatorError>(address))
    &&& ((mode == AddressingMode::Implied || mode == AddressingMode::Accumulator || mode
        == AddressingMode::Relative) ==> c1 == c0 && r == Ok::<u16, EmulatorError>(0u16))
    &&& (mode == AddressingMode::ZeroPage ==> zero_page_post(c0, address, 0, c1, r))
    &&& (mode == AddressingMode::ZeroPageX ==> zero_page_post(c0, address, c0.register_x, c1, r))
    &&& (mode == AddressingMode::ZeroPageY ==> zero_page_post(c0, address, c0.register_y, c1, r))
    &&& (mode == AddressingMode::Absolute ==> word_read_post(c0, address, c1, r))
    &&& (mode == AddressingMode::AbsoluteX ==> indexed_absolute_post(
        c0,
        opcode,
        address,
        c0.register_x,
        c1,
        r,
    ))
    &&& (mode == AddressingMode::AbsoluteY ==> indexed_absolute_post(
        c0,
        opcode,
        address,
        c0.register_y,
        c1,
        r,
    ))
    &&& (mode == AddressingMode::IndirectX ==> indirect_x_post(c0, address, c1, r))
    &&& (mode == AddressingMode::IndirectY ==> indirect_y_post(c0, opcode, address, c1, r))
    &&& (mode == AddressingMode::Indirect ==> indirect_post(c0, address, c1, r))
}

/// An indexed indirect fetch: index X plus the operand byte names a
/// zero-page pointer (wrapping within the zero page, high byte included),
/// and the target is the word that pointer holds.
pub open spec fn indirect_x_post<H: FrameHandler>(
    c0: Cpu<H>,
    address: u16,
    c1: Cpu<H>,
    r: Result<u16, EmulatorError>,
) -> bool {
    let (b1, r1) = bus_read_outcome(c0.bus, address);
    match r1 {
        Err(e) => c1 == (Cpu { bus: b1, ..c0 }) && r == Err::<u16, EmulatorError>(e),
        Ok(base) => {
            let ptr = ((base + c0.register_x) % 256) as u8;
            let (b2, r2) = bus_read_outcome(b1, ptr as u16);
            match r2 {
                Err(e) => c1 == (Cpu { bus: b2, ..c0 }) && r == Err::<u16, EmulatorError>(e),
                Ok(lo) => {
                    let (b3, r3) = bus_read_outcome(b2, ((ptr + 1) % 256) as u16);
                    match r3 {
                        Err(e) => c1 == (Cpu { bus: b3, ..c0 }) && r == Err::<u16, EmulatorError>(
                            e,
                        ),
                        Ok(hi) => c1 == (Cpu { bus: b3, ..c0 }) && r == Ok::<u16, EmulatorError>(
                            (hi * 256 + lo) as u16,
                        ),
                    }
                },
            }
        },
    }
}

/// An indirect indexed fetch: the operand byte names a zero-page pointer
/// (wrapping within the zero page), index Y is added to the word it holds,
/// and one extra cycle is paid exactly when the opcode is page-cross
/// sensitive and the sum leaves the pointer's page.
pub open spec fn indirect_y_post<H: FrameHandler>(
    c0: Cpu<H>,
    opcode: Opcode,
    address: u16,
    c1: Cpu<H>,
    r: Result<u16, EmulatorError>,
) -> bool {
    let (b1, r1) = bus_read_outcome(c0.bus, address);
    match r1 {
        Err(e) => c1 == (Cpu { bus: b1, ..c0 }) && r == Err::<u16, EmulatorError>(e),
        Ok(base) => {
            let (b2, r2) = bus_read_outcome(b1, base as u16);
            match r2 {
                Err(e) => c1 == (Cpu { bus: b2, ..c0 }) && r == Err::<u16, EmulatorError>(e),
                Ok(lo) => {
                    let (b3, r3) = bus_read_outcome(b2, ((base + 1) % 256) as u16);
                    match r3 {
                        Err(e) => c1 == (Cpu { bus: b3, ..c0 }) && r == Err::<u16, EmulatorError>(
                            e,
                        ),
                        Ok(hi) => {
                            let deref_base = (hi * 256 + lo) as u16;
                            let target = ((deref_base + c0.register_y) % 0x10000) as u16;
                            if !(opcode.needs_page_cross_check && page_crossed_spec(
                                deref_base,
                                target,
                            )) {
                                c1 == (Cpu { bus: b3, ..c0 }) && r == Ok::<u16, EmulatorError>(
                                    target,
                                )
                            } else if tick_quiet(b3, 1) {
                                c1 == (Cpu { bus: quiet_tick(b3, 1), ..c0 }) && r == Ok::<
                                    u16,
                                    EmulatorError,
                                >(target)
                            } else {
                                r == Ok::<u16, EmulatorError>(target) || r is Err
                            }
                        },
                    }
                },
            }
        },
    }
}

/// An absolute indirect fetch, with the documented page-boundary hardware
/// bug: a pointer ending in 0xff takes its high byte from the start of the
/// same page, not from the following address.
pub open spec fn indirect_post<H: FrameHandler>(
    c0: Cpu<H>,
    address: u16,
    c1: Cpu<H>,
    r: Result<u16, EmulatorError>,
) -> bool {
    let (b1, r1) = bus_read_outcome(c0.bus, address);
    match r1 {
        Err(e) => c1 == (Cpu { bus: b1, ..c0 }) && r == Err::<u16, EmulatorError>(e),
        Ok(lo0) => {
            let (b2, r2) = bus_read_outcome(b1, ((address + 1) % 0x10000) as u16);
            match r2 {
                Err(e) => c1 == (Cpu { bus: b2, ..c0 }) && r == Err::<u16, EmulatorError>(e),
                Ok(hi0) => {
                    let target = (hi0 * 256 + lo0) as u16;
                    if target % 256 == 0xff {
                        let (b3, r3) = bus_read_outcome(b2, target);
                        match r3 {
                            Err(e) => c1 == (Cpu { bus: b3, ..c0 }) && r == Err::<
                                u16,
                                EmulatorError,
                            >(e),
                            Ok(lo) => {
                                let (b4, r4) = bus_read_outcome(b3, (target - 0xff) as u16);
                                match r4 {
                                    Err(e) => c1 == (Cpu { bus: b4, ..c0 }) && r == Err::<
                                        u16,
                                        EmulatorError,
                                    >(e),
                                    Ok(hi) => c1 == (Cpu { bus: b4, ..c0 }) && r == Ok::<
                                        u16,
                                        EmulatorError,
                                    >((hi * 256 + lo) as u16),
                                }
                            },
                        }
                    } else {
                        word_read_post(Cpu { bus: b2, ..c0 }, target, c1, r)
                    }
                },
            }
        },
    }
}

/// A plain little-endian word fetch: the machine after it and the word.
pub open spec fn word_read_post<H: FrameHandler>(
    c0: Cpu<H>,
    address: u16,
    c1: Cpu<H>,
    r: Result<u16, EmulatorError>,
) -> bool {
    let (b1, r1) = bus_read_outcome(c0.bus, address);
    match r1 {
        Err(e) => c1 == (Cpu { bus: b1, ..c0 }) && r == Err::<u16, EmulatorError>(e),
        Ok(lo) => {
            let (b2, r2) = bus_read_outcome(b1, ((address + 1) % 0x10000) as u16);
            match r2 {
                Err(e) => c1 == (Cpu { bus: b2, ..c0 }) && r == Err::<u16, EmulatorError>(e),
                Ok(hi) => c1 == (Cpu { bus: b2, ..c0 }) && r == Ok::<u16, EmulatorError>(
                    (hi * 256 + lo) as u16,
                ),
            }
        },
    }
}

/// An absolute indexed fetch: the base word plus an index register, with
/// one extra cycle exactly when the opcode is page-cross-sensitive and the
/// indexed address leaves the base's page.
pub open spec fn indexed_absolute_post<H: FrameHandler>(
    c0: Cpu<H>,
    opcode: Opcode,
    address: u16,
    index: u8,
    c1: Cpu<H>,
    r: Result<u16, EmulatorError>,
) -> bool {
    let (b1, r1) = bus_read_outcome(c0.bus, address);
    match r1 {
        Err(e) => c1 == (Cpu { bus: b1, ..c0 }) && r == Err::<u16, EmulatorError>(e),
        Ok(lo) => {
            let (b2, r2) = bus_read_outcome(b1, ((address + 1) % 0x10000) as u16);
            match r2 {
                Err(e) => c1 == (Cpu { bus: b2, ..c0 }) && r == Err::<u16, EmulatorError>(e),
                Ok(hi) => {
                    let base = (hi * 256 + lo) as u16;
                    let target = ((base + index) % 0x10000) as u16;
                    if !(opcode.needs_page_cross_check && page_crossed_spec(base, target)) {
                        c1 == (Cpu { bus: b2, ..c0 }) && r == Ok::<u16, EmulatorError>(target)
                    } else if tick_quiet(b2, 1) {
                        c1 == (Cpu { bus: quiet_tick(b2, 1), ..c0 }) && r == Ok::<
                            u16,
                            EmulatorError,
                        >(target)
                    } else {
                        r == Ok::<u16, EmulatorError>(target) || r is Err
                    }
                },
            }
        },
    }
}


impl<H: FrameHandler> Cpu<H> {
    /// Fetch a base word and add an index register to it, paying the extra
    /// cycle on a sensitive page crossing.
    #[verifier::rlimit(100)]
    fn absolute_indexed(&mut self, opcode: &Opcode, address: Address, index: u8) -> (r: Result<
        Address,
        EmulatorError,
    >)
        requires
            cpu_wf(*old(self)),
        ensures
            cpu_wf(*final(self)),
            final(self).accumulator == old(self).accumulator,
            final(self).register_x == old(self).register_x,
            final(self).register_y == old(self).register_y,
            final(self).status_register == old(self).status_register,
            final(self).program_counter == old(self).program_counter,
            final(self).stack_pointer == old(self).stack_pointer,
            indexed_absolute_post(*old(self), *opcode, address, index, *final(self), r),
    {
        let base = self.read_u16(address)?;
        let incremented = base.wrapping_add(index as u16);

        if opcode.needs_page_cross_check && is_page_crossed(base, incremented) {
            self.bus.tick(1)?;
        }

        Ok(incremented)
    }
}


/// A zero-page fetch: one operand byte plus an index register, wrapping
/// within the zero page.
pub open spec fn zero_page_post<H: FrameHandler>(
    c0: Cpu<H>,
    address: u16,
    index: u8,
    c1: Cpu<H>,
    r: Result<u16, EmulatorError>,
) -> bool {
    let (b1, rv) = bus_read_outcome(c0.bus, address);
    &&& c1 == (Cpu { bus: b1, ..c0 })
    &&& match rv {
        Ok(v) => r == Ok::<u16, EmulatorError>((((v + index) % 256) as u16)),
        Err(e) => r == Err::<u16, EmulatorError>(e),
    }
}

impl<H: FrameHandler> Cpu<H> {
    /// Fetch a zero-page operand byte and add an index register to it,
    /// wrapping within the zero page.
    fn zero_page_indexed(&mut self, address: Address, index: u8) -> (r: Result<
        Address,
        EmulatorError,
    >)
        requires
            cpu_wf(*old(self)),
        ensures
            cpu_wf(*final(self)),
            final(self).accumulator == old(self).accumulator,
            final(self).register_x == old(self).register_x,
            final(self).register_y == old(self).register_y,
            final(self).status_register == old(self).status_register,
            final(self).program_counter == old(self).program_counter,
            final(self).stack_pointer == old(self).stack_pointer,
            zero_page_post(*old(self), address, index, *final(self), r),
    {
        let pos = self.read(address)?;
        let addr = pos.wrapping_add(index);

        Ok(addr as u16)
    }
}


impl<H: FrameHandler> Cpu<H> {
    /// Indexed indirect: add index X to the operand byte, then fetch the
    /// target address from that zero-page pointer.
    fn indirect_x(&mut self, address: Address) -> (r: Result<Address, EmulatorError>)
        requires
            cpu_wf(*old(self)),
        ensures
            cpu_wf(*final(self)),
            final(self).accumulator == old(self).accumulator,
            final(self).register_x == old(self).register_x,
            final(self).register_y == old(self).register_y,
            final(self).status_register == old(self).status_register,
            final(self).program_counter == old(self).program_counter,
            final(self).stack_pointer == old(self).stack_pointer,
            indirect_x_post(*old(self), address, *final(self), r),
    {
        let base = self.read(address)?;
        let ptr = base.wrapping_add(self.register_x);
        let lo = self.read(ptr as u16)?;
        let hi = self.read(ptr.wrapping_add(1) as u16)?;

        Ok((hi as u16) * 256 + lo as u16)
    }

    /// Indirect indexed: fetch a zero-page pointer, then add index Y to the
    /// address it holds, paying the extra cycle on a sensitive page
    /// crossing.
    #[verifier::rlimit(100)]
    fn indirect_y(&mut self, opcode: &Opcode, address: Address) -> (r: Result<
        Address,
        EmulatorError,
    >)
        requires
            cpu_wf(*old(self)),
        ensures
            cpu_wf(*final(self)),
            final(self).accumulator == old(self).accumulator,
            final(self).register_x == old(self).register_x,
            final(self).register_y == old(self).register_y,
            final(self).status_register == old(self).status_register,
            final(self).program_counter == old(self).program_counter,
            final(self).stack_pointer == old(self).stack_pointer,
            indirect_y_post(*old(self), *opcode, address, *final(self), r),
    {
        let base = self.read(address)?;
        let lo = self.read(base as u16)?;
        let hi = self.read(base.wrapping_add(1) as u16)?;
        let deref_base = (hi as u16) * 256 + lo as u16;
        let incremented = deref_base.wrapping_add(self.register_y as u16);

        if opcode.needs_page_cross_check && is_page_crossed(deref_base, incremented) {
            self.bus.tick(1)?;
        }

        Ok(incremented)
    }

    /// Absolute indirect, with the documented page-boundary hardware bug:
    /// a pointer at the end of a page fetches its high byte from the start
    /// of the same page.
    #[verifier::rlimit(100)]
    fn indirect(&mut self, address: Address) -> (r: Result<Address, EmulatorError>)
        requires
            cpu_wf(*old(self)),
        ensures
            cpu_wf(*final(self)),
            final(self).accumulator == old(self).accumulator,
            final(self).register_x == old(self).register_x,
            final(self).register_y == old(self).register_y,
            final(self).status_register == old(self).status_register,
            final(self).program_counter == old(self).program_counter,
            final(self).stack_pointer == old(self).stack_pointer,
            indirect_post(*old(self), address, *final(self), r),
    {
        let target_address = self.read_u16(address)?;

        if target_address % 256 == 0xff {
            let lo = self.read(target_address)?;
            let hi = self.read(target_address - 0xff)?;

            Ok((hi as u16) * 256 + lo as u16)
        } else {
            self.read_u16(target_address)
        }
    }
}


impl<H: FrameHandler> Cpu<H> {
    /// Fetch, decode and execute one instruction: the byte at the program
    /// counter selects a table record or fails as an unsupported opcode; a
    /// BRK ends the run; any other instruction resolves its operand,
    /// dispatches by mnemonic, pays its base cycle cost, and advances the
    /// program counter unless the handler itself moved it.
    #[verifier::rlimit(100)]
    pub fn step(&mut self) -> (r: Result<StepOutcome, EmulatorError>)
        requires
            cpu_wf(*old(self)),
        ensures
            cpu_wf(*final(self)),
            ({
                let (b1, rc) = bus_read_outcome(old(self).bus, old(self).program_counter);
                match rc {
                    Err(e) => r == Err::<StepOutcome, EmulatorError>(e) && *final(self) == (Cpu {
                        bus: b1,
                        ..*old(self)
                    }),
                    Ok(code) => {
                        let fetched = Cpu {
                            bus: b1,
                            program_counter: ((old(self).program_counter + 1) % 0x10000) as u16,
                            ..*old(self)
                        };
                        match opcode_for(code) {
                            None => r == Err::<StepOutcome, EmulatorError>(
                                EmulatorError::UnsupportedOpcode(code),
                            ) && *final(self) == fetched,
                            Some(op) => {
                                &&& (op.name == Mnemonic::Brk ==> r == Ok::<
                                    StepOutcome,
                                    EmulatorError,
                                >(StepOutcome::Break) && *final(self) == fetched)
                                &&& (op.name != Mnemonic::Brk && r is Ok ==> r == Ok::<
                                    StepOutcome,
                                    EmulatorError,
                                >(StepOutcome::Continue))
                                &&& (op.name != Mnemonic::Brk ==> step_dispatch_post(
                                    fetched,
                                    op,
                                    *final(self),
                                    r,
                                ))
                            },
                        }
                    },
                }
            }),
    {
        let code = match self.read(self.program_counter) {
            Ok(code) => code,
            Err(e) => {
                return Err(e);
            },
        };
        self.program_counter = self.program_counter.wrapping_add(1);
        let ghost fetched = *self;

        let current_program_counter = self.program_counter;
        let opcode = match opcode_lookup(code) {
            Some(opcode) => opcode,
            None => {
                return Err(EmulatorError::UnsupportedOpcode(code));
            },
        };
        let address = match self.pc_operand_address(&opcode) {
            Ok(address) => address,
            Err(e) => {
                proof {
                    assert(operand_address_post(
                        fetched,
                        opcode,
                        fetched.program_counter,
                        *self,
                        Err::<u16, EmulatorError>(e),
                    ));
                }
                return Err(e);
            },
        };
        let ghost after_operand = *self;
        proof {
            assert(operand_address_post(
                fetched,
                opcode,
                fetched.program_counter,
                after_operand,
                Ok::<u16, EmulatorError>(address),
            ));
        }

        if opcode.name == Mnemonic::Brk {
            return Ok(StepOutcome::Break);
        }
        let charge_cycles = match self.execute(&opcode, address) {
            Ok(charge_cycles) => charge_cycles,
            Err(e) => {
                proof {
                    assert(execute_post(
                        after_operand,
                        opcode,
                        address,
                        *self,
                        Err::<bool, EmulatorError>(e),
                    ));
                }
                return Err(e);
            },
        };
        let ghost after_execute = *self;
        proof {
            assert(execute_post(
                after_operand,
                opcode,
                address,
                after_execute,
                Ok::<bool, EmulatorError>(charge_cycles),
            ));
        }
        if !charge_cycles {
            return Ok(StepOutcome::Continue);
        }

        match self.bus.tick(opcode.cycles) {
            Ok(()) => {},
            Err(e) => {
                return Err(e);
            },
        }

        if current_program_counter == self.program_counter {
            self.program_counter = self.program_counter.wrapping_add(opcode.length() as u16);
        }

        Ok(StepOutcome::Continue)
    }

    /// One iteration of the run loop: serve a pending interrupt, let the
    /// hook observe the machine, then execute one instruction.
    fn run_iteration<C: StepHook<H>>(&mut self, hook: &mut C) -> (r: Result<
        StepOutcome,
        EmulatorError,
    >)
        requires
            cpu_wf(*old(self)),
        ensures
            cpu_wf(*final(self)),
            r == Ok::<StepOutcome, EmulatorError>(StepOutcome::Break) ==> halted_on_break(
                *final(self),
            ),
    {
        if self.bus.poll_nmi_status() == NmiStatus::Active {
            self.interrupt(Interrupt::nmi())?;
        }

        hook.on_step(self)?;

        let ghost before_step = *self;
        let outcome = self.step();
        proof {
            if outcome == Ok::<StepOutcome, EmulatorError>(StepOutcome::Break) {
                let rc = bus_read_outcome(before_step.bus, before_step.program_counter).1;
                let code = rc->Ok_0;
                assert(bus_read_outcome(before_step.bus, before_step.program_counter).1 == Ok::<
                    u8,
                    EmulatorError,
                >(code));
                assert(opcode_for(code) matches Some(op) && op.name == Mnemonic::Brk);
            }
        }

        outcome
    }

    /// Run until a BRK is fetched, an error arises, or the step budget of
    /// the machine is exhausted, invoking the hook before every instruction.
    /// Each iteration serves a pending interrupt, runs the hook, then
    /// executes one instruction exactly as `step` states; success is handed
    /// back only from the machine state a BRK fetch leaves.
    pub fn run_with_callback<C: StepHook<H>>(&mut self, hook: &mut C) -> (r: Result<
        (),
        EmulatorError,
    >)
        requires
            cpu_wf(*old(self)),
        ensures
            cpu_wf(*final(self)),
            r == Ok::<(), EmulatorError>(()) ==> halted_on_break(*final(self)),
    {
        let mut budget: u64 = 0xffff_ffff_ffff_ffff;
        while budget > 0
            invariant
                cpu_wf(*self),
            decreases budget,
        {
            match self.run_iteration(hook)? {
                StepOutcome::Continue => {},
                StepOutcome::Break => {
                    return Ok(());
                },
            }
            budget -= 1;
        }

        Err(EmulatorError::StepBudgetExhausted)
    }

    /// Run until a BRK is fetched or an error arises; success is handed
    /// back only from the machine state a BRK fetch leaves.
    pub fn run(&mut self) -> (r: Result<(), EmulatorError>)
        requires
            cpu_wf(*old(self)),
        ensures
            cpu_wf(*final(self)),
            r == Ok::<(), EmulatorError>(()) ==> halted_on_break(*final(self)),
    {
        let mut hook = NoopStepHook {};
        self.run_with_callback(&mut hook)
    }

    /// Return the registers to their power-on state and load the program
    /// counter from the reset vector.
    pub fn reset(&mut self) -> (r: Result<(), EmulatorError>)
        requires
            cpu_wf(*old(self)),
        ensures
            cpu_wf(*final(self)),
            final(self).accumulator == 0,
            final(self).register_x == 0,
            final(self).register_y == 0,
            final(self).status_register == StatusRegister::empty_spec(),
            final(self).stack_pointer.0 == stack_pointer::STACK_RESET,
            ({
                let (b1, r1) = bus_read_outcome(old(self).bus, RESET_VECTOR_BEGIN_ADDR);
                match r1 {
                    Err(e) => r == Err::<(), EmulatorError>(e) && final(self).bus == b1,
                    Ok(lo) => {
                        let (b2, r2) = bus_read_outcome(b1, (RESET_VECTOR_BEGIN_ADDR + 1) as u16);
                        match r2 {
                            Err(e) => r == Err::<(), EmulatorError>(e) && final(self).bus == b2,
                            Ok(hi) => r == Ok::<(), EmulatorError>(()) && final(self).bus == b2
                                && final(self).program_counter == hi * 256 + lo,
                        }
                    },
                }
            }),
    {
        self.accumulator = 0;
        self.register_x = 0;
        self.register_y = 0;
        self.status_register = StatusRegister::empty();
        self.stack_pointer.reset();
        self.program_counter = self.read_u16(RESET_VECTOR_BEGIN_ADDR)?;

        Ok(())
    }

    /// Copy a plain program into the fixed program window in RAM.
    ///
    /// The window is the 0x200 bytes between the program base and the end
    /// of the physical RAM page it sits in; a longer program would alias
    /// through the RAM mirrors and overwrite its own start, so the length
    /// cap keeps the stated contract (every byte lands at base + offset)
    /// true.
    pub fn load(&mut self, data: &[u8]) -> (r: Result<(), EmulatorError>)
        requires
            cpu_wf(*old(self)),
            data@.len() <= 0x200,
        ensures
            cpu_wf(*final(self)),
            r == Ok::<(), EmulatorError>(()),
            final(self).accumulator == old(self).accumulator,
            final(self).register_x == old(self).register_x,
            final(self).register_y == old(self).register_y,
            final(self).status_register == old(self).status_register,
            final(self).program_counter == old(self).program_counter,
            final(self).stack_pointer == old(self).stack_pointer,
            final(self).bus == (Bus { cpu_vram: final(self).bus.cpu_vram, ..old(self).bus }),
            forall|j: int|
                0 <= j < data@.len() ==> final(self).bus.cpu_vram@[PROGRAM_ROM_BEGIN_ADDR + j]
                    == data@[j],
            forall|j: int|
                0 <= j < 2048 && !(PROGRAM_ROM_BEGIN_ADDR <= j < PROGRAM_ROM_BEGIN_ADDR
                    + data@.len()) ==> final(self).bus.cpu_vram@[j] == old(self).bus.cpu_vram@[j],
    {
        proof {
            reveal(crate::bus::bus_write_outcome);
        }
        let mut idx: usize = 0;
        while idx < data.len()
            invariant
                cpu_wf(*self),
                idx <= data@.len(),
                data@.len() <= 0x200,
                self.accumulator == old(self).accumulator,
                self.register_x == old(self).register_x,
                self.register_y == old(self).register_y,
                self.status_register == old(self).status_register,
                self.program_counter == old(self).program_counter,
                self.stack_pointer == old(self).stack_pointer,
                self.bus == (Bus { cpu_vram: self.bus.cpu_vram, ..old(self).bus }),
                forall|j: int|
                    0 <= j < idx ==> self.bus.cpu_vram@[PROGRAM_ROM_BEGIN_ADDR + j] == data@[j],
                forall|j: int|
                    0 <= j < 2048 && !(PROGRAM_ROM_BEGIN_ADDR <= j < PROGRAM_ROM_BEGIN_ADDR
                        + idx) ==> self.bus.cpu_vram@[j] == old(self).bus.cpu_vram@[j],
            decreases data@.len() - idx,
        {
            let value = *vstd::slice::slice_index_get(data, idx);
            let addr = idx as u16 + PROGRAM_ROM_BEGIN_ADDR;
            proof {
                reveal(crate::bus::bus_write_outcome);
            }
            match self.write(addr, value) {
                Ok(()) => {},
                Err(e) => {
                    proof {
                        assert(false);
                    }
                },
            }
            idx += 1;
        }

        Ok(())
    }

    /// Load a plain program, reset, aim the program counter at the program
    /// window, and run to completion.
    pub fn load_and_run(&mut self, data: &[u8]) -> (r: Result<(), EmulatorError>)
        requires
            cpu_wf(*old(self)),
            data@.len() <= 0x200,
        ensures
            cpu_wf(*final(self)),
            r == Ok::<(), EmulatorError>(()) ==> halted_on_break(*final(self)),
    {
        self.load(data)?;
        self.reset()?;
        self.program_counter = PROGRAM_ROM_BEGIN_ADDR;
        self.run()?;

        Ok(())
    }
}

impl<H: FrameHandler> Memory for Cpu<H> {
    open spec fn memory_inv(&self) -> bool {
        cpu_wf(*self)
    }

    fn read(&mut self, addr: u16) -> (r: Result<u8, EmulatorError>) {
        Cpu::read(self, addr)
    }

    fn write(&mut self, addr: u16, value: u8) -> (r: Result<(), EmulatorError>) {
        Cpu::write(self, addr, value)
    }

    fn read_u16(&mut self, addr: u16) -> (r: Result<u16, EmulatorError>) {
        Cpu::read_u16(self, addr)
    }

    fn write_u16(&mut self, addr: u16, data: u16) -> (r: Result<(), EmulatorError>) {
        Cpu::write_u16(self, addr, data)
    }
}

impl<H: FrameHandler> Memory for Bus<H> {
    open spec fn memory_inv(&self) -> bool {
        bus_wf(*self)
    }

    fn read(&mut self, addr: u16) -> (r: Result<u8, EmulatorError>) {
        Bus::read(self, addr)
    }

    fn write(&mut self, addr: u16, value: u8) -> (r: Result<(), EmulatorError>) {
        Bus::write(self, addr, value)
    }

    fn read_u16(&mut self, addr: u16) -> (r: Result<u16, EmulatorError>) {
        Bus::read_u16(self, addr)
    }

    fn write_u16(&mut self, addr: u16, data: u16) -> (r: Result<(), EmulatorError>) {
        Bus::write_u16(self, addr, data)
    }
}


impl<H: FrameHandler> Cpu<H> {
    /// Dispatch one decoded instruction to its handler. Hands back whether
    /// the caller still owes the opcode's base cycle cost.
    ///
    /// Returns from subroutines and interrupts settle their own flow and
    /// charge nothing. That undercharges RTI and RTS against their table
    /// cost; the run loop has always worked this way, and the behaviour is
    /// kept deliberately rather than silently corrected, like the sprite-DMA
    /// cycle cost.
    #[verifier::rlimit(100)]
    fn execute(&mut self, opcode: &Opcode, address: Address) -> (r: Result<bool, EmulatorError>)
        requires
            cpu_wf(*old(self)),
            opcode.name != Mnemonic::Brk,
        ensures
            cpu_wf(*final(self)),
            execute_post(*old(self), *opcode, address, *final(self), r),
    {
        match opcode.name {
            Mnemonic::Adc => self.adc(address)?,
            Mnemonic::And => self.and(address)?,
            Mnemonic::Asl => self.asl(address, opcode.addressing_mode)?,
            Mnemonic::Bit => self.bit(address)?,
            Mnemonic::Bcc => {
                let c = !self.status_register.carry;
                self.branch(c)?
            },
            Mnemonic::Bcs => {
                let c = self.status_register.carry;
                self.branch(c)?
            },
            Mnemonic::Beq => {
                let c = self.status_register.zero;
                self.branch(c)?
            },
            Mnemonic::Bmi => {
                let c = self.status_register.negative;
                self.branch(c)?
            },
            Mnemonic::Bne => {
                let c = !self.status_register.zero;
                self.branch(c)?
            },
            Mnemonic::Bpl => {
                let c = !self.status_register.negative;
                self.branch(c)?
            },
            Mnemonic::Bvc => {
                let c = !self.status_register.overflow;
                self.branch(c)?
            },
            Mnemonic::Bvs => {
                let c = self.status_register.overflow;
                self.branch(c)?
            },
            Mnemonic::Clc => self.status_register.set_carry_flag(false),
            Mnemonic::Cld => self.status_register.set_decimal_flag(false),
            Mnemonic::Cli => self.status_register.set_interrupt_flag(false),
            Mnemonic::Clv => self.status_register.set_overflow_flag(false),
            Mnemonic::Cmp => {
                let a = self.accumulator;
                self.compare(address, a)?
            },
            Mnemonic::Cpx => {
                let x = self.register_x;
                self.compare(address, x)?
            },
            Mnemonic::Cpy => {
                let y = self.register_y;
                self.compare(address, y)?
            },
            Mnemonic::Dec => self.dec(address)?,
            Mnemonic::Dex => self.dex(),
            Mnemonic::Dey => self.dey(),
            Mnemonic::Eor => self.eor(address)?,
            Mnemonic::Inc => self.inc(address)?,
            Mnemonic::Inx => self.inx(),
            Mnemonic::Iny => self.iny(),
            _ => {
                return self.execute_tail(opcode, address);
            },
        }

        Ok(true)
    }
}


/// A page cross during indexed addressing is detected exactly when the
/// high byte of the address changes: masking with 0xff00 and dividing by
/// 256 agree on every pair of addresses.
pub proof fn lemma_page_cross_detection(before: u16, after: u16)
    ensures
        page_crossed_spec(before, after) <==> (before & 0xff00) != (after & 0xff00),
{
    assert((before / 256 != after / 256) <==> (before & 0xff00) != (after & 0xff00))
        by (bit_vector);
}


/// A shift or rotate applied in place to the byte at `address`: the byte is
/// read, the shifted byte written back, Carry takes the bit shifted out,
/// and Zero and Negative follow the new byte.
pub open spec fn shift_memory_post<H: FrameHandler>(
    c0: Cpu<H>,
    address: u16,
    input_carry: u8,
    left: bool,
    c1: Cpu<H>,
    r: Result<(), EmulatorError>,
) -> bool {
    let (b1, rv) = bus_read_outcome(c0.bus, address);
    match rv {
        Err(e) => c1 == (Cpu { bus: b1, ..c0 }) && r == Err::<(), EmulatorError>(e),
        Ok(v) => {
            let nv = shift_apply(left, input_carry, v);
            let carry = if left {
                v >= 0x80
            } else {
                v % 2 == 1
            };
            match bus_write_outcome(b1, address, nv) {
                Some((b2, Ok(()))) => c1 == (Cpu {
                    status_register: upd_zn(
                        StatusRegister { carry, ..c0.status_register },
                        nv,
                    ),
                    bus: b2,
                    ..c0
                }) && r == Ok::<(), EmulatorError>(()),
                Some((b2, Err(e))) => c1 == (Cpu { bus: b2, ..c0 }) && r == Err::<
                    (),
                    EmulatorError,
                >(e),
                None => true,
            }
        },
    }
}

/// What DCP does to the byte at `address` and the flags: the byte is
/// decremented in place, then compared with the accumulator through the
/// same compare primitive CMP uses; the accumulator is untouched.
pub open spec fn dcp_post<H: FrameHandler>(
    c0: Cpu<H>,
    address: u16,
    c1: Cpu<H>,
    r: Result<(), EmulatorError>,
) -> bool {
    let (b1, rv) = bus_read_outcome(c0.bus, address);
    match rv {
        Err(e) => c1 == (Cpu { bus: b1, ..c0 }) && r == Err::<(), EmulatorError>(e),
        Ok(v) => match bus_write_outcome(b1, address, dec_spec(v)) {
            None => true,
            Some((b2, Err(e))) => c1 == (Cpu { bus: b2, ..c0 }) && r == Err::<(), EmulatorError>(
                e,
            ),
            Some((b2, Ok(()))) => {
                let (b3, rv2) = bus_read_outcome(b2, address);
                match rv2 {
                    Err(e) => c1 == (Cpu { bus: b3, ..c0 }) && r == Err::<(), EmulatorError>(e),
                    Ok(v2) => {
                        let diff = ((c0.accumulator + 256 - v2) % 256) as u8;
                        c1 == (Cpu {
                            status_register: upd_zn(
                                StatusRegister {
                                    carry: v2 <= c0.accumulator,
                                    ..c0.status_register
                                },
                                diff,
                            ),
                            bus: b3,
                            ..c0
                        }) && r == Ok::<(), EmulatorError>(())
                    },
                }
            },
        },
    }
}

/// What ISB does: the byte at `address` is incremented in place, then
/// subtracted from the accumulator through the shared add primitive.
pub open spec fn isb_post<H: FrameHandler>(
    c0: Cpu<H>,
    address: u16,
    c1: Cpu<H>,
    r: Result<(), EmulatorError>,
) -> bool {
    let (b1, rv) = bus_read_outcome(c0.bus, address);
    match rv {
        Err(e) => c1 == (Cpu { bus: b1, ..c0 }) && r == Err::<(), EmulatorError>(e),
        Ok(v) => match bus_write_outcome(b1, address, inc_spec(v)) {
            None => true,
            Some((b2, Err(e))) => c1 == (Cpu { bus: b2, ..c0 }) && r == Err::<(), EmulatorError>(
                e,
            ),
            Some((b2, Ok(()))) => {
                let (b3, rv2) = bus_read_outcome(b2, address);
                match rv2 {
                    Err(e) => c1 == (Cpu { bus: b3, ..c0 }) && r == Err::<(), EmulatorError>(e),
                    Ok(v2) => c1 == add_to_acc_spec(Cpu { bus: b3, ..c0 }, (255 - v2) as u8) && r
                        == Ok::<(), EmulatorError>(()),
                }
            },
        },
    }
}

/// What SLO does: the byte at `address` is shifted left in place with Carry
/// taking its top bit, then ORed into the accumulator through the shared
/// OR primitive.
pub open spec fn slo_post<H: FrameHandler>(
    c0: Cpu<H>,
    address: u16,
    c1: Cpu<H>,
    r: Result<(), EmulatorError>,
) -> bool {
    let (b1, rv) = bus_read_outcome(c0.bus, address);
    match rv {
        Err(e) => c1 == (Cpu { bus: b1, ..c0 }) && r == Err::<(), EmulatorError>(e),
        Ok(v) => {
            let carried = StatusRegister { carry: v >= 0x80, ..c0.status_register };
            match bus_write_outcome(b1, address, ((2 * v) % 256) as u8) {
                None => true,
                Some((b2, Err(e))) => c1 == (Cpu {
                    status_register: carried,
                    bus: b2,
                    ..c0
                }) && r == Err::<(), EmulatorError>(e),
                Some((b2, Ok(()))) => {
                    let (b3, rv2) = bus_read_outcome(b2, address);
                    match rv2 {
                        Err(e) => c1 == (Cpu { status_register: carried, bus: b3, ..c0 }) && r
                            == Err::<(), EmulatorError>(e),
                        Ok(v2) => {
                            let nv = (c0.accumulator | v2) as u8;
                            c1 == (Cpu {
                                accumulator: nv,
                                status_register: upd_zn(carried, nv),
                                bus: b3,
                                ..c0
                            }) && r == Ok::<(), EmulatorError>(())
                        },
                    }
                },
            }
        },
    }
}

/// What SRE does: the byte at `address` is shifted right in place with
/// Carry taking its bottom bit, then XORed into the accumulator through the
/// shared XOR primitive.
pub open spec fn sre_post<H: FrameHandler>(
    c0: Cpu<H>,
    address: u16,
    c1: Cpu<H>,
    r: Result<(), EmulatorError>,
) -> bool {
    let (b1, rv) = bus_read_outcome(c0.bus, address);
    match rv {
        Err(e) => c1 == (Cpu { bus: b1, ..c0 }) && r == Err::<(), EmulatorError>(e),
        Ok(v) => {
            let carried = StatusRegister { carry: v % 2 == 1, ..c0.status_register };
            match bus_write_outcome(b1, address, (v / 2) as u8) {
                None => true,
                Some((b2, Err(e))) => c1 == (Cpu {
                    status_register: carried,
                    bus: b2,
                    ..c0
                }) && r == Err::<(), EmulatorError>(e),
                Some((b2, Ok(()))) => {
                    let (b3, rv2) = bus_read_outcome(b2, address);
                    match rv2 {
                        Err(e) => c1 == (Cpu { status_register: carried, bus: b3, ..c0 }) && r
                            == Err::<(), EmulatorError>(e),
                        Ok(v2) => {
                            let nv = (c0.accumulator ^ v2) as u8;
                            c1 == (Cpu {
                                accumulator: nv,
                                status_register: upd_zn(carried, nv),
                                bus: b3,
                                ..c0
                            }) && r == Ok::<(), EmulatorError>(())
                        },
                    }
                },
            }
        },
    }
}

/// What RLA does, on the memory addressing modes its opcodes use: the byte
/// at `address` is rotated left in place through the shared rotate
/// primitive, then the rotated byte is ANDed into the accumulator without
/// refreshing the flags again.
pub open spec fn rla_post<H: FrameHandler>(
    c0: Cpu<H>,
    address: u16,
    c1: Cpu<H>,
    r: Result<(), EmulatorError>,
) -> bool {
    let ic: u8 = if c0.status_register.carry {
        1u8
    } else {
        0u8
    };
    let (b1, rv) = bus_read_outcome(c0.bus, address);
    match rv {
        Err(e) => c1 == (Cpu { bus: b1, ..c0 }) && r == Err::<(), EmulatorError>(e),
        Ok(v) => {
            let nv = shift_apply(true, ic, v);
            match bus_write_outcome(b1, address, nv) {
                None => true,
                Some((b2, Err(e))) => c1 == (Cpu { bus: b2, ..c0 }) && r == Err::<
                    (),
                    EmulatorError,
                >(e),
                Some((b2, Ok(()))) => {
                    let mid_sr = upd_zn(
                        StatusRegister { carry: v >= 0x80, ..c0.status_register },
                        nv,
                    );
                    let (b3, rv2) = bus_read_outcome(b2, address);
                    match rv2 {
                        Err(e) => c1 == (Cpu { status_register: mid_sr, bus: b3, ..c0 }) && r
                            == Err::<(), EmulatorError>(e),
                        Ok(v2) => c1 == (Cpu {
                            accumulator: (c0.accumulator & v2) as u8,
                            status_register: mid_sr,
                            bus: b3,
                            ..c0
                        }) && r == Ok::<(), EmulatorError>(()),
                    }
                },
            }
        },
    }
}

/// What RRA does, on the memory addressing modes its opcodes use: the byte
/// at `address` is rotated right in place through the shared rotate
/// primitive, then the rotated byte is added into the accumulator through
/// the shared add primitive.
pub open spec fn rra_post<H: FrameHandler>(
    c0: Cpu<H>,
    address: u16,
    c1: Cpu<H>,
    r: Result<(), EmulatorError>,
) -> bool {
    let ic: u8 = if c0.status_register.carry {
        0x80u8
    } else {
        0u8
    };
    let (b1, rv) = bus_read_outcome(c0.bus, address);
    match rv {
        Err(e) => c1 == (Cpu { bus: b1, ..c0 }) && r == Err::<(), EmulatorError>(e),
        Ok(v) => {
            let nv = shift_apply(false, ic, v);
            match bus_write_outcome(b1, address, nv) {
                None => true,
                Some((b2, Err(e))) => c1 == (Cpu { bus: b2, ..c0 }) && r == Err::<
                    (),
                    EmulatorError,
                >(e),
                Some((b2, Ok(()))) => {
                    let mid = Cpu {
                        status_register: upd_zn(
                            StatusRegister { carry: v % 2 == 1, ..c0.status_register },
                            nv,
                        ),
                        bus: b2,
                        ..c0
                    };
                    let (b3, rv2) = bus_read_outcome(b2, address);
                    match rv2 {
                        Err(e) => c1 == (Cpu { bus: b3, ..mid }) && r == Err::<
                            (),
                            EmulatorError,
                        >(e),
                        Ok(v2) => c1 == add_to_acc_spec(Cpu { bus: b3, ..mid }, v2) && r == Ok::<
                            (),
                            EmulatorError,
                        >(()),
                    }
                },
            }
        },
    }
}


/// The result of an instruction handler, with the cycle-charge flag the
/// dispatcher returns folded away.
pub open spec fn as_unit_result(r: Result<bool, EmulatorError>) -> Result<(), EmulatorError> {
    match r {
        Ok(b) => Ok(()),
        Err(e) => Err(e),
    }
}

/// The registers an operand-address computation never touches.
pub open spec fn registers_preserved<H: FrameHandler>(c0: Cpu<H>, c1: Cpu<H>) -> bool {
    &&& c1.accumulator == c0.accumulator
    &&& c1.register_x == c0.register_x
    &&& c1.register_y == c0.register_y
    &&& c1.status_register == c0.status_register
    &&& c1.program_counter == c0.program_counter
    &&& c1.stack_pointer == c0.stack_pointer
}

/// What ADC does: the byte at `address` and the carry are added into the
/// accumulator through the shared add primitive.
pub open spec fn adc_post<H: FrameHandler>(
    c0: Cpu<H>,
    address: u16,
    c1: Cpu<H>,
    r: Result<(), EmulatorError>,
) -> bool {
    let (b1, rv) = bus_read_outcome(c0.bus, address);
    match rv {
        Err(e) => r == Err::<(), EmulatorError>(e) && c1 == (Cpu { bus: b1, ..c0 }),
        Ok(v) => r == Ok::<(), EmulatorError>(()) && c1 == add_to_acc_spec(
            Cpu { bus: b1, ..c0 },
            v,
        ),
    }
}

/// What SBC does: the one's complement of the byte at `address` goes
/// through the shared add primitive.
pub open spec fn sbc_post<H: FrameHandler>(
    c0: Cpu<H>,
    address: u16,
    c1: Cpu<H>,
    r: Result<(), EmulatorError>,
) -> bool {
    let (b1, rv) = bus_read_outcome(c0.bus, address);
    match rv {
        Err(e) => r == Err::<(), EmulatorError>(e) && c1 == (Cpu { bus: b1, ..c0 }),
        Ok(v) => r == Ok::<(), EmulatorError>(()) && c1 == add_to_acc_spec(
            Cpu { bus: b1, ..c0 },
            (255 - v) as u8,
        ),
    }
}

/// What a compare does: Carry when the register is at least the operand,
/// Zero and Negative from the wrapped difference.
pub open spec fn compare_post<H: FrameHandler>(
    c0: Cpu<H>,
    address: u16,
    register: u8,
    c1: Cpu<H>,
    r: Result<(), EmulatorError>,
) -> bool {
    let (b1, rv) = bus_read_outcome(c0.bus, address);
    match rv {
        Err(e) => r == Err::<(), EmulatorError>(e) && c1 == (Cpu { bus: b1, ..c0 }),
        Ok(v) => {
            let diff = ((register + 256 - v) % 256) as u8;
            r == Ok::<(), EmulatorError>(()) && c1 == (Cpu {
                status_register: upd_zn(
                    StatusRegister { carry: v <= register, ..c0.status_register },
                    diff,
                ),
                bus: b1,
                ..c0
            })
        },
    }
}

/// What AND does to the accumulator and flags.
pub open spec fn and_post<H: FrameHandler>(
    c0: Cpu<H>,
    address: u16,
    c1: Cpu<H>,
    r: Result<(), EmulatorError>,
) -> bool {
    let (b1, rv) = bus_read_outcome(c0.bus, address);
    match rv {
        Err(e) => r == Err::<(), EmulatorError>(e) && c1 == (Cpu { bus: b1, ..c0 }),
        Ok(v) => {
            let nv = (c0.accumulator & v) as u8;
            r == Ok::<(), EmulatorError>(()) && c1 == (Cpu {
                accumulator: nv,
                status_register: upd_zn(c0.status_register, nv),
                bus: b1,
                ..c0
            })
        },
    }
}

/// What EOR does to the accumulator and flags.
pub open spec fn eor_post<H: FrameHandler>(
    c0: Cpu<H>,
    address: u16,
    c1: Cpu<H>,
    r: Result<(), EmulatorError>,
) -> bool {
    let (b1, rv) = bus_read_outcome(c0.bus, address);
    match rv {
        Err(e) => r == Err::<(), EmulatorError>(e) && c1 == (Cpu { bus: b1, ..c0 }),
        Ok(v) => {
            let nv = (c0.accumulator ^ v) as u8;
            r == Ok::<(), EmulatorError>(()) && c1 == (Cpu {
                accumulator: nv,
                status_register: upd_zn(c0.status_register, nv),
                bus: b1,
                ..c0
            })
        },
    }
}

/// What ORA does to the accumulator and flags.
pub open spec fn ora_post<H: FrameHandler>(
    c0: Cpu<H>,
    address: u16,
    c1: Cpu<H>,
    r: Result<(), EmulatorError>,
) -> bool {
    let (b1, rv) = bus_read_outcome(c0.bus, address);
    match rv {
        Err(e) => r == Err::<(), EmulatorError>(e) && c1 == (Cpu { bus: b1, ..c0 }),
        Ok(v) => {
            let nv = (c0.accumulator | v) as u8;
            r == Ok::<(), EmulatorError>(()) && c1 == (Cpu {
                accumulator: nv,
                status_register: upd_zn(c0.status_register, nv),
                bus: b1,
                ..c0
            })
        },
    }
}

/// What BIT does to the flags; the accumulator is untouched.
pub open spec fn bit_post<H: FrameHandler>(
    c0: Cpu<H>,
    address: u16,
    c1: Cpu<H>,
    r: Result<(), EmulatorError>,
) -> bool {
    let (b1, rv) = bus_read_outcome(c0.bus, address);
    match rv {
        Err(e) => r == Err::<(), EmulatorError>(e) && c1 == (Cpu { bus: b1, ..c0 }),
        Ok(v) => r == Ok::<(), EmulatorError>(()) && c1 == (Cpu {
            status_register: StatusRegister {
                overflow: v / 0x40 % 2 == 1,
                negative: v >= 0x80,
                zero: v & c0.accumulator == 0,
                ..c0.status_register
            },
            bus: b1,
            ..c0
        }),
    }
}

/// What a load into the accumulator does.
pub open spec fn lda_post<H: FrameHandler>(
    c0: Cpu<H>,
    address: u16,
    c1: Cpu<H>,
    r: Result<(), EmulatorError>,
) -> bool {
    let (b1, rv) = bus_read_outcome(c0.bus, address);
    match rv {
        Err(e) => r == Err::<(), EmulatorError>(e) && c1 == (Cpu { bus: b1, ..c0 }),
        Ok(v) => r == Ok::<(), EmulatorError>(()) && c1 == (Cpu {
            accumulator: v,
            status_register: upd_zn(c0.status_register, v),
            bus: b1,
            ..c0
        }),
    }
}

/// What a load into index X does.
pub open spec fn ldx_post<H: FrameHandler>(
    c0: Cpu<H>,
    address: u16,
    c1: Cpu<H>,
    r: Result<(), EmulatorError>,
) -> bool {
    let (b1, rv) = bus_read_outcome(c0.bus, address);
    match rv {
        Err(e) => r == Err::<(), EmulatorError>(e) && c1 == (Cpu { bus: b1, ..c0 }),
        Ok(v) => r == Ok::<(), EmulatorError>(()) && c1 == (Cpu {
            register_x: v,
            status_register: upd_zn(c0.status_register, v),
            bus: b1,
            ..c0
        }),
    }
}

/// What a load into index Y does.
pub open spec fn ldy_post<H: FrameHandler>(
    c0: Cpu<H>,
    address: u16,
    c1: Cpu<H>,
    r: Result<(), EmulatorError>,
) -> bool {
    let (b1, rv) = bus_read_outcome(c0.bus, address);
    match rv {
        Err(e) => r == Err::<(), EmulatorError>(e) && c1 == (Cpu { bus: b1, ..c0 }),
        Ok(v) => r == Ok::<(), EmulatorError>(()) && c1 == (Cpu {
            register_y: v,
            status_register: upd_zn(c0.status_register, v),
            bus: b1,
            ..c0
        }),
    }
}

/// What the undocumented LAX does: one load into the accumulator and index
/// X together.
pub open spec fn lax_post<H: FrameHandler>(
    c0: Cpu<H>,
    address: u16,
    c1: Cpu<H>,
    r: Result<(), EmulatorError>,
) -> bool {
    let (b1, rv) = bus_read_outcome(c0.bus, address);
    match rv {
        Err(e) => r == Err::<(), EmulatorError>(e) && c1 == (Cpu { bus: b1, ..c0 }),
        Ok(v) => r == Ok::<(), EmulatorError>(()) && c1 == (Cpu {
            accumulator: v,
            register_x: v,
            status_register: upd_zn(c0.status_register, v),
            bus: b1,
            ..c0
        }),
    }
}

/// What a plain store of `value` to `address` does: everything but the bus
/// is untouched, and the bus takes the write.
pub open spec fn store_post<H: FrameHandler>(
    c0: Cpu<H>,
    address: u16,
    value: u8,
    c1: Cpu<H>,
    r: Result<(), EmulatorError>,
) -> bool {
    &&& registers_preserved(c0, c1)
    &&& match bus_write_outcome(c0.bus, address, value) {
        Some((b2, res)) => c1.bus == b2 && r == res,
        None => true,
    }
}

/// What DEC does to the byte at `address` and the flags.
pub open spec fn dec_mem_post<H: FrameHandler>(
    c0: Cpu<H>,
    address: u16,
    c1: Cpu<H>,
    r: Result<(), EmulatorError>,
) -> bool {
    let (b1, rv) = bus_read_outcome(c0.bus, address);
    match rv {
        Err(e) => r == Err::<(), EmulatorError>(e) && c1 == (Cpu { bus: b1, ..c0 }),
        Ok(v) => match bus_write_outcome(b1, address, dec_spec(v)) {
            Some((b2, Ok(()))) => r == Ok::<(), EmulatorError>(()) && c1 == (Cpu {
                status_register: upd_zn(c0.status_register, dec_spec(v)),
                bus: b2,
                ..c0
            }),
            Some((b2, Err(e))) => r == Err::<(), EmulatorError>(e) && c1 == (Cpu {
                bus: b2,
                ..c0
            }),
            None => true,
        },
    }
}

/// What INC does to the byte at `address` and the flags.
pub open spec fn inc_mem_post<H: FrameHandler>(
    c0: Cpu<H>,
    address: u16,
    c1: Cpu<H>,
    r: Result<(), EmulatorError>,
) -> bool {
    let (b1, rv) = bus_read_outcome(c0.bus, address);
    match rv {
        Err(e) => r == Err::<(), EmulatorError>(e) && c1 == (Cpu { bus: b1, ..c0 }),
        Ok(v) => match bus_write_outcome(b1, address, inc_spec(v)) {
            Some((b2, Ok(()))) => r == Ok::<(), EmulatorError>(()) && c1 == (Cpu {
                status_register: upd_zn(c0.status_register, inc_spec(v)),
                bus: b2,
                ..c0
            }),
            Some((b2, Err(e))) => r == Err::<(), EmulatorError>(e) && c1 == (Cpu {
                bus: b2,
                ..c0
            }),
            None => true,
        },
    }
}

/// What a shift or rotate instruction does, on either the accumulator or
/// the byte at `address`.
pub open spec fn shift_instruction_post<H: FrameHandler>(
    c0: Cpu<H>,
    address: u16,
    mode: AddressingMode,
    input_carry: u8,
    left: bool,
    c1: Cpu<H>,
    r: Result<(), EmulatorError>,
) -> bool {
    if mode == AddressingMode::Accumulator {
        let nv = shift_apply(left, input_carry, c0.accumulator);
        let carry = if left {
            c0.accumulator >= 0x80
        } else {
            c0.accumulator % 2 == 1
        };
        r == Ok::<(), EmulatorError>(()) && c1 == (Cpu {
            accumulator: nv,
            status_register: upd_zn(StatusRegister { carry, ..c0.status_register }, nv),
            ..c0
        })
    } else {
        c1.accumulator == c0.accumulator && shift_memory_post(c0, address, input_carry, left, c1, r)
    }
}

/// What PHA does: the accumulator lands below the stack pointer, which
/// steps down.
pub open spec fn pha_post<H: FrameHandler>(c0: Cpu<H>, c1: Cpu<H>, r: Result<
    (),
    EmulatorError,
>) -> bool {
    r == Ok::<(), EmulatorError>(()) && c1 == (Cpu {
        stack_pointer: StackPointer(dec_spec(c0.stack_pointer.0)),
        bus: Bus {
            cpu_vram: vstd::array::spec_array_update(
                c0.bus.cpu_vram,
                0x100 + c0.stack_pointer.0,
                c0.accumulator,
            ),
            ..c0.bus
        },
        ..c0
    })
}

/// What PHP does: the status with Break and Break2 set is pushed.
pub open spec fn php_post<H: FrameHandler>(c0: Cpu<H>, c1: Cpu<H>, r: Result<
    (),
    EmulatorError,
>) -> bool {
    r == Ok::<(), EmulatorError>(()) && c1 == (Cpu {
        stack_pointer: StackPointer(dec_spec(c0.stack_pointer.0)),
        bus: Bus {
            cpu_vram: vstd::array::spec_array_update(
                c0.bus.cpu_vram,
                0x100 + c0.stack_pointer.0,
                status_register::bits_spec(
                    StatusRegister { break_flag: true, break2: true, ..c0.status_register },
                ),
            ),
            ..c0.bus
        },
        ..c0
    })
}

/// What PLA does: the accumulator is popped and the flags refreshed.
pub open spec fn pla_post<H: FrameHandler>(c0: Cpu<H>, c1: Cpu<H>, r: Result<
    (),
    EmulatorError,
>) -> bool {
    let v = c0.bus.cpu_vram@[0x100 + inc_spec(c0.stack_pointer.0)];
    r == Ok::<(), EmulatorError>(()) && c1 == (Cpu {
        accumulator: v,
        status_register: upd_zn(c0.status_register, v),
        stack_pointer: StackPointer(inc_spec(c0.stack_pointer.0)),
        ..c0
    })
}

/// What PLP does: the status is popped, with Break cleared and Break2 set.
pub open spec fn plp_post<H: FrameHandler>(c0: Cpu<H>, c1: Cpu<H>, r: Result<
    (),
    EmulatorError,
>) -> bool {
    let v = c0.bus.cpu_vram@[0x100 + inc_spec(c0.stack_pointer.0)];
    r == Ok::<(), EmulatorError>(()) && c1 == (Cpu {
        status_register: StatusRegister {
            break_flag: false,
            break2: true,
            ..status_register::from_bits_spec(v)
        },
        stack_pointer: StackPointer(inc_spec(c0.stack_pointer.0)),
        ..c0
    })
}

/// What JSR does: the address of the call's last byte is pushed, and the
/// program counter loaded from the operand word.
pub open spec fn jsr_post<H: FrameHandler>(c0: Cpu<H>, c1: Cpu<H>, r: Result<
    (),
    EmulatorError,
>) -> bool {
    let pushed = Cpu {
        stack_pointer: StackPointer(dec_spec(dec_spec(c0.stack_pointer.0))),
        bus: Bus {
            cpu_vram: vstd::array::spec_array_update(
                vstd::array::spec_array_update(
                    c0.bus.cpu_vram,
                    0x100 + c0.stack_pointer.0,
                    ((((c0.program_counter + 1) % 0x10000) as u16) / 256) as u8,
                ),
                0x100 + dec_spec(c0.stack_pointer.0),
                ((((c0.program_counter + 1) % 0x10000) as u16) % 256) as u8,
            ),
            ..c0.bus
        },
        ..c0
    };
    let (b1, r1) = bus_read_outcome(pushed.bus, c0.program_counter);
    match r1 {
        Err(e) => r == Err::<(), EmulatorError>(e) && c1 == (Cpu { bus: b1, ..pushed }),
        Ok(lo) => {
            let (b2, r2) = bus_read_outcome(b1, ((c0.program_counter + 1) % 0x10000) as u16);
            match r2 {
                Err(e) => r == Err::<(), EmulatorError>(e) && c1 == (Cpu { bus: b2, ..pushed }),
                Ok(hi) => r == Ok::<(), EmulatorError>(()) && c1 == (Cpu {
                    program_counter: (hi * 256 + lo) as u16,
                    bus: b2,
                    ..pushed
                }),
            }
        },
    }
}

/// What RTI does: status then program counter are popped.
pub open spec fn rti_post<H: FrameHandler>(c0: Cpu<H>, c1: Cpu<H>, r: Result<
    (),
    EmulatorError,
>) -> bool {
    let sp0 = c0.stack_pointer.0;
    let status = c0.bus.cpu_vram@[0x100 + inc_spec(sp0)];
    let lo = c0.bus.cpu_vram@[0x100 + inc_spec(inc_spec(sp0))];
    let hi = c0.bus.cpu_vram@[0x100 + inc_spec(inc_spec(inc_spec(sp0)))];
    r == Ok::<(), EmulatorError>(()) && c1 == (Cpu {
        status_register: StatusRegister {
            break_flag: false,
            break2: true,
            ..status_register::from_bits_spec(status)
        },
        program_counter: (hi * 256 + lo) as u16,
        stack_pointer: StackPointer(inc_spec(inc_spec(inc_spec(sp0)))),
        ..c0
    })
}

/// What RTS does: the program counter is popped and stepped past the call.
pub open spec fn rts_post<H: FrameHandler>(c0: Cpu<H>, c1: Cpu<H>, r: Result<
    (),
    EmulatorError,
>) -> bool {
    let sp0 = c0.stack_pointer.0;
    let lo = c0.bus.cpu_vram@[0x100 + inc_spec(sp0)];
    let hi = c0.bus.cpu_vram@[0x100 + inc_spec(inc_spec(sp0))];
    r == Ok::<(), EmulatorError>(()) && c1 == (Cpu {
        program_counter: (((hi * 256 + lo) + 1) % 0x10000) as u16,
        stack_pointer: StackPointer(inc_spec(inc_spec(sp0))),
        ..c0
    })
}

/// What a conditional branch does: nothing when the condition is clear;
/// otherwise one extra cycle, the offset byte read at the program counter,
/// the jump taken, and another cycle on a page crossing. The clock outcome
/// is pinned whenever the ticks raise no frame.
pub open spec fn branch_post<H: FrameHandler>(
    c0: Cpu<H>,
    condition: bool,
    c1: Cpu<H>,
    r: Result<(), EmulatorError>,
) -> bool {
    &&& c1.accumulator == c0.accumulator
    &&& c1.register_x == c0.register_x
    &&& c1.register_y == c0.register_y
    &&& c1.status_register == c0.status_register
    &&& c1.stack_pointer == c0.stack_pointer
    &&& (!condition ==> c1 == c0 && r == Ok::<(), EmulatorError>(()))
    &&& (condition && tick_quiet(c0.bus, 1) ==> ({
        let b1 = quiet_tick(c0.bus, 1);
        let (b2, rv) = bus_read_outcome(b1, c0.program_counter);
        match rv {
            Err(e) => r == Err::<(), EmulatorError>(e) && c1 == (Cpu { bus: b2, ..c0 }),
            Ok(jump) => {
                let target = branch_target_spec(c0.program_counter, jump);
                if !page_crossed_spec(c0.program_counter, target) {
                    r == Ok::<(), EmulatorError>(()) && c1 == (Cpu {
                        program_counter: target,
                        bus: b2,
                        ..c0
                    })
                } else if tick_quiet(b2, 1) {
                    r == Ok::<(), EmulatorError>(()) && c1 == (Cpu {
                        program_counter: target,
                        bus: quiet_tick(b2, 1),
                        ..c0
                    })
                } else {
                    r == Ok::<(), EmulatorError>(()) ==> c1.program_counter == target
                }
            },
        }
    }))
}


/// What dispatching one decoded instruction does, by mnemonic: the machine
/// moves exactly as the instruction's handler states, and the returned flag
/// says whether the base cycle cost is still owed (false only for returns
/// from subroutines and interrupts, which the run loop has never charged).
pub open spec fn execute_post<H: FrameHandler>(
    c0: Cpu<H>,
    op: Opcode,
    address: u16,
    c1: Cpu<H>,
    r: Result<bool, EmulatorError>,
) -> bool {
    let ru = as_unit_result(r);
    let charges = (r is Ok ==> r == Ok::<bool, EmulatorError>(true));
    match op.name {
        Mnemonic::Adc => adc_post(c0, address, c1, ru) && charges,
        Mnemonic::And => and_post(c0, address, c1, ru) && charges,
        Mnemonic::Asl => shift_instruction_post(c0, address, op.addressing_mode, 0, true, c1, ru)
            && charges,
        Mnemonic::Bit => bit_post(c0, address, c1, ru) && charges,
        Mnemonic::Bcc => branch_post(c0, !c0.status_register.carry, c1, ru) && charges,
        Mnemonic::Bcs => branch_post(c0, c0.status_register.carry, c1, ru) && charges,
        Mnemonic::Beq => branch_post(c0, c0.status_register.zero, c1, ru) && charges,
        Mnemonic::Bmi => branch_post(c0, c0.status_register.negative, c1, ru) && charges,
        Mnemonic::Bne => branch_post(c0, !c0.status_register.zero, c1, ru) && charges,
        Mnemonic::Bpl => branch_post(c0, !c0.status_register.negative, c1, ru) && charges,
        Mnemonic::Bvc => branch_post(c0, !c0.status_register.overflow, c1, ru) && charges,
        Mnemonic::Bvs => branch_post(c0, c0.status_register.overflow, c1, ru) && charges,
        Mnemonic::Brk => c1 == c0 && r == Ok::<bool, EmulatorError>(true),
        Mnemonic::Clc => c1 == (Cpu {
            status_register: StatusRegister { carry: false, ..c0.status_register },
            ..c0
        }) && r == Ok::<bool, EmulatorError>(true),
        Mnemonic::Cld => c1 == (Cpu {
            status_register: StatusRegister { decimal: false, ..c0.status_register },
            ..c0
        }) && r == Ok::<bool, EmulatorError>(true),
        Mnemonic::Cli => c1 == (Cpu {
            status_register: StatusRegister { interrupt_disable: false, ..c0.status_register },
            ..c0
        }) && r == Ok::<bool, EmulatorError>(true),
        Mnemonic::Clv => c1 == (Cpu {
            status_register: StatusRegister { overflow: false, ..c0.status_register },
            ..c0
        }) && r == Ok::<bool, EmulatorError>(true),
        Mnemonic::Cmp => compare_post(c0, address, c0.accumulator, c1, ru) && charges,
        Mnemonic::Cpx => compare_post(c0, address, c0.register_x, c1, ru) && charges,
        Mnemonic::Cpy => compare_post(c0, address, c0.register_y, c1, ru) && charges,
        Mnemonic::Dec => dec_mem_post(c0, address, c1, ru) && charges,
        Mnemonic::Dex => c1 == (Cpu {
            register_x: dec_spec(c0.register_x),
            status_register: upd_zn(c0.status_register, dec_spec(c0.register_x)),
            ..c0
        }) && r == Ok::<bool, EmulatorError>(true),
        Mnemonic::Dey => c1 == (Cpu {
            register_y: dec_spec(c0.register_y),
            status_register: upd_zn(c0.status_register, dec_spec(c0.register_y)),
            ..c0
        }) && r == Ok::<bool, EmulatorError>(true),
        Mnemonic::Eor => eor_post(c0, address, c1, ru) && charges,
        Mnemonic::Inc => inc_mem_post(c0, address, c1, ru) && charges,
        Mnemonic::Inx => c1 == (Cpu {
            register_x: inc_spec(c0.register_x),
            status_register: upd_zn(c0.status_register, inc_spec(c0.register_x)),
            ..c0
        }) && r == Ok::<bool, EmulatorError>(true),
        Mnemonic::Iny => c1 == (Cpu {
            register_y: inc_spec(c0.register_y),
            status_register: upd_zn(c0.status_register, inc_spec(c0.register_y)),
            ..c0
        }) && r == Ok::<bool, EmulatorError>(true),
        Mnemonic::Jmp => c1 == (Cpu { program_counter: address, ..c0 }) && r == Ok::<
            bool,
            EmulatorError,
        >(true),
        Mnemonic::Jsr => jsr_post(c0, c1, ru) && charges,
        Mnemonic::Lda => lda_post(c0, address, c1, ru) && charges,
        Mnemonic::Ldx => ldx_post(c0, address, c1, ru) && charges,
        Mnemonic::Ldy => ldy_post(c0, address, c1, ru) && charges,
        Mnemonic::Lsr => shift_instruction_post(c0, address, op.addressing_mode, 0, false, c1, ru)
            && charges,
        Mnemonic::Nop => c1 == c0 && r == Ok::<bool, EmulatorError>(true),
        Mnemonic::Ora => ora_post(c0, address, c1, ru) && charges,
        Mnemonic::Pha => pha_post(c0, c1, ru) && charges,
        Mnemonic::Php => php_post(c0, c1, ru) && charges,
        Mnemonic::Pla => pla_post(c0, c1, ru) && charges,
        Mnemonic::Plp => plp_post(c0, c1, ru) && charges,
        Mnemonic::Rol => shift_instruction_post(
            c0,
            address,
            op.addressing_mode,
            if c0.status_register.carry {
                1u8
            } else {
                0u8
            },
            true,
            c1,
            ru,
        ) && charges,
        Mnemonic::Ror => shift_instruction_post(
            c0,
            address,
            op.addressing_mode,
            if c0.status_register.carry {
                0x80u8
            } else {
                0u8
            },
            false,
            c1,
            ru,
        ) && charges,
        Mnemonic::Rti => rti_post(c0, c1, ru) && (r is Ok ==> r == Ok::<bool, EmulatorError>(
            false,
        )),
        Mnemonic::Rts => rts_post(c0, c1, ru) && (r is Ok ==> r == Ok::<bool, EmulatorError>(
            false,
        )),
        Mnemonic::Sbc => sbc_post(c0, address, c1, ru) && charges,
        Mnemonic::Sec => c1 == (Cpu {
            status_register: StatusRegister { carry: true, ..c0.status_register },
            ..c0
        }) && r == Ok::<bool, EmulatorError>(true),
        Mnemonic::Sed => c1 == (Cpu {
            status_register: StatusRegister { decimal: true, ..c0.status_register },
            ..c0
        }) && r == Ok::<bool, EmulatorError>(true),
        Mnemonic::Sei => c1 == (Cpu {
            status_register: StatusRegister { interrupt_disable: true, ..c0.status_register },
            ..c0
        }) && r == Ok::<bool, EmulatorError>(true),
        Mnemonic::Sta => store_post(c0, address, c0.accumulator, c1, ru) && charges,
        Mnemonic::Stx => store_post(c0, address, c0.register_x, c1, ru) && charges,
        Mnemonic::Sty => store_post(c0, address, c0.register_y, c1, ru) && charges,
        Mnemonic::Tax => c1 == (Cpu {
            register_x: c0.accumulator,
            status_register: upd_zn(c0.status_register, c0.accumulator),
            ..c0
        }) && r == Ok::<bool, EmulatorError>(true),
        Mnemonic::Tay => c1 == (Cpu {
            register_y: c0.accumulator,
            status_register: upd_zn(c0.status_register, c0.accumulator),
            ..c0
        }) && r == Ok::<bool, EmulatorError>(true),
        Mnemonic::Tsx => c1 == (Cpu {
            register_x: c0.stack_pointer.0,
            status_register: upd_zn(c0.status_register, c0.stack_pointer.0),
            ..c0
        }) && r == Ok::<bool, EmulatorError>(true),
        Mnemonic::Txa => c1 == (Cpu {
            accumulator: c0.register_x,
            status_register: upd_zn(c0.status_register, c0.register_x),
            ..c0
        }) && r == Ok::<bool, EmulatorError>(true),
        Mnemonic::Txs => c1 == (Cpu { stack_pointer: StackPointer(c0.register_x), ..c0 }) && r
            == Ok::<bool, EmulatorError>(true),
        Mnemonic::Tya => c1 == (Cpu {
            accumulator: c0.register_y,
            status_register: upd_zn(c0.status_register, c0.register_y),
            ..c0
        }) && r == Ok::<bool, EmulatorError>(true),
        Mnemonic::Lax => lax_post(c0, address, c1, ru) && charges,
        Mnemonic::Sax => store_post(c0, address, (c0.accumulator & c0.register_x) as u8, c1, ru)
            && charges,
        Mnemonic::Dcp => dcp_post(c0, address, c1, ru) && charges,
        Mnemonic::Isb => isb_post(c0, address, c1, ru) && charges,
        Mnemonic::Slo => slo_post(c0, address, c1, ru) && charges,
        Mnemonic::Rla => (op.addressing_mode != AddressingMode::Accumulator ==> rla_post(
            c0,
            address,
            c1,
            ru,
        )) && charges,
        Mnemonic::Sre => sre_post(c0, address, c1, ru) && charges,
        Mnemonic::Rra => (op.addressing_mode != AddressingMode::Accumulator ==> rra_post(
            c0,
            address,
            c1,
            ru,
        )) && charges,
    }
}


/// The mnemonics the first half of the dispatcher serves itself.
pub open spec fn dispatches_early(m: Mnemonic) -> bool {
    ||| m == Mnemonic::Adc
    ||| m == Mnemonic::And
    ||| m == Mnemonic::Asl
    ||| m == Mnemonic::Bit
    ||| m == Mnemonic::Bcc
    ||| m == Mnemonic::Bcs
    ||| m == Mnemonic::Beq
    ||| m == Mnemonic::Bmi
    ||| m == Mnemonic::Bne
    ||| m == Mnemonic::Bpl
    ||| m == Mnemonic::Bvc
    ||| m == Mnemonic::Bvs
    ||| m == Mnemonic::Brk
    ||| m == Mnemonic::Clc
    ||| m == Mnemonic::Cld
    ||| m == Mnemonic::Cli
    ||| m == Mnemonic::Clv
    ||| m == Mnemonic::Cmp
    ||| m == Mnemonic::Cpx
    ||| m == Mnemonic::Cpy
    ||| m == Mnemonic::Dec
    ||| m == Mnemonic::Dex
    ||| m == Mnemonic::Dey
    ||| m == Mnemonic::Eor
    ||| m == Mnemonic::Inc
    ||| m == Mnemonic::Inx
    ||| m == Mnemonic::Iny
}

impl<H: FrameHandler> Cpu<H> {
    /// The second half of the dispatcher: the mnemonics the first half does
    /// not serve itself.
    #[verifier::rlimit(100)]
    fn execute_tail(&mut self, opcode: &Opcode, address: Address) -> (r: Result<
        bool,
        EmulatorError,
    >)
        requires
            cpu_wf(*old(self)),
            !dispatches_early(opcode.name),
        ensures
            cpu_wf(*final(self)),
            execute_post(*old(self), *opcode, address, *final(self), r),
    {
        match opcode.name {
            Mnemonic::Jmp => {
                self.program_counter = address;
            },
            Mnemonic::Jsr => self.jsr()?,
            Mnemonic::Lda => self.lda(address)?,
            Mnemonic::Ldx => self.ldx(address)?,
            Mnemonic::Ldy => self.ldy(address)?,
            Mnemonic::Lsr => self.lsr(address, opcode.addressing_mode)?,
            Mnemonic::Nop => {},
            Mnemonic::Ora => self.ora(address)?,
            Mnemonic::Pha => {
                let a = self.accumulator;
                self.push_stack(a)?
            },
            Mnemonic::Php => self.php()?,
            Mnemonic::Pla => self.pla()?,
            Mnemonic::Plp => self.plp()?,
            Mnemonic::Rol => self.rol(address, opcode.addressing_mode)?,
            Mnemonic::Ror => self.ror(address, opcode.addressing_mode)?,
            Mnemonic::Rti => {
                self.rti()?;
                return Ok(false);
            },
            Mnemonic::Rts => {
                self.rts()?;
                return Ok(false);
            },
            Mnemonic::Sbc => self.sbc(address)?,
            Mnemonic::Sec => self.status_register.set_carry_flag(true),
            Mnemonic::Sed => self.status_register.set_decimal_flag(true),
            Mnemonic::Sei => self.status_register.set_interrupt_flag(true),
            _ => {
                return self.execute_stores_and_transfers(opcode, address);
            },
        }

        Ok(true)
    }
}


/// The mnemonics the first two dispatcher halves serve between them.
pub open spec fn dispatches_before_stores(m: Mnemonic) -> bool {
    ||| m == Mnemonic::Adc
    ||| m == Mnemonic::And
    ||| m == Mnemonic::Asl
    ||| m == Mnemonic::Bit
    ||| m == Mnemonic::Bcc
    ||| m == Mnemonic::Bcs
    ||| m == Mnemonic::Beq
    ||| m == Mnemonic::Bmi
    ||| m == Mnemonic::Bne
    ||| m == Mnemonic::Bpl
    ||| m == Mnemonic::Bvc
    ||| m == Mnemonic::Bvs
    ||| m == Mnemonic::Brk
    ||| m == Mnemonic::Clc
    ||| m == Mnemonic::Cld
    ||| m == Mnemonic::Cli
    ||| m == Mnemonic::Clv
    ||| m == Mnemonic::Cmp
    ||| m == Mnemonic::Cpx
    ||| m == Mnemonic::Cpy
    ||| m == Mnemonic::Dec
    ||| m == Mnemonic::Dex
    ||| m == Mnemonic::Dey
    ||| m == Mnemonic::Eor
    ||| m == Mnemonic::Inc
    ||| m == Mnemonic::Inx
    ||| m == Mnemonic::Iny
    ||| m == Mnemonic::Jmp
    ||| m == Mnemonic::Jsr
    ||| m == Mnemonic::Lda
    ||| m == Mnemonic::Ldx
    ||| m == Mnemonic::Ldy
    ||| m == Mnemonic::Lsr
    ||| m == Mnemonic::Nop
    ||| m == Mnemonic::Ora
    ||| m == Mnemonic::Pha
    ||| m == Mnemonic::Php
    ||| m == Mnemonic::Pla
    ||| m == Mnemonic::Plp
    ||| m == Mnemonic::Rol
    ||| m == Mnemonic::Ror
    ||| m == Mnemonic::Rti
    ||| m == Mnemonic::Rts
    ||| m == Mnemonic::Sbc
    ||| m == Mnemonic::Sec
    ||| m == Mnemonic::Sed
    ||| m == Mnemonic::Sei
}

impl<H: FrameHandler> Cpu<H> {
    /// The last part of the dispatcher: stores, register transfers and the
    /// undocumented composites.
    #[verifier::rlimit(100)]
    fn execute_stores_and_transfers(&mut self, opcode: &Opcode, address: Address) -> (r: Result<
        bool,
        EmulatorError,
    >)
        requires
            cpu_wf(*old(self)),
            !dispatches_before_stores(opcode.name),
        ensures
            cpu_wf(*final(self)),
            execute_post(*old(self), *opcode, address, *final(self), r),
    {
        match opcode.name {
            Mnemonic::Sta => {
                let a = self.accumulator;
                self.write(address, a)?
            },
            Mnemonic::Stx => {
                let x = self.register_x;
                self.write(address, x)?
            },
            Mnemonic::Sty => {
                let y = self.register_y;
                self.write(address, y)?
            },
            Mnemonic::Tax => self.tax(),
            Mnemonic::Tay => self.tay(),
            Mnemonic::Tsx => self.tsx(),
            Mnemonic::Txa => self.txa(),
            Mnemonic::Txs => {
                let x = self.register_x;
                self.stack_pointer.set(x);
            },
            Mnemonic::Tya => self.tya(),
            Mnemonic::Lax => self.lax(address)?,
            Mnemonic::Sax => self.sax(address)?,
            Mnemonic::Dcp => self.dcp(address)?,
            Mnemonic::Isb => self.isb(address)?,
            Mnemonic::Slo => self.slo(address)?,
            Mnemonic::Rla => self.rla(address, opcode.addressing_mode)?,
            Mnemonic::Sre => self.sre(address)?,
            Mnemonic::Rra => self.rra(address, opcode.addressing_mode)?,
            Mnemonic::Brk => {},            _ => {
                proof {
                    assert(false);
                }
            },
        }

        Ok(true)
    }
}


/// What the closing clock tick and program-counter advance of one
/// instruction do: the registers ride through untouched, the bus pays the
/// opcode's base cycle cost (the picture unit moving three times as far),
/// and the program counter advances by the instruction length exactly when
/// the handler left it at its post-fetch value. A failure can only be the
/// frame handler's, on a vblank rising edge, and then the counter does not
/// advance.
pub open spec fn step_tick_post<H: FrameHandler>(
    c2: Cpu<H>,
    op: Opcode,
    fetch_pc: u16,
    cf: Cpu<H>,
    r: Result<StepOutcome, EmulatorError>,
) -> bool {
    &&& cf.accumulator == c2.accumulator
    &&& cf.register_x == c2.register_x
    &&& cf.register_y == c2.register_y
    &&& cf.status_register == c2.status_register
    &&& cf.stack_pointer == c2.stack_pointer
    &&& cf.bus.cycles == (c2.bus.cycles + op.cycles) % 0x1_0000_0000_0000_0000int
    &&& cf.bus.ppu == ppu_tick_spec(c2.bus.ppu, (op.cycles * 3) as u8)
    &&& cf.bus.cpu_vram == c2.bus.cpu_vram
    &&& cf.bus.rom == c2.bus.rom
    &&& cf.bus.apu == c2.bus.apu
    &&& (!nmi_rising(c2.bus.ppu, cf.bus.ppu) ==> cf.bus.joypad == c2.bus.joypad
        && cf.bus.gameloop_handler == c2.bus.gameloop_handler)
    &&& match r {
        Err(e) => cf.program_counter == c2.program_counter && nmi_rising(c2.bus.ppu, cf.bus.ppu),
        Ok(o) => o == StepOutcome::Continue && cf.program_counter == (
        if c2.program_counter == fetch_pc {
            ((c2.program_counter + op.bytes - 1) % 0x10000) as u16
        } else {
            c2.program_counter
        }),
    }
}

/// What executing one decoded, non-BRK instruction from the post-fetch
/// machine does: the operand address is resolved as the addressing mode
/// states, the mnemonic's handler moves the machine as its own contract
/// states, and on success the base cycle cost is paid and the program
/// counter advanced. The two intermediate machines are the ones the
/// resolution and the dispatch pass through.
pub open spec fn step_dispatch_post<H: FrameHandler>(
    fetched: Cpu<H>,
    op: Opcode,
    cf: Cpu<H>,
    r: Result<StepOutcome, EmulatorError>,
) -> bool {
    exists|c1: Cpu<H>, av_r: Result<u16, EmulatorError>|
        {
            &&& #[trigger] operand_address_post(fetched, op, fetched.program_counter, c1, av_r)
            &&& registers_preserved(fetched, c1)
            &&& match av_r {
                Err(e) => r == Err::<StepOutcome, EmulatorError>(e) && cf == c1,
                Ok(av) => exists|c2: Cpu<H>, er: Result<bool, EmulatorError>|
                    {
                        &&& #[trigger] execute_post(c1, op, av, c2, er)
                        &&& match er {
                            Err(e) => r == Err::<StepOutcome, EmulatorError>(e) && cf == c2,
                            Ok(false) => r == Ok::<StepOutcome, EmulatorError>(
                                StepOutcome::Continue,
                            ) && cf == c2,
                            Ok(true) => step_tick_post(c2, op, fetched.program_counter, cf, r),
                        }
                    },
            }
        }
}


/// Whether a machine is the direct result of fetching a BRK: some
/// predecessor machine read operation code 0x00 (the one whose table record
/// is named BRK) at its program counter, and the machine is that
/// predecessor with the fetch's bus effect applied and the counter stepped
/// past the operation code. The run loop returns success exactly in such a
/// state.
pub open spec fn halted_on_break<H: FrameHandler>(cf: Cpu<H>) -> bool {
    exists|prev: Cpu<H>, code: u8|
        {
            &&& #[trigger] bus_read_outcome(prev.bus, prev.program_counter).1 == Ok::<
                u8,
                EmulatorError,
            >(code)
            &&& (#[trigger] opcode_for(code)) matches Some(op) && op.name == Mnemonic::Brk
            &&& cf == (Cpu {
                bus: bus_read_outcome(prev.bus, prev.program_counter).0,
                program_counter: ((prev.program_counter + 1) % 0x10000) as u16,
                ..prev
            })
        }
}

} // verus!
