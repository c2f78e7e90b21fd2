//! A minimal stand-alone interpreter over a plain byte program: a handful
//! of instructions, no bus, no clock. It is kept as the smallest possible
//! model of the fetch/decode/execute loop.

use vstd::prelude::*;

verus! {

/// A tiny machine: accumulator, index X, a raw status byte, and a program
/// counter into the program slice.
#[derive(Debug, Clone, Copy, PartialEq, Eq, Structural)]
pub struct Cpu {
    pub register_a: u8,
    pub register_x: u8,
    pub status: u8,
    pub program_counter: u32,
}

impl Default for Cpu {
    fn default() -> (r: Self)
        ensures
            r == (Cpu { register_a: 0, register_x: 0, status: 0, program_counter: 0 }),
    {
        Cpu { register_a: 0, register_x: 0, status: 0, program_counter: 0 }
    }
}

/// The status byte with Zero (bit 1) and Negative (bit 7) refreshed from a
/// result byte.
pub open spec fn flags_spec(status: u8, result: u8) -> u8 {
    ((if result == 0 { 2int } else { 0int }) + (if result >= 0x80 { 0x80int } else { 0int })
        + status - (status / 2 % 2) * 2 - (status / 0x80) * 0x80) as u8
}

/// What interpreting a program from the machine's program counter does:
/// each step fetches one operation code and applies it, until a BRK, a code
/// this machine does not know, or the end of the program stops the run.
pub open spec fn interpret_spec(c: Cpu, data: Seq<u8>) -> Cpu
    decreases data.len() - c.program_counter,
        when data.len() < 0x1_0000_0000
{
    if c.program_counter >= data.len() {
        c
    } else {
        let pc = c.program_counter as int;
        let code = data[pc];
        if code == 0x00 {
            Cpu { program_counter: (pc + 1) as u32, ..c }
        } else if code == 0xa9 {
            if pc + 1 >= data.len() {
                Cpu { program_counter: (pc + 1) as u32, ..c }
            } else {
                let v = data[pc + 1];
                interpret_spec(
                    Cpu {
                        register_a: v,
                        status: flags_spec(c.status, v),
                        program_counter: (pc + 2) as u32,
                        ..c
                    },
                    data,
                )
            }
        } else if code == 0xaa {
            interpret_spec(
                Cpu {
                    register_x: c.register_a,
                    status: flags_spec(c.status, c.register_a),
                    program_counter: (pc + 1) as u32,
                    ..c
                },
                data,
            )
        } else if code == 0xe8 {
            interpret_spec(
                Cpu {
                    register_x: ((c.register_x + 1) % 256) as u8,
                    program_counter: (pc + 1) as u32,
                    ..c
                },
                data,
            )
        } else {
            Cpu { program_counter: (pc + 1) as u32, ..c }
        }
    }
}

impl Cpu {
    /// Interpret a program from its start until a BRK, an operation code
    /// this machine does not know, or the end of the slice stops it.
    pub fn interpret(&mut self, data: &[u8])
        requires
            data@.len() < 0x1_0000_0000,
        ensures
            *final(self) == interpret_spec(Cpu { program_counter: 0, ..*old(self) }, data@),
    {
        self.program_counter = 0;

        loop
            invariant
                data@.len() < 0x1_0000_0000,
                self.program_counter <= data@.len(),
                interpret_spec(*self, data@) == interpret_spec(
                    Cpu { program_counter: 0, ..*old(self) },
                    data@,
                ),
            decreases 2 * data@.len() + 1 - self.program_counter,
        {
            let ghost at_top = *self;
            if self.program_counter as usize >= data.len() {
                return ;
            }
            let opcode = *vstd::slice::slice_index_get(data, self.program_counter as usize);
            self.program_counter += 1;

            if opcode == 0x00 {
                return ;
            } else if opcode == 0xa9 {
                if self.program_counter as usize >= data.len() {
                    return ;
                }
                let lda_param = *vstd::slice::slice_index_get(
                    data,
                    self.program_counter as usize,
                );
                self.program_counter += 1;

                self.lda(lda_param);
                proof {
                    assert(interpret_spec(at_top, data@) == interpret_spec(*self, data@));
                }
            } else if opcode == 0xaa {
                self.tax();
                proof {
                    assert(interpret_spec(at_top, data@) == interpret_spec(*self, data@));
                }
            } else if opcode == 0xe8 {
                self.inx();
                proof {
                    assert(interpret_spec(at_top, data@) == interpret_spec(*self, data@));
                }
            } else {
                return ;
            }
        }
    }

    /// Load the accumulator and refresh the flags.
    fn lda(&mut self, value: u8)
        ensures
            *final(self) == (Cpu {
                register_a: value,
                status: flags_spec(old(self).status, value),
                ..*old(self)
            }),
    {
        self.register_a = value;
        self.update_zero_and_negative_flags(self.register_a);
    }

    /// Copy the accumulator into index X and refresh the flags.
    fn tax(&mut self)
        ensures
            *final(self) == (Cpu {
                register_x: old(self).register_a,
                status: flags_spec(old(self).status, old(self).register_a),
                ..*old(self)
            }),
    {
        self.register_x = self.register_a;
        self.update_zero_and_negative_flags(self.register_x);
    }

    /// Step index X up by one, wrapping; this machine leaves the flags
    /// alone.
    fn inx(&mut self)
        ensures
            *final(self) == (Cpu {
                register_x: ((old(self).register_x + 1) % 256) as u8,
                ..*old(self)
            }),
    {
        self.register_x = self.register_x.wrapping_add(1);
    }

    /// Refresh Zero (bit 1) and Negative (bit 7) in the raw status byte.
    fn update_zero_and_negative_flags(&mut self, result: u8)
        ensures
            final(self).status == flags_spec(old(self).status, result),
            final(self).register_a == old(self).register_a,
            final(self).register_x == old(self).register_x,
            final(self).program_counter == old(self).program_counter,
    {
        let zero_bit: u8 = if result == 0 {
            2
        } else {
            0
        };
        let negative_bit: u8 = if result >= 0x80 {
            0x80
        } else {
            0
        };
        let kept = self.status % 2 + (self.status / 4 % 32) * 4;

        self.status = kept + zero_bit + negative_bit;
    }
}

} // verus!
