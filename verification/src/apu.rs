//! The audio unit's registers: storage only, with no sound synthesis.

pub mod apu_flags;
pub mod channels;

pub use apu_flags::ApuFlags;
pub use channels::dmc::Dmc;
pub use channels::noise_channel::{NoiseChannel, NoiseMode};
pub use channels::square_channel::SquareChannel;
pub use channels::triangle_channel::TriangleChannel;

use vstd::prelude::*;

verus! {

/// An audio unit with every register cleared.
pub open spec fn apu_default_spec() -> Apu {
    Apu {
        flags: apu_flags::apu_flags_from_bits(0),
        square_channel1: SquareChannel::default_spec(),
        square_channel2: SquareChannel::default_spec(),
        triangle_channel: TriangleChannel::default_spec(),
        noise_channel: NoiseChannel::default_spec(),
        dmc: Dmc::default_spec(),
    }
}

/// The audio unit: channel registers and the status flags, stored so that
/// programs probing them keep running.
#[derive(Debug, Clone, Copy, PartialEq, Eq, Structural)]
pub struct Apu {
    pub flags: ApuFlags,
    pub square_channel1: SquareChannel,
    pub square_channel2: SquareChannel,
    pub triangle_channel: TriangleChannel,
    pub noise_channel: NoiseChannel,
    pub dmc: Dmc,
}

impl Default for Apu {
    fn default() -> (r: Self)
        ensures
            r == (Apu {
                flags: apu_flags::apu_flags_from_bits(0),
                square_channel1: SquareChannel::default_spec(),
                square_channel2: SquareChannel::default_spec(),
                triangle_channel: TriangleChannel::default_spec(),
                noise_channel: NoiseChannel::default_spec(),
                dmc: Dmc::default_spec(),
            }),
    {
        Apu {
            flags: ApuFlags::default(),
            square_channel1: SquareChannel::default(),
            square_channel2: SquareChannel::default(),
            triangle_channel: TriangleChannel::default(),
            noise_channel: NoiseChannel::default(),
            dmc: Dmc::default(),
        }
    }
}

impl Apu {
    /// Replace the status flags with a freshly written byte.
    pub fn set_status_register(&mut self, byte: u8)
        ensures
            *final(self) == (Apu { flags: apu_flags::apu_flags_from_bits(byte), ..*old(self) }),
    {
        self.flags = ApuFlags::from_bits(byte);
    }

    /// The byte the status flags read as.
    pub fn status_register(&self) -> (r: u8)
        ensures
            r == apu_flags::apu_flags_bits_spec(self.flags),
    {
        self.flags.bits()
    }
}

} // verus!
