//! The noise channel's three registers.

use vstd::prelude::*;

verus! {

/// Raw register storage for the noise channel.
#[derive(Debug, Clone, Copy, PartialEq, Eq, Structural)]
pub struct NoiseChannel {
    pub volume: u8,
    pub mode_and_period: u8,
    pub len_counter_and_env_restart: u8,
}

/// The shape of the noise the channel produces.
#[derive(Debug, Clone, Copy, PartialEq, Eq, Structural)]
pub enum NoiseMode {
    Short,
    Long,
}

impl NoiseChannel {
    /// All registers cleared, for use in contracts.
    pub open spec fn default_spec() -> Self {
        NoiseChannel { volume: 0, mode_and_period: 0, len_counter_and_env_restart: 0 }
    }

    /// Whether the length counter is halted.
    pub fn is_length_counter_halted(&self) -> (r: bool)
        ensures
            r == (self.volume / 0x20 % 2 == 1),
    {
        self.volume / 0x20 % 2 == 1
    }

    /// Whether the envelope is replaced by a constant volume.
    pub fn is_constant_volume(&self) -> (r: bool)
        ensures
            r == (self.volume / 0x10 % 2 == 1),
    {
        self.volume / 0x10 % 2 == 1
    }

    /// The four-bit volume or envelope divider period.
    pub fn volume_divider_period(&self) -> (r: u8)
        ensures
            r == self.volume % 0x10,
    {
        self.volume % 0x10
    }

    /// The noise shape the mode bit selects.
    pub fn mode(&self) -> (r: NoiseMode)
        ensures
            r == (if self.mode_and_period / 0x80 % 2 == 1 {
                NoiseMode::Short
            } else {
                NoiseMode::Long
            }),
    {
        if self.mode_and_period / 0x80 % 2 == 1 {
            NoiseMode::Short
        } else {
            NoiseMode::Long
        }
    }

    /// The four-bit timer period index.
    pub fn timer_period(&self) -> (r: u8)
        ensures
            r == self.mode_and_period % 0x10,
    {
        self.mode_and_period % 0x10
    }
}

impl Default for NoiseChannel {
    fn default() -> (r: Self)
        ensures
            r == Self::default_spec(),
    {
        NoiseChannel { volume: 0, mode_and_period: 0, len_counter_and_env_restart: 0 }
    }
}

} // verus!
