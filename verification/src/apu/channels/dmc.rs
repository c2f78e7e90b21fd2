//! The delta-modulation channel's four registers.
//!
//! The channel can output 1-bit delta-encoded samples or have its 7-bit
//! counter directly loaded, allowing flexible manual sample playback.

use vstd::prelude::*;

verus! {

/// Raw register storage for the delta-modulation channel.
#[derive(Debug, Clone, Copy, PartialEq, Eq, Structural)]
pub struct Dmc {
    pub flags_and_rate: u8,
    pub direct_load: u8,
    pub sample_address: u8,
    pub sample_length: u8,
}

impl Dmc {
    /// All registers cleared, for use in contracts.
    pub open spec fn default_spec() -> Self {
        Dmc { flags_and_rate: 0, direct_load: 0, sample_address: 0, sample_length: 0 }
    }

    /// Whether the channel raises an interrupt when a sample ends.
    pub fn is_irq_enabled(self) -> (r: bool)
        ensures
            r == (self.flags_and_rate / 0x80 % 2 == 1),
    {
        self.flags_and_rate / 0x80 % 2 == 1
    }

    /// Whether the sample loops.
    pub fn is_looping(self) -> (r: bool)
        ensures
            r == (self.flags_and_rate / 0x40 % 2 == 1),
    {
        self.flags_and_rate / 0x40 % 2 == 1
    }

    /// The three-bit playback rate index.
    pub fn rate_index(self) -> (r: u8)
        ensures
            r == self.flags_and_rate % 8,
    {
        self.flags_and_rate % 8
    }

    /// The seven-bit directly loaded counter value.
    pub fn direct_load(self) -> (r: u8)
        ensures
            r == self.direct_load % 0x80,
    {
        self.direct_load % 0x80
    }
}

impl Default for Dmc {
    fn default() -> (r: Self)
        ensures
            r == Self::default_spec(),
    {
        Dmc { flags_and_rate: 0, direct_load: 0, sample_address: 0, sample_length: 0 }
    }
}

} // verus!
