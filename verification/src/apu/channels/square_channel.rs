//! A square-wave channel's four registers.

use vstd::prelude::*;

verus! {

/// Raw register storage for one square channel.
#[derive(Debug, Clone, Copy, PartialEq, Eq, Structural)]
pub struct SquareChannel {
    pub volume: u8,
    pub sweep: u8,
    pub timer_low: u8,
    pub length_and_timer_high: u8,
}

impl SquareChannel {
    /// All registers cleared, for use in contracts.
    pub open spec fn default_spec() -> Self {
        SquareChannel { volume: 0, sweep: 0, timer_low: 0, length_and_timer_high: 0 }
    }

    /// The duty-cycle selector: the top two bits of the volume register.
    pub fn duty(self) -> (r: u8)
        ensures
            r == self.volume / 0x40,
    {
        self.volume / 0x40
    }

    /// Whether the length counter is halted.
    pub fn is_length_counter_halted(self) -> (r: bool)
        ensures
            r == (self.volume / 0x20 % 2 == 1),
    {
        self.volume / 0x20 % 2 == 1
    }

    /// Whether the envelope is replaced by a constant volume.
    pub fn is_constant_volume(self) -> (r: bool)
        ensures
            r == (self.volume / 0x10 % 2 == 1),
    {
        self.volume / 0x10 % 2 == 1
    }

    /// The four-bit volume or envelope period.
    pub fn volume(self) -> (r: u8)
        ensures
            r == self.volume % 0x10,
    {
        self.volume % 0x10
    }

    /// Whether the sweep unit is enabled.
    pub fn is_sweep_enabled(self) -> (r: bool)
        ensures
            r == (self.sweep / 0x80 % 2 == 1),
    {
        self.sweep / 0x80 % 2 == 1
    }

    /// The sweep unit's divider period.
    pub fn sweep_period(self) -> (r: u8)
        ensures
            r == self.sweep / 0x10 % 8,
    {
        self.sweep / 0x10 % 8
    }

    /// Whether the sweep subtracts instead of adding.
    pub fn is_sweep_negated(self) -> (r: bool)
        ensures
            r == (self.sweep / 0x08 % 2 == 1),
    {
        self.sweep / 0x08 % 2 == 1
    }

    /// The sweep unit's shift count.
    pub fn sweep_shift(self) -> (r: u8)
        ensures
            r == self.sweep % 8,
    {
        self.sweep % 8
    }

    /// The eleven-bit timer value, assembled from its two registers.
    pub fn timer(self) -> (r: u16)
        ensures
            r == (self.length_and_timer_high % 8) * 256 + self.timer_low,
    {
        (self.length_and_timer_high % 8) as u16 * 256 + self.timer_low as u16
    }

    /// The five-bit length-counter load value.
    pub fn length_counter_load(self) -> (r: u8)
        ensures
            r == self.length_and_timer_high / 8,
    {
        self.length_and_timer_high / 8
    }
}

impl Default for SquareChannel {
    fn default() -> (r: Self)
        ensures
            r == Self::default_spec(),
    {
        SquareChannel { volume: 0, sweep: 0, timer_low: 0, length_and_timer_high: 0 }
    }
}

} // verus!
