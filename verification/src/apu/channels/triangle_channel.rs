//! The triangle channel's three registers.
//!
//! The channel produces a quantized triangle wave. It has no volume control,
//! but it has a length counter as well as a higher-resolution linear counter
//! loaded directly from its register.

use vstd::prelude::*;

verus! {

/// Raw register storage for the triangle channel.
#[derive(Debug, Clone, Copy, PartialEq, Eq, Structural)]
pub struct TriangleChannel {
    pub linear_counter: u8,
    pub timer_low: u8,
    pub length_and_timer_high: u8,
}

impl TriangleChannel {
    /// All registers cleared, for use in contracts.
    pub open spec fn default_spec() -> Self {
        TriangleChannel { linear_counter: 0, timer_low: 0, length_and_timer_high: 0 }
    }

    /// Whether the linear counter is enabled.
    pub fn is_linear_counter_enabled(self) -> (r: bool)
        ensures
            r == (self.linear_counter / 0x80 % 2 == 1),
    {
        self.linear_counter / 0x80 % 2 == 1
    }

    /// The seven-bit counter reload value.
    pub fn counter_reload(&self) -> (r: u8)
        ensures
            r == self.linear_counter % 0x80,
    {
        self.linear_counter % 0x80
    }

    /// The eleven-bit timer value, assembled from its two registers.
    pub fn timer(&self) -> (r: u16)
        ensures
            r == (self.length_and_timer_high % 8) * 256 + self.timer_low,
    {
        (self.length_and_timer_high % 8) as u16 * 256 + self.timer_low as u16
    }

    /// The five-bit length-counter load value.
    pub fn length_counter_load(&self) -> (r: u8)
        ensures
            r == self.length_and_timer_high / 8,
    {
        self.length_and_timer_high / 8
    }
}

impl Default for TriangleChannel {
    fn default() -> (r: Self)
        ensures
            r == Self::default_spec(),
    {
        TriangleChannel { linear_counter: 0, timer_low: 0, length_and_timer_high: 0 }
    }
}

} // verus!
