//! The picture unit's scroll register: two one-byte latches sharing a
//! write toggle.

use vstd::prelude::*;

verus! {

/// The horizontal and vertical scroll latches, plus the toggle saying which
/// one the next write fills.
#[derive(Debug, Clone, Copy, PartialEq, Eq, Structural)]
pub struct ScrollRegister {
    pub scroll_x: u8,
    pub scroll_y: u8,
    pub latch: bool,
}

impl Default for ScrollRegister {
    fn default() -> (r: Self)
        ensures
            r == (ScrollRegister { scroll_x: 0, scroll_y: 0, latch: false }),
    {
        ScrollRegister { scroll_x: 0, scroll_y: 0, latch: false }
    }
}

impl ScrollRegister {
    /// Latch one byte: the horizontal value first, then the vertical one,
    /// alternating.
    pub fn write(&mut self, value: u8)
        ensures
            *final(self) == (if old(self).latch {
                ScrollRegister { scroll_y: value, latch: false, ..*old(self) }
            } else {
                ScrollRegister { scroll_x: value, latch: true, ..*old(self) }
            }),
    {
        if self.latch {
            self.scroll_y = value;
        } else {
            self.scroll_x = value;
        }

        self.latch = !self.latch;
    }

    /// Point the toggle back at the horizontal latch.
    pub fn reset_latch(&mut self)
        ensures
            *final(self) == (ScrollRegister { latch: false, ..*old(self) }),
    {
        self.latch = false;
    }
}

} // verus!
