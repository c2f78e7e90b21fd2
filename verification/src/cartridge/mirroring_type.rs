//! How the hardware aliases nametable memory across the four logical slots.

use vstd::prelude::*;

verus! {

/// The nametable arrangement, fixed for the lifetime of a cartridge.
#[derive(Debug, Clone, Copy, PartialEq, Eq, Structural)]
pub enum MirroringType {
    /// Horizontal arrangement.
    Horizontal,
    /// Vertical arrangement.
    Vertical,
    /// Four-screen VRAM.
    FourScreen,
}

impl MirroringType {
    /// Decode the arrangement from the header flags; four-screen overrides
    /// the vertical/horizontal bit.
    pub fn new(is_four_screen: bool, is_vertical: bool) -> (r: Self)
        ensures
            r == (if is_four_screen {
                MirroringType::FourScreen
            } else if is_vertical {
                MirroringType::Vertical
            } else {
                MirroringType::Horizontal
            }),
    {
        match (is_four_screen, is_vertical) {
            (true, _) => Self::FourScreen,
            (false, true) => Self::Vertical,
            (false, false) => Self::Horizontal,
        }
    }
}

} // verus!
