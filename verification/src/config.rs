//! Presentation settings a host passes the emulator.

use vstd::prelude::*;

verus! {

/// Where the ROM lives and how large the window should be.
#[derive(Debug, Clone, PartialEq, Eq)]
pub struct Config {
    pub rom_path: String,
    pub window_width: u32,
    pub window_height: u32,
    pub scale: u32,
}

impl Config {
    /// The window width in physical pixels.
    pub fn window_width(&self) -> (r: u32)
        requires
            self.window_width * self.scale <= u32::MAX,
        ensures
            r == self.window_width * self.scale,
    {
        self.window_width * self.scale
    }

    /// The window height in physical pixels.
    pub fn window_height(&self) -> (r: u32)
        requires
            self.window_height * self.scale <= u32::MAX,
        ensures
            r == self.window_height * self.scale,
    {
        self.window_height * self.scale
    }
}

} // verus!
