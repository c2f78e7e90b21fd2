//! The RGB pixel buffer the renderer draws into.

use crate::render::{Rgb, FRAME_HEIGHT, FRAME_WIDTH};
use vstd::prelude::*;

verus! {

/// A 256 by 240 buffer of three bytes per pixel, entirely overwritten on
/// each render.
#[derive(Debug)]
pub struct Frame {
    pub pixel_data: Vec<u8>,
}

impl Default for Frame {
    fn default() -> (r: Self)
        ensures
            r.pixel_data@ == Seq::new((FRAME_WIDTH * FRAME_HEIGHT * 3) as nat, |i: int| 0u8),
    {
        let mut pixel_data: Vec<u8> = Vec::new();
        let mut i: usize = 0;
        while i < FRAME_WIDTH * FRAME_HEIGHT * 3
            invariant
                i <= FRAME_WIDTH * FRAME_HEIGHT * 3,
                pixel_data@ == Seq::new(i as nat, |j: int| 0u8),
            decreases FRAME_WIDTH * FRAME_HEIGHT * 3 - i,
        {
            pixel_data.push(0);
            i += 1;
            proof {
                assert(pixel_data@ =~= Seq::new(i as nat, |j: int| 0u8));
            }
        }
        Frame { pixel_data }
    }
}

/// The buffer with one pixel replaced, when the coordinates fall inside it.
pub open spec fn set_pixel_spec(data: Seq<u8>, x: int, y: int, rgb: Rgb) -> Seq<u8> {
    let base = y * 3 * FRAME_WIDTH + x * 3;
    if base + 2 < data.len() {
        data.update(base, rgb.0).update(base + 1, rgb.1).update(base + 2, rgb.2)
    } else {
        data
    }
}

impl Frame {
    /// Paint one pixel; coordinates outside the buffer are ignored.
    pub fn set_pixel(&mut self, x: usize, y: usize, rgb: Rgb)
        requires
            y * 3 * FRAME_WIDTH + x * 3 + 2 <= usize::MAX,
        ensures
            final(self).pixel_data@ == set_pixel_spec(old(self).pixel_data@, x as int, y as int, rgb),
    {
        let base = y * 3 * FRAME_WIDTH + x * 3;

        if base + 2 < self.pixel_data.len() {
            self.pixel_data.set(base, rgb.0);
            self.pixel_data.set(base + 1, rgb.1);
            self.pixel_data.set(base + 2, rgb.2);
        }
    }
}

} // verus!
