//! A rectangular clip window used when compositing scrolled nametables.

use vstd::prelude::*;

verus! {

/// A half-open pixel rectangle: columns `x1` up to `x2`, rows `y1` up to
/// `y2`.
#[derive(Debug, Clone, Copy, PartialEq, Eq, Structural)]
pub struct Viewport {
    pub x1: usize,
    pub x2: usize,
    pub y1: usize,
    pub y2: usize,
}

impl Viewport {
    /// A window over the given bounds.
    pub fn new(x1: usize, x2: usize, y1: usize, y2: usize) -> (r: Self)
        ensures
            r == (Viewport { x1, x2, y1, y2 }),
    {
        Self { x1, x2, y1, y2 }
    }
}

} // verus!
