//! The picture unit's edge-triggered interrupt signal.

use vstd::prelude::*;

verus! {

/// The interrupt signal: a two-value type rather than a boolean, so that a
/// rising edge is explicit at call sites.
#[derive(Debug, Clone, Copy, PartialEq, Eq, Structural)]
pub enum NmiStatus {
    Active,
    Inactive,
}

impl NmiStatus {
    /// True exactly on a rising edge: the signal was inactive and is now
    /// active.
    pub fn activated(before: Self, after: Self) -> (r: bool)
        ensures
            r == (before == NmiStatus::Inactive && after == NmiStatus::Active),
    {
        before == Self::Inactive && after == Self::Active
    }
}

} // verus!
