//! A half-open physical address range.

use vstd::prelude::*;

verus! {

/// A half-open byte range of physical addresses: `start` inclusive, `end`
/// exclusive.
#[derive(Clone, Copy, Debug, PartialEq, Eq, Structural)]
pub struct Region {
    /// First address of the range.
    pub start: usize,
    /// First address past the range.
    pub end: usize,
}

impl Region {
    /// The number of bytes the range covers.
    pub fn len(&self) -> (r: usize)
        requires
            self.start <= self.end,
        ensures
            r == self.end - self.start,
    {
        self.end - self.start
    }
}

} // verus!
