//! The 64-bit timer comparator register.

use crate::clint::ClintState;
use vstd::prelude::*;

verus! {

/// Program the timer comparator of the hart.
pub fn write(clint: &mut ClintState, mtime_val: usize)
    ensures
        *final(clint) == (ClintState { mtimecmp: mtime_val, ..*old(clint) }),
{
    clint.mtimecmp = mtime_val;
}

} // verus!
