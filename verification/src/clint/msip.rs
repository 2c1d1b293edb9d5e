//! The machine-mode software-interrupt trigger register.

use crate::clint::ClintState;
use vstd::prelude::*;

verus! {

/// Raise the machine-software-interrupt trigger of the hart.
pub fn set(clint: &mut ClintState)
    ensures
        *final(clint) == (ClintState { msip: true, ..*old(clint) }),
{
    clint.msip = true;
}

/// Clear the machine-software-interrupt trigger of the hart.
pub fn clear(clint: &mut ClintState)
    ensures
        *final(clint) == (ClintState { msip: false, ..*old(clint) }),
{
    clint.msip = false;
}

} // verus!
