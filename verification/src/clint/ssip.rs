//! The supervisor-mode software-interrupt trigger register.

use crate::clint::ClintState;
use vstd::prelude::*;

verus! {

/// Raise the supervisor-software-interrupt trigger of the hart.
pub fn set(clint: &mut ClintState)
    ensures
        *final(clint) == (ClintState { ssip: true, ..*old(clint) }),
{
    clint.ssip = true;
}

/// Clear the supervisor-software-interrupt trigger of the hart.
pub fn clear(clint: &mut ClintState)
    ensures
        *final(clint) == (ClintState { ssip: false, ..*old(clint) }),
{
    clint.ssip = false;
}

} // verus!
