//! Model of the core-local interruptor: the per-hart software-interrupt
//! trigger bits and the 64-bit timer comparator of the memory-mapped CLINT
//! register block. The shell that talks to the real device performs exactly
//! the writes these functions record.

use vstd::prelude::*;

pub mod msip;
pub mod mtimecmp;
pub mod ssip;

verus! {

/// The CLINT registers this runtime reads or writes.
#[derive(Clone, Copy, Debug, PartialEq, Eq, Structural)]
pub struct ClintState {
    /// Machine-mode software-interrupt trigger of hart 0.
    pub msip: bool,
    /// Supervisor-mode software-interrupt trigger of hart 0.
    pub ssip: bool,
    /// Timer comparator of hart 0: a machine-timer interrupt is pending
    /// while the hardware time counter is at or above this value.
    pub mtimecmp: usize,
}

} // verus!
