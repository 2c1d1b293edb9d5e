//! Trap causes and the two fast interrupt handlers. In hardware the
//! vectored trap entry dispatches by cause: machine-timer and
//! machine-software interrupts take a fast path that touches only the CLINT
//! and the pending bits, every other cause goes through the full
//! context-saving dispatch of [`crate::execute`]. The register
//! save/restore sequence itself is the shell's assembly; its observable
//! effect is captured by the trap events the dispatch loop consumes.

use crate::clint;
use crate::machine::MachineState;
use crate::machine::MachineV;
use crate::machine::MIP_SSIP;
use crate::machine::MIP_STIP;
use vstd::prelude::*;

verus! {

/// The decoded trap cause, as read from `mcause`.
#[derive(Clone, Copy, Debug, PartialEq, Eq, Structural)]
pub enum TrapCause {
    /// Environment call from supervisor mode: an SBI call.
    SupervisorEnvCall,
    /// Illegal instruction: a candidate for `rdtime` emulation.
    IllegalInstruction,
    /// Machine-software interrupt: the inter-processor-interrupt trigger.
    MachineSoft,
    /// Machine-timer interrupt: the CLINT comparator fired.
    MachineTimer,
    /// Any other cause; fatal for this runtime.
    Other {
        /// Whether the cause is an interrupt rather than an exception.
        interrupt: bool,
        /// The cause code.
        code: usize,
    },
}

/// The machine after the machine-timer handler ran: the comparator is
/// disarmed — set to the maximum representable time — and the
/// supervisor-timer-pending bit is raised so the supervisor observes a
/// timer interrupt on resume.
pub open spec fn mtimer_spec(m: MachineV) -> MachineV {
    MachineV {
        clint: clint::ClintState { mtimecmp: usize::MAX, ..m.clint },
        mip: m.mip | MIP_STIP,
        ..m
    }
}

/// The machine after the machine-software handler ran: the hart's own
/// software-interrupt trigger is cleared again and the
/// supervisor-software-interrupt-pending bit is raised.
pub open spec fn msoft_spec(m: MachineV) -> MachineV {
    MachineV {
        clint: clint::ClintState { msip: false, ..m.clint },
        mip: m.mip | MIP_SSIP,
        ..m
    }
}

/// Machine-timer interrupt handler: disarm the comparator and hand the
/// interrupt to the supervisor as a pending supervisor-timer interrupt.
pub fn mtimer(m: &mut MachineState)
    ensures
        final(m)@ == mtimer_spec(old(m)@),
{
    clint::mtimecmp::write(&mut m.clint, usize::MAX);
    m.mip = m.mip | MIP_STIP;
}

/// Machine-software interrupt handler: clear the trigger and hand the
/// interrupt to the supervisor as a pending supervisor-software interrupt.
pub fn msoft(m: &mut MachineState)
    ensures
        final(m)@ == msoft_spec(old(m)@),
{
    clint::msip::clear(&mut m.clint);
    m.mip = m.mip | MIP_SSIP;
}

} // verus!
