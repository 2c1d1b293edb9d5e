//! Binary calling convention of the Supervisor Binary Interface: the
//! `(error, value)` return pair and the identifiers of the extensions and
//! functions this runtime knows about.

use vstd::prelude::*;

verus! {

/// Error code reported for a call that was serviced.
pub const RET_SUCCESS: usize = 0;

/// Error code for an extension or function this runtime does not implement;
/// the two's-complement image of -2.
pub const RET_ERR_NOT_SUPPORTED: usize = usize::MAX - 1;

/// Error code for an argument outside the accepted range; the
/// two's-complement image of -3.
pub const RET_ERR_INVALID_PARAM: usize = usize::MAX - 2;

/// Base extension id.
pub const EID_BASE: usize = 0x10;

/// Timer extension id ("TIME").
pub const EID_TIME: usize = 0x54494D45;

/// Inter-processor-interrupt extension id ("sPI").
pub const EID_SPI: usize = 0x735049;

/// Hart state management extension id ("HSM").
pub const EID_HSM: usize = 0x48534D;

/// System reset extension id ("SRST").
pub const EID_SRST: usize = 0x53525354;

/// Base extension: report the implemented SBI specification version.
pub const GET_SBI_SPEC_VERSION: usize = 0;

/// Base extension: report the implementation id.
pub const GET_SBI_IMPL_ID: usize = 1;

/// Base extension: report the implementation version.
pub const GET_SBI_IMPL_VERSION: usize = 2;

/// Base extension: ask whether an extension is implemented.
pub const PROBE_EXTENSION: usize = 3;

/// Base extension: read the vendor id of the executing CPU.
pub const GET_MVENDORID: usize = 4;

/// Base extension: read the architecture id of the executing CPU.
pub const GET_MARCHID: usize = 5;

/// Base extension: read the implementation id of the executing CPU.
pub const GET_MIMPID: usize = 6;

/// Timer extension: program the timer comparator.
pub const SET_TIMER: usize = 0;

/// Inter-processor-interrupt extension: send a software interrupt.
pub const SEND_IPI: usize = 0;

/// Hart state management: stop the calling hart.
pub const HART_STOP: usize = 1;

/// Hart state management: suspend the calling hart.
pub const HART_SUSPEND: usize = 3;

/// Suspend type after which the hart resumes from its start address.
pub const HART_SUSPEND_TYPE_NON_RETENTIVE: usize = 0x8000_0000;

/// System reset extension: the reset call itself.
pub const SYSTEM_RESET: usize = 0;

/// Reset type: power down.
pub const RESET_TYPE_SHUTDOWN: usize = 0;

/// Reset type: cold reboot.
pub const RESET_TYPE_COLD_REBOOT: usize = 1;

/// Reset type: warm reboot.
pub const RESET_TYPE_WARM_REBOOT: usize = 2;

/// Legacy console extension id of the blocking byte output call.
pub const LEGACY_CONSOLE_PUTCHAR: usize = 1;

/// Legacy console extension id of the blocking byte input call.
pub const LEGACY_CONSOLE_GETCHAR: usize = 2;

/// The `(error, value)` pair every SBI call answers with, handed back to the
/// supervisor in its two lowest argument registers.
#[derive(Clone, Copy, Debug, PartialEq, Eq, Structural)]
pub struct SbiRet {
    /// Error code; `RET_SUCCESS` when the call was serviced.
    pub error: usize,
    /// Result value of the call.
    pub value: usize,
}

impl SbiRet {
    /// A successful answer carrying `value`.
    pub fn success(value: usize) -> (r: SbiRet)
        ensures
            r == (SbiRet { error: RET_SUCCESS, value }),
    {
        SbiRet { error: RET_SUCCESS, value }
    }

    /// The answer for a call this runtime does not implement.
    pub fn not_supported() -> (r: SbiRet)
        ensures
            r == (SbiRet { error: RET_ERR_NOT_SUPPORTED, value: 0 }),
    {
        SbiRet { error: RET_ERR_NOT_SUPPORTED, value: 0 }
    }

    /// The answer for a call whose arguments are out of range.
    pub fn invalid_param() -> (r: SbiRet)
        ensures
            r == (SbiRet { error: RET_ERR_INVALID_PARAM, value: 0 }),
    {
        SbiRet { error: RET_ERR_INVALID_PARAM, value: 0 }
    }

    /// Whether the call was serviced.
    pub fn is_ok(&self) -> (r: bool)
        ensures
            r == (self.error == RET_SUCCESS),
    {
        self.error == RET_SUCCESS
    }
}

} // verus!
