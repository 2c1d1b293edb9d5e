//! The SBI extension dispatcher and its capability providers. A fixed,
//! compile-time table maps an (extension id, function id) pair plus six
//! argument words to one of the built-in providers — Base, Timer,
//! inter-processor interrupt, system reset, legacy console output — and
//! yields the `(error, value)` pair of the calling convention. Unknown
//! pairs answer "not supported" and leave the machine untouched.

use crate::binary::SbiRet;
use crate::binary::EID_BASE;
use crate::binary::EID_SPI;
use crate::binary::EID_SRST;
use crate::binary::EID_TIME;
use crate::binary::GET_MARCHID;
use crate::binary::GET_MIMPID;
use crate::binary::GET_MVENDORID;
use crate::binary::GET_SBI_IMPL_ID;
use crate::binary::GET_SBI_IMPL_VERSION;
use crate::binary::GET_SBI_SPEC_VERSION;
use crate::binary::LEGACY_CONSOLE_PUTCHAR;
use crate::binary::PROBE_EXTENSION;
use crate::binary::RET_ERR_NOT_SUPPORTED;
use crate::binary::RET_SUCCESS;
use crate::binary::SEND_IPI;
use crate::binary::SET_TIMER;
use crate::binary::SYSTEM_RESET;
use crate::binary::RESET_TYPE_COLD_REBOOT;
use crate::binary::RESET_TYPE_WARM_REBOOT;
use crate::clint;
use crate::machine::put_char_spec;
use crate::machine::MachineState;
use crate::machine::MachineV;
use crate::machine::MIP_STIP;
use vstd::prelude::*;

verus! {

/// The SBI specification version this runtime implements: major 1, minor 0.
pub const SBI_SPEC_VERSION: usize = 0x0100_0000;

/// Implementation id reported by the Base extension.
pub const SBI_IMPL_ID: usize = 4;

/// Implementation version reported by the Base extension:
/// major, minor and patch in the three low bytes.
pub const SBI_IMPL_VERSION: usize = 0x300;

/// What a Base-extension probe answers for an extension id: 1 for the
/// extensions this runtime implements, 0 for everything else. The legacy
/// console output call is reported as implemented even though the legacy
/// extension is absent from the generic table, because supervisors commonly
/// probe that one function id directly.
pub open spec fn probe_spec(extension: usize) -> usize {
    if extension == EID_BASE || extension == EID_TIME || extension == EID_SPI || extension
        == EID_SRST || extension == LEGACY_CONSOLE_PUTCHAR {
        1
    } else {
        0
    }
}

/// The machine after the timer comparator was programmed: the comparator
/// holds the requested time and a stale supervisor-timer-pending bit is
/// cleared so a new interrupt can be observed cleanly.
pub open spec fn set_timer_spec(m: MachineV, stime_value: usize) -> MachineV {
    MachineV {
        clint: clint::ClintState { mtimecmp: stime_value, ..m.clint },
        mip: m.mip & !MIP_STIP,
        ..m
    }
}

/// Whether a hart mask with the given base covers hart 0 — the only hart
/// this runtime manages. A base of `usize::MAX` addresses every hart.
pub open spec fn ipi_covers_hart0(hart_mask: usize, hart_mask_base: usize) -> bool {
    hart_mask_base == usize::MAX || (hart_mask_base == 0 && hart_mask & 1 == 1)
}

/// The machine after an inter-processor interrupt was sent: the
/// machine-software-interrupt trigger of hart 0 is raised exactly when the
/// mask covers it.
pub open spec fn send_ipi_spec(m: MachineV, hart_mask: usize, hart_mask_base: usize) -> MachineV {
    if ipi_covers_hart0(hart_mask, hart_mask_base) {
        MachineV { clint: clint::ClintState { msip: true, ..m.clint }, ..m }
    } else {
        m
    }
}

/// The answer of the system reset call. A cold or warm reboot is accepted
/// and makes the dispatch loop halt (this runtime halts silently; it does
/// not render a busy indicator first); every other reset type, the plain
/// shutdown included, answers "not supported" and has no effect.
pub open spec fn system_reset_spec(reset_type: usize, reset_reason: usize) -> SbiRet {
    if reset_type == RESET_TYPE_COLD_REBOOT || reset_type == RESET_TYPE_WARM_REBOOT {
        SbiRet { error: RET_SUCCESS, value: 0 }
    } else {
        SbiRet { error: RET_ERR_NOT_SUPPORTED, value: 0 }
    }
}

/// The answer of each Base-extension function: the specification version,
/// the implementation id and version, extension probes, and the three
/// read-only CPU identifiers.
pub open spec fn base_spec(function: usize, p0: usize, m: MachineV) -> SbiRet {
    if function == GET_SBI_SPEC_VERSION {
        SbiRet { error: RET_SUCCESS, value: SBI_SPEC_VERSION }
    } else if function == GET_SBI_IMPL_ID {
        SbiRet { error: RET_SUCCESS, value: SBI_IMPL_ID }
    } else if function == GET_SBI_IMPL_VERSION {
        SbiRet { error: RET_SUCCESS, value: SBI_IMPL_VERSION }
    } else if function == PROBE_EXTENSION {
        SbiRet { error: RET_SUCCESS, value: probe_spec(p0) }
    } else if function == GET_MVENDORID {
        SbiRet { error: RET_SUCCESS, value: m.mvendorid }
    } else if function == GET_MARCHID {
        SbiRet { error: RET_SUCCESS, value: m.marchid }
    } else if function == GET_MIMPID {
        SbiRet { error: RET_SUCCESS, value: m.mimpid }
    } else {
        SbiRet { error: RET_ERR_NOT_SUPPORTED, value: 0 }
    }
}

/// The whole dispatch: the machine after the call and the `(error, value)`
/// answer, as a function of the extension id, the function id and the six
/// argument words.
pub open spec fn dispatch_spec(m: MachineV, extension: usize, function: usize, param: Seq<usize>) -> (
    MachineV,
    SbiRet,
) {
    if extension == EID_BASE {
        (m, base_spec(function, param[0], m))
    } else if extension == EID_TIME {
        if function == SET_TIMER {
            (set_timer_spec(m, param[0]), SbiRet { error: RET_SUCCESS, value: 0 })
        } else {
            (m, SbiRet { error: RET_ERR_NOT_SUPPORTED, value: 0 })
        }
    } else if extension == EID_SPI {
        if function == SEND_IPI {
            (send_ipi_spec(m, param[0], param[1]), SbiRet { error: RET_SUCCESS, value: 0 })
        } else {
            (m, SbiRet { error: RET_ERR_NOT_SUPPORTED, value: 0 })
        }
    } else if extension == EID_SRST {
        if function == SYSTEM_RESET {
            (m, system_reset_spec(param[0], param[1]))
        } else {
            (m, SbiRet { error: RET_ERR_NOT_SUPPORTED, value: 0 })
        }
    } else if extension == LEGACY_CONSOLE_PUTCHAR {
        (put_char_spec(m, param[0] as u8), SbiRet { error: RET_SUCCESS, value: param[1] })
    } else {
        (m, SbiRet { error: RET_ERR_NOT_SUPPORTED, value: 0 })
    }
}

/// Base-extension probe: is `extension` implemented?
pub fn probe_extension(extension: usize) -> (r: usize)
    ensures
        r == probe_spec(extension),
{
    if extension == EID_BASE || extension == EID_TIME || extension == EID_SPI || extension
        == EID_SRST || extension == LEGACY_CONSOLE_PUTCHAR {
        1
    } else {
        0
    }
}

/// Timer provider: program the CLINT comparator with an absolute time and
/// clear a stale supervisor-timer-pending bit.
pub fn set_timer(m: &mut MachineState, stime_value: usize)
    ensures
        final(m)@ == set_timer_spec(old(m)@, stime_value),
{
    clint::mtimecmp::write(&mut m.clint, stime_value);
    m.mip = m.mip & !MIP_STIP;
}

/// Inter-processor-interrupt provider: raise the software-interrupt trigger
/// of every managed hart the mask covers — hart 0 is the only one.
pub fn send_ipi(m: &mut MachineState, hart_mask: usize, hart_mask_base: usize) -> (r: SbiRet)
    ensures
        final(m)@ == send_ipi_spec(old(m)@, hart_mask, hart_mask_base),
        r == (SbiRet { error: RET_SUCCESS, value: 0 }),
{
    if hart_mask_base == usize::MAX || (hart_mask_base == 0 && hart_mask & 1 == 1) {
        clint::msip::set(&mut m.clint);
    }
    SbiRet::success(0)
}

/// Reset provider: accept a cold or warm reboot, refuse everything else.
pub fn system_reset(reset_type: usize, reset_reason: usize) -> (r: SbiRet)
    ensures
        r == system_reset_spec(reset_type, reset_reason),
{
    if reset_type == RESET_TYPE_COLD_REBOOT || reset_type == RESET_TYPE_WARM_REBOOT {
        SbiRet::success(0)
    } else {
        SbiRet::not_supported()
    }
}

/// Dispatch one supervisor call: route the (extension, function) pair and
/// the six argument words to its provider, mutate the machine as the
/// provider demands, and hand back the `(error, value)` pair.
pub fn handle_ecall(extension: usize, function: usize, param: [usize; 6], m: &mut MachineState) -> (r:
    SbiRet)
    ensures
        (final(m)@, r) == dispatch_spec(old(m)@, extension, function, param@),
{
    if extension == EID_BASE {
        if function == GET_SBI_SPEC_VERSION {
            SbiRet::success(SBI_SPEC_VERSION)
        } else if function == GET_SBI_IMPL_ID {
            SbiRet::success(SBI_IMPL_ID)
        } else if function == GET_SBI_IMPL_VERSION {
            SbiRet::success(SBI_IMPL_VERSION)
        } else if function == PROBE_EXTENSION {
            SbiRet::success(probe_extension(param[0]))
        } else if function == GET_MVENDORID {
            SbiRet::success(m.mvendorid)
        } else if function == GET_MARCHID {
            SbiRet::success(m.marchid)
        } else if function == GET_MIMPID {
            SbiRet::success(m.mimpid)
        } else {
            SbiRet::not_supported()
        }
    } else if extension == EID_TIME {
        if function == SET_TIMER {
            set_timer(m, param[0]);
            SbiRet::success(0)
        } else {
            SbiRet::not_supported()
        }
    } else if extension == EID_SPI {
        if function == SEND_IPI {
            send_ipi(m, param[0], param[1])
        } else {
            SbiRet::not_supported()
        }
    } else if extension == EID_SRST {
        if function == SYSTEM_RESET {
            system_reset(param[0], param[1])
        } else {
            SbiRet::not_supported()
        }
    } else if extension == LEGACY_CONSOLE_PUTCHAR {
        m.put_char(param[0] as u8);
        SbiRet { error: RET_SUCCESS, value: param[1] }
    } else {
        SbiRet::not_supported()
    }
}

} // verus!
