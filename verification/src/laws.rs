//! The guarantees this runtime gives, stated and proved once for all
//! inputs: what the dispatcher answers for supported and unsupported
//! calls, what `rdtime` emulation does to every destination register, and
//! the round trips of the inter-processor-interrupt and timer machinery.

use crate::binary::SbiRet;
use crate::binary::EID_BASE;
use crate::binary::EID_SPI;
use crate::binary::EID_SRST;
use crate::binary::EID_TIME;
use crate::binary::GET_MIMPID;
use crate::binary::LEGACY_CONSOLE_PUTCHAR;
use crate::binary::PROBE_EXTENSION;
use crate::binary::RESET_TYPE_COLD_REBOOT;
use crate::binary::RESET_TYPE_WARM_REBOOT;
use crate::binary::RET_ERR_NOT_SUPPORTED;
use crate::binary::RET_SUCCESS;
use crate::binary::SEND_IPI;
use crate::binary::SET_TIMER;
use crate::binary::SYSTEM_RESET;
use crate::execute::a_spec;
use crate::execute::ecall_step_spec;
use crate::execute::is_rdtime_spec;
use crate::execute::rdtime_rd_spec;
use crate::execute::rdtime_step_spec;
use crate::execute::ContextV;
use crate::execute::RDTIME_BASE;
use crate::execute::RD_MASK;
use crate::extensions::dispatch_spec;
use crate::extensions::ipi_covers_hart0;
use crate::extensions::probe_spec;
use crate::extensions::send_ipi_spec;
use crate::extensions::set_timer_spec;
use crate::machine::MachineV;
use crate::machine::MIP_SSIP;
use crate::machine::MIP_STIP;
use crate::trap_vec::msoft_spec;
use crate::trap_vec::mtimer_spec;
use vstd::prelude::*;

verus! {

/// Whether the dispatch table has a provider for this (extension,
/// function) pair. Probes of any argument and reset calls of any type are
/// "supported" in the sense that a provider answers them; whether a reset
/// type is accepted is that provider's own business.
pub open spec fn supported_pair_spec(extension: usize, function: usize) -> bool {
    (extension == EID_BASE && function <= GET_MIMPID) || (extension == EID_TIME && function
        == SET_TIMER) || (extension == EID_SPI && function == SEND_IPI) || (extension == EID_SRST
        && function == SYSTEM_RESET) || extension == LEGACY_CONSOLE_PUTCHAR
}

/// Every supported call is answered with success, with the value its
/// provider documents: every Base function succeeds — a probe for the
/// Timer extension (or any other implemented one) answers 1 — programming
/// the timer succeeds, sending an inter-processor interrupt succeeds, a
/// cold or warm reset is accepted, and the legacy console output call
/// succeeds.
pub proof fn lemma_supported_calls_succeed(m: MachineV, base_fn: usize, param: Seq<usize>)
    requires
        base_fn <= GET_MIMPID,
        param.len() == 6,
    ensures
        dispatch_spec(m, EID_BASE, base_fn, param).1.error == RET_SUCCESS,
        base_fn == PROBE_EXTENSION ==> dispatch_spec(m, EID_BASE, base_fn, param).1.value
            == probe_spec(param[0]),
        base_fn == PROBE_EXTENSION && (param[0] == EID_TIME || param[0] == EID_SPI || param[0]
            == EID_SRST || param[0] == EID_BASE || param[0] == LEGACY_CONSOLE_PUTCHAR) ==> dispatch_spec(
            m,
            EID_BASE,
            base_fn,
            param,
        ).1.value == 1,
        dispatch_spec(m, EID_TIME, SET_TIMER, param).1 == (SbiRet {
            error: RET_SUCCESS,
            value: 0,
        }),
        dispatch_spec(m, EID_SPI, SEND_IPI, param).1 == (SbiRet { error: RET_SUCCESS, value: 0 }),
        param[0] == RESET_TYPE_COLD_REBOOT || param[0] == RESET_TYPE_WARM_REBOOT ==> dispatch_spec(
            m,
            EID_SRST,
            SYSTEM_RESET,
            param,
        ).1 == (SbiRet { error: RET_SUCCESS, value: 0 }),
        dispatch_spec(m, LEGACY_CONSOLE_PUTCHAR, 0, param).1.error == RET_SUCCESS,
{
}

/// Every unsupported pair is answered with the "not supported" error code
/// and a zero value, and the machine is left exactly as it was.
pub proof fn lemma_unsupported_calls_refused(
    m: MachineV,
    extension: usize,
    function: usize,
    param: Seq<usize>,
)
    requires
        !supported_pair_spec(extension, function),
        param.len() == 6,
    ensures
        dispatch_spec(m, extension, function, param).1 == (SbiRet {
            error: RET_ERR_NOT_SUPPORTED,
            value: 0,
        }),
        dispatch_spec(m, extension, function, param).0 == m,
{
}

/// An unsupported call, as the trapped supervisor sees it: the two return
/// registers carry the error code and a zero value, the program counter
/// steps past the `ecall`, and nothing else of the context — nor of the
/// machine — changes.
pub proof fn lemma_unsupported_ecall_touches_two_registers(c: ContextV, m: MachineV)
    requires
        c.x.len() == 31,
        !supported_pair_spec(a_spec(c, 7), a_spec(c, 6)),
    ensures
        ecall_step_spec(c, m).1 == m,
        ecall_step_spec(c, m).2 == true,
        a_spec(ecall_step_spec(c, m).0, 0) == RET_ERR_NOT_SUPPORTED,
        a_spec(ecall_step_spec(c, m).0, 1) == 0,
        forall|j: int|
            0 <= j < 31 && j != 9 && j != 10 ==> ecall_step_spec(c, m).0.x[j] == c.x[j],
        ecall_step_spec(c, m).0.mstatus == c.mstatus,
        ecall_step_spec(c, m).0.msp == c.msp,
        ecall_step_spec(c, m).0.mepc == vstd::wrapping::usize_specs::wrapping_add(c.mepc, 4),
{
}

/// `rdtime` emulation, for every destination register: the emulated
/// instruction word is recognized, the destination register — and no
/// other — receives the sampled time, and the program counter advances by
/// exactly 4. With the zero register as destination nothing is observably
/// changed but the program counter; the time is still sampled, since the
/// illegal-instruction step hands the sample to the emulator before the
/// destination field is even decoded.
pub proof fn lemma_rdtime_emulation(c: ContextV, rd: usize, time: usize)
    requires
        c.x.len() == 31,
        rd <= 31,
    ensures
        is_rdtime_spec(RDTIME_BASE | (rd << 7)),
        rdtime_rd_spec(RDTIME_BASE | (rd << 7)) == rd,
        rd >= 1 ==> rdtime_step_spec(c, RDTIME_BASE | (rd << 7), time).x[rd - 1] == time,
        forall|j: int|
            0 <= j < 31 && j != rd - 1 ==> rdtime_step_spec(c, RDTIME_BASE | (rd << 7), time).x[j]
                == c.x[j],
        rd == 0 ==> rdtime_step_spec(c, RDTIME_BASE | (rd << 7), time).x == c.x,
        rdtime_step_spec(c, RDTIME_BASE | (rd << 7), time).mepc
            == vstd::wrapping::usize_specs::wrapping_add(c.mepc, 4),
{
    let ins = RDTIME_BASE | (rd << 7);
    assert((0xC0102073usize | (rd << 7)) & !0xF80usize == 0xC0102073usize) by (bit_vector)
        requires
            rd <= 31usize,
    ;
    assert(((0xC0102073usize | (rd << 7)) & 0xF80usize) >> 7 == rd) by (bit_vector)
        requires
            rd <= 31usize,
    ;
    assert(RD_MASK == 0xF80usize);
    assert(RDTIME_BASE == 0xC0102073usize);
}

/// The protection table walls the firmware off. The region bounds rise
/// monotonically; the firmware window sits entirely inside the memory
/// ceiling and entirely above the peripheral window; a supervisor access
/// anywhere in the firmware window — an instruction fetch included — is
/// granted no permission at all and faults; and an access below the start
/// of RAM falls to the peripheral entry, read/write only.
pub proof fn lemma_pmp_protects_firmware(mem: crate::region::Region, kernel: usize)
    requires
        mem.start % 4 == 0,
        kernel % 4 == 0,
        mem.end % 4 == 0,
        mem.start <= kernel,
        kernel <= mem.end,
    ensures
        ({
            let t = crate::pmp::set_pmp_spec(mem, kernel);
            &&& t[1].addr <= t[2].addr <= t[3].addr <= t[4].addr
            &&& forall|a: usize|
                mem.start <= a < kernel ==> #[trigger] crate::pmp::pmp_grants_spec(t, a) == 0
            &&& forall|a: usize|
                a < mem.start ==> #[trigger] crate::pmp::pmp_grants_spec(t, a) == crate::pmp::PMP_R
                    | crate::pmp::PMP_W
        }),
{
    let t = crate::pmp::set_pmp_spec(mem, kernel);
    assert((0x0u8 & 0x18u8) == 0x0u8) by (bit_vector);
    assert(((0x8u8 | 0x1u8 | 0x2u8) & 0x18u8) == 0x8u8) by (bit_vector);
    assert((0x8u8 & 0x18u8) == 0x8u8) by (bit_vector);
    assert(((0x8u8 | 0x1u8 | 0x2u8 | 0x4u8) & 0x18u8) == 0x8u8) by (bit_vector);
    assert((0x8u8 & (0x1u8 | 0x2u8 | 0x4u8)) == 0x0u8) by (bit_vector);
    assert(((0x8u8 | 0x1u8 | 0x2u8) & (0x1u8 | 0x2u8 | 0x4u8)) == (0x1u8 | 0x2u8)) by (bit_vector);
    assert forall|a: usize| mem.start <= a < kernel implies #[trigger] crate::pmp::pmp_grants_spec(
        t,
        a,
    ) == 0 by {
        assert(a / 4 >= mem.start / 4);
        assert(a / 4 < kernel / 4);
        assert(crate::pmp::pmp_first_match(t, a, 2) == 2);
        assert(crate::pmp::pmp_first_match(t, a, 1) == 2);
        assert(crate::pmp::pmp_first_match(t, a, 0) == 2);
    }
    assert forall|a: usize| a < mem.start implies #[trigger] crate::pmp::pmp_grants_spec(t, a)
        == crate::pmp::PMP_R | crate::pmp::PMP_W by {
        assert(a / 4 < mem.start / 4);
        assert(crate::pmp::pmp_first_match(t, a, 1) == 1);
        assert(crate::pmp::pmp_first_match(t, a, 0) == 1);
    }
}

/// The inter-processor-interrupt round trip: sending an interrupt whose
/// mask covers hart 0 raises the hart's machine-software trigger, and the
/// machine-software trap it provokes — within one trap cycle — leaves the
/// supervisor-software-interrupt-pending bit set and the trigger clear
/// again.
pub proof fn lemma_ipi_round_trip(m: MachineV, hart_mask: usize, hart_mask_base: usize)
    requires
        ipi_covers_hart0(hart_mask, hart_mask_base),
    ensures
        send_ipi_spec(m, hart_mask, hart_mask_base).clint.msip,
        msoft_spec(send_ipi_spec(m, hart_mask, hart_mask_base)).mip & MIP_SSIP == MIP_SSIP,
        !msoft_spec(send_ipi_spec(m, hart_mask, hart_mask_base)).clint.msip,
{
    let mip1 = send_ipi_spec(m, hart_mask, hart_mask_base).mip;
    assert((mip1 | 0x2usize) & 0x2usize == 0x2usize) by (bit_vector);
    assert(MIP_SSIP == 0x2usize);
}

/// Whether the CLINT reports a machine-timer interrupt: the time counter
/// has reached the comparator.
pub open spec fn timer_pending_spec(m: MachineV) -> bool {
    m.time >= m.clint.mtimecmp
}

/// The timer round trip: programming the timer arms the comparator with
/// exactly the requested time and clears any stale supervisor-pending bit;
/// once the clock reaches that time the interrupt is pending, and the one
/// machine-timer trap it provokes disarms the comparator to the maximum
/// representable value and raises the supervisor-timer-pending bit — so no
/// second trap can fire before the supervisor acts, the clock would have
/// to reach the maximum first.
pub proof fn lemma_timer_round_trip(m: MachineV, t: usize, reached: usize, later: usize)
    requires
        reached >= t,
        later < usize::MAX,
    ensures
        set_timer_spec(m, t).clint.mtimecmp == t,
        set_timer_spec(m, t).mip & MIP_STIP == 0,
        timer_pending_spec(MachineV { time: reached, ..set_timer_spec(m, t) }),
        mtimer_spec(set_timer_spec(m, t)).clint.mtimecmp == usize::MAX,
        mtimer_spec(set_timer_spec(m, t)).mip & MIP_STIP == MIP_STIP,
        !timer_pending_spec(MachineV { time: later, ..mtimer_spec(set_timer_spec(m, t)) }),
{
    let mip0 = m.mip;
    assert((mip0 & !0x20usize) & 0x20usize == 0usize) by (bit_vector);
    let mip1 = set_timer_spec(m, t).mip;
    assert((mip1 | 0x20usize) & 0x20usize == 0x20usize) by (bit_vector);
    assert(MIP_STIP == 0x20usize);
}

} // verus!

