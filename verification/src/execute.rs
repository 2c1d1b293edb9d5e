//! The trap-dispatch loop and the saved supervisor context. A [`Context`]
//! is the complete register image of the supervisor captured at trap time;
//! [`execute_supervisor`] configures the machine for supervisor execution
//! and then services one trap after another — SBI calls, `rdtime`
//! emulation, timer and software interrupts — until the supervisor asks for
//! a terminal state change or a fatal trap halts the loop. The hardware
//! round trip into supervisor mode is the shell's business; each completed
//! round trip arrives here as one [`TrapEvent`].

use crate::binary::EID_HSM;
use crate::binary::EID_SRST;
use crate::binary::HART_STOP;
use crate::binary::HART_SUSPEND;
use crate::binary::HART_SUSPEND_TYPE_NON_RETENTIVE;
use crate::binary::RESET_TYPE_COLD_REBOOT;
use crate::binary::RESET_TYPE_WARM_REBOOT;
use crate::binary::RET_SUCCESS;
use crate::binary::SYSTEM_RESET;
use crate::extensions;
use crate::extensions::dispatch_spec;
use crate::logging::dec_spec;
use crate::logging::hex_pad_spec;
use crate::logging::Out;
use crate::machine::MachineState;
use crate::machine::MachineV;
use crate::machine::MEDELEG_LOAD_PAGE_FAULT;
use crate::machine::MEDELEG_STORE_PAGE_FAULT;
use crate::machine::MEDELEG_USER_ENV_CALL;
use crate::machine::MIE_MEIE;
use crate::machine::MIE_MSIE;
use crate::machine::MIE_MTIE;
use crate::machine::MSTATUS_MIE;
use crate::machine::MSTATUS_MPP;
use crate::machine::MSTATUS_MPP_SUPERVISOR;
use crate::trap_vec::msoft;
use crate::trap_vec::msoft_spec;
use crate::trap_vec::mtimer;
use crate::trap_vec::mtimer_spec;
use crate::trap_vec::TrapCause;
use vstd::prelude::*;
use vstd::string::StringSliceAdditionalSpecFns;

verus! {

/// The supervisor payload: where it starts and the opaque word — the
/// device-tree address — handed to it in its second argument register.
#[derive(Clone, Copy, Debug, PartialEq, Eq, Structural)]
pub struct Supervisor {
    /// First instruction of the payload.
    pub start_addr: usize,
    /// Value the payload receives in its second argument register.
    pub opaque: usize,
}

/// Ghost image of a [`Context`]: the register file as a sequence.
#[verifier::ext_equal]
pub ghost struct ContextV {
    /// Machine-mode stack pointer parked while the supervisor runs.
    pub msp: usize,
    /// General-purpose registers x1 through x31, in order.
    pub x: Seq<usize>,
    /// Saved privileged status word.
    pub mstatus: usize,
    /// Saved program counter.
    pub mepc: usize,
}

/// The saved register image of the supervisor: a machine-stack-pointer
/// slot, the 31 general-purpose registers (all but the zero register), the
/// saved status word and the saved program counter.
pub struct Context {
    msp: usize,
    x: [usize; 31],
    mstatus: usize,
    mepc: usize,
}

/// Register `x{n}` of a context image, for `n` in 1..=31.
pub open spec fn x_spec(c: ContextV, n: int) -> usize
    recommends
        1 <= n <= 31,
{
    c.x[n - 1]
}

/// Argument register `a{n}` of a context image, for `n` in 0..=7; `a0` is
/// `x10`.
pub open spec fn a_spec(c: ContextV, n: int) -> usize
    recommends
        0 <= n <= 7,
{
    c.x[n + 9]
}

/// The register file of a freshly constructed context: all zero but for
/// the opaque word in `a1`.
pub open spec fn init_x_spec(opaque: usize) -> Seq<usize> {
    Seq::new(31, |i: int| if i == 10 { opaque } else { 0 })
}

impl View for Context {
    type V = ContextV;

    closed spec fn view(&self) -> ContextV {
        ContextV { msp: self.msp, x: self.x@, mstatus: self.mstatus, mepc: self.mepc }
    }
}

impl Context {
    /// The staged image a supervisor starts from: program counter at its
    /// entry, the opaque word in `a1`, `a0` zero, everything else zero, and
    /// the status word under which the first mode switch happens.
    pub fn new(supervisor: Supervisor, mstatus: usize) -> (c: Context)
        ensures
            c@.msp == 0,
            c@.mstatus == mstatus,
            c@.mepc == supervisor.start_addr,
            c@.x == init_x_spec(supervisor.opaque),
    {
        let mut x: [usize; 31] = [0; 31];
        x[10] = supervisor.opaque;
        proof {
            assert(x@ =~= init_x_spec(supervisor.opaque));
        }
        Context { msp: 0, x, mstatus, mepc: supervisor.start_addr }
    }

    /// Read register `x{n}`.
    pub fn x(&self, n: usize) -> (r: usize)
        requires
            1 <= n <= 31,
        ensures
            r == x_spec(self@, n as int),
    {
        self.x[n - 1]
    }

    /// Write register `x{n}`.
    pub fn set_x(&mut self, n: usize, v: usize)
        requires
            1 <= n <= 31,
        ensures
            final(self)@ == (ContextV { x: old(self)@.x.update(n - 1, v), ..old(self)@ }),
    {
        self.x[n - 1] = v;
    }

    /// Read argument register `a{n}`.
    pub fn a(&self, n: usize) -> (r: usize)
        requires
            n <= 7,
        ensures
            r == a_spec(self@, n as int),
    {
        self.x(n + 10)
    }

    /// Write argument register `a{n}`.
    pub fn set_a(&mut self, n: usize, v: usize)
        requires
            n <= 7,
        ensures
            final(self)@ == (ContextV { x: old(self)@.x.update(n + 9, v), ..old(self)@ }),
    {
        self.set_x(n + 10, v);
    }

    /// Read the saved program counter.
    pub fn mepc(&self) -> (r: usize)
        ensures
            r == self@.mepc,
    {
        self.mepc
    }

    /// Read the saved status word.
    pub fn mstatus(&self) -> (r: usize)
        ensures
            r == self@.mstatus,
    {
        self.mstatus
    }

    /// Capture the register file and privileged state a trap saved: what
    /// the save/restore protocol writes into the context on entry.
    pub fn load_event(&mut self, ev: &TrapEvent)
        ensures
            final(self)@ == load_spec(old(self)@, *ev),
    {
        self.x = ev.x;
        self.mstatus = ev.mstatus;
        self.mepc = ev.mepc;
    }

    /// Service the SBI call the trapped supervisor placed in its argument
    /// registers, and say whether the dispatch loop goes on: `false` exactly
    /// for an accepted terminal call — hart stop, non-retentive suspend,
    /// cold or warm reset — whose register image must stay untouched.
    pub fn handle_ecall(&mut self, m: &mut MachineState) -> (r: bool)
        ensures
            (final(self)@, final(m)@, r) == ecall_step_spec(old(self)@, old(m)@),
    {
        let extension = self.a(7);
        let function = self.a(6);
        let param = [self.a(0), self.a(1), self.a(2), self.a(3), self.a(4), self.a(5)];
        proof {
            assert(param@ =~= ecall_param_spec(old(self)@));
        }
        let ans = extensions::handle_ecall(extension, function, param, m);
        // A call that must not return restores nothing and stops the loop.
        if ans.error == RET_SUCCESS {
            if extension == EID_HSM {
                if function == HART_STOP {
                    return false;
                }
                if function == HART_SUSPEND && param[0] == HART_SUSPEND_TYPE_NON_RETENTIVE {
                    return false;
                }
            }
            if extension == EID_SRST && function == SYSTEM_RESET {
                if param[0] == RESET_TYPE_COLD_REBOOT || param[0] == RESET_TYPE_WARM_REBOOT {
                    return false;
                }
            }
        }
        self.set_a(0, ans.error);
        self.set_a(1, ans.value);
        self.mepc = self.mepc.wrapping_add(4);
        true
    }

    /// Try to emulate the `rdtime` pseudo-instruction hiding behind an
    /// illegal-instruction trap. On the exact pattern, write the sampled
    /// time into the destination register (the zero register stays zero)
    /// and step over the faulting instruction; on anything else, change
    /// nothing and report failure.
    pub fn emulate_rdtime(&mut self, ins: usize, time: usize) -> (r: bool)
        ensures
            r == is_rdtime_spec(ins),
            r ==> final(self)@ == rdtime_step_spec(old(self)@, ins, time),
            !r ==> final(self)@ == old(self)@,
    {
        if ins & !RD_MASK == RDTIME_BASE {
            // rdtime decodes as a csr read with a variable destination field
            let rd = (ins & RD_MASK) >> 7;
            proof {
                assert(((ins & 0xF80usize) >> 7) <= 31usize) by (bit_vector);
                assert(RD_MASK == 0xF80usize);
            }
            if rd != 0 {
                self.set_x(rd, time);
            }
            self.mepc = self.mepc.wrapping_add(4);
            true
        } else {
            false
        }
    }

    /// Render the fatal-trap diagnostics — cause, status word, program
    /// counter, faulting value — onto the diagnostic sink. The shell halts
    /// after draining them; no recovery is attempted.
    pub fn trap_stop(&self, cause: TrapCause, mtval: usize, m: &mut MachineState)
        ensures
            final(m)@ == trap_stop_m_spec(old(m)@, self@, cause, mtval),
    {
        let mut out = Out::new();
        out.put_bytes("\n-----------------------------\n> exception: ".as_bytes());
        match cause {
            TrapCause::SupervisorEnvCall => out.put_bytes("Exception(SupervisorEnvCall)".as_bytes()),
            TrapCause::IllegalInstruction => out.put_bytes("Exception(IllegalInstruction)".as_bytes()),
            TrapCause::MachineSoft => out.put_bytes("Interrupt(MachineSoft)".as_bytes()),
            TrapCause::MachineTimer => out.put_bytes("Interrupt(MachineTimer)".as_bytes()),
            TrapCause::Other { interrupt, code } => {
                if interrupt {
                    out.put_bytes("Interrupt(".as_bytes());
                } else {
                    out.put_bytes("Exception(".as_bytes());
                }
                out.put_dec(code);
                out.put_bytes(")".as_bytes());
            },
        }
        out.put_bytes("\n> mstatus:   0x".as_bytes());
        out.put_hex_pad(self.mstatus, 16);
        out.put_bytes("\n> mepc:      0x".as_bytes());
        out.put_hex_pad(self.mepc, 16);
        out.put_bytes("\n> mtval:     0x".as_bytes());
        out.put_hex_pad(mtval, 16);
        out.put_bytes("\n-----------------------------\n".as_bytes());
        m.put_bytes(out.0.as_slice());
        proof {
            assert(m@.uart =~= old(m)@.uart + diag_spec(cause, self@.mstatus, self@.mepc, mtval));
            assert(m@ =~= trap_stop_m_spec(old(m)@, self@, cause, mtval));
        }
    }
}

/// The six argument words of an SBI call, read from `a0` through `a5`.
pub open spec fn ecall_param_spec(c: ContextV) -> Seq<usize> {
    seq![a_spec(c, 0), a_spec(c, 1), a_spec(c, 2), a_spec(c, 3), a_spec(c, 4), a_spec(c, 5)]
}

/// Whether an accepted call asks for a control transfer that must not
/// return: hart stop, non-retentive hart suspend, or a cold or warm reset.
pub open spec fn terminal_spec(extension: usize, function: usize, p0: usize) -> bool {
    (extension == EID_HSM && (function == HART_STOP || (function == HART_SUSPEND && p0
        == HART_SUSPEND_TYPE_NON_RETENTIVE))) || (extension == EID_SRST && function == SYSTEM_RESET
        && (p0 == RESET_TYPE_COLD_REBOOT || p0 == RESET_TYPE_WARM_REBOOT))
}

/// One serviced SBI call: the context and machine afterwards, and whether
/// the loop continues. On a continued call the answer lands in `a0`/`a1`
/// and the program counter steps past the 4-byte `ecall`; on a terminal
/// call the register image is left exactly as captured.
pub open spec fn ecall_step_spec(c: ContextV, m: MachineV) -> (ContextV, MachineV, bool) {
    let extension = a_spec(c, 7);
    let function = a_spec(c, 6);
    let dispatched = dispatch_spec(m, extension, function, ecall_param_spec(c));
    let m2 = dispatched.0;
    let ans = dispatched.1;
    if ans.error == RET_SUCCESS && terminal_spec(extension, function, a_spec(c, 0)) {
        (c, m2, false)
    } else {
        (
            ContextV {
                x: c.x.update(9, ans.error).update(10, ans.value),
                mepc: vstd::wrapping::usize_specs::wrapping_add(c.mepc, 4),
                ..c
            },
            m2,
            true,
        )
    }
}

/// Mask of the five-bit destination-register field of an instruction word,
/// bits 7 through 11.
pub const RD_MASK: usize = 0xF80;

/// The `rdtime` encoding with a zeroed destination field: a csr read of the
/// time counter.
pub const RDTIME_BASE: usize = 0xC0102073;

/// Whether an instruction word is the `rdtime` pattern, whatever its
/// destination register.
pub open spec fn is_rdtime_spec(ins: usize) -> bool {
    ins & !RD_MASK == RDTIME_BASE
}

/// The destination-register number of an `rdtime` instruction word.
pub open spec fn rdtime_rd_spec(ins: usize) -> usize {
    (ins & RD_MASK) >> 7
}

/// The context after `rdtime` emulation: the sampled time in the
/// destination register — unless that is the zero register — and the
/// program counter advanced by exactly 4.
pub open spec fn rdtime_step_spec(c: ContextV, ins: usize, time: usize) -> ContextV {
    let rd = rdtime_rd_spec(ins);
    ContextV {
        x: if rd == 0 {
            c.x
        } else {
            c.x.update(rd as int - 1, time)
        },
        mepc: vstd::wrapping::usize_specs::wrapping_add(c.mepc, 4),
        ..c
    }
}

/// One hardware trap, as the trap entry hands it over: the register file
/// and privileged state the supervisor had at trap time, the decoded
/// cause, the faulting value, and the time counter's reading.
#[derive(Clone, Copy, Debug)]
pub struct TrapEvent {
    /// General-purpose registers x1 through x31 at trap time.
    pub x: [usize; 31],
    /// The status word captured by the trap.
    pub mstatus: usize,
    /// The program counter of the trapping instruction.
    pub mepc: usize,
    /// The decoded trap cause.
    pub cause: TrapCause,
    /// The faulting value; the instruction word for an illegal instruction.
    pub mtval: usize,
    /// The hardware time counter at trap time.
    pub time: usize,
}

/// How the dispatch loop ended.
#[derive(Clone, Copy, Debug, PartialEq, Eq, Structural)]
pub enum Outcome {
    /// Every captured trap was serviced and the supervisor runs on.
    Running,
    /// The supervisor asked for a terminal state change; the loop exits by
    /// design.
    Shutdown,
    /// An unserviceable trap; diagnostics went out and the machine halts.
    Fatal,
}

/// The context after a trap captured the supervisor's registers into it.
pub open spec fn load_spec(c: ContextV, ev: TrapEvent) -> ContextV {
    ContextV { x: ev.x@, mstatus: ev.mstatus, mepc: ev.mepc, ..c }
}

/// One trap serviced: the context and machine afterwards, and `Some`
/// outcome exactly when the loop stops. Timer and software interrupts take
/// the fast path that leaves the context alone; every other cause captures
/// the registers first.
pub open spec fn step_spec(c: ContextV, m0: MachineV, ev: TrapEvent) -> (
    ContextV,
    MachineV,
    Option<Outcome>,
) {
    let m = MachineV { time: ev.time, ..m0 };
    match ev.cause {
        TrapCause::MachineTimer => (c, mtimer_spec(m), None),
        TrapCause::MachineSoft => (c, msoft_spec(m), None),
        TrapCause::SupervisorEnvCall => {
            let stepped = ecall_step_spec(load_spec(c, ev), m);
            if stepped.2 {
                (stepped.0, stepped.1, None)
            } else {
                (stepped.0, stepped.1, Some(Outcome::Shutdown))
            }
        },
        TrapCause::IllegalInstruction => {
            let c1 = load_spec(c, ev);
            if is_rdtime_spec(ev.mtval) {
                (rdtime_step_spec(c1, ev.mtval, ev.time), m, None)
            } else {
                (c1, trap_stop_m_spec(m, c1, ev.cause, ev.mtval), Some(Outcome::Fatal))
            }
        },
        TrapCause::Other { interrupt, code } => {
            let c1 = load_spec(c, ev);
            (c1, trap_stop_m_spec(m, c1, ev.cause, ev.mtval), Some(Outcome::Fatal))
        },
    }
}

/// The dispatch loop over a run of traps: fold [`step_spec`] until an
/// outcome stops it or the run is exhausted.
pub open spec fn run_spec(c: ContextV, m: MachineV, events: Seq<TrapEvent>) -> (
    ContextV,
    MachineV,
    Outcome,
)
    decreases events.len(),
{
    if events.len() == 0 {
        (c, m, Outcome::Running)
    } else {
        let stepped = step_spec(c, m, events[0]);
        match stepped.2 {
            Some(outcome) => (stepped.0, stepped.1, outcome),
            None => run_spec(stepped.0, stepped.1, events.skip(1)),
        }
    }
}

/// The machine and the staged context right before the first mode switch:
/// previous privilege set to supervisor mode with interrupts to be enabled
/// there, the context built from the supervisor descriptor under that
/// status word, every interrupt delegated, machine interrupts masked
/// while the three machine sources are enabled.
pub open spec fn boot_spec(supervisor: Supervisor, m: MachineV) -> (ContextV, MachineV) {
    let mstatus1 = (m.mstatus & !MSTATUS_MPP) | MSTATUS_MPP_SUPERVISOR | MSTATUS_MIE;
    let c = ContextV {
        msp: 0,
        x: init_x_spec(supervisor.opaque),
        mstatus: mstatus1,
        mepc: supervisor.start_addr,
    };
    let m2 = MachineV {
        mstatus: mstatus1 & !MSTATUS_MIE,
        mip: 0,
        mideleg: usize::MAX,
        medeleg: m.medeleg | MEDELEG_LOAD_PAGE_FAULT | MEDELEG_STORE_PAGE_FAULT
            | MEDELEG_USER_ENV_CALL,
        mie: m.mie | MIE_MEIE | MIE_MSIE | MIE_MTIE,
        ..m
    };
    (c, m2)
}

/// Run the supervisor: configure the machine for its first entry, then
/// service every captured trap in order until a terminal SBI call or a
/// fatal trap ends the loop. The returned context is the supervisor image
/// to resume from; the outcome says why the loop stopped.
pub fn execute_supervisor(supervisor: Supervisor, events: &Vec<TrapEvent>, m: &mut MachineState) -> (r:
    (Context, Outcome))
    ensures
        ({
            let folded = run_spec(
                boot_spec(supervisor, old(m)@).0,
                boot_spec(supervisor, old(m)@).1,
                events@,
            );
            r.0@ == folded.0 && final(m)@ == folded.1 && r.1 == folded.2
        }),
{
    // Stage the first mode switch: previous privilege becomes supervisor,
    // with interrupts enabled once it lands there.
    m.mstatus = (m.mstatus & !MSTATUS_MPP) | MSTATUS_MPP_SUPERVISOR;
    m.mstatus = m.mstatus | MSTATUS_MIE;
    let mut ctx = Context::new(supervisor, m.mstatus);
    // Clear pending interrupts, delegate everything delegable, and keep
    // machine-mode interrupts masked while the sources are enabled.
    m.mip = 0;
    m.mideleg = usize::MAX;
    m.mstatus = m.mstatus & !MSTATUS_MIE;
    m.medeleg = m.medeleg | MEDELEG_LOAD_PAGE_FAULT | MEDELEG_STORE_PAGE_FAULT
        | MEDELEG_USER_ENV_CALL;
    m.mie = m.mie | MIE_MEIE | MIE_MSIE | MIE_MTIE;
    let ghost c0 = boot_spec(supervisor, old(m)@).0;
    let ghost m0 = boot_spec(supervisor, old(m)@).1;
    proof {
        assert(ctx@ =~= c0);
        assert(m@ =~= m0);
        assert(events@.skip(0) =~= events@);
    }
    let mut i: usize = 0;
    while i < events.len()
        invariant
            i <= events@.len(),
            c0 == boot_spec(supervisor, old(m)@).0,
            m0 == boot_spec(supervisor, old(m)@).1,
            run_spec(ctx@, m@, events@.skip(i as int)) == run_spec(c0, m0, events@),
        decreases events@.len() - i,
    {
        proof {
            assert(events@.skip(i as int)[0] == events@[i as int]);
            assert(events@.skip(i as int).skip(1) =~= events@.skip(i as int + 1));
        }
        let ev = &events[i];
        let ghost pre_c = ctx@;
        let ghost pre_m = m@;
        m.time = ev.time;
        proof {
            assert(m@ =~= (MachineV { time: ev.time, ..pre_m }));
        }
        let mut stop: Outcome = Outcome::Running;
        match ev.cause {
            TrapCause::MachineTimer => {
                mtimer(m);
            },
            TrapCause::MachineSoft => {
                msoft(m);
            },
            TrapCause::SupervisorEnvCall => {
                ctx.load_event(ev);
                if !ctx.handle_ecall(m) {
                    stop = Outcome::Shutdown;
                }
            },
            TrapCause::IllegalInstruction => {
                ctx.load_event(ev);
                let ins = ev.mtval;
                if !ctx.emulate_rdtime(ins, ev.time) {
                    ctx.trap_stop(TrapCause::IllegalInstruction, ins, m);
                    stop = Outcome::Fatal;
                }
            },
            TrapCause::Other { interrupt, code } => {
                ctx.load_event(ev);
                ctx.trap_stop(ev.cause, ev.mtval, m);
                stop = Outcome::Fatal;
            },
        }
        let ghost stepped = step_spec(pre_c, pre_m, events@[i as int]);
        proof {
            assert(stepped.0 =~= ctx@);
            assert(stepped.1 =~= m@);
            assert(stepped.2 == if stop is Running {
                Option::<Outcome>::None
            } else {
                Some(stop)
            });
        }
        if !matches!(stop, Outcome::Running) {
            proof {
                assert(run_spec(c0, m0, events@) == (stepped.0, stepped.1, stop));
            }
            return (ctx, stop);
        }
        i = i + 1;
        proof {
            assert(run_spec(ctx@, m@, events@.skip(i as int)) == run_spec(c0, m0, events@));
        }
    }
    proof {
        assert(events@.skip(i as int) =~= Seq::<TrapEvent>::empty());
    }
    (ctx, Outcome::Running)
}

/// The machine after the fatal-trap diagnostics went out.
pub open spec fn trap_stop_m_spec(m: MachineV, c: ContextV, cause: TrapCause, mtval: usize) -> MachineV {
    MachineV { uart: m.uart + diag_spec(cause, c.mstatus, c.mepc, mtval), ..m }
}

/// The rendered name of a trap cause.
pub open spec fn cause_name_spec(cause: TrapCause) -> Seq<u8> {
    match cause {
        TrapCause::SupervisorEnvCall => "Exception(SupervisorEnvCall)".spec_bytes(),
        TrapCause::IllegalInstruction => "Exception(IllegalInstruction)".spec_bytes(),
        TrapCause::MachineSoft => "Interrupt(MachineSoft)".spec_bytes(),
        TrapCause::MachineTimer => "Interrupt(MachineTimer)".spec_bytes(),
        TrapCause::Other { interrupt, code } => (if interrupt {
            "Interrupt(".spec_bytes()
        } else {
            "Exception(".spec_bytes()
        }) + dec_spec(code as nat) + ")".spec_bytes(),
    }
}

/// The complete fatal-trap diagnostic text: the cause, then the status
/// word, program counter and faulting value as zero-padded hexadecimal.
pub open spec fn diag_spec(cause: TrapCause, mstatus: usize, mepc: usize, mtval: usize) -> Seq<u8> {
    "\n-----------------------------\n> exception: ".spec_bytes() + cause_name_spec(cause)
        + "\n> mstatus:   0x".spec_bytes() + hex_pad_spec(mstatus as nat, 16) + "\n> mepc:      0x".spec_bytes()
        + hex_pad_spec(mepc as nat, 16) + "\n> mtval:     0x".spec_bytes() + hex_pad_spec(mtval as nat, 16)
        + "\n-----------------------------\n".spec_bytes()
}

} // verus!
