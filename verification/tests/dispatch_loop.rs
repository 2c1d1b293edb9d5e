//! The dispatch loop end to end: boot configuration, serviced traps, the
//! interrupt fast paths, and both ways the loop stops.

use d1_see::binary::{
    EID_SPI, EID_SRST, EID_TIME, RESET_TYPE_WARM_REBOOT, RET_SUCCESS, SEND_IPI, SET_TIMER,
    SYSTEM_RESET,
};
use d1_see::execute::{execute_supervisor, Outcome, Supervisor, TrapEvent};
use d1_see::machine::{
    MachineState, MEDELEG_LOAD_PAGE_FAULT, MEDELEG_STORE_PAGE_FAULT, MEDELEG_USER_ENV_CALL,
    MIE_MEIE, MIE_MSIE, MIE_MTIE, MIP_SSIP, MIP_STIP, MSTATUS_MIE, MSTATUS_MPP,
    MSTATUS_MPP_SUPERVISOR,
};
use d1_see::trap_vec::TrapCause;

const KERNEL: usize = 0x4020_0000;

fn supervisor() -> Supervisor {
    Supervisor { start_addr: KERNEL, opaque: 0x41F0_0000 }
}

fn ecall_event(extension: usize, function: usize, args: [usize; 6], pc: usize, time: usize) -> TrapEvent {
    let mut x = [0usize; 31];
    x[16] = extension;  // a7 is x17
    x[15] = function;  // a6 is x16
    for (i, a) in args.iter().enumerate() {
        x[9 + i] = *a;  // a0 is x10
    }
    TrapEvent { x, mstatus: 0x800, mepc: pc, cause: TrapCause::SupervisorEnvCall, mtval: 0, time }
}

#[test]
fn boot_configures_delegation_and_interrupts() {
    let mut m = MachineState::reset(0, 0, 0, 0);
    let (ctx, outcome) = execute_supervisor(supervisor(), &Vec::new(), &mut m);
    assert_eq!(outcome, Outcome::Running);
    // The staged context: entry point, opaque word in a1, supervisor mode
    // with interrupts to be enabled there.
    assert_eq!(ctx.mepc(), KERNEL);
    assert_eq!(ctx.a(1), 0x41F0_0000);
    assert_eq!(ctx.a(0), 0);
    assert_eq!(ctx.mstatus() & MSTATUS_MPP, MSTATUS_MPP_SUPERVISOR);
    assert_eq!(ctx.mstatus() & MSTATUS_MIE, MSTATUS_MIE);
    // The machine: everything delegated, machine interrupts masked while
    // the three sources are enabled, no pending bits.
    assert_eq!(m.mideleg, usize::MAX);
    assert_eq!(m.medeleg & MEDELEG_LOAD_PAGE_FAULT, MEDELEG_LOAD_PAGE_FAULT);
    assert_eq!(m.medeleg & MEDELEG_STORE_PAGE_FAULT, MEDELEG_STORE_PAGE_FAULT);
    assert_eq!(m.medeleg & MEDELEG_USER_ENV_CALL, MEDELEG_USER_ENV_CALL);
    assert_eq!(m.mie, MIE_MEIE | MIE_MSIE | MIE_MTIE);
    assert_eq!(m.mstatus & MSTATUS_MIE, 0);
    assert_eq!(m.mip, 0);
}

#[test]
fn timer_round_trip_through_the_loop() {
    // set_timer(T), then the clock reaches T: one machine-timer trap
    // disarms the comparator and leaves the supervisor-timer bit pending.
    let events = vec![
        ecall_event(EID_TIME, SET_TIMER, [1000, 0, 0, 0, 0, 0], KERNEL, 900),
        TrapEvent {
            x: [0; 31],
            mstatus: 0x800,
            mepc: KERNEL + 4,
            cause: TrapCause::MachineTimer,
            mtval: 0,
            time: 1000,
        },
    ];
    let mut m = MachineState::reset(0, 0, 0, 0);
    let (_ctx, outcome) = execute_supervisor(supervisor(), &events, &mut m);
    assert_eq!(outcome, Outcome::Running);
    assert_eq!(m.clint.mtimecmp, usize::MAX);
    assert_eq!(m.mip & MIP_STIP, MIP_STIP);
}

#[test]
fn ipi_round_trip_through_the_loop() {
    // send_ipi with bit 0 raises the trigger; the machine-software trap
    // clears it again and leaves the supervisor-software bit pending.
    let events = vec![
        ecall_event(EID_SPI, SEND_IPI, [1, 0, 0, 0, 0, 0], KERNEL, 10),
        TrapEvent {
            x: [0; 31],
            mstatus: 0x800,
            mepc: KERNEL + 4,
            cause: TrapCause::MachineSoft,
            mtval: 0,
            time: 11,
        },
    ];
    let mut m = MachineState::reset(0, 0, 0, 0);
    let (_ctx, outcome) = execute_supervisor(supervisor(), &events, &mut m);
    assert_eq!(outcome, Outcome::Running);
    assert!(!m.clint.msip);
    assert_eq!(m.mip & MIP_SSIP, MIP_SSIP);
}

#[test]
fn accepted_reset_shuts_the_loop_down() {
    let events = vec![
        ecall_event(EID_SRST, SYSTEM_RESET, [RESET_TYPE_WARM_REBOOT, 0, 0, 0, 0, 0], KERNEL, 5),
        // Nothing after the terminal call is serviced.
        ecall_event(EID_TIME, SET_TIMER, [123, 0, 0, 0, 0, 0], KERNEL + 4, 6),
    ];
    let mut m = MachineState::reset(0, 0, 0, 0);
    let (ctx, outcome) = execute_supervisor(supervisor(), &events, &mut m);
    assert_eq!(outcome, Outcome::Shutdown);
    assert_eq!(m.clint.mtimecmp, 0);
    // The terminal call's registers stay as captured.
    assert_eq!(ctx.a(0), RESET_TYPE_WARM_REBOOT);
    assert_eq!(ctx.mepc(), KERNEL);
}

#[test]
fn rdtime_is_emulated_inside_the_loop() {
    let rd = 20usize;
    let ins = 0xC010_2073 | (rd << 7);
    let mut x = [7usize; 31];
    x[rd - 1] = 0;
    let events = vec![TrapEvent {
        x,
        mstatus: 0x800,
        mepc: KERNEL + 16,
        cause: TrapCause::IllegalInstruction,
        mtval: ins,
        time: 0xBEEF,
    }];
    let mut m = MachineState::reset(0, 0, 0, 0);
    let (ctx, outcome) = execute_supervisor(supervisor(), &events, &mut m);
    assert_eq!(outcome, Outcome::Running);
    assert_eq!(ctx.x(rd), 0xBEEF);
    assert_eq!(ctx.mepc(), KERNEL + 16 + 4);
}

#[test]
fn unemulable_illegal_instruction_is_fatal() {
    // The diagnostic text names the cause and the faulting program
    // counter, and no later trap is observed.
    let events = vec![
        TrapEvent {
            x: [0; 31],
            mstatus: 0x800,
            mepc: 0x4032_1000,
            cause: TrapCause::IllegalInstruction,
            mtval: 0x1234,
            time: 3,
        },
        ecall_event(EID_TIME, SET_TIMER, [55, 0, 0, 0, 0, 0], KERNEL, 4),
    ];
    let mut m = MachineState::reset(0, 0, 0, 0);
    let (_ctx, outcome) = execute_supervisor(supervisor(), &events, &mut m);
    assert_eq!(outcome, Outcome::Fatal);
    let text = String::from_utf8(m.uart.clone()).unwrap();
    assert!(text.contains("Exception(IllegalInstruction)"));
    assert!(text.contains("0x0000000040321000"));
    assert_eq!(m.clint.mtimecmp, 0, "a trap after the fatal one was serviced");
}

#[test]
fn other_traps_are_fatal() {
    let events = vec![TrapEvent {
        x: [0; 31],
        mstatus: 0x800,
        mepc: KERNEL,
        cause: TrapCause::Other { interrupt: false, code: 5 },
        mtval: 0x42,
        time: 1,
    }];
    let mut m = MachineState::reset(0, 0, 0, 0);
    let (_ctx, outcome) = execute_supervisor(supervisor(), &events, &mut m);
    assert_eq!(outcome, Outcome::Fatal);
    let text = String::from_utf8(m.uart.clone()).unwrap();
    assert!(text.contains("Exception(5)"));
}

#[test]
fn putchar_echoes_through_the_loop() {
    let events = vec![
        ecall_event(1, 0, [b'>' as usize, 0, 0, 0, 0, 0], KERNEL, 1),
        ecall_event(1, 0, [b'<' as usize, 0, 0, 0, 0, 0], KERNEL + 4, 2),
    ];
    let mut m = MachineState::reset(0, 0, 0, 0);
    let (ctx, outcome) = execute_supervisor(supervisor(), &events, &mut m);
    assert_eq!(outcome, Outcome::Running);
    assert_eq!(m.uart, vec![b'>', b'<']);
    assert_eq!(ctx.a(0), RET_SUCCESS);
}
