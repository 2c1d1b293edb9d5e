//! The saved context: SBI calls as the trapped supervisor sees them,
//! `rdtime` emulation for every destination register, and the fatal-trap
//! diagnostics.

use d1_see::binary::{
    EID_BASE, EID_SRST, LEGACY_CONSOLE_PUTCHAR, PROBE_EXTENSION, RESET_TYPE_COLD_REBOOT,
    RET_ERR_NOT_SUPPORTED, RET_SUCCESS, SYSTEM_RESET,
};
use d1_see::execute::{Context, Supervisor};
use d1_see::machine::MachineState;
use d1_see::trap_vec::TrapCause;

fn machine() -> MachineState {
    MachineState::reset(0, 0, 0, 0)
}

fn ecall_context(extension: usize, function: usize, args: [usize; 6]) -> Context {
    let mut ctx = Context::new(Supervisor { start_addr: 0x4020_0000, opaque: 0 }, 0);
    ctx.set_a(7, extension);
    ctx.set_a(6, function);
    for (i, a) in args.iter().enumerate() {
        ctx.set_a(i, *a);
    }
    ctx
}

#[test]
fn new_context_stages_entry() {
    let ctx = Context::new(Supervisor { start_addr: 0x4020_0000, opaque: 0x41F0_0000 }, 0x800);
    assert_eq!(ctx.mepc(), 0x4020_0000);
    assert_eq!(ctx.mstatus(), 0x800);
    assert_eq!(ctx.a(0), 0);
    assert_eq!(ctx.a(1), 0x41F0_0000);
    for n in 1..=31 {
        if n != 11 {
            assert_eq!(ctx.x(n), 0);
        }
    }
}

#[test]
fn probe_legacy_putchar_through_ecall() {
    // Probing the legacy console output call answers (success, 1).
    let mut ctx = ecall_context(EID_BASE, PROBE_EXTENSION, [LEGACY_CONSOLE_PUTCHAR, 0, 0, 0, 0, 0]);
    let mut m = machine();
    let pc = ctx.mepc();
    assert!(ctx.handle_ecall(&mut m));
    assert_eq!(ctx.a(0), RET_SUCCESS);
    assert_eq!(ctx.a(1), 1);
    assert_eq!(ctx.mepc(), pc + 4);
}

#[test]
fn unknown_extension_preserves_other_registers() {
    // An unknown extension answers (not supported, 0) and touches nothing
    // beyond the two return registers and the program counter.
    let mut ctx = ecall_context(0xFFFF, 3, [11, 22, 33, 44, 55, 66]);
    let mut m = machine();
    let pc = ctx.mepc();
    assert!(ctx.handle_ecall(&mut m));
    assert_eq!(ctx.a(0), RET_ERR_NOT_SUPPORTED);
    assert_eq!(ctx.a(1), 0);
    assert_eq!(ctx.a(2), 33);
    assert_eq!(ctx.a(3), 44);
    assert_eq!(ctx.a(4), 55);
    assert_eq!(ctx.a(5), 66);
    assert_eq!(ctx.a(6), 3);
    assert_eq!(ctx.a(7), 0xFFFF);
    assert_eq!(ctx.mepc(), pc + 4);
    assert_eq!(m.uart, Vec::<u8>::new());
    assert_eq!(m.mip, 0);
}

#[test]
fn accepted_reset_stops_the_loop_and_restores_nothing() {
    let mut ctx = ecall_context(EID_SRST, SYSTEM_RESET, [RESET_TYPE_COLD_REBOOT, 0, 0, 0, 0, 0]);
    let mut m = machine();
    let pc = ctx.mepc();
    assert!(!ctx.handle_ecall(&mut m));
    // The register image stays exactly as captured.
    assert_eq!(ctx.a(0), RESET_TYPE_COLD_REBOOT);
    assert_eq!(ctx.mepc(), pc);
}

#[test]
fn rdtime_writes_every_destination_register() {
    // For each destination register the sampled time lands there and the
    // program counter advances by exactly 4.
    for rd in 1..=31usize {
        let mut ctx = Context::new(Supervisor { start_addr: 0x4020_0000, opaque: 0 }, 0);
        let ins = 0xC010_2073 | (rd << 7);
        let pc = ctx.mepc();
        assert!(ctx.emulate_rdtime(ins, 0x1234_5678 + rd));
        assert_eq!(ctx.x(rd), 0x1234_5678 + rd);
        assert_eq!(ctx.mepc(), pc + 4);
        for n in 1..=31 {
            if n != rd {
                assert_eq!(ctx.x(n), 0, "register x{n} moved for rd {rd}");
            }
        }
    }
}

#[test]
fn rdtime_to_zero_register_changes_nothing_but_pc() {
    let mut ctx = Context::new(Supervisor { start_addr: 0x4020_0000, opaque: 0 }, 0);
    let pc = ctx.mepc();
    assert!(ctx.emulate_rdtime(0xC010_2073, 0xFFFF_FFFF));
    for n in 1..=31 {
        assert_eq!(ctx.x(n), 0);
    }
    assert_eq!(ctx.mepc(), pc + 4);
}

#[test]
fn non_rdtime_pattern_is_refused() {
    let mut ctx = Context::new(Supervisor { start_addr: 0x4020_0000, opaque: 0 }, 0);
    let pc = ctx.mepc();
    // An ordinary illegal word, and a near miss with one bit off.
    assert!(!ctx.emulate_rdtime(0x0000_0000, 1));
    assert!(!ctx.emulate_rdtime(0xC010_2072, 1));
    assert!(!ctx.emulate_rdtime(0xC011_2073, 1));
    assert_eq!(ctx.mepc(), pc);
    for n in 1..=31 {
        assert_eq!(ctx.x(n), 0);
    }
}

#[test]
fn trap_stop_renders_cause_and_pc() {
    let ctx = Context::new(Supervisor { start_addr: 0x4020_0000, opaque: 0 }, 0);
    let mut m = machine();
    ctx.trap_stop(TrapCause::IllegalInstruction, 0xDEAD, &mut m);
    let text = String::from_utf8(m.uart.clone()).unwrap();
    assert!(text.contains("Exception(IllegalInstruction)"));
    assert!(text.contains("0x0000000040200000"));
    assert!(text.contains("0x000000000000dead"));
}

#[test]
fn trap_stop_renders_numeric_causes() {
    let ctx = Context::new(Supervisor { start_addr: 0, opaque: 0 }, 0);
    let mut m = machine();
    ctx.trap_stop(TrapCause::Other { interrupt: true, code: 11 }, 0, &mut m);
    let text = String::from_utf8(m.uart.clone()).unwrap();
    assert!(text.contains("Interrupt(11)"));
}
