//! Board-info acquisition and the boot plan.

use d1_see::boot::{boot_plan, parse_board_info, BoardInfo, BootAction, DtbEvent, StringInline};
use d1_see::pmp::{PMP_A_TOR, PMP_R, PMP_W};
use d1_see::region::Region;

fn walked_events() -> Vec<DtbEvent> {
    vec![
        DtbEvent::Model { level: 0, text: b"Allwinner D1 Nezha".to_vec() },
        DtbEvent::Reg {
            level: 1,
            node: b"memory@40000000".to_vec(),
            start: 0x4000_0000,
            end: 0x6000_0000,
        },
    ]
}

#[test]
fn parse_takes_root_model_and_memory_range() {
    let info = parse_board_info(0x41F0_0000, 0x3000, &walked_events());
    assert_eq!(info.dtb, Region { start: 0x41F0_0000, end: 0x41F0_3000 });
    assert_eq!(info.model.bytes(), b"Allwinner D1 Nezha".to_vec());
    assert_eq!(info.mem, Region { start: 0x4000_0000, end: 0x6000_0000 });
}

#[test]
fn parse_takes_first_of_each_and_filters_depth() {
    let events = vec![
        // A model below the root is not the platform model.
        DtbEvent::Model { level: 2, text: b"wrong".to_vec() },
        // A reg of a non-memory node is not the memory range.
        DtbEvent::Reg { level: 1, node: b"serial@2500000".to_vec(), start: 1, end: 2 },
        // A memory-named node too deep in the tree does not count.
        DtbEvent::Reg { level: 2, node: b"memory-controller".to_vec(), start: 3, end: 4 },
        DtbEvent::Model { level: 0, text: b"first".to_vec() },
        DtbEvent::Model { level: 0, text: b"second".to_vec() },
        DtbEvent::Reg { level: 1, node: b"memory".to_vec(), start: 0x100, end: 0x200 },
        DtbEvent::Reg { level: 1, node: b"memory".to_vec(), start: 0x900, end: 0xA00 },
    ];
    let info = parse_board_info(0, 0x10, &events);
    assert_eq!(info.model.bytes(), b"first".to_vec());
    assert_eq!(info.mem, Region { start: 0x100, end: 0x200 });
}

#[test]
fn parse_defaults_when_nothing_was_found() {
    let info = parse_board_info(0x8000, 0x40, &Vec::new());
    assert_eq!(info.dtb, Region { start: 0x8000, end: 0x8040 });
    assert_eq!(info.model.bytes(), Vec::<u8>::new());
    assert_eq!(info.mem, Region { start: 0, end: 0 });
}

#[test]
fn parse_truncates_an_overlong_model() {
    let long = vec![b'm'; 200];
    let events = vec![DtbEvent::Model { level: 0, text: long.clone() }];
    let info = parse_board_info(0, 0, &events);
    assert_eq!(info.model.bytes(), long[..128].to_vec());
}

#[test]
fn memory_size_is_the_first_memory_range_length() {
    assert_eq!(d1_see::boot::parse_memory_size(&walked_events()), 0x2000_0000);
    assert_eq!(d1_see::boot::parse_memory_size(&Vec::new()), 0);
}

#[test]
fn string_inline_truncates() {
    let mut s: StringInline<8> = StringInline::empty();
    s.set(b"12345678901");
    assert_eq!(s.bytes(), b"12345678".to_vec());
    s.set(b"ok");
    assert_eq!(s.bytes(), b"ok".to_vec());
}

#[test]
fn plan_without_kernel_is_the_busy_indicator() {
    let plan = boot_plan(0, &None, 0x2_0000);
    assert!(matches!(plan.action, BootAction::ArrowWalk));
    let text = String::from_utf8(plan.banner).unwrap();
    assert!(text.contains("Platform Name      : unknown"));
    assert!(text.contains("Supervisor Address : 0x0"));
}

#[test]
fn banner_is_rendered_exactly() {
    let plan = boot_plan(0, &None, 0x2_0000);
    let expected = "[see] SEE: supervisor execution environment, SBI v1.0.0\n\
                    [see] Extensions         : [legacy console, timer, reset, ipi]\n\
                    [see] Platform Name      : unknown\n\
                    [see] Platform SMP       : 1\n\
                    [see] Platform Memory    : 0x0..0x0\n\
                    [see] Boot HART          : 0\n\
                    [see] Device Tree Region : 0x0..0x0\n\
                    [see] Firmware Address   : 0x20000\n\
                    [see] Supervisor Address : 0x0\n";
    assert_eq!(String::from_utf8(plan.banner).unwrap(), expected);
}

#[test]
fn plan_with_kernel_boots_under_protection() {
    let info = parse_board_info(0x41F0_0000, 0x3000, &walked_events());
    let plan = boot_plan(0x4020_0000, &Some(info), 0x2_0000);
    let text = String::from_utf8(plan.banner.clone()).unwrap();
    assert!(text.contains("Platform Name      : Allwinner D1 Nezha"));
    assert!(text.contains("Platform Memory    : 0x40000000..0x60000000"));
    assert!(text.contains("Device Tree Region : 0x41f00000..0x41f03000"));
    assert!(text.contains("Firmware Address   : 0x20000"));
    assert!(text.contains("Supervisor Address : 0x40200000"));
    match plan.action {
        BootAction::Boot { pmp, supervisor } => {
            assert_eq!(supervisor.start_addr, 0x4020_0000);
            assert_eq!(supervisor.opaque, 0x41F0_0000);
            assert_eq!(pmp[2].addr, 0x4020_0000 / 4);
            assert_eq!(pmp[3].addr, 0x6000_0000 / 4);
        },
        BootAction::ArrowWalk => panic!("expected a boot"),
    }
}

#[test]
fn plan_without_board_info_uses_the_default_memory_range() {
    let plan = boot_plan(0x4020_0000, &None, 0x2_0000);
    match plan.action {
        BootAction::Boot { pmp, supervisor } => {
            assert_eq!(supervisor.opaque, 0);
            assert_eq!(pmp[1].addr, 0x4000_0000 / 4);
            assert_eq!(pmp[1].cfg, PMP_A_TOR | PMP_R | PMP_W);
            assert_eq!(pmp[3].addr, 0x6000_0000 / 4);
        },
        BootAction::ArrowWalk => panic!("expected a boot"),
    }
}

#[test]
fn board_info_is_plain_data() {
    let info = BoardInfo {
        dtb: Region { start: 1, end: 2 },
        model: StringInline::empty(),
        mem: Region { start: 3, end: 4 },
    };
    assert_eq!(info.dtb.start, 1);
    assert_eq!(info.mem.len(), 1);
}
