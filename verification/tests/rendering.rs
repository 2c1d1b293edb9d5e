//! The text renderer and the busy-indicator animation: exact bytes.

use d1_see::arrow::Arrow;
use d1_see::logging::{Endl, Hex, Out};

#[test]
fn decimal_rendering_is_exact() {
    let mut out = Out::new();
    out.put_dec(0);
    out.put_byte(b' ');
    out.put_dec(7);
    out.put_byte(b' ');
    out.put_dec(10);
    out.put_byte(b' ');
    out.put_dec(12345);
    out.put_byte(b' ');
    out.put_dec(usize::MAX);
    assert_eq!(
        String::from_utf8(out.0).unwrap(),
        "0 7 10 12345 18446744073709551615"
    );
}

#[test]
fn hex_rendering_is_exact() {
    let mut out = Out::new();
    out.put_hex(Hex::Raw(0));
    out.put_byte(b' ');
    out.put_hex(Hex::Raw(0xDEAD_BEEF));
    out.put_byte(b' ');
    out.put_hex(Hex::Fmt(0x40200000));
    out.put_byte(b' ');
    out.put_hex_u64(0xFFFF_FFFF_FFFF_FFFF);
    assert_eq!(
        String::from_utf8(out.0).unwrap(),
        "0 deadbeef 0x40200000 0xffffffffffffffff"
    );
}

#[test]
fn padded_hex_rendering_is_exact() {
    let mut out = Out::new();
    out.put_hex_pad(0xAB, 4);
    out.put_byte(b' ');
    out.put_hex_pad(0x4020_0000, 16);
    assert_eq!(String::from_utf8(out.0).unwrap(), "00ab 0000000040200000");
}

#[test]
fn line_end_is_carriage_return_line_feed() {
    let mut out = Out::new();
    out.put_bytes(b"ok");
    out.put_endl(Endl);
    assert_eq!(out.0, b"ok\r\n".to_vec());
}

#[test]
fn arrow_initial_frame() {
    let (arrow, frame) = Arrow::init(51);
    assert_eq!(frame.len(), 51);
    let mut expected = vec![b'|'];
    expected.extend(std::iter::repeat(b' ').take(47));
    expected.extend_from_slice(b"<<|");
    assert_eq!(frame, expected);
    assert_eq!(arrow.len, 47);
    assert_eq!(arrow.pos, 0);
    assert!(arrow.dir);
}

#[test]
fn arrow_walks_and_turns() {
    let bs = 8u8;
    let (mut arrow, _) = Arrow::init(5);
    assert_eq!(arrow.len, 1);
    // First step: move right onto the end of the one-cell track.
    let frame = arrow.next();
    assert_eq!(frame, vec![bs, bs, bs, bs, b' ', b'>', b'>', b'|']);
    assert_eq!((arrow.pos, arrow.dir), (1, true));
    // At the right end: turn around.
    let frame = arrow.next();
    assert_eq!(frame, vec![bs, bs, bs, b'<', b'<', b'|']);
    assert_eq!((arrow.pos, arrow.dir), (1, false));
    // Walk back left.
    let frame = arrow.next();
    assert_eq!(frame, vec![bs, bs, b' ', bs, bs, bs, b'<', b'<', b' ', b'|']);
    assert_eq!((arrow.pos, arrow.dir), (0, false));
    // At the left end: turn around again.
    let frame = arrow.next();
    assert_eq!(frame, vec![bs, bs, bs, bs, b'>', b'>', b' ', b'|']);
    assert_eq!((arrow.pos, arrow.dir), (0, true));
}
