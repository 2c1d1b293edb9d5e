//! The metadata records and image structures: sentinel handling, the
//! staging-offset formula, and the exact byte layouts.

use d1_see::flash;
use d1_see::image::{AsBinary, EgonHead, PayloadMeta, STAMP_CHECKSUM};
use d1_see::memory;
use d1_see::rofs;

#[test]
fn memory_meta_reads_offsets_behind_the_sentinel() {
    let mut meta = memory::Meta::default();
    assert_eq!(meta.see(), None);
    assert_eq!(meta.kernel(), None);
    assert_eq!(meta.dtb(), None);
    meta.set_kernel(0x20_0000);
    meta.set_dtb(0x1F0_0000);
    meta.set_see(0);
    assert_eq!(meta.kernel(), Some(0x4020_0000));
    assert_eq!(meta.dtb(), Some(0x41F0_0000));
    assert_eq!(meta.see(), Some(0x4000_0000));
    assert!(!meta.from_flash);
}

#[test]
fn dtb_offset_is_the_last_page_below_the_cap() {
    // 512 MiB: the page right below the top.
    assert_eq!(memory::dtb_offset(512 << 20), 0x1FE0_0000);
    // Unaligned sizes round down to a whole page.
    assert_eq!(memory::dtb_offset((512 << 20) + 0x12_3456), 0x1FE0_0000);
    // Sizes above one GiB are capped.
    assert_eq!(memory::dtb_offset(1 << 30), 0x3FE0_0000);
    assert_eq!(memory::dtb_offset(3 << 30), 0x3FE0_0000);
    // The smallest size yields offset zero.
    assert_eq!(memory::dtb_offset(2 << 20), 0);
}

#[test]
fn flash_meta_reads_entries_behind_the_sentinel() {
    let mut meta = flash::Meta::default();
    assert_eq!(meta.see(), None);
    assert_eq!(meta.kernel(), None);
    assert_eq!(meta.dtb(), None);
    meta.set_see(4 << 20, 0x1_0000);
    meta.set_kernel(8 << 20, 0x20_0000);
    meta.set_dtb(6 << 20, 0);
    assert_eq!(meta.see(), Some((4 << 20, 0x1_0000)));
    assert_eq!(meta.kernel(), Some((8 << 20, 0x20_0000)));
    // A zero size is still an entry; only all ones means absent.
    assert_eq!(meta.dtb(), Some((6 << 20, 0)));
}

#[test]
fn payload_sizes_outside_the_valid_range_count_as_zero() {
    let meta = PayloadMeta::new(3, 4, 1 << 30, 0);
    assert_eq!(meta.len_see(), 0);
    assert_eq!(meta.len_kernel(), 4);
    assert_eq!(meta.len_dtb(), 0);
    let meta = PayloadMeta::new(0x1000, 0xFFFF_FFFF, 0x3FFF_FFFF, 0);
    assert_eq!(meta.len_see(), 0x1000);
    assert_eq!(meta.len_kernel(), 0);
    assert_eq!(meta.len_dtb(), 0x3FFF_FFFF);
}

#[test]
fn payload_dtb_needs_size_and_offset() {
    let meta = PayloadMeta::new(0, 0, 0x3000, 0x1FE0_0000);
    assert_eq!(meta.dtb(), Some((0x5FE0_0000, 0x3000)));
    assert_eq!(PayloadMeta::new(0, 0, 0, 0x1FE0_0000).dtb(), None);
    assert_eq!(PayloadMeta::new(0, 0, 0x3000, 0).dtb(), None);
}

#[test]
fn payload_meta_byte_image_is_little_endian() {
    let meta = PayloadMeta::new(0x0102_0304, 0x0506_0708, 0x090A_0B0C, 0x0D0E_0F10);
    assert_eq!(
        meta.as_bytes(),
        vec![4, 3, 2, 1, 8, 7, 6, 5, 0xC, 0xB, 0xA, 9, 0x10, 0xF, 0xE, 0xD]
    );
}

#[test]
fn egon_head_byte_image() {
    let head = EgonHead::default();
    let bytes = head.as_bytes();
    assert_eq!(bytes.len(), 92);
    assert_eq!(&bytes[..8], b"eGON.BT0");
    assert_eq!(&bytes[8..12], &[0x39, 0x6C, 0x0A, 0x5F]);
    assert!(bytes[12..].iter().all(|b| *b == 0));
    assert_eq!(head.checksum, STAMP_CHECKSUM);
}

#[test]
fn rofs_directory_counts_occupied_slots() {
    let mut dir = rofs::PayloadMeta::default();
    assert_eq!(dir.count_payloads(), 0);
    dir.0[0] = rofs::PayloadEntry { target_offset: 0, size: 0x100 };
    dir.0[3] = rofs::PayloadEntry { target_offset: 0x20_0000, size: 0x8000 };
    // Zero and all ones both mean empty.
    dir.0[5] = rofs::PayloadEntry { target_offset: 1, size: 0xFFFF_FFFF };
    assert_eq!(dir.count_payloads(), 2);
    assert_eq!(rofs::PayloadEntry::default().size, 0);
}
