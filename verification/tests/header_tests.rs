use eofs::header::zero_page;
use eofs::{default_fs_header, header_page, FSHeader};

#[test]
fn default_header_values() {
    let h = default_fs_header();
    assert_eq!(h.magic, 0xBEEFFEED);
    assert_eq!(h.page_size, 512);
    assert_eq!(h.reserved_pages, 1);
    assert_eq!(h.fat_pages, 1);
    assert_eq!(h.segments, 0);
    assert_eq!(h.address_bytes, 4);
    assert_eq!(h.pad2, 0);
    assert_eq!(h.pad3, 0);
    assert_eq!(h.max_fs_size, 512);
}

#[test]
fn default_header_sizes() {
    let h = default_fs_header();
    assert_eq!(h.addressable_pages(), 128);
    assert_eq!(h.zero_pages(), 0);
    assert_eq!(h.fs_size_pages(), 1);
    assert_eq!(h.fs_size_bytes(), 512);
}

#[test]
fn header_for_segments() {
    let h = FSHeader::for_segments(3);
    assert_eq!(h.segments, 3);
    assert_eq!(h.fs_size_pages(), 391);
    assert_eq!(h.max_fs_size, 391 * 512);
    assert_eq!(h.zero_pages(), 384);
    assert_eq!(h.magic, 0xBEEFFEED);
    assert_eq!(h.page_size, 512);
}

#[test]
fn sizes_of_a_large_header() {
    let h = FSHeader {
        magic: 0xBEEFFEED,
        page_size: 65535,
        reserved_pages: 255,
        fat_pages: 255,
        segments: 255,
        address_bytes: 1,
        pad2: 0,
        pad3: 0,
        max_fs_size: 0,
    };
    let pages: u64 = 255 + 255 * 255 * 2 + 255 * 255 * 65535;
    assert_eq!(h.fs_size_pages(), pages);
    assert_eq!(h.fs_size_bytes(), pages * 65535);
    assert_eq!(h.addressable_pages(), 255 * 65535);
    assert_eq!(h.zero_pages(), 255 * 255 * 255 * 65535);
}

#[test]
fn header_page_pads_with_zeros() {
    let p = header_page(&[1, 2, 3]);
    assert_eq!(p.len(), 512);
    assert_eq!(&p[..3], &[1, 2, 3]);
    assert!(p[3..].iter().all(|b| *b == 0));
    let full: Vec<u8> = (0..512).map(|i| (i % 251) as u8 + 1).collect();
    assert_eq!(header_page(&full), full);
}

#[test]
fn zero_page_is_zeros() {
    let p = zero_page();
    assert_eq!(p.len(), 512);
    assert!(p.iter().all(|b| *b == 0));
}
