use eofs::{div_ceil, FileSystem, Header};

#[test]
fn div_ceil_rounds_up() {
    assert_eq!(div_ceil(1536, 512), 3);
    assert_eq!(div_ceil(1537, 512), 4);
    assert_eq!(div_ceil(0, 7), 0);
    assert_eq!(div_ceil(7, 1), 7);
}

#[test]
fn plan_single_fat_block() {
    let h = Header::plan(512, 1, 2, 65536).unwrap();
    assert_eq!(h.magic(), 0xBEEFBEEF);
    assert_eq!(h.block_size(), 512);
    assert_eq!(h.blocks_sector(), 1);
    assert_eq!(h.num_fats(), 2);
    assert_eq!(h.fat_blocks(), 1);
    assert_eq!(h.reserved_sectors(), 3);
    assert_eq!(h.data_sectors(), 125);
}

#[test]
fn plan_grows_fat_until_it_covers_data() {
    let h = Header::plan(512, 1, 2, 1048576).unwrap();
    assert_eq!(h.fat_blocks(), 16);
    assert_eq!(h.reserved_sectors(), 33);
    assert_eq!(h.data_sectors(), 2015);
    // one block fewer would not address every data sector
    assert!(15 * 512 / 4 < 2047 - 2 * 15);
}

#[test]
fn plan_multi_block_sectors() {
    let h = Header::plan(512, 4, 1, 1048576).unwrap();
    assert_eq!(h.fat_blocks(), 4);
    assert_eq!(h.reserved_sectors(), 2);
    assert_eq!(h.data_sectors(), 510);
}

#[test]
fn plan_refuses_impossible_parameters() {
    // a zero block size leaves no sector to divide by
    assert!(Header::plan(0, 1, 2, 65536).is_none());
    // the volume is smaller than its reserved area
    assert!(Header::plan(512, 1, 2, 1024).is_none());
    // the sector size leaves u32
    assert!(Header::plan(65536, 65536, 1, 65536).is_none());
    // the FAT copies of a two-block FAT leave u32 before the FAT covers the data
    assert!(Header::plan(65536, 1, 32768, u32::MAX).is_none());
}

#[test]
fn new_formats_zeroed_volume() {
    let fs = FileSystem::new(512, 1, 2, 65536);
    let h = fs.header();
    assert_eq!(h.fat_blocks(), 1);
    assert_eq!(h.reserved_sectors(), 3);
    assert_eq!(h.data_sectors(), 125);
    let st = fs.stats().unwrap();
    assert!(st.magic_ok);
    assert_eq!(st.sector_size, 512);
    assert_eq!(st.entries_per_fat_block, 128);
    assert_eq!(st.addressable_blocks, 128);
    assert_eq!(st.addressable_bytes, 65536);
    assert_eq!(st.total_size, 65536);
    assert_eq!(st.total_blocks, 128);
    assert_eq!(st.reserved_size, 1536);
    assert_eq!(st.reserved_blocks, 3);
    assert_eq!(st.data_size, 64000);
    assert_eq!(st.data_blocks, 125);
    assert_eq!(st.num_fats, 2);
    assert_eq!(st.block_size, 512);
    assert_eq!(st.blocks_sector, 1);
}

#[test]
fn new_fat_copies_hold_block_size_over_four_zero_entries() {
    let fs = FileSystem::new(512, 1, 2, 65536);
    let st = fs.stats().unwrap();
    assert_eq!(st.fat_blocks, 1);
    assert_eq!(st.data_sectors, 125);
    assert_eq!(st.reserved_sectors, 3);
}

#[test]
fn stats_refuse_figures_beyond_u32() {
    let fs = FileSystem::new(131072, 1, 1, 524288);
    assert_eq!(fs.header().data_sectors(), 2);
    assert!(fs.stats().is_none());
}

#[test]
fn open_root_and_iteration_are_empty() {
    assert!(FileSystem::open("image.eofs").is_none());
    let fs = FileSystem::new(512, 1, 1, 4096);
    let root = fs.root();
    let mut it = root.iter();
    assert!(it.next().is_none());
}
