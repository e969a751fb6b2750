use vstd::prelude::*;

verus! {

/// Length of a page of the on-disk image, in bytes.
pub const PAGE_LEN: usize = 512;

/// Magic number of the on-disk image header.
pub const FS_MAGIC: u32 = 0xBEEFFEED;

/// The header at the start of an on-disk image.
#[derive(Debug, Clone, Copy, PartialEq, Eq, Structural)]
pub struct FSHeader {
    /// 0xBEEFFEED
    pub magic: u32,
    /// Page size in bytes
    pub page_size: u16,
    /// Reserved pages before the FATs, the header page included
    pub reserved_pages: u8,
    /// FAT pages per segment
    pub fat_pages: u8,
    /// Segments in the image
    pub segments: u8,
    /// Bytes per address
    pub address_bytes: u8,
    pub pad2: u16,
    pub pad3: u32,
    /// Largest size the image may grow to; it need not match what the FATs address or
    /// what the file holds
    pub max_fs_size: u64,
}

/// The header an image gets where none is given.
pub open spec fn spec_default_fs_header() -> FSHeader {
    FSHeader {
        magic: FS_MAGIC,
        page_size: 512,
        reserved_pages: 1,
        fat_pages: 1,
        segments: 0,
        address_bytes: 4,
        pad2: 0,
        pad3: 0,
        max_fs_size: 512,
    }
}

/// The header an image gets where none is given.
pub fn default_fs_header() -> (h: FSHeader)
    ensures
        h == spec_default_fs_header(),
{
    FSHeader {
        magic: FS_MAGIC,
        page_size: 512,
        reserved_pages: 1,
        fat_pages: 1,
        segments: 0,
        address_bytes: 4,
        pad2: 0,
        pad3: 0,
        max_fs_size: 512,
    }
}

impl FSHeader {
    /// Pages one FAT page addresses, summed over the FAT pages of a segment.
    pub open spec fn spec_addressable_pages(self) -> int {
        self.fat_pages as int * self.page_size as int / self.address_bytes as int
    }

    /// Zero pages that follow the header page in a fresh image: for every segment and
    /// every FAT page of it, one page per addressable page.
    pub open spec fn spec_zero_pages(self) -> int {
        self.segments as int * self.fat_pages as int * self.spec_addressable_pages()
    }

    /// Pages the image takes up: the reserved pages, two pages per FAT page of each
    /// segment, and the pages the FATs address.
    pub open spec fn spec_fs_size_pages(self) -> int {
        self.reserved_pages as int + self.segments as int * self.fat_pages as int * 2
            + self.segments as int * self.fat_pages as int * self.page_size as int
            / self.address_bytes as int
    }

    /// Bytes the image takes up.
    pub open spec fn spec_fs_size_bytes(self) -> int {
        self.spec_fs_size_pages() * self.page_size as int
    }

    /// Pages one segment's FAT addresses.
    pub fn addressable_pages(&self) -> (n: usize)
        requires
            self.address_bytes != 0,
        ensures
            n == self.spec_addressable_pages(),
            n == self.fat_pages as int * self.page_size as int / self.address_bytes as int,
    {
        let fp = self.fat_pages as usize;
        let ps = self.page_size as usize;
        assert(fp * ps <= 255 * 65535) by (nonlinear_arith)
            requires
                fp <= 255,
                ps <= 65535,
        ;
        fp * ps / (self.address_bytes as usize)
    }

    /// Zero pages that follow the header page in a fresh image.
    pub fn zero_pages(&self) -> (n: u64)
        requires
            self.address_bytes != 0,
        ensures
            n == self.spec_zero_pages(),
            n == self.segments as int * self.fat_pages as int * (self.fat_pages as int
                * self.page_size as int / self.address_bytes as int),
    {
        let per = self.addressable_pages() as u64;
        let s = self.segments as u64;
        let f = self.fat_pages as u64;
        assert(s * f <= 255 * 255) by (nonlinear_arith)
            requires
                s <= 255,
                f <= 255,
        ;
        let sf = s * f;
        assert(per <= 255 * 65535) by (nonlinear_arith)
            requires
                per == self.fat_pages as int * self.page_size as int / self.address_bytes as int,
                self.fat_pages <= 255,
                self.page_size <= 65535,
                self.address_bytes >= 1,
        ;
        assert(sf * per <= 255 * 255 * (255 * 65535)) by (nonlinear_arith)
            requires
                sf <= 255 * 255,
                per <= 255 * 65535,
        ;
        sf * per
    }

    /// Pages the image takes up.
    pub fn fs_size_pages(&self) -> (n: u64)
        requires
            self.address_bytes != 0,
        ensures
            n == self.spec_fs_size_pages(),
            n == self.reserved_pages as int + self.segments as int * self.fat_pages as int * 2
                + self.segments as int * self.fat_pages as int * self.page_size as int
                / self.address_bytes as int,
    {
        let s = self.segments as u64;
        let f = self.fat_pages as u64;
        assert(s * f <= 255 * 255) by (nonlinear_arith)
            requires
                s <= 255,
                f <= 255,
        ;
        let sf = s * f;
        let p = self.page_size as u64;
        assert(sf * p <= 255 * 255 * 65535) by (nonlinear_arith)
            requires
                sf <= 255 * 255,
                p <= 65535,
        ;
        let sfp = sf * p;
        let addressed = sfp / self.address_bytes as u64;
        assert(addressed <= sfp) by (nonlinear_arith)
            requires
                addressed == sfp as int / self.address_bytes as int,
                self.address_bytes >= 1,
                sfp >= 0,
        ;
        self.reserved_pages as u64 + sf * 2 + addressed
    }

    /// Bytes the image takes up.
    pub fn fs_size_bytes(&self) -> (n: u64)
        requires
            self.address_bytes != 0,
        ensures
            n == self.spec_fs_size_bytes(),
            n == (self.reserved_pages as int + self.segments as int * self.fat_pages as int * 2
                + self.segments as int * self.fat_pages as int * self.page_size as int
                / self.address_bytes as int) * self.page_size as int,
    {
        let pages = self.fs_size_pages();
        assert(pages <= 255 + 255 * 255 * 2 + 255 * 255 * 65535) by (nonlinear_arith)
            requires
                pages == self.spec_fs_size_pages(),
                self.reserved_pages <= 255,
                self.segments <= 255,
                self.fat_pages <= 255,
                self.page_size <= 65535,
                self.address_bytes >= 1,
        ;
        assert(pages * self.page_size as int <= (255 + 255 * 255 * 2 + 255 * 255 * 65535)
            * 65535) by (nonlinear_arith)
            requires
                pages <= 255 + 255 * 255 * 2 + 255 * 255 * 65535,
                self.page_size <= 65535,
        ;
        pages * self.page_size as u64
    }

    /// The header of a fresh image of `segments` segments: the default header with its
    /// segment count set and its size limit set to the size the image takes up.
    pub fn for_segments(segments: u8) -> (h: FSHeader)
        ensures
            h == (FSHeader {
                segments,
                max_fs_size: (FSHeader { segments, ..spec_default_fs_header() }).spec_fs_size_bytes()
                    as u64,
                ..spec_default_fs_header()
            }),
    {
        let mut h = default_fs_header();
        h.segments = segments;
        h.max_fs_size = h.fs_size_bytes();
        h
    }
}

/// The first page of an image: the encoded header followed by zeros up to a page.
pub fn header_page(encoded: &[u8]) -> (page: Vec<u8>)
    requires
        encoded@.len() <= PAGE_LEN,
    ensures
        page@.len() == PAGE_LEN,
        page@.subrange(0, encoded@.len() as int) == encoded@,
        forall|i: int| encoded@.len() <= i < PAGE_LEN ==> page@[i] == 0u8,
{
    let mut page: Vec<u8> = Vec::new();
    let mut i: usize = 0;
    while i < encoded.len()
        invariant
            i <= encoded@.len() <= PAGE_LEN,
            page@ == encoded@.subrange(0, i as int),
        decreases encoded@.len() - i,
    {
        page.push(encoded[i]);
        i = i + 1;
        assert(page@ =~= encoded@.subrange(0, i as int));
    }
    while page.len() < PAGE_LEN
        invariant
            encoded@.len() <= page@.len() <= PAGE_LEN,
            page@.subrange(0, encoded@.len() as int) == encoded@,
            forall|j: int| encoded@.len() <= j < page@.len() ==> page@[j] == 0u8,
        decreases PAGE_LEN - page@.len(),
    {
        page.push(0u8);
        assert(page@.subrange(0, encoded@.len() as int) =~= encoded@);
    }
    page
}

/// A page of zeros.
pub fn zero_page() -> (page: Vec<u8>)
    ensures
        page@ == Seq::new(PAGE_LEN as nat, |i: int| 0u8),
{
    let mut page: Vec<u8> = Vec::new();
    while page.len() < PAGE_LEN
        invariant
            page@.len() <= PAGE_LEN,
            page@ == Seq::new(page@.len(), |i: int| 0u8),
        decreases PAGE_LEN - page@.len(),
    {
        page.push(0u8);
        assert(page@ =~= Seq::new(page@.len(), |i: int| 0u8));
    }
    page
}

/// A fresh image holds, after its header page, one zero page for every page addressed
/// by every FAT page of every segment: `segments * fat_pages` FAT pages, each
/// addressing `fat_pages * page_size / address_bytes` pages. The count grows by that
/// much with each segment, and does not depend on the reserved pages, the magic, the
/// padding or the size limit.
pub proof fn lemma_zero_pages(h: FSHeader, reserved_pages: u8, max_fs_size: u64)
    requires
        h.address_bytes != 0,
    ensures
        h.spec_addressable_pages() == h.fat_pages as int * h.page_size as int
            / h.address_bytes as int,
        h.spec_zero_pages() == h.segments as int * h.fat_pages as int * (h.fat_pages as int
            * h.page_size as int / h.address_bytes as int),
        (FSHeader { reserved_pages, max_fs_size, ..h }).spec_zero_pages() == h.spec_zero_pages(),
        h.segments < 255 ==> (FSHeader { segments: (h.segments + 1) as u8, ..h }).spec_zero_pages()
            == h.spec_zero_pages() + h.fat_pages as int * h.spec_addressable_pages(),
        h.segments == 0 ==> h.spec_zero_pages() == 0,
{
    let a = h.spec_addressable_pages();
    let f = h.fat_pages as int;
    let s = h.segments as int;
    assert((s + 1) * f * a == s * f * a + f * a) by (nonlinear_arith);
    assert(0 * f * a == 0) by (nonlinear_arith);
}

/// The size of an image: its reserved pages, two pages for every FAT page of every
/// segment, and the pages the FATs address; in bytes, that many pages of `page_size`.
/// It grows by one page with each reserved page.
pub proof fn lemma_fs_size(h: FSHeader)
    requires
        h.address_bytes != 0,
    ensures
        h.spec_fs_size_pages() == h.reserved_pages as int + h.segments as int
            * h.fat_pages as int * 2 + h.segments as int * h.fat_pages as int
            * h.page_size as int / h.address_bytes as int,
        h.spec_fs_size_bytes() == h.spec_fs_size_pages() * h.page_size as int,
        h.reserved_pages < 255 ==> (FSHeader { reserved_pages: (h.reserved_pages + 1) as u8, ..h }).spec_fs_size_pages()
            == h.spec_fs_size_pages() + 1,
{
}

} // verus!
