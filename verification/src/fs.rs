use vstd::prelude::*;

use crate::block::{empty_block, zero_block_seq, Block};
use crate::layout::{
    data_sectors_for, fits_u32, has_layout, header_for, is_layout, Header, HeaderView, MAGIC,
};

verus! {

/// One copy of the file allocation table.
#[derive(Debug, Clone)]
pub struct FileFAT {
    entries: Vec<u32>,
}

impl View for FileFAT {
    type V = Seq<u32>;

    closed spec fn view(&self) -> Seq<u32> {
        self.entries@
    }
}

impl FileFAT {
    /// The entries of the table.
    pub fn entries(&self) -> (r: &Vec<u32>)
        ensures
            r@ == self@,
    {
        &self.entries
    }
}

/// An in-memory file system: its header, its copies of the FAT and its data sectors.
pub struct FileSystem {
    header: Header,
    fats: Vec<FileFAT>,
    data_sectors: Vec<Block>,
}

/// What a file system holds.
pub struct FileSystemView {
    pub header: HeaderView,
    pub fats: Seq<Seq<u32>>,
    pub data: Seq<Seq<u8>>,
}

impl View for FileSystem {
    type V = FileSystemView;

    closed spec fn view(&self) -> FileSystemView {
        FileSystemView {
            header: self.header@,
            fats: Seq::new(self.fats@.len(), |i: int| self.fats@[i]@),
            data: Seq::new(self.data_sectors@.len(), |i: int| self.data_sectors@[i]@),
        }
    }
}

/// A directory.
pub struct Dir {}

/// A file.
pub struct File {}

/// Walks the entries of a directory.
pub struct DirIter {}

/// The figures that describe a file system, all in `u32`.
pub struct FsStats {
    pub magic_ok: bool,
    pub block_size: u32,
    pub blocks_sector: u32,
    pub sector_size: u32,
    pub reserved_sectors: u32,
    pub num_fats: u32,
    pub fat_blocks: u32,
    pub data_sectors: u32,
    pub entries_per_fat_block: u32,
    pub addressable_blocks: u32,
    pub addressable_bytes: u32,
    pub total_size: u32,
    pub total_blocks: u32,
    pub reserved_size: u32,
    pub reserved_blocks: u32,
    pub data_size: u32,
    pub data_blocks: u32,
}

/// The figures of a file system with header `h`, or `None` where one of them leaves `u32`.
pub open spec fn stats_of(h: HeaderView) -> Option<FsStats> {
    let bs = h.block_size as int;
    let bps = h.blocks_sector as int;
    let res = h.reserved_sectors as int;
    let data = h.data_sectors as int;
    let entries = bs / 4;
    let used = data + res;
    if fits_u32(bs * bps) && fits_u32(entries * bps) && fits_u32(entries * bps * bs) && fits_u32(
        used,
    ) && fits_u32(used * bs) && fits_u32(used * bs * bps) && fits_u32(used * bps) && fits_u32(
        res * bs,
    ) && fits_u32(res * bs * bps) && fits_u32(res * bps) && fits_u32(data * bs) && fits_u32(
        data * bs * bps,
    ) && fits_u32(data * bps) {
        Some(
            FsStats {
                magic_ok: h.magic == MAGIC,
                block_size: h.block_size,
                blocks_sector: h.blocks_sector,
                sector_size: (bs * bps) as u32,
                reserved_sectors: h.reserved_sectors,
                num_fats: h.num_fats,
                fat_blocks: h.fat_blocks,
                data_sectors: h.data_sectors,
                entries_per_fat_block: entries as u32,
                addressable_blocks: (entries * bps) as u32,
                addressable_bytes: (entries * bps * bs) as u32,
                total_size: (used * bs * bps) as u32,
                total_blocks: (used * bps) as u32,
                reserved_size: (res * bs * bps) as u32,
                reserved_blocks: (res * bps) as u32,
                data_size: (data * bs * bps) as u32,
                data_blocks: (data * bps) as u32,
            },
        )
    } else {
        None
    }
}

/// The figures `st` are those of a file system with header `h`, each stated on the
/// header's fields.
pub open spec fn stats_agree(h: HeaderView, st: FsStats) -> bool {
    let used = h.data_sectors + h.reserved_sectors;
    &&& st.magic_ok == (h.magic == MAGIC)
    &&& st.block_size == h.block_size
    &&& st.blocks_sector == h.blocks_sector
    &&& st.reserved_sectors == h.reserved_sectors
    &&& st.num_fats == h.num_fats
    &&& st.fat_blocks == h.fat_blocks
    &&& st.data_sectors == h.data_sectors
    &&& st.sector_size == h.block_size * h.blocks_sector
    &&& st.entries_per_fat_block == h.block_size / 4
    &&& st.addressable_blocks == h.block_size / 4 * h.blocks_sector
    &&& st.addressable_bytes == h.block_size / 4 * h.blocks_sector * h.block_size
    &&& st.total_size == used * h.block_size * h.blocks_sector
    &&& st.total_blocks == used * h.blocks_sector
    &&& st.reserved_size == h.reserved_sectors * h.block_size * h.blocks_sector
    &&& st.reserved_blocks == h.reserved_sectors * h.blocks_sector
    &&& st.data_size == h.data_sectors * h.block_size * h.blocks_sector
    &&& st.data_blocks == h.data_sectors * h.blocks_sector
}

/// Every figure of a file system is what its header gives: the sector holds
/// `blocks_sector` blocks of `block_size` bytes, a FAT block holds `block_size / 4`
/// entries, and the whole, reserved and data areas count their sectors times the
/// blocks (or bytes) of a sector. The areas add up: reserved and data blocks (and
/// bytes) make the total, sizes are blocks times the block size, and the total size
/// is the sectors in use times the sector size.
pub proof fn lemma_stats_figures(h: HeaderView, st: FsStats)
    requires
        stats_of(h) == Some(st),
    ensures
        stats_agree(h, st),
        st.total_blocks == st.reserved_blocks + st.data_blocks,
        st.total_size == st.reserved_size + st.data_size,
        st.total_size == st.total_blocks * st.block_size,
        st.reserved_size == st.reserved_blocks * st.block_size,
        st.data_size == st.data_blocks * st.block_size,
        st.total_size == (st.reserved_sectors + st.data_sectors) * st.sector_size,
        st.addressable_bytes == st.addressable_blocks * st.block_size,
        st.addressable_blocks == st.entries_per_fat_block * st.blocks_sector,
        st.sector_size == st.block_size * st.blocks_sector,
{
    let bs = h.block_size as int;
    let bps = h.blocks_sector as int;
    let res = h.reserved_sectors as int;
    let data = h.data_sectors as int;
    let e = bs / 4;
    assert((data + res) * bps == res * bps + data * bps) by (nonlinear_arith);
    assert((data + res) * bs * bps == res * bs * bps + data * bs * bps) by (nonlinear_arith);
    assert((data + res) * bs * bps == ((data + res) * bps) * bs) by (nonlinear_arith);
    assert(res * bs * bps == (res * bps) * bs) by (nonlinear_arith);
    assert(data * bs * bps == (data * bps) * bs) by (nonlinear_arith);
    assert((data + res) * bs * bps == (res + data) * (bs * bps)) by (nonlinear_arith);
}

/// `a * b`, or `None` where it leaves `u32`.
fn mul2(a: u32, b: u32) -> (r: Option<u32>)
    ensures
        r == (if fits_u32(a * b) {
            Some((a * b) as u32)
        } else {
            None
        }),
{
    a.checked_mul(b)
}

/// `a * b * c`, or `None` where a product leaves `u32`.
fn mul3(a: u32, b: u32, c: u32) -> (r: Option<u32>)
    ensures
        r == (if fits_u32(a * b) && fits_u32(a * b * c) {
            Some((a * b * c) as u32)
        } else {
            None
        }),
{
    match a.checked_mul(b) {
        Some(x) => x.checked_mul(c),
        None => None,
    }
}

/// `count` zero entries.
fn zero_entries(count: usize) -> (v: Vec<u32>)
    ensures
        v@ == Seq::new(count as nat, |j: int| 0u32),
{
    let mut v: Vec<u32> = Vec::new();
    let mut i: usize = 0;
    while i < count
        invariant
            i <= count,
            v@ == Seq::new(i as nat, |j: int| 0u32),
        decreases count - i,
    {
        v.push(0u32);
        i = i + 1;
        assert(v@ =~= Seq::new(i as nat, |j: int| 0u32));
    }
    v
}

impl FileSystem {
    /// Formats a file system of `total_fs_size` bytes in sectors of `blocks_sector`
    /// blocks of `block_size` bytes, with `num_fats` copies of the FAT. The FAT is sized
    /// as `Header::plan` lays it out; each copy holds `block_size / 4` zero entries, and
    /// every data sector is a zero block.
    pub fn new(block_size: u32, blocks_sector: u32, num_fats: u32, total_fs_size: u32) -> (fs:
        FileSystem)
        requires
            has_layout(block_size as int, blocks_sector as int, num_fats as int, total_fs_size as int),
        ensures
            is_layout(
                block_size as int,
                blocks_sector as int,
                num_fats as int,
                total_fs_size as int,
                fs@.header.fat_blocks as int,
            ),
            fs@.header == header_for(
                block_size as int,
                blocks_sector as int,
                num_fats as int,
                total_fs_size as int,
                fs@.header.fat_blocks as int,
            ),
            fs@.fats == Seq::new(
                num_fats as nat,
                |i: int| Seq::new((block_size / 4) as nat, |j: int| 0u32),
            ),
            fs@.data == Seq::new(fs@.header.data_sectors as nat, |i: int| zero_block_seq()),
    {
        let header = Header::plan(block_size, blocks_sector, num_fats, total_fs_size).unwrap();
        let n_entries = (block_size / 4) as usize;
        let ghost one_fat = Seq::new((block_size / 4) as nat, |j: int| 0u32);
        let mut fats: Vec<FileFAT> = Vec::new();
        let mut i: u32 = 0;
        while i < num_fats
            invariant
                i <= num_fats,
                n_entries == block_size / 4,
                one_fat == Seq::new((block_size / 4) as nat, |j: int| 0u32),
                fats@.len() == i,
                forall|k: int| 0 <= k < i ==> #[trigger] fats@[k]@ == one_fat,
            decreases num_fats - i,
        {
            fats.push(FileFAT { entries: zero_entries(n_entries) });
            i = i + 1;
        }
        let n_data = header.data_sectors();
        let mut data: Vec<Block> = Vec::new();
        let mut d: u32 = 0;
        while d < n_data
            invariant
                d <= n_data,
                data@.len() == d,
                forall|k: int| 0 <= k < d ==> #[trigger] data@[k]@ == zero_block_seq(),
            decreases n_data - d,
        {
            data.push(empty_block());
            d = d + 1;
        }
        let fs = FileSystem { header, fats, data_sectors: data };
        assert(fs@.fats =~= Seq::new(num_fats as nat, |i: int| one_fat));
        assert(fs@.data =~= Seq::new(fs@.header.data_sectors as nat, |i: int| zero_block_seq()));
        fs
    }

    /// The header of the file system.
    pub fn header(&self) -> (h: &Header)
        ensures
            h@ == self@.header,
    {
        &self.header
    }

    /// The figures that describe the file system; `None` where one of them leaves `u32`.
    pub fn stats(&self) -> (r: Option<FsStats>)
        ensures
            r == stats_of(self@.header),
            r matches Some(st) ==> stats_agree(self@.header, st),
    {
        proof {
            if let Some(st) = stats_of(self@.header) {
                lemma_stats_figures(self@.header, st);
            }
        }
        let h = &self.header;
        let bs = h.block_size();
        let bps = h.blocks_sector();
        let res = h.reserved_sectors();
        let data = h.data_sectors();
        let entries = bs / 4;
        let sector_size = mul2(bs, bps);
        let addressable_blocks = mul2(entries, bps);
        let addressable_bytes = mul3(entries, bps, bs);
        let used = data.checked_add(res);
        let (total_size, total_blocks) = match used {
            Some(u) => (mul3(u, bs, bps), mul2(u, bps)),
            None => (None, None),
        };
        let reserved_size = mul3(res, bs, bps);
        let reserved_blocks = mul2(res, bps);
        let data_size = mul3(data, bs, bps);
        let data_blocks = mul2(data, bps);
        match (
            sector_size,
            addressable_blocks,
            addressable_bytes,
            total_size,
            total_blocks,
            reserved_size,
            reserved_blocks,
            data_size,
            data_blocks,
        ) {
            (
                Some(sector_size),
                Some(addressable_blocks),
                Some(addressable_bytes),
                Some(total_size),
                Some(total_blocks),
                Some(reserved_size),
                Some(reserved_blocks),
                Some(data_size),
                Some(data_blocks),
            ) => Some(
                FsStats {
                    magic_ok: h.magic() == MAGIC,
                    block_size: bs,
                    blocks_sector: bps,
                    sector_size,
                    reserved_sectors: res,
                    num_fats: h.num_fats(),
                    fat_blocks: h.fat_blocks(),
                    data_sectors: data,
                    entries_per_fat_block: entries,
                    addressable_blocks,
                    addressable_bytes,
                    total_size,
                    total_blocks,
                    reserved_size,
                    reserved_blocks,
                    data_size,
                    data_blocks,
                },
            ),
            _ => None,
        }
    }

    /// Loads a file system from `filename`. Loading is not supported: the answer is
    /// always `None`.
    pub fn open(filename: &str) -> (r: Option<FileSystem>)
        ensures
            r is None,
    {
        None
    }

    /// The root directory.
    pub fn root(&self) -> (d: &Dir)
        ensures
            *d == (Dir {  }),
    {
        &Dir {  }
    }
}

impl Dir {
    /// Walks the entries of the directory.
    pub fn iter(&self) -> (it: DirIter)
        ensures
            it == (DirIter {  }),
    {
        DirIter {  }
    }
}

impl DirIter {
    /// The next entry; directories hold no entries yet, so there is none.
    pub fn next(&mut self) -> (r: Option<File>)
        ensures
            r is None,
    {
        None
    }
}

} // verus!
