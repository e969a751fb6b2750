use vstd::prelude::*;

verus! {

/// Magic number at the start of every volume header.
pub const MAGIC: u32 = 0xBEEFBEEF;

/// `lhs / rhs`, rounded up.
pub open spec fn ceil_div(lhs: int, rhs: int) -> int {
    (lhs + rhs - 1) / rhs
}

/// Divides `lhs` by `rhs`, rounding up.
pub fn div_ceil(lhs: u32, rhs: u32) -> (q: u32)
    requires
        1 <= rhs,
        lhs + rhs - 1 <= u32::MAX,
    ensures
        q == ceil_div(lhs as int, rhs as int),
        q * rhs >= lhs,
        q * rhs < lhs + rhs,
{
    let q = (lhs + (rhs - 1)) / rhs;
    proof {
        lemma_ceil_div(lhs as int, rhs as int);
    }
    q
}

/// The rounded-up quotient is the least multiple of `rhs` that reaches `lhs`.
pub proof fn lemma_ceil_div(lhs: int, rhs: int)
    requires
        0 <= lhs,
        1 <= rhs,
    ensures
        ceil_div(lhs, rhs) * rhs >= lhs,
        ceil_div(lhs, rhs) * rhs < lhs + rhs,
        ceil_div(lhs, rhs) >= 0,
{
    let n = lhs + rhs - 1;
    let q = n / rhs;
    let r = n % rhs;
    vstd::arithmetic::div_mod::lemma_fundamental_div_mod(n, rhs);
    assert(0 <= r < rhs) by {
        vstd::arithmetic::div_mod::lemma_mod_bound(n, rhs);
    }
    assert(rhs * q == q * rhs) by (nonlinear_arith);
    assert(q >= 0) by (nonlinear_arith)
        requires
            n >= 0,
            rhs >= 1,
            q == n / rhs,
    ;
}

// ---------------------------------------------------------------------------
// The volume layout, as a function of the format parameters
// ---------------------------------------------------------------------------

/// Bytes in a sector.
pub open spec fn sector_bytes(block_size: int, blocks_sector: int) -> int {
    block_size * blocks_sector
}

/// Bytes the reserved area must hold: the header block and every copy of the FAT.
pub open spec fn reserved_bytes(block_size: int, num_fats: int, fat_blocks: int) -> int {
    block_size + num_fats * fat_blocks * block_size
}

/// Sectors reserved before the data area when each FAT is `fat_blocks` blocks long.
pub open spec fn reserved_sectors_for(
    block_size: int,
    blocks_sector: int,
    num_fats: int,
    fat_blocks: int,
) -> int {
    ceil_div(
        reserved_bytes(block_size, num_fats, fat_blocks),
        sector_bytes(block_size, blocks_sector),
    )
}

/// Sectors left for data when each FAT is `fat_blocks` blocks long.
pub open spec fn data_sectors_for(
    block_size: int,
    blocks_sector: int,
    num_fats: int,
    total_fs_size: int,
    fat_blocks: int,
) -> int {
    total_fs_size / sector_bytes(block_size, blocks_sector) - reserved_sectors_for(
        block_size,
        blocks_sector,
        num_fats,
        fat_blocks,
    )
}

/// Number of 4-byte entries a FAT of `fat_blocks` blocks holds.
pub open spec fn fat_entries(block_size: int, fat_blocks: int) -> int {
    fat_blocks * block_size / 4
}

/// `x` is a value of `u32`.
pub open spec fn fits_u32(x: int) -> bool {
    0 <= x <= u32::MAX
}

/// Every quantity computed while trying a FAT of `fat_blocks` blocks fits in `u32`,
/// and the data area it leaves is not negative.
pub open spec fn probe_fits(
    block_size: int,
    blocks_sector: int,
    num_fats: int,
    total_fs_size: int,
    fat_blocks: int,
) -> bool {
    let sector = sector_bytes(block_size, blocks_sector);
    let lhs = reserved_bytes(block_size, num_fats, fat_blocks);
    &&& 1 <= fat_blocks <= u32::MAX
    &&& fits_u32(num_fats * fat_blocks)
    &&& fits_u32(num_fats * fat_blocks * block_size)
    &&& fits_u32(lhs)
    &&& fits_u32(lhs + sector - 1)
    &&& data_sectors_for(block_size, blocks_sector, num_fats, total_fs_size, fat_blocks) >= 0
    &&& fits_u32(fat_blocks * block_size)
}

/// A FAT of `fat_blocks` blocks has an entry for every data sector it leaves.
pub open spec fn fat_covers(
    block_size: int,
    blocks_sector: int,
    num_fats: int,
    total_fs_size: int,
    fat_blocks: int,
) -> bool {
    fat_entries(block_size, fat_blocks) >= data_sectors_for(
        block_size,
        blocks_sector,
        num_fats,
        total_fs_size,
        fat_blocks,
    )
}

/// `fat_blocks` is the FAT size the volume is formatted with: the smallest number of
/// blocks (at least one) whose entries address every data sector left, with all the
/// arithmetic of every size tried along the way within `u32`.
pub open spec fn is_layout(
    block_size: int,
    blocks_sector: int,
    num_fats: int,
    total_fs_size: int,
    fat_blocks: int,
) -> bool {
    &&& 1 <= sector_bytes(block_size, blocks_sector) <= u32::MAX
    &&& probe_fits(block_size, blocks_sector, num_fats, total_fs_size, fat_blocks)
    &&& fat_covers(block_size, blocks_sector, num_fats, total_fs_size, fat_blocks)
    &&& forall|f: int|
        1 <= f < fat_blocks ==> #[trigger] probe_fits(
            block_size,
            blocks_sector,
            num_fats,
            total_fs_size,
            f,
        ) && !fat_covers(block_size, blocks_sector, num_fats, total_fs_size, f)
}

/// The parameters admit a layout.
pub open spec fn has_layout(
    block_size: int,
    blocks_sector: int,
    num_fats: int,
    total_fs_size: int,
) -> bool {
    exists|fb: int| is_layout(block_size, blocks_sector, num_fats, total_fs_size, fb)
}

/// The volume header: its format parameters and the layout derived from them.
pub struct Header {
    magic: u32,
    block_size: u32,
    blocks_sector: u32,
    reserved_sectors: u32,
    num_fats: u32,
    fat_blocks: u32,
    data_sectors: u32,
}

/// What a header holds.
pub struct HeaderView {
    pub magic: u32,
    pub block_size: u32,
    pub blocks_sector: u32,
    pub reserved_sectors: u32,
    pub num_fats: u32,
    pub fat_blocks: u32,
    pub data_sectors: u32,
}

impl View for Header {
    type V = HeaderView;

    closed spec fn view(&self) -> HeaderView {
        HeaderView {
            magic: self.magic,
            block_size: self.block_size,
            blocks_sector: self.blocks_sector,
            reserved_sectors: self.reserved_sectors,
            num_fats: self.num_fats,
            fat_blocks: self.fat_blocks,
            data_sectors: self.data_sectors,
        }
    }
}

/// The header of a volume laid out with `fat_blocks` blocks per FAT.
pub open spec fn header_for(
    block_size: int,
    blocks_sector: int,
    num_fats: int,
    total_fs_size: int,
    fat_blocks: int,
) -> HeaderView {
    HeaderView {
        magic: MAGIC,
        block_size: block_size as u32,
        blocks_sector: blocks_sector as u32,
        reserved_sectors: reserved_sectors_for(
            block_size,
            blocks_sector,
            num_fats,
            fat_blocks,
        ) as u32,
        num_fats: num_fats as u32,
        fat_blocks: fat_blocks as u32,
        data_sectors: data_sectors_for(
            block_size,
            blocks_sector,
            num_fats,
            total_fs_size,
            fat_blocks,
        ) as u32,
    }
}

/// What trying a FAT of `fat_blocks` blocks yields: the reserved and data sectors, or
/// `None` where the arithmetic leaves `u32`.
fn probe(block_size: u32, sector: u32, num_fats: u32, total_fs_size: u32, fat_blocks: u32) -> (r:
    Option<(u32, u32)>)
    requires
        1 <= sector,
    ensures
        ({
            let bs = block_size as int;
            let nf = num_fats as int;
            let fb = fat_blocks as int;
            let lhs = bs + nf * fb * bs;
            let ok = fits_u32(nf * fb) && fits_u32(nf * fb * bs) && fits_u32(lhs) && fits_u32(
                lhs + sector - 1,
            ) && total_fs_size as int / sector as int >= ceil_div(lhs, sector as int);
            match r {
                Some((res, data)) => ok && res == ceil_div(lhs, sector as int) && data
                    == total_fs_size as int / sector as int - ceil_div(lhs, sector as int),
                None => !ok,
            }
        }),
{
    let x = match num_fats.checked_mul(fat_blocks) {
        Some(x) => x,
        None => return None,
    };
    let y = match x.checked_mul(block_size) {
        Some(y) => y,
        None => return None,
    };
    let lhs = match block_size.checked_add(y) {
        Some(l) => l,
        None => return None,
    };
    if lhs > u32::MAX - (sector - 1) {
        return None;
    }
    let reserved = div_ceil(lhs, sector);
    let whole = total_fs_size / sector;
    if whole < reserved {
        return None;
    }
    Some((reserved, whole - reserved))
}

impl Header {
    /// Lays out a volume of `total_fs_size` bytes with `num_fats` copies of the FAT:
    /// grows the FAT a block at a time, starting from one, until its entries address
    /// every data sector that is left. `None` where the parameters admit no layout
    /// within `u32` arithmetic.
    pub fn plan(block_size: u32, blocks_sector: u32, num_fats: u32, total_fs_size: u32) -> (r:
        Option<Header>)
        ensures
            r is Some <==> has_layout(
                block_size as int,
                blocks_sector as int,
                num_fats as int,
                total_fs_size as int,
            ),
            r matches Some(h) ==> {
                &&& is_layout(
                    block_size as int,
                    blocks_sector as int,
                    num_fats as int,
                    total_fs_size as int,
                    h@.fat_blocks as int,
                )
                &&& h@ == header_for(
                    block_size as int,
                    blocks_sector as int,
                    num_fats as int,
                    total_fs_size as int,
                    h@.fat_blocks as int,
                )
            },
    {
        let ghost bs = block_size as int;
        let ghost bps = blocks_sector as int;
        let ghost nf = num_fats as int;
        let ghost total = total_fs_size as int;
        let sector = match block_size.checked_mul(blocks_sector) {
            Some(s) => s,
            None => {
                assert forall|fb: int| !is_layout(bs, bps, nf, total, fb) by {}
                return None;
            },
        };
        if sector == 0 {
            assert forall|fb: int| !is_layout(bs, bps, nf, total, fb) by {}
            return None;
        }
        assert(sector == sector_bytes(bs, bps));
        let mut fat_blocks: u32 = 1;
        loop
            invariant
                1 <= fat_blocks,
                sector == sector_bytes(bs, bps),
                1 <= sector,
                bs == block_size,
                bps == blocks_sector,
                nf == num_fats,
                total == total_fs_size,
                forall|f: int|
                    1 <= f < fat_blocks ==> #[trigger] probe_fits(bs, bps, nf, total, f)
                        && !fat_covers(bs, bps, nf, total, f),
            decreases u32::MAX - fat_blocks,
        {
            let ghost fb = fat_blocks as int;
            let probed = probe(block_size, sector, num_fats, total_fs_size, fat_blocks);
            let used = fat_blocks.checked_mul(block_size);
            match (probed, used) {
                (Some((reserved, data)), Some(used)) => {
                    assert(probe_fits(bs, bps, nf, total, fb));
                    if used / 4 >= data {
                        let h = Header {
                            magic: MAGIC,
                            block_size,
                            blocks_sector,
                            reserved_sectors: reserved,
                            num_fats,
                            fat_blocks,
                            data_sectors: data,
                        };
                        assert(is_layout(bs, bps, nf, total, fb));
                        assert(h@ == header_for(bs, bps, nf, total, fb));
                        return Some(h);
                    }
                    assert(!fat_covers(bs, bps, nf, total, fb));
                    if fat_blocks == u32::MAX {
                        assert forall|g: int| !is_layout(bs, bps, nf, total, g) by {
                            if is_layout(bs, bps, nf, total, g) {
                                if g < fb {
                                    assert(probe_fits(bs, bps, nf, total, g));
                                }
                            }
                        }
                        return None;
                    }
                    fat_blocks = fat_blocks + 1;
                },
                _ => {
                    assert(!probe_fits(bs, bps, nf, total, fb));
                    assert forall|g: int| !is_layout(bs, bps, nf, total, g) by {
                        if is_layout(bs, bps, nf, total, g) {
                            if g < fb {
                                assert(probe_fits(bs, bps, nf, total, g));
                            }
                        }
                    }
                    return None;
                },
            }
        }
    }

    /// The magic number.
    pub fn magic(&self) -> (r: u32)
        ensures
            r == self@.magic,
    {
        self.magic
    }

    /// Bytes per block.
    pub fn block_size(&self) -> (r: u32)
        ensures
            r == self@.block_size,
    {
        self.block_size
    }

    /// Blocks per sector.
    pub fn blocks_sector(&self) -> (r: u32)
        ensures
            r == self@.blocks_sector,
    {
        self.blocks_sector
    }

    /// Sectors before the data area.
    pub fn reserved_sectors(&self) -> (r: u32)
        ensures
            r == self@.reserved_sectors,
    {
        self.reserved_sectors
    }

    /// Copies of the FAT.
    pub fn num_fats(&self) -> (r: u32)
        ensures
            r == self@.num_fats,
    {
        self.num_fats
    }

    /// Blocks per FAT.
    pub fn fat_blocks(&self) -> (r: u32)
        ensures
            r == self@.fat_blocks,
    {
        self.fat_blocks
    }

    /// Sectors in the data area.
    pub fn data_sectors(&self) -> (r: u32)
        ensures
            r == self@.data_sectors,
    {
        self.data_sectors
    }
}

// ---------------------------------------------------------------------------
// Laws of the layout
// ---------------------------------------------------------------------------

/// The format parameters determine the FAT size: at most one size is the layout.
pub proof fn lemma_layout_unique(
    block_size: int,
    blocks_sector: int,
    num_fats: int,
    total_fs_size: int,
    a: int,
    b: int,
)
    requires
        is_layout(block_size, blocks_sector, num_fats, total_fs_size, a),
        is_layout(block_size, blocks_sector, num_fats, total_fs_size, b),
    ensures
        a == b,
{
    if a < b {
        assert(probe_fits(block_size, blocks_sector, num_fats, total_fs_size, a));
    } else if b < a {
        assert(probe_fits(block_size, blocks_sector, num_fats, total_fs_size, b));
    }
}

/// The reserved area holds the header block and every copy of the FAT, and wastes
/// less than a sector doing so.
pub proof fn lemma_reserved_holds_fats(
    block_size: int,
    blocks_sector: int,
    num_fats: int,
    total_fs_size: int,
    fat_blocks: int,
)
    requires
        is_layout(block_size, blocks_sector, num_fats, total_fs_size, fat_blocks),
    ensures
        ({
            let sector = sector_bytes(block_size, blocks_sector);
            let reserved = reserved_sectors_for(block_size, blocks_sector, num_fats, fat_blocks);
            let need = reserved_bytes(block_size, num_fats, fat_blocks);
            &&& reserved * sector >= need
            &&& reserved * sector < need + sector
        }),
{
    lemma_ceil_div(
        reserved_bytes(block_size, num_fats, fat_blocks),
        sector_bytes(block_size, blocks_sector),
    );
}

/// Reserved and data sectors together make up the whole volume: they fill
/// `total_fs_size` bytes, leaving less than a sector unused.
pub proof fn lemma_sectors_fill_volume(
    block_size: int,
    blocks_sector: int,
    num_fats: int,
    total_fs_size: int,
    fat_blocks: int,
)
    requires
        is_layout(block_size, blocks_sector, num_fats, total_fs_size, fat_blocks),
        total_fs_size >= 0,
    ensures
        ({
            let sector = sector_bytes(block_size, blocks_sector);
            let used = reserved_sectors_for(block_size, blocks_sector, num_fats, fat_blocks)
                + data_sectors_for(block_size, blocks_sector, num_fats, total_fs_size, fat_blocks);
            &&& used == total_fs_size / sector
            &&& used * sector <= total_fs_size
            &&& total_fs_size < (used + 1) * sector
        }),
{
    let sector = sector_bytes(block_size, blocks_sector);
    vstd::arithmetic::div_mod::lemma_fundamental_div_mod(total_fs_size, sector);
    vstd::arithmetic::div_mod::lemma_mod_bound(total_fs_size, sector);
    let q = total_fs_size / sector;
    assert(sector * q == q * sector) by (nonlinear_arith);
    assert((q + 1) * sector == q * sector + sector) by (nonlinear_arith);
}

/// The FAT of a layout addresses every data sector, and one block fewer would not.
pub proof fn lemma_fat_is_smallest_cover(
    block_size: int,
    blocks_sector: int,
    num_fats: int,
    total_fs_size: int,
    fat_blocks: int,
)
    requires
        is_layout(block_size, blocks_sector, num_fats, total_fs_size, fat_blocks),
    ensures
        fat_entries(block_size, fat_blocks) >= data_sectors_for(
            block_size,
            blocks_sector,
            num_fats,
            total_fs_size,
            fat_blocks,
        ),
        fat_blocks > 1 ==> fat_entries(block_size, fat_blocks - 1) < data_sectors_for(
            block_size,
            blocks_sector,
            num_fats,
            total_fs_size,
            fat_blocks - 1,
        ),
{
    if fat_blocks > 1 {
        assert(probe_fits(block_size, blocks_sector, num_fats, total_fs_size, fat_blocks - 1));
    }
}

} // verus!
