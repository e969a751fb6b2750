use vstd::prelude::*;

verus! {

/// Length of a block in bytes, as the block device counts it.
pub const BLOCK_LEN: u32 = 512;

/// Length of a block in bytes, as the in-memory file system counts it.
pub const BLOCKLEN: usize = 512;

/// One block of storage.
pub type Block = [u8; 512];

/// The contents of a block that holds nothing but zeros.
pub open spec fn zero_block_seq() -> Seq<u8> {
    Seq::new(512, |i: int| 0u8)
}

/// A block filled with zeros.
pub fn empty_block() -> (b: Block)
    ensures
        b@ == zero_block_seq(),
{
    let b: Block = [0u8; 512];
    assert(b@ =~= zero_block_seq());
    b
}

/// Overwrites every byte of `buf` with zero.
pub fn zero_block(buf: &mut Block)
    ensures
        final(buf)@ == zero_block_seq(),
{
    let mut i: usize = 0;
    while i < 512
        invariant
            i <= 512,
            buf@.len() == 512,
            forall|j: int| 0 <= j < i ==> buf@[j] == 0u8,
        decreases 512 - i,
    {
        buf[i] = 0u8;
        i = i + 1;
    }
    assert(buf@ =~= zero_block_seq());
}

} // verus!
