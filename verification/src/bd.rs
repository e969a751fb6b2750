use vstd::prelude::*;

use crate::block::{Block, BLOCK_LEN};

verus! {

/// Message of the error for opening a device that is already open.
pub const INVOP_OPEN: &'static str = "Opened already open file";

/// Message of the error for closing a device that is already closed.
pub const INVOP_CLOSE: &'static str = "Closed already closed file";

/// Message of the error for reading or writing a device that is not open.
pub const INVOP_NOTOPEN: &'static str = "File not open";

/// Declares `std::io::Error`, which a block device error may carry.
#[verifier::external_type_specification]
#[verifier::external_body]
pub struct ExIoError(std::io::Error);

/// What can go wrong on a block device.
#[derive(Debug)]
pub enum BDError {
    /// The operation does not fit the state of the device.
    InvalidOperation(&'static str),
    /// The storage behind the device failed.
    IOError(std::io::Error),
}

impl From<std::io::Error> for BDError {
    fn from(value: std::io::Error) -> (r: Self) {
        BDError::IOError(value)
    }
}

impl vstd::std_specs::convert::FromSpecImpl<std::io::Error> for BDError {
    open spec fn obeys_from_spec() -> bool {
        true
    }

    open spec fn from_spec(v: std::io::Error) -> BDError {
        BDError::IOError(v)
    }
}

/// A device that stores numbered blocks.
pub trait BD {
    /// Makes the device ready for reads and writes.
    fn open(&mut self) -> Result<(), BDError>;

    /// Releases the device.
    fn close(&mut self) -> Result<(), BDError>;

    /// Reads block `bdx` into `buf`.
    fn read(&mut self, bdx: u32, buf: &mut Block) -> Result<(), BDError>;

    /// Writes `buf` to block `bdx`.
    fn write(&mut self, bdx: u32, buf: &Block) -> Result<(), BDError>;
}

/// Blocks whose byte offset fits in `u32`: block numbers below this bound.
pub open spec fn block_bound() -> nat {
    0x80_0000
}

/// How a read of a block is carried out.
#[derive(Debug, PartialEq, Eq, Structural)]
pub enum ReadPlan {
    /// The block lies past the end of the file: the buffer is filled with zeros.
    Zeros,
    /// The block is read from this byte offset in the file.
    At(u64),
}

/// How a write of a block is carried out: first `append` empty blocks are added at the
/// end of the file, then the block is written at byte offset `offset`.
#[derive(Debug, PartialEq, Eq, Structural)]
pub struct WritePlan {
    pub append: u32,
    pub offset: u64,
}

/// The state of a block device kept in a file.
pub struct FileBDView {
    pub path: Seq<char>,
    pub open: bool,
    pub blocks: nat,
}

/// Byte offset of block `bdx`.
pub open spec fn block_offset(bdx: int) -> int {
    bdx * 512
}

impl FileBDView {
    /// The answer to a request to open the device.
    pub open spec fn open_result(self) -> Result<(), BDError> {
        if self.open {
            Err(BDError::InvalidOperation(INVOP_OPEN))
        } else {
            Ok(())
        }
    }

    /// The device once the file, `file_len` bytes long, is open.
    pub open spec fn after_open(self, file_len: u64) -> FileBDView {
        FileBDView { path: self.path, open: true, blocks: ((file_len as u32) / 512) as nat }
    }

    /// The answer to a request to close the device.
    pub open spec fn close_result(self) -> Result<(), BDError> {
        if self.open {
            Ok(())
        } else {
            Err(BDError::InvalidOperation(INVOP_CLOSE))
        }
    }

    /// The device once the file is closed.
    pub open spec fn after_close(self) -> FileBDView {
        FileBDView { path: self.path, open: false, blocks: 0 }
    }

    /// How a read of block `bdx` is carried out.
    pub open spec fn read_plan(self, bdx: u32) -> Result<ReadPlan, BDError> {
        if !self.open {
            Err(BDError::InvalidOperation(INVOP_NOTOPEN))
        } else if bdx >= self.blocks {
            Ok(ReadPlan::Zeros)
        } else {
            Ok(ReadPlan::At(block_offset(bdx as int) as u64))
        }
    }

    /// How a write of block `bdx` is carried out.
    pub open spec fn write_plan(self, bdx: u32) -> Result<WritePlan, BDError> {
        if !self.open {
            Err(BDError::InvalidOperation(INVOP_NOTOPEN))
        } else {
            Ok(
                WritePlan {
                    append: if bdx >= self.blocks {
                        (bdx + 1 - self.blocks) as u32
                    } else {
                        0
                    },
                    offset: block_offset(bdx as int) as u64,
                },
            )
        }
    }

    /// The device once block `bdx` has been written.
    pub open spec fn after_write(self, bdx: u32) -> FileBDView {
        if self.open && bdx >= self.blocks {
            FileBDView { path: self.path, open: true, blocks: (bdx + 1) as nat }
        } else {
            self
        }
    }

    /// The state of a device that can be reached: a closed device counts no blocks,
    /// and every block's offset fits in `u32`.
    pub open spec fn valid(self) -> bool {
        &&& !self.open ==> self.blocks == 0
        &&& self.blocks <= block_bound()
    }
}

/// The bookkeeping of a block device kept in a file: where the file is, whether it is
/// open, and how many whole blocks it holds.
pub struct FileBD {
    fpath: String,
    open: bool,
    fbs: u32,
}

impl View for FileBD {
    type V = FileBDView;

    closed spec fn view(&self) -> FileBDView {
        FileBDView { path: self.fpath@, open: self.open, blocks: self.fbs as nat }
    }
}

impl FileBD {
    #[verifier::type_invariant]
    spec fn inv(self) -> bool {
        &&& !self.open ==> self.fbs == 0
        &&& self.fbs <= block_bound()
    }

    /// A closed device on the file at `fpath`.
    pub fn new(fpath: &str) -> (r: Result<Self, BDError>)
        ensures
            r matches Ok(bd) && bd@ == (FileBDView { path: fpath@, open: false, blocks: 0 }),
            r matches Ok(bd) && bd@.valid(),
    {
        Ok(FileBD { fpath: fpath.to_string(), open: false, fbs: 0 })
    }

    /// The path of the file.
    pub fn path(&self) -> (r: &str)
        ensures
            r@ == self@.path,
    {
        self.fpath.as_str()
    }

    /// Whether the device is open.
    pub fn is_open(&self) -> (r: bool)
        ensures
            r == self@.open,
    {
        self.open
    }

    /// Number of whole blocks in the file.
    pub fn blocks(&self) -> (r: u32)
        ensures
            r == self@.blocks,
            self@.valid(),
    {
        proof {
            use_type_invariant(self);
        }
        self.fbs
    }

    /// Decides a request to open the device: refused where it is open already.
    pub fn begin_open(&self) -> (r: Result<(), BDError>)
        ensures
            r == self@.open_result(),
    {
        if self.open {
            Err(BDError::InvalidOperation(INVOP_OPEN))
        } else {
            Ok(())
        }
    }

    /// Records that the file, `file_len` bytes long, is open: the device counts the
    /// whole blocks in the low 32 bits of the length.
    pub fn opened(&mut self, file_len: u64)
        ensures
            final(self)@ == old(self)@.after_open(file_len),
            final(self)@.valid(),
    {
        proof {
            use_type_invariant(&*self);
        }
        let len = #[verifier::truncate] (file_len as u32);
        let fbs = len / BLOCK_LEN;
        assert(fbs <= block_bound()) by {
            assert(len <= u32::MAX);
        }
        self.open = true;
        self.fbs = fbs;
        proof {
            use_type_invariant(&*self);
        }
    }

    /// Decides a request to close the device: refused where it is closed already.
    pub fn begin_close(&self) -> (r: Result<(), BDError>)
        ensures
            r == self@.close_result(),
    {
        if self.open {
            Ok(())
        } else {
            Err(BDError::InvalidOperation(INVOP_CLOSE))
        }
    }

    /// Records that the file is closed.
    pub fn closed(&mut self)
        ensures
            final(self)@ == old(self)@.after_close(),
            final(self)@.valid(),
    {
        self.fbs = 0;
        self.open = false;
        proof {
            use_type_invariant(&*self);
        }
    }

    /// Decides how to read block `bdx`: refused where the device is closed, zeros past
    /// the end of the file, else the block's offset.
    pub fn plan_read(&self, bdx: u32) -> (r: Result<ReadPlan, BDError>)
        ensures
            r == self@.read_plan(bdx),
    {
        proof {
            use_type_invariant(self);
        }
        if !self.open {
            return Err(BDError::InvalidOperation(INVOP_NOTOPEN));
        }
        if bdx >= self.fbs {
            return Ok(ReadPlan::Zeros);
        }
        Ok(ReadPlan::At((bdx * BLOCK_LEN) as u64))
    }

    /// Decides how to write block `bdx`: refused where the device is closed; else the
    /// empty blocks that extend the file to hold the block, and the block's offset.
    pub fn plan_write(&self, bdx: u32) -> (r: Result<WritePlan, BDError>)
        requires
            self@.open ==> bdx < block_bound(),
        ensures
            r == self@.write_plan(bdx),
    {
        if !self.open {
            return Err(BDError::InvalidOperation(INVOP_NOTOPEN));
        }
        let append = if bdx >= self.fbs {
            bdx + 1 - self.fbs
        } else {
            0
        };
        Ok(WritePlan { append, offset: (bdx * BLOCK_LEN) as u64 })
    }

    /// Records that one empty block was added at the end of the file while extending
    /// it to hold block `bdx`.
    pub fn block_appended(&mut self, bdx: u32)
        requires
            old(self)@.open,
            old(self)@.blocks <= bdx,
            bdx < block_bound(),
        ensures
            final(self)@ == (FileBDView { blocks: old(self)@.blocks + 1, ..old(self)@ }),
            final(self)@.valid(),
    {
        self.fbs = self.fbs + 1;
        proof {
            use_type_invariant(&*self);
        }
    }
}

/// Zeroes `buf` for a read of a block past the end of the file.
pub fn fill_zeros(buf: &mut Block)
    ensures
        final(buf)@ == crate::block::zero_block_seq(),
{
    crate::block::zero_block(buf)
}

// ---------------------------------------------------------------------------
// Laws of the block device
// ---------------------------------------------------------------------------

/// Once block `bdx` has been written, a read of it goes to the offset the write used:
/// a written block is never read back as zeros.
pub proof fn lemma_read_after_write(v: FileBDView, bdx: u32)
    requires
        v.valid(),
        v.open,
        bdx < block_bound(),
    ensures
        v.after_write(bdx).read_plan(bdx) == Ok::<ReadPlan, BDError>(
            ReadPlan::At(v.write_plan(bdx)->Ok_0.offset),
        ),
{
}

/// Writing extends the file by exactly the blocks the plan appends, so that it holds
/// the written block; a write inside the file does not change the device.
pub proof fn lemma_write_extends(v: FileBDView, bdx: u32)
    requires
        v.valid(),
        v.open,
        bdx < block_bound(),
    ensures
        v.after_write(bdx).blocks == v.blocks + v.write_plan(bdx)->Ok_0.append,
        v.after_write(bdx).blocks > bdx,
        v.after_write(bdx).valid(),
        bdx < v.blocks ==> v.after_write(bdx) == v,
{
}

/// Reads go past the end of the file exactly where the block is not in the file.
pub proof fn lemma_read_past_end(v: FileBDView, bdx: u32)
    requires
        v.open,
    ensures
        (v.read_plan(bdx) == Ok::<ReadPlan, BDError>(ReadPlan::Zeros)) <==> bdx >= v.blocks,
{
}

/// A closed device refuses reads, writes and closing, and accepts opening.
pub proof fn lemma_closed_refuses(v: FileBDView, bdx: u32)
    requires
        !v.open,
    ensures
        v.read_plan(bdx) == Err::<ReadPlan, BDError>(BDError::InvalidOperation(INVOP_NOTOPEN)),
        v.write_plan(bdx) == Err::<WritePlan, BDError>(BDError::InvalidOperation(INVOP_NOTOPEN)),
        v.close_result() == Err::<(), BDError>(BDError::InvalidOperation(INVOP_CLOSE)),
        v.open_result() == Ok::<(), BDError>(()),
{
}

/// An open device refuses a second opening and accepts closing.
pub proof fn lemma_open_refuses_open(v: FileBDView)
    requires
        v.open,
    ensures
        v.open_result() == Err::<(), BDError>(BDError::InvalidOperation(INVOP_OPEN)),
        v.close_result() == Ok::<(), BDError>(()),
{
}

/// Opening and then closing a device leaves it as it was.
pub proof fn lemma_open_close_restores(v: FileBDView, file_len: u64)
    requires
        v.valid(),
        !v.open,
    ensures
        v.after_open(file_len).after_close() == v,
        v.after_open(file_len).valid(),
{
    assert((file_len as u32) / 512 <= block_bound()) by {
        assert((file_len as u32) <= u32::MAX);
    }
}

} // verus!
