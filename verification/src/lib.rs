use vstd::prelude::*;

pub mod bd;
pub mod block;
pub mod fs;
pub mod fsbuffer;
pub mod header;
pub mod layout;

pub use bd::{BDError, FileBD, BD};
pub use block::{Block, BLOCK_LEN, BLOCKLEN};
pub use fs::{Dir, DirIter, File, FileFAT, FileSystem, FsStats};
pub use fsbuffer::FSBuffer;
pub use header::{default_fs_header, header_page, FSHeader, PAGE_LEN};
pub use layout::{div_ceil, Header};

verus! {

} // verus!
