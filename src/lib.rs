//! Read-only decoder for the on-disk metadata of ext2/3/4 filesystem images.
use vstd::prelude::*;

pub mod bytes;
pub mod cursor;
pub mod file_sys;
pub mod flags;
pub mod group_desc;
pub mod inode;
pub mod superblock;
pub mod util;
pub mod uuid;

verus! {

} // verus!
