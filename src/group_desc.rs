//! Block group descriptors: 32 bytes, or 64 bytes with the 64bit feature,
//! whose `_lo` and `_hi` halves are joined into host integers.
use crate::bytes::{concat_lo_hi, concat_u16_u32, concat_u32_u64, le16, le32, u16_le, u32_le};
use crate::cursor::{ByteCursor, IoError};
use vstd::prelude::*;

pub mod flags;

pub use flags::Flags;

verus! {

/// One block group's descriptor.
#[derive(Clone, Copy, Debug, PartialEq, Eq, Structural)]
pub struct GroupDesc {
    /// Location of the block bitmap.
    pub block_bitmap: u64,
    /// Location of the inode bitmap.
    pub inode_bitmap: u64,
    /// Location of the inode table.
    pub inode_table: u64,
    /// Free block count.
    pub free_blocks_count: u32,
    /// Free inode count.
    pub free_inodes_count: u32,
    /// Directory count.
    pub used_dirs_count: u32,
    /// Block group flags.
    pub flags: Flags,
    /// Location of the snapshot exclusion bitmap.
    pub exclude_bitmap: u64,
    /// Block bitmap checksum.
    pub block_bitmap_csum: u32,
    /// Inode bitmap checksum.
    pub inode_bitmap_csum: u32,
    /// Unused inode count.
    pub itable_unused: u32,
    /// Group descriptor checksum.
    pub checksum: u16,
}

/// Why a group descriptor could not be read.
#[derive(Clone, Copy, Debug, PartialEq, Eq, Structural)]
pub enum Error {
    IO(IoError),
}

/// A 32-bit value from its 32-bit low half at `lo` and high half at `hi`.
pub open spec fn split32(b: Seq<u8>, lo: int, hi: int) -> int {
    concat_lo_hi(le16(b, lo) as int, le16(b, hi) as int, 16)
}

/// A 64-bit value from its 32-bit low half at `lo` and high half at `hi`.
pub open spec fn split64(b: Seq<u8>, lo: int, hi: int) -> int {
    concat_lo_hi(le32(b, lo) as int, le32(b, hi) as int, 32)
}

impl GroupDesc {
    pub const RAW_WIDTH32: usize = 32;

    pub const RAW_WIDTH64: usize = 64;

    /// The width on disk: 64 bytes with the 64bit feature, else 32.
    pub open spec fn spec_width(bit64: bool) -> usize {
        if bit64 {
            Self::RAW_WIDTH64
        } else {
            Self::RAW_WIDTH32
        }
    }

    /// Whether `self` is what the bytes `b` decode to.
    pub open spec fn decodes_from(self, b: Seq<u8>, bit64: bool) -> bool {
        &&& b.len() >= Self::spec_width(bit64)
        &&& self.flags@ == le16(b, 18)
        &&& self.checksum == le16(b, 30)
        &&& if bit64 {
            &&& self.block_bitmap == split64(b, 0, 32)
            &&& self.inode_bitmap == split64(b, 4, 36)
            &&& self.inode_table == split64(b, 8, 40)
            &&& self.free_blocks_count == split32(b, 12, 44)
            &&& self.free_inodes_count == split32(b, 14, 46)
            &&& self.used_dirs_count == split32(b, 16, 48)
            &&& self.itable_unused == split32(b, 28, 50)
            &&& self.exclude_bitmap == split64(b, 20, 52)
            &&& self.block_bitmap_csum == split32(b, 24, 56)
            &&& self.inode_bitmap_csum == split32(b, 26, 58)
        } else {
            &&& self.block_bitmap == le32(b, 0)
            &&& self.inode_bitmap == le32(b, 4)
            &&& self.inode_table == le32(b, 8)
            &&& self.free_blocks_count == le16(b, 12)
            &&& self.free_inodes_count == le16(b, 14)
            &&& self.used_dirs_count == le16(b, 16)
            &&& self.exclude_bitmap == le32(b, 20)
            &&& self.block_bitmap_csum == le16(b, 24)
            &&& self.inode_bitmap_csum == le16(b, 26)
            &&& self.itable_unused == le16(b, 28)
        }
    }

    /// Decodes a descriptor from the first 32 (or, with `bit64`, 64) bytes
    /// of `b`; fails when `b` is shorter.
    pub fn from_bytes(b: &[u8], bit64: bool) -> (r: Result<Self, Error>)
        ensures
            b@.len() < Self::spec_width(bit64) ==> r == Err::<Self, Error>(
                Error::IO(IoError::UnexpectedEof),
            ),
            b@.len() >= Self::spec_width(bit64) ==> (r matches Ok(g) && g.decodes_from(b@, bit64)),
    {
        if bit64 {
            if b.len() < Self::RAW_WIDTH64 {
                return Err(Error::IO(IoError::UnexpectedEof));
            }
            Ok(GroupDesc {
                block_bitmap: concat_u32_u64(u32_le(b, 0), u32_le(b, 32)),
                inode_bitmap: concat_u32_u64(u32_le(b, 4), u32_le(b, 36)),
                inode_table: concat_u32_u64(u32_le(b, 8), u32_le(b, 40)),
                free_blocks_count: concat_u16_u32(u16_le(b, 12), u16_le(b, 44)),
                free_inodes_count: concat_u16_u32(u16_le(b, 14), u16_le(b, 46)),
                used_dirs_count: concat_u16_u32(u16_le(b, 16), u16_le(b, 48)),
                flags: Flags::from_raw(u16_le(b, 18)),
                exclude_bitmap: concat_u32_u64(u32_le(b, 20), u32_le(b, 52)),
                block_bitmap_csum: concat_u16_u32(u16_le(b, 24), u16_le(b, 56)),
                inode_bitmap_csum: concat_u16_u32(u16_le(b, 26), u16_le(b, 58)),
                itable_unused: concat_u16_u32(u16_le(b, 28), u16_le(b, 50)),
                checksum: u16_le(b, 30),
            })
        } else {
            if b.len() < Self::RAW_WIDTH32 {
                return Err(Error::IO(IoError::UnexpectedEof));
            }
            Ok(GroupDesc {
                block_bitmap: u32_le(b, 0) as u64,
                inode_bitmap: u32_le(b, 4) as u64,
                inode_table: u32_le(b, 8) as u64,
                free_blocks_count: u16_le(b, 12) as u32,
                free_inodes_count: u16_le(b, 14) as u32,
                used_dirs_count: u16_le(b, 16) as u32,
                flags: Flags::from_raw(u16_le(b, 18)),
                exclude_bitmap: u32_le(b, 20) as u64,
                block_bitmap_csum: u16_le(b, 24) as u32,
                inode_bitmap_csum: u16_le(b, 26) as u32,
                itable_unused: u16_le(b, 28) as u32,
                checksum: u16_le(b, 30),
            })
        }
    }

    /// Reads a descriptor at the cursor's position: 32 bytes, or 64 with
    /// `bit64`.
    pub fn new(inner: &mut ByteCursor, bit64: bool) -> (r: Result<Self, Error>)
        ensures
            final(inner).spec_data() == old(inner).spec_data(),
            (r is Ok) <==> old(inner).spec_pos() + Self::spec_width(bit64) <= old(
                inner,
            ).spec_data().len(),
            r matches Ok(g) ==> g.decodes_from(
                old(inner).spec_data().subrange(
                    old(inner).spec_pos(),
                    old(inner).spec_pos() + Self::spec_width(bit64),
                ),
                bit64,
            ),
            r matches Err(e) ==> e == Error::IO(IoError::UnexpectedEof),
    {
        let width = if bit64 {
            Self::RAW_WIDTH64
        } else {
            Self::RAW_WIDTH32
        };
        assert(width == Self::spec_width(bit64));
        match inner.read_exact(width) {
            Ok(block) => Self::from_bytes(block.as_slice(), bit64),
            Err(e) => Err(Error::IO(e)),
        }
    }
}

} // verus!
