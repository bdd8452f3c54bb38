//! Inodes: 128-byte classic records, or 160-byte large ones whose extra 32
//! bytes hold sub-second timestamps, the checksum's high half, the creation
//! time and the project id.
use crate::bytes::{
    concat_lo_hi, concat_u16_u32, concat_u32_u64, le16, le32, le32s, read_u32s, u16_le, u32_le,
};
use crate::cursor::{ByteCursor, IoError};
use crate::superblock::Creator;
use vstd::prelude::*;

pub mod file_type;
pub mod flags;
pub mod mode;
pub mod osd;

pub use file_type::FileType;
pub use flags::Flags;
pub use mode::Mode;
pub use osd::{Osd1, Osd2};

verus! {

/// A timestamp field: the stored word read as a signed count of seconds.
pub open spec fn seconds(raw: u32) -> i64 {
    (#[verifier::truncate] (raw as i32)) as i64
}

/// Reads a timestamp word as a signed count of seconds.
fn timestamp(raw: u32) -> (r: i64)
    ensures
        r == seconds(raw),
{
    (#[verifier::truncate] (raw as i32)) as i64
}

/// A decoded inode.
#[derive(Clone, Debug)]
pub struct Inode {
    /// File mode.
    pub mode: Mode,
    /// Owner uid.
    pub uid: u32,
    /// Size in bytes.
    pub size: u64,
    /// Last access time, in seconds since the epoch.
    pub atime: i64,
    /// Last inode change time, in seconds since the epoch.
    pub ctime: i64,
    /// Last data modification time, in seconds since the epoch.
    pub mtime: i64,
    /// Deletion time, in seconds since the epoch.
    pub dtime: i64,
    /// Gid.
    pub gid: u32,
    /// Hard link count.
    pub links_count: u16,
    /// Lower 32 bits of the block count.
    pub blocks_lo: u32,
    /// Inode flags.
    pub flags: Flags,
    /// First OS-specific word.
    pub osd1: Osd1,
    /// Block map or extent tree: fifteen words.
    pub block: Vec<u32>,
    /// File version.
    pub generation: u32,
    /// Extended attribute block.
    pub file_acl: u32,
    /// Obsolete fragment address.
    pub obso_faddr: u32,
    /// OS-specific tail.
    pub osd2: Osd2,
    /// Size of the fields past the classic 128 bytes (large inodes only).
    pub extra_isize: u16,
    /// Inode checksum (large Linux inodes only).
    pub checksum: u32,
    /// Extra change time bits (large inodes only).
    pub ctime_extra: u32,
    /// Extra modification time bits (large inodes only).
    pub mtime_extra: u32,
    /// Extra access time bits (large inodes only).
    pub atime_extra: u32,
    /// Creation time, in seconds since the epoch (large inodes only).
    pub crtime: i64,
    /// Extra creation time bits (large inodes only).
    pub crtime_extra: u32,
    /// Project id (large inodes only).
    pub projid: u32,
}

/// Why an inode could not be read.
#[derive(Clone, Copy, Debug, PartialEq, Eq, Structural)]
pub enum Error {
    IO(IoError),
}

impl Inode {
    pub const RAW_WIDTH: usize = 128;

    pub const RAW_WIDTH_LARGE: usize = 160;

    /// Bad blocks inode.
    pub const BAD_INO: usize = 1;

    /// Root directory inode.
    pub const ROOT_INO: usize = 2;

    /// User quota inode.
    pub const USR_QUOTA_INO: usize = 3;

    /// Group quota inode.
    pub const GRP_QUOTA_INO: usize = 4;

    /// Boot loader inode.
    pub const BOOT_LOADER_INO: usize = 5;

    /// Undelete directory inode.
    pub const UNDEL_DIR_INO: usize = 6;

    /// Reserved group descriptors inode.
    pub const RESIZE_INO: usize = 7;

    /// Journal inode.
    pub const JOURNAL_INO: usize = 8;

    /// The "exclude" inode, for snapshots.
    pub const EXCLUDE_INO: usize = 9;

    /// Replica inode.
    pub const REPLICA_INO: usize = 10;

    /// First non-reserved inode of original-revision filesystems.
    pub const GOOD_OLD_FIRST_INO: u32 = 11;

    /// Largest hard link count.
    pub const LINK_MAX: u16 = 65000;

    pub const GOOD_OLD_INODE_SIZE: u16 = 128;

    /// Direct block pointers.
    pub const NDIR_BLOCKS: usize = 12;

    /// Index of the indirect block pointer.
    pub const IND_BLOCK: usize = 12;

    /// Index of the double indirect block pointer.
    pub const DIND_BLOCK: usize = 13;

    /// Index of the triple indirect block pointer.
    pub const TIND_BLOCK: usize = 14;

    /// Words in the block map.
    pub const N_BLOCKS: usize = 15;

    /// The width on disk: 160 bytes for a large inode, else 128.
    pub open spec fn spec_width(large: bool) -> usize {
        if large {
            Self::RAW_WIDTH_LARGE
        } else {
            Self::RAW_WIDTH
        }
    }

    /// Whether `self` is what the bytes `b` decode to, for a filesystem
    /// created by `os`.
    pub open spec fn decodes_from(self, b: Seq<u8>, large: bool, os: Creator) -> bool {
        &&& b.len() >= Self::spec_width(large)
        &&& self.mode@ == le16(b, 0)
        &&& self.osd2.read_from(b, 116, os)
        &&& self.uid == concat_lo_hi(le16(b, 2) as int, self.osd2.spec_uid_high() as int, 16)
        &&& self.size == concat_lo_hi(le32(b, 4) as int, le32(b, 108) as int, 32)
        &&& self.atime == seconds(le32(b, 8))
        &&& self.ctime == seconds(le32(b, 12))
        &&& self.mtime == seconds(le32(b, 16))
        &&& self.dtime == seconds(le32(b, 20))
        &&& self.gid == concat_lo_hi(le16(b, 24) as int, self.osd2.spec_gid_high() as int, 16)
        &&& self.links_count == le16(b, 26)
        &&& self.blocks_lo == le32(b, 28)
        &&& self.flags@ == le32(b, 32)
        &&& self.osd1 == Osd1::spec_from_raw(le32(b, 36), os)
        &&& self.block@ == le32s(b, 40, 15)
        &&& self.generation == le32(b, 100)
        &&& self.file_acl == le32(b, 104) | ((self.osd2.spec_file_acl_high() as u32) << 16u32)
        &&& self.obso_faddr == le32(b, 112)
        &&& if large {
            &&& self.extra_isize == le16(b, 128)
            &&& self.checksum == (match self.osd2 {
                Osd2::Linux { checksum_lo, .. } => concat_lo_hi(
                    checksum_lo as int,
                    le16(b, 130) as int,
                    16,
                ),
                _ => 0,
            })
            &&& self.ctime_extra == le32(b, 132)
            &&& self.mtime_extra == le32(b, 136)
            &&& self.atime_extra == le32(b, 140)
            &&& self.crtime == seconds(le32(b, 144))
            &&& self.crtime_extra == le32(b, 148)
            &&& self.projid == le32(b, 156)
        } else {
            &&& self.extra_isize == 0
            &&& self.checksum == 0
            &&& self.ctime_extra == 0
            &&& self.mtime_extra == 0
            &&& self.atime_extra == 0
            &&& self.crtime == 0
            &&& self.crtime_extra == 0
            &&& self.projid == 0
        }
    }

    /// Decodes an inode from the first 128 (or, when `large`, 160) bytes of
    /// `b`, reading the OS-specific regions as `os` lays them out; fails when
    /// `b` is shorter.
    pub fn from_bytes(b: &[u8], large: bool, os: &Creator) -> (r: Result<Self, Error>)
        ensures
            b@.len() < Self::spec_width(large) ==> r == Err::<Self, Error>(
                Error::IO(IoError::UnexpectedEof),
            ),
            b@.len() >= Self::spec_width(large) ==> (r matches Ok(i) && i.decodes_from(
                b@,
                large,
                *os,
            )),
    {
        let width = if large {
            Self::RAW_WIDTH_LARGE
        } else {
            Self::RAW_WIDTH
        };
        if b.len() < width {
            return Err(Error::IO(IoError::UnexpectedEof));
        }
        let osd2 = Osd2::from_bytes(b, 116, os);
        let file_acl = u32_le(b, 104) | ((osd2.file_acl_high() as u32) << 16u32);
        let (extra_isize, checksum, ctime_extra, mtime_extra, atime_extra, crtime, crtime_extra, projid) =
            if large {
            let checksum = match osd2 {
                Osd2::Linux { checksum_lo, .. } => concat_u16_u32(checksum_lo, u16_le(b, 130)),
                _ => 0,
            };
            (
                u16_le(b, 128),
                checksum,
                u32_le(b, 132),
                u32_le(b, 136),
                u32_le(b, 140),
                timestamp(u32_le(b, 144)),
                u32_le(b, 148),
                u32_le(b, 156),
            )
        } else {
            (0, 0, 0, 0, 0, 0, 0, 0)
        };
        Ok(Inode {
            mode: Mode::from_raw(u16_le(b, 0)),
            uid: concat_u16_u32(u16_le(b, 2), osd2.uid_high()),
            size: concat_u32_u64(u32_le(b, 4), u32_le(b, 108)),
            atime: timestamp(u32_le(b, 8)),
            ctime: timestamp(u32_le(b, 12)),
            mtime: timestamp(u32_le(b, 16)),
            dtime: timestamp(u32_le(b, 20)),
            gid: concat_u16_u32(u16_le(b, 24), osd2.gid_high()),
            links_count: u16_le(b, 26),
            blocks_lo: u32_le(b, 28),
            flags: Flags::from_raw(u32_le(b, 32)),
            osd1: Osd1::from_raw(u32_le(b, 36), os),
            block: read_u32s(b, 40, 15),
            generation: u32_le(b, 100),
            file_acl,
            obso_faddr: u32_le(b, 112),
            osd2,
            extra_isize,
            checksum,
            ctime_extra,
            mtime_extra,
            atime_extra,
            crtime,
            crtime_extra,
            projid,
        })
    }

    /// Reads an inode at the cursor's position: 160 bytes when `large`, else
    /// 128.
    pub fn new(inner: &mut ByteCursor, large: bool, os: &Creator) -> (r: Result<Self, Error>)
        ensures
            final(inner).spec_data() == old(inner).spec_data(),
            (r is Ok) <==> old(inner).spec_pos() + Self::spec_width(large) <= old(
                inner,
            ).spec_data().len(),
            r matches Ok(i) ==> i.decodes_from(
                old(inner).spec_data().subrange(
                    old(inner).spec_pos(),
                    old(inner).spec_pos() + Self::spec_width(large),
                ),
                large,
                *os,
            ),
            r matches Err(e) ==> e == Error::IO(IoError::UnexpectedEof),
    {
        let width = if large {
            Self::RAW_WIDTH_LARGE
        } else {
            Self::RAW_WIDTH
        };
        assert(width == Self::spec_width(large));
        match inner.read_exact(width) {
            Ok(block) => Self::from_bytes(block.as_slice(), large, os),
            Err(e) => Err(Error::IO(e)),
        }
    }
}

} // verus!
