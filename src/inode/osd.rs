//! The two OS-specific regions of an inode, read according to the
//! filesystem's creator.
use crate::bytes::{le16, le32, u16_le, u32_le};
use crate::superblock::Creator;
use vstd::prelude::*;

verus! {

/// The first OS-specific word of an inode.
#[derive(Clone, Copy, Debug, PartialEq, Eq, Structural)]
pub enum Osd1 {
    Linux { version: u32 },
    Hurd { translator: u32 },
    Masix { reserved: u32 },
    Unknown(u32),
}

impl Osd1 {
    /// What `raw` means for a filesystem created by `os`.
    pub open spec fn spec_from_raw(raw: u32, os: Creator) -> Self {
        match os {
            Creator::Linux => Osd1::Linux { version: raw },
            Creator::Hurd => Osd1::Hurd { translator: raw },
            Creator::Masix => Osd1::Masix { reserved: raw },
            _ => Osd1::Unknown(raw),
        }
    }

    /// Reads the word `raw` as the creator `os` lays it out.
    pub fn from_raw(raw: u32, os: &Creator) -> (r: Self)
        ensures
            r == Self::spec_from_raw(raw, *os),
    {
        match os {
            Creator::Linux => Osd1::Linux { version: raw },
            Creator::Hurd => Osd1::Hurd { translator: raw },
            Creator::Masix => Osd1::Masix { reserved: raw },
            _ => Osd1::Unknown(raw),
        }
    }
}

/// The 12-byte OS-specific tail of an inode.
#[derive(Clone, Copy, Debug, PartialEq, Eq)]
pub enum Osd2 {
    Linux {
        /// Upper 16 bits of the block count.
        blocks_high: u16,
        /// Upper 16 bits of the extended attribute block.
        file_acl_high: u16,
        /// Upper 16 bits of the owner uid.
        uid_high: u16,
        /// Upper 16 bits of the gid.
        gid_high: u16,
        /// Lower 16 bits of the inode checksum.
        checksum_lo: u16,
    },
    Hurd {
        /// Upper 16 bits of the file mode.
        mode_high: u16,
        /// Upper 16 bits of the owner uid.
        uid_high: u16,
        /// Upper 16 bits of the gid.
        gid_high: u16,
        /// Author code.
        author: u32,
    },
    Masix {
        /// Upper 16 bits of the extended attribute block.
        file_acl_high: u16,
    },
    Unknown([u8; 12]),
}

impl Osd2 {
    /// Whether `self` is what the 12 bytes at `off` of `b` mean for a
    /// filesystem created by `os`.
    pub open spec fn read_from(self, b: Seq<u8>, off: int, os: Creator) -> bool {
        match os {
            Creator::Linux => self == Osd2::Linux {
                blocks_high: le16(b, off),
                file_acl_high: le16(b, off + 2),
                uid_high: le16(b, off + 4),
                gid_high: le16(b, off + 6),
                checksum_lo: le16(b, off + 8),
            },
            Creator::Hurd => self == Osd2::Hurd {
                mode_high: le16(b, off + 2),
                uid_high: le16(b, off + 4),
                gid_high: le16(b, off + 6),
                author: le32(b, off + 8),
            },
            Creator::Masix => self == Osd2::Masix { file_acl_high: le16(b, off + 2) },
            _ => self matches Osd2::Unknown(raw) && raw@ == b.subrange(off, off + 12),
        }
    }

    /// Upper 16 bits of the owner uid, where the layout has them; else 0.
    pub open spec fn spec_uid_high(self) -> u16 {
        match self {
            Osd2::Linux { uid_high, .. } => uid_high,
            Osd2::Hurd { uid_high, .. } => uid_high,
            _ => 0,
        }
    }

    /// Upper 16 bits of the gid, where the layout has them; else 0.
    pub open spec fn spec_gid_high(self) -> u16 {
        match self {
            Osd2::Linux { gid_high, .. } => gid_high,
            Osd2::Hurd { gid_high, .. } => gid_high,
            _ => 0,
        }
    }

    /// Upper 16 bits of the extended attribute block, where the layout has
    /// them; else 0.
    pub open spec fn spec_file_acl_high(self) -> u16 {
        match self {
            Osd2::Linux { file_acl_high, .. } => file_acl_high,
            Osd2::Masix { file_acl_high } => file_acl_high,
            _ => 0,
        }
    }

    /// Reads the 12 bytes at `off` as the creator `os` lays them out.
    pub fn from_bytes(b: &[u8], off: usize, os: &Creator) -> (r: Self)
        requires
            off + 12 <= b@.len(),
        ensures
            r.read_from(b@, off as int, *os),
    {
        let _len = b.len();
        match os {
            Creator::Linux => Osd2::Linux {
                blocks_high: u16_le(b, off),
                file_acl_high: u16_le(b, off + 2),
                uid_high: u16_le(b, off + 4),
                gid_high: u16_le(b, off + 6),
                checksum_lo: u16_le(b, off + 8),
            },
            Creator::Hurd => Osd2::Hurd {
                mode_high: u16_le(b, off + 2),
                uid_high: u16_le(b, off + 4),
                gid_high: u16_le(b, off + 6),
                author: u32_le(b, off + 8),
            },
            Creator::Masix => Osd2::Masix { file_acl_high: u16_le(b, off + 2) },
            _ => {
                let raw = [
                    b[off],
                    b[off + 1],
                    b[off + 2],
                    b[off + 3],
                    b[off + 4],
                    b[off + 5],
                    b[off + 6],
                    b[off + 7],
                    b[off + 8],
                    b[off + 9],
                    b[off + 10],
                    b[off + 11],
                ];
                assert(raw@ =~= b@.subrange(off as int, off + 12));
                Osd2::Unknown(raw)
            },
        }
    }

    /// Upper 16 bits of the owner uid, where the layout has them; else 0.
    pub fn uid_high(&self) -> (r: u16)
        ensures
            r == self.spec_uid_high(),
    {
        match self {
            Osd2::Linux { uid_high, .. } => *uid_high,
            Osd2::Hurd { uid_high, .. } => *uid_high,
            _ => 0,
        }
    }

    /// Upper 16 bits of the gid, where the layout has them; else 0.
    pub fn gid_high(&self) -> (r: u16)
        ensures
            r == self.spec_gid_high(),
    {
        match self {
            Osd2::Linux { gid_high, .. } => *gid_high,
            Osd2::Hurd { gid_high, .. } => *gid_high,
            _ => 0,
        }
    }

    /// Upper 16 bits of the extended attribute block, where the layout has
    /// them; else 0.
    pub fn file_acl_high(&self) -> (r: u16)
        ensures
            r == self.spec_file_acl_high(),
    {
        match self {
            Osd2::Linux { file_acl_high, .. } => *file_acl_high,
            Osd2::Masix { file_acl_high } => *file_acl_high,
            _ => 0,
        }
    }
}

} // verus!
