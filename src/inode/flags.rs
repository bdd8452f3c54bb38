//! Inode flags.
use vstd::prelude::*;

verus! {

/// Inode flags.
///
/// Bits outside the declared flags are kept as they were read.
#[derive(Clone, Copy, Debug, PartialEq, Eq, Structural)]
pub struct Flags {
    bits: u32,
}

impl View for Flags {
    type V = u32;

    closed spec fn view(&self) -> u32 {
        self.bits
    }
}

impl Flags {
    /// Requires secure deletion.
    pub const SECURE_DELETION: u32 = 0x1;

    /// Should be preserved for undeletion.
    pub const SHOULD_PRESERVE: u32 = 0x2;

    /// Compressed.
    pub const COMPRESSED: u32 = 0x4;

    /// All writes are synchronous.
    pub const SYNCHRONOUS: u32 = 0x8;

    /// Immutable.
    pub const IMMUTABLE: u32 = 0x10;

    /// Append only.
    pub const ONLY_APPEND: u32 = 0x20;

    /// Not to be dumped.
    pub const NODUMP: u32 = 0x40;

    /// Access time not updated.
    pub const NOATIME: u32 = 0x80;

    /// Dirty compressed file.
    pub const DIRTY_COMPRESSED: u32 = 0x100;

    /// Has compressed clusters.
    pub const COMPRESSED_CLUSTERS: u32 = 0x200;

    /// Not to be compressed.
    pub const NOCOMPRESSED: u32 = 0x400;

    /// Encrypted inode.
    pub const ENCRYPTED: u32 = 0x800;

    /// Directory has hashed indexes.
    pub const HASHED_INDEXES: u32 = 0x1000;

    /// AFS magic directory.
    pub const MAGIC_DIR: u32 = 0x2000;

    /// Data always written through the journal.
    pub const JOURNAL_DATA: u32 = 0x4000;

    /// Tail not to be merged.
    pub const NOTAIL: u32 = 0x8000;

    /// Directory entries written synchronously.
    pub const DIRSYNCHRONOUS: u32 = 0x10000;

    /// Top of a directory hierarchy.
    pub const TOPDIR: u32 = 0x20000;

    /// Huge file.
    pub const HUGE_FILE: u32 = 0x40000;

    /// Uses extents.
    pub const EXTENTS: u32 = 0x80000;

    /// Verity protected.
    pub const VERITY: u32 = 0x100000;

    /// Stores a large extended attribute value.
    pub const EA_INODE: u32 = 0x200000;

    /// Blocks allocated past the end of file.
    pub const EOFBLOCKS: u32 = 0x400000;

    /// A snapshot.
    pub const SNAPFILE: u32 = 0x1000000;

    /// Snapshot being deleted.
    pub const SNAPFILE_DELETED: u32 = 0x4000000;

    /// Snapshot shrink completed.
    pub const SNAPFILE_SHRUNK: u32 = 0x8000000;

    /// Has inline data.
    pub const INLINE: u32 = 0x10000000;

    /// Children inherit the project id.
    pub const PROJECT_ID_INHERIT: u32 = 0x20000000;

    /// Reserved for the ext4 library.
    pub const RESERVED: u32 = 0x80000000;

    /// User-visible flags.
    pub const USER_VISIBLE: u32 = 0x705bdfff;

    /// User-modifiable flags.
    pub const USER_MODIFIABLE: u32 = 0x604bc0ff;

    /// Every declared flag.
    pub const ALL: u32 = 0xbd7fffff;

    /// Wraps a raw value; never fails, and keeps unknown bits.
    pub fn from_raw(raw: u32) -> (r: Self)
        ensures
            r@ == raw,
    {
        Flags { bits: raw }
    }

    /// The raw value.
    pub fn bits(&self) -> (r: u32)
        ensures
            r == self@,
    {
        self.bits
    }

    /// Whether every bit of `flag` is set.
    pub fn contains(&self, flag: u32) -> (r: bool)
        ensures
            r == (self@ & flag == flag),
    {
        self.bits & flag == flag
    }

    /// Whether a bit outside the declared flags is set.
    pub fn unknown_bits(&self) -> (r: bool)
        ensures
            r == (self@ & !Self::ALL != 0),
    {
        self.bits & !Self::ALL != 0
    }
}

} // verus!
