//! The three feature sets of the superblock.
use crate::flags::{listed, push_listed};
use vstd::prelude::*;

verus! {

/// Compatible features: a kernel that does not know one may still read and write the filesystem.
///
/// Bits outside the declared flags are kept as they were read.
#[derive(Clone, Copy, Debug, PartialEq, Eq, Structural)]
pub struct FeatureCompat {
    bits: u32,
}

impl View for FeatureCompat {
    type V = u32;

    closed spec fn view(&self) -> u32 {
        self.bits
    }
}

impl FeatureCompat {
    pub const DIR_PREALLOC: u32 = 0x1;

    pub const IMAGIC_INODE: u32 = 0x2;

    pub const HAS_JOURNAL: u32 = 0x4;

    pub const EXT_ATTR: u32 = 0x8;

    pub const RESIZE_INODE: u32 = 0x10;

    pub const DIR_INDEX: u32 = 0x20;

    pub const LAZY_BG: u32 = 0x40;

    pub const EXCLUDE_INODE: u32 = 0x80;

    pub const EXCLUDE_BITMAP: u32 = 0x100;

    pub const SPARSE_SUPER2: u32 = 0x200;

    /// Every declared flag.
    pub const ALL: u32 = 0x3ff;

    /// Wraps a raw value; never fails, and keeps unknown bits.
    pub fn from_raw(raw: u32) -> (r: Self)
        ensures
            r@ == raw,
    {
        FeatureCompat { bits: raw }
    }

    /// The raw value.
    pub fn bits(&self) -> (r: u32)
        ensures
            r == self@,
    {
        self.bits
    }

    /// Whether every bit of `flag` is set.
    pub fn contains(&self, flag: u32) -> (r: bool)
        ensures
            r == (self@ & flag == flag),
    {
        self.bits & flag == flag
    }

    /// Whether a bit outside the declared flags is set.
    pub fn unknown_bits(&self) -> (r: bool)
        ensures
            r == (self@ & !Self::ALL != 0),
    {
        self.bits & !Self::ALL != 0
    }

    /// The names of the known flags set in `bits`, in declaration order.
    pub open spec fn spec_features_list(bits: u32) -> Seq<&'static str> {
        listed(bits, Self::DIR_PREALLOC, "dir_prealloc")
            + listed(bits, Self::IMAGIC_INODE, "imagic_inodes")
            + listed(bits, Self::HAS_JOURNAL, "has_journal")
            + listed(bits, Self::EXT_ATTR, "ext_attr")
            + listed(bits, Self::RESIZE_INODE, "resize_inode")
            + listed(bits, Self::DIR_INDEX, "dir_index")
            + listed(bits, Self::LAZY_BG, "lazy_bg")
            + listed(bits, Self::EXCLUDE_INODE, "exclude_inode")
            + listed(bits, Self::EXCLUDE_BITMAP, "exclude_bitmap")
            + listed(bits, Self::SPARSE_SUPER2, "sparse_super2")
    }

    /// The names of the known flags that are set, in declaration order.
    pub fn features_list(&self) -> (r: Vec<&'static str>)
        ensures
            r@ == Self::spec_features_list(self@),
    {
        let bits = self.bits;
        let mut output: Vec<&'static str> = Vec::new();
        push_listed(&mut output, bits, Self::DIR_PREALLOC, "dir_prealloc");
        assert(output@ =~= listed(bits, Self::DIR_PREALLOC, "dir_prealloc"));
        push_listed(&mut output, bits, Self::IMAGIC_INODE, "imagic_inodes");
        push_listed(&mut output, bits, Self::HAS_JOURNAL, "has_journal");
        push_listed(&mut output, bits, Self::EXT_ATTR, "ext_attr");
        push_listed(&mut output, bits, Self::RESIZE_INODE, "resize_inode");
        push_listed(&mut output, bits, Self::DIR_INDEX, "dir_index");
        push_listed(&mut output, bits, Self::LAZY_BG, "lazy_bg");
        push_listed(&mut output, bits, Self::EXCLUDE_INODE, "exclude_inode");
        push_listed(&mut output, bits, Self::EXCLUDE_BITMAP, "exclude_bitmap");
        push_listed(&mut output, bits, Self::SPARSE_SUPER2, "sparse_super2");
        output
    }
}

/// Incompatible features: a kernel that does not know one must not mount the filesystem.
///
/// Bits outside the declared flags are kept as they were read.
#[derive(Clone, Copy, Debug, PartialEq, Eq, Structural)]
pub struct FeatureIncompat {
    bits: u32,
}

impl View for FeatureIncompat {
    type V = u32;

    closed spec fn view(&self) -> u32 {
        self.bits
    }
}

impl FeatureIncompat {
    pub const COMPRESSION: u32 = 0x1;

    pub const FILETYPE: u32 = 0x2;

    pub const RECOVER: u32 = 0x4;

    pub const JOURNAL_DEV: u32 = 0x8;

    pub const META_BG: u32 = 0x10;

    pub const EXTENT: u32 = 0x40;

    pub const BIT64: u32 = 0x80;

    pub const MMP: u32 = 0x100;

    pub const FLEX_BG: u32 = 0x200;

    pub const EA_INODE: u32 = 0x400;

    pub const DIRDATA: u32 = 0x1000;

    pub const CSUM_SEED: u32 = 0x2000;

    pub const LARGEDIR: u32 = 0x4000;

    pub const INLINE_DATA: u32 = 0x8000;

    pub const ENCRYPT: u32 = 0x10000;

    pub const CASEFOLD: u32 = 0x20000;

    /// Every declared flag.
    pub const ALL: u32 = 0x3f7df;

    /// Wraps a raw value; never fails, and keeps unknown bits.
    pub fn from_raw(raw: u32) -> (r: Self)
        ensures
            r@ == raw,
    {
        FeatureIncompat { bits: raw }
    }

    /// The raw value.
    pub fn bits(&self) -> (r: u32)
        ensures
            r == self@,
    {
        self.bits
    }

    /// Whether every bit of `flag` is set.
    pub fn contains(&self, flag: u32) -> (r: bool)
        ensures
            r == (self@ & flag == flag),
    {
        self.bits & flag == flag
    }

    /// Whether a bit outside the declared flags is set.
    pub fn unknown_bits(&self) -> (r: bool)
        ensures
            r == (self@ & !Self::ALL != 0),
    {
        self.bits & !Self::ALL != 0
    }

    /// The names of the known flags set in `bits`, in declaration order.
    pub open spec fn spec_features_list(bits: u32) -> Seq<&'static str> {
        listed(bits, Self::COMPRESSION, "compression")
            + listed(bits, Self::FILETYPE, "filetype")
            + listed(bits, Self::RECOVER, "recover")
            + listed(bits, Self::JOURNAL_DEV, "journal_dev")
            + listed(bits, Self::META_BG, "meta_bg")
            + listed(bits, Self::EXTENT, "extent")
            + listed(bits, Self::BIT64, "64bit")
            + listed(bits, Self::MMP, "mmp")
            + listed(bits, Self::FLEX_BG, "flex_bg")
            + listed(bits, Self::EA_INODE, "ea_inode")
            + listed(bits, Self::DIRDATA, "dirdata")
            + listed(bits, Self::CSUM_SEED, "csum_seed")
            + listed(bits, Self::LARGEDIR, "largedir")
            + listed(bits, Self::INLINE_DATA, "inline_data")
            + listed(bits, Self::ENCRYPT, "encrypt")
            + listed(bits, Self::CASEFOLD, "casefold")
    }

    /// The names of the known flags that are set, in declaration order.
    pub fn features_list(&self) -> (r: Vec<&'static str>)
        ensures
            r@ == Self::spec_features_list(self@),
    {
        let bits = self.bits;
        let mut output: Vec<&'static str> = Vec::new();
        push_listed(&mut output, bits, Self::COMPRESSION, "compression");
        assert(output@ =~= listed(bits, Self::COMPRESSION, "compression"));
        push_listed(&mut output, bits, Self::FILETYPE, "filetype");
        push_listed(&mut output, bits, Self::RECOVER, "recover");
        push_listed(&mut output, bits, Self::JOURNAL_DEV, "journal_dev");
        push_listed(&mut output, bits, Self::META_BG, "meta_bg");
        push_listed(&mut output, bits, Self::EXTENT, "extent");
        push_listed(&mut output, bits, Self::BIT64, "64bit");
        push_listed(&mut output, bits, Self::MMP, "mmp");
        push_listed(&mut output, bits, Self::FLEX_BG, "flex_bg");
        push_listed(&mut output, bits, Self::EA_INODE, "ea_inode");
        push_listed(&mut output, bits, Self::DIRDATA, "dirdata");
        push_listed(&mut output, bits, Self::CSUM_SEED, "csum_seed");
        push_listed(&mut output, bits, Self::LARGEDIR, "largedir");
        push_listed(&mut output, bits, Self::INLINE_DATA, "inline_data");
        push_listed(&mut output, bits, Self::ENCRYPT, "encrypt");
        push_listed(&mut output, bits, Self::CASEFOLD, "casefold");
        output
    }
}

/// Read-only compatible features: a kernel that does not know one may still mount the filesystem read-only.
///
/// Bits outside the declared flags are kept as they were read.
#[derive(Clone, Copy, Debug, PartialEq, Eq, Structural)]
pub struct ReadOnlyFeatureCompat {
    bits: u32,
}

impl View for ReadOnlyFeatureCompat {
    type V = u32;

    closed spec fn view(&self) -> u32 {
        self.bits
    }
}

impl ReadOnlyFeatureCompat {
    pub const SPARSE_SUPER: u32 = 0x1;

    pub const LARGE_FILE: u32 = 0x2;

    pub const BTREE_DIR: u32 = 0x4;

    pub const HUGE_FILE: u32 = 0x8;

    pub const GDT_CSUM: u32 = 0x10;

    pub const DIR_NLINK: u32 = 0x20;

    pub const EXTRA_ISIZE: u32 = 0x40;

    pub const HAS_SNAPSHOT: u32 = 0x80;

    pub const QUOTA: u32 = 0x100;

    pub const BIGALLOC: u32 = 0x200;

    pub const METADATA_CSUM: u32 = 0x400;

    pub const REPLICA: u32 = 0x800;

    pub const READONLY: u32 = 0x1000;

    pub const PROJECT: u32 = 0x2000;

    pub const VERITY: u32 = 0x8000;

    /// Every declared flag.
    pub const ALL: u32 = 0xbfff;

    /// Wraps a raw value; never fails, and keeps unknown bits.
    pub fn from_raw(raw: u32) -> (r: Self)
        ensures
            r@ == raw,
    {
        ReadOnlyFeatureCompat { bits: raw }
    }

    /// The raw value.
    pub fn bits(&self) -> (r: u32)
        ensures
            r == self@,
    {
        self.bits
    }

    /// Whether every bit of `flag` is set.
    pub fn contains(&self, flag: u32) -> (r: bool)
        ensures
            r == (self@ & flag == flag),
    {
        self.bits & flag == flag
    }

    /// Whether a bit outside the declared flags is set.
    pub fn unknown_bits(&self) -> (r: bool)
        ensures
            r == (self@ & !Self::ALL != 0),
    {
        self.bits & !Self::ALL != 0
    }

    /// The names of the known flags set in `bits`, in declaration order.
    pub open spec fn spec_features_list(bits: u32) -> Seq<&'static str> {
        listed(bits, Self::SPARSE_SUPER, "sparse_super")
            + listed(bits, Self::LARGE_FILE, "large_file")
            + listed(bits, Self::BTREE_DIR, "btree_dir")
            + listed(bits, Self::HUGE_FILE, "huge_file")
            + listed(bits, Self::GDT_CSUM, "gdt_csum")
            + listed(bits, Self::DIR_NLINK, "dir_nlink")
            + listed(bits, Self::EXTRA_ISIZE, "extra_isize")
            + listed(bits, Self::HAS_SNAPSHOT, "has_snapshot")
            + listed(bits, Self::QUOTA, "quota")
            + listed(bits, Self::BIGALLOC, "bigalloc")
            + listed(bits, Self::METADATA_CSUM, "metadata_csum")
            + listed(bits, Self::REPLICA, "replica")
            + listed(bits, Self::READONLY, "readonly")
            + listed(bits, Self::PROJECT, "project")
            + listed(bits, Self::VERITY, "verity")
    }

    /// The names of the known flags that are set, in declaration order.
    pub fn features_list(&self) -> (r: Vec<&'static str>)
        ensures
            r@ == Self::spec_features_list(self@),
    {
        let bits = self.bits;
        let mut output: Vec<&'static str> = Vec::new();
        push_listed(&mut output, bits, Self::SPARSE_SUPER, "sparse_super");
        assert(output@ =~= listed(bits, Self::SPARSE_SUPER, "sparse_super"));
        push_listed(&mut output, bits, Self::LARGE_FILE, "large_file");
        push_listed(&mut output, bits, Self::BTREE_DIR, "btree_dir");
        push_listed(&mut output, bits, Self::HUGE_FILE, "huge_file");
        push_listed(&mut output, bits, Self::GDT_CSUM, "gdt_csum");
        push_listed(&mut output, bits, Self::DIR_NLINK, "dir_nlink");
        push_listed(&mut output, bits, Self::EXTRA_ISIZE, "extra_isize");
        push_listed(&mut output, bits, Self::HAS_SNAPSHOT, "has_snapshot");
        push_listed(&mut output, bits, Self::QUOTA, "quota");
        push_listed(&mut output, bits, Self::BIGALLOC, "bigalloc");
        push_listed(&mut output, bits, Self::METADATA_CSUM, "metadata_csum");
        push_listed(&mut output, bits, Self::REPLICA, "replica");
        push_listed(&mut output, bits, Self::READONLY, "readonly");
        push_listed(&mut output, bits, Self::PROJECT, "project");
        push_listed(&mut output, bits, Self::VERITY, "verity");
        output
    }
}

} // verus!
