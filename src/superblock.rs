//! The superblock: filesystem-wide parameters, 1024 bytes at offset 1024 of
//! the filesystem.
use crate::bytes::{
    copy_bytes, enc16, enc32, enc32s, enc64, lemma_le16_round_trip, lemma_le32_round_trip,
    lemma_le32s_round_trip, lemma_le64_round_trip, lemma_subrange_concat, le16, le32, le32s, le64, read_u32s, u16_le,
    u32_le, u64_le,
};
use crate::cursor::{ByteCursor, IoError};
use crate::util::{hex_text, push_hex, string_from_utf8};
use crate::uuid::Uuid;
use vstd::arithmetic::power2::{lemma2_to64, lemma_pow2_adds, lemma_pow2_pos, pow2};
use vstd::bits::{lemma_u32_pow2_no_overflow, lemma_u32_shl_is_mul};
use vstd::prelude::*;
use vstd::string::StringExecFns;
use vstd::utf8::{decode_utf8, decode_utf8_encode_utf8, encode_utf8, valid_utf8};

pub mod features;
pub mod flags;
pub mod kinds;

pub use features::{FeatureCompat, FeatureIncompat, ReadOnlyFeatureCompat};
pub use flags::{DefaultMountOptions, Flags, State};
pub use kinds::{
    CharEncoding, ChecksumType, Creator, EncryptionMode, ErrorPolicy, HashVersion, RevisionLevel,
};

verus! {

/// The characters of the `n`-byte text field at `off`, when it is valid UTF-8.
pub open spec fn text_at(b: Seq<u8>, off: int, n: int) -> Option<Seq<char>> {
    let s = b.subrange(off, off + n);
    if valid_utf8(s) {
        Some(decode_utf8(s))
    } else {
        None
    }
}

/// The offset of the first text field of `b`, in field order, that is not
/// valid UTF-8.
pub open spec fn first_invalid_text(b: Seq<u8>) -> Option<usize> {
    if text_at(b, 120, 16) is None {
        Some(120)
    } else if text_at(b, 136, 64) is None {
        Some(136)
    } else if text_at(b, 424, 32) is None {
        Some(424)
    } else if text_at(b, 480, 32) is None {
        Some(480)
    } else if text_at(b, 512, 64) is None {
        Some(512)
    } else {
        None
    }
}

/// Encryption slots of known modes re-encode to their bytes.
proof fn lemma_modes_round_trip(algos: Seq<EncryptionMode>, b: Seq<u8>)
    requires
        b.len() >= 600,
        algos == Seq::new(4, |i: int| EncryptionMode::spec_from_raw(b[596 + i])),
        forall|i: int| 596 <= i < 600 ==> b[i] <= EncryptionMode::AES_256_CBC,
    ensures
        algos.map_values(|m: EncryptionMode| m.spec_to_raw()) == b.subrange(596, 600),
{
    assert forall|i: int| 0 <= i < 4 implies algos.map_values(|m: EncryptionMode| m.spec_to_raw())[i]
        == b.subrange(596, 600)[i] by {
        assert(b[596 + i] <= EncryptionMode::AES_256_CBC);
    }
    assert(algos.map_values(|m: EncryptionMode| m.spec_to_raw()) =~= b.subrange(596, 600));
}

/// `lo`, joined with `hi << 32` when the 64bit feature is set.
pub open spec fn gated_count(incompat: u32, lo: u32, hi: u32) -> int {
    if incompat & FeatureIncompat::BIT64 == FeatureIncompat::BIT64 {
        lo + hi * 0x1_0000_0000
    } else {
        lo as int
    }
}

/// The typed view of the superblock. Integers are host values decoded from
/// little-endian bytes; flag sets keep every raw bit; enumerations keep
/// unknown values; text fields hold their whole fixed-width field.
#[derive(Clone, Debug)]
pub struct Superblock {
    /// Total inode count.
    pub inodes_count: u32,
    /// Low 32 bits of the block count.
    pub blocks_count_lo: u32,
    /// Low 32 bits of the count of blocks only the super-user may allocate.
    pub r_blocks_count_lo: u32,
    /// Low 32 bits of the free block count.
    pub free_blocks_count_lo: u32,
    /// Free inode count.
    pub free_inodes_count: u32,
    /// First data block: at least 1 on 1 KiB-block filesystems, typically 0 otherwise.
    pub first_data_block: u32,
    /// Block size is 2 ^ (10 + log_block_size).
    pub log_block_size: u32,
    /// Cluster size is 2 ^ (10 + log_cluster_size); equal to log_block_size unless bigalloc is set.
    pub log_cluster_size: u32,
    /// Blocks per group.
    pub blocks_per_group: u32,
    /// Clusters per group; equal to blocks_per_group unless bigalloc is set.
    pub clusters_per_group: u32,
    /// Inodes per group.
    pub inodes_per_group: u32,
    /// Mount time, in seconds since the epoch.
    pub mtime: i64,
    /// Write time, in seconds since the epoch.
    pub wtime: i64,
    /// Number of mounts since the last check.
    pub mnt_count: u16,
    /// Number of mounts beyond which a check is needed.
    pub max_mnt_count: u16,
    /// Magic signature, 0xEF53 on a valid filesystem.
    pub magic: u16,
    /// Filesystem state.
    pub state: State,
    /// Behaviour when detecting errors.
    pub errors: ErrorPolicy,
    /// Minor revision level.
    pub minor_rev_level: u16,
    /// Time of the last check, in seconds since the epoch.
    pub lastcheck: i64,
    /// Maximum time between checks, in seconds.
    pub checkinterval: u32,
    /// Operating system that created the filesystem.
    pub creator_os: Creator,
    /// Revision level.
    pub rev_level: RevisionLevel,
    /// Default uid for reserved blocks.
    pub def_resuid: u16,
    /// Default gid for reserved blocks.
    pub def_resgid: u16,
    /// First non-reserved inode.
    pub first_ino: u32,
    /// Size of the inode structure, in bytes, as recorded.
    pub inode_size: u16,
    /// Block group number of this superblock.
    pub block_group_nr: u16,
    /// Compatible feature set.
    pub feature_compat: FeatureCompat,
    /// Incompatible feature set.
    pub feature_incompat: FeatureIncompat,
    /// Read-only compatible feature set.
    pub feature_ro_compat: ReadOnlyFeatureCompat,
    /// UUID of the volume.
    pub uuid: Uuid,
    /// Volume label, the whole 16-byte field.
    pub volume_name: String,
    /// Directory where the filesystem was last mounted, the whole 64-byte field.
    pub last_mounted: String,
    /// For compression (unused by Linux).
    pub algorithm_usage_bitmap: u32,
    /// Blocks to try to preallocate for files (unused by Linux).
    pub prealloc_blocks: u8,
    /// Blocks to preallocate for directories (unused by Linux).
    pub prealloc_dir_blocks: u8,
    /// Reserved group descriptor entries for future growth.
    pub reserved_gdt_blocks: u16,
    /// UUID of the journal superblock.
    pub journal_uuid: Uuid,
    /// Inode number of the journal file.
    pub journal_inum: u32,
    /// Device number of the journal file.
    pub journal_dev: u32,
    /// Start of the list of orphaned inodes to delete.
    pub last_orphan: u32,
    /// Seed of the directory hash.
    pub hash_seed: Uuid,
    /// Default hash algorithm for directory hashes.
    pub def_hash_version: HashVersion,
    /// Kind of the journal backup in jnl_blocks, kept raw.
    pub jnl_backup_type: u8,
    /// Size of a group descriptor when the 64bit feature is set.
    pub desc_size: u16,
    /// Default mount options.
    pub default_mount_opts: DefaultMountOptions,
    /// First metablock block group.
    pub first_meta_bg: u32,
    /// When the filesystem was created, in seconds since the epoch.
    pub mkfs_time: i64,
    /// Backup of the journal inode's block array, then its size high and low.
    pub jnl_blocks: Vec<u32>,
    /// High 32 bits of the block count.
    pub blocks_count_hi: u32,
    /// High 32 bits of the reserved block count.
    pub r_blocks_count_hi: u32,
    /// High 32 bits of the free block count.
    pub free_blocks_count_hi: u32,
    /// All inodes have at least this many extra bytes.
    pub min_extra_isize: u16,
    /// New inodes should reserve this many extra bytes.
    pub want_extra_isize: u16,
    /// Miscellaneous flags.
    pub flags: Flags,
    /// RAID stride, in blocks.
    pub raid_stride: u16,
    /// Seconds to wait in multi-mount protection checking.
    pub mmp_interval: u16,
    /// Block of the multi-mount protection data.
    pub mmp_block: u64,
    /// RAID stripe width, in blocks.
    pub raid_stripe_width: u32,
    /// A flexible block group holds 2 ^ log_groups_per_flex groups.
    pub log_groups_per_flex: u8,
    /// Metadata checksum algorithm.
    pub checksum_type: ChecksumType,
    /// Padding.
    pub reserved_pad: u16,
    /// KiB written over the filesystem's lifetime.
    pub kbytes_written: u64,
    /// Inode of the active snapshot.
    pub snapshot_inum: u32,
    /// Id of the active snapshot.
    pub snapshot_id: u32,
    /// Blocks reserved for the active snapshot.
    pub snapshot_r_blocks_count: u64,
    /// Head of the on-disk snapshot list.
    pub snapshot_list: u32,
    /// Number of errors seen.
    pub error_count: u32,
    /// First time an error happened, in seconds since the epoch.
    pub first_error_time: i64,
    /// Inode involved in the first error.
    pub first_error_ino: u32,
    /// Block involved in the first error.
    pub first_error_block: u64,
    /// Function where the first error happened, the whole 32-byte field.
    pub first_error_func: String,
    /// Line where the first error happened.
    pub first_error_line: u32,
    /// Time of the most recent error, in seconds since the epoch.
    pub last_error_time: i64,
    /// Inode involved in the most recent error.
    pub last_error_ino: u32,
    /// Line where the most recent error happened.
    pub last_error_line: u32,
    /// Block involved in the most recent error.
    pub last_error_block: u64,
    /// Function where the most recent error happened, the whole 32-byte field.
    pub last_error_func: String,
    /// Mount options, the whole 64-byte field.
    pub mount_opts: String,
    /// Inode of the user quota file.
    pub usr_quota_inum: u32,
    /// Inode of the group quota file.
    pub grp_quota_inum: u32,
    /// Overhead blocks, as stored (usually zero).
    pub overhead_blocks: u32,
    /// Block groups holding superblock backups, with sparse_super2.
    pub backup_bgs: Vec<u32>,
    /// Encryption algorithms in use, one per slot.
    pub encrypt_algos: Vec<EncryptionMode>,
    /// Salt of the string2key algorithm.
    pub encrypt_pw_salt: Uuid,
    /// Inode of lost+found.
    pub lpf_ino: u32,
    /// Inode that tracks project quotas.
    pub prj_quota_inum: u32,
    /// Seed of the metadata checksums.
    pub checksum_seed: u32,
    /// Upper 8 bits of wtime.
    pub wtime_hi: u8,
    /// Upper 8 bits of mtime.
    pub mtime_hi: u8,
    /// Upper 8 bits of mkfs_time.
    pub mkfs_time_hi: u8,
    /// Upper 8 bits of lastcheck.
    pub lastcheck_hi: u8,
    /// Upper 8 bits of first_error_time.
    pub first_error_time_hi: u8,
    /// Upper 8 bits of last_error_time.
    pub last_error_time_hi: u8,
    /// Padding.
    pub pad: u16,
    /// Filename character encoding.
    pub encoding: CharEncoding,
    /// Filename character encoding flags.
    pub encoding_flags: u16,
    /// Reserved words up to the checksum.
    pub reserved: Vec<u32>,
    /// Superblock checksum.
    pub checksum: u32,
}

/// The magic number that was found where 0xEF53 was expected.
#[derive(Clone, Copy, Debug, PartialEq, Eq, Structural)]
pub struct SignatureError(pub u16);

impl SignatureError {
    /// `Expected magic number was 0xEF53 but found 0xXXXX.`, the number found
    /// in four upper-case hex digits.
    pub open spec fn spec_text(self) -> Seq<char> {
        "Expected magic number was 0xEF53 but found 0x"@ + hex_text(self.0 as nat, 4) + "."@
    }

    /// The message: which magic number was expected and which was found.
    pub fn to_text(&self) -> (r: String)
        ensures
            r@ == self.spec_text(),
    {
        let mut s = String::from_str("Expected magic number was 0xEF53 but found 0x");
        push_hex(&mut s, self.0 as u64, 4);
        s.append(".");
        s
    }
}

/// A text field whose bytes are not valid UTF-8.
#[derive(Clone, Copy, Debug, PartialEq, Eq, Structural)]
pub struct Utf8Error {
    /// The offset of the field in the superblock.
    pub offset: usize,
}

/// Why a superblock could not be decoded.
#[derive(Clone, Copy, Debug, PartialEq, Eq, Structural)]
pub enum Error {
    IO(IoError),
    String(Utf8Error),
}

impl Superblock {
    /// Width of the superblock on disk.
    pub const RAW_WIDTH: usize = 1024;

    pub const MAGIC_SIGNATURE: u16 = 0xEF53;

    /// First non-reserved inode of original-revision filesystems.
    pub const GOOD_OLD_FIRST_INO: u32 = 11;

    /// Inode size of original-revision filesystems.
    pub const GOOD_OLD_INODE_SIZE: u16 = 128;

    /// Whether `self` is what the 1024 bytes `b` decode to, field by field.
    pub open spec fn decodes_from(self, b: Seq<u8>) -> bool {
        &&& b.len() >= Self::RAW_WIDTH
        &&& self.inodes_count == le32(b, 0)
        &&& self.blocks_count_lo == le32(b, 4)
        &&& self.r_blocks_count_lo == le32(b, 8)
        &&& self.free_blocks_count_lo == le32(b, 12)
        &&& self.free_inodes_count == le32(b, 16)
        &&& self.first_data_block == le32(b, 20)
        &&& self.log_block_size == le32(b, 24)
        &&& self.log_cluster_size == le32(b, 28)
        &&& self.blocks_per_group == le32(b, 32)
        &&& self.clusters_per_group == le32(b, 36)
        &&& self.inodes_per_group == le32(b, 40)
        &&& self.mtime == le32(b, 44) as i64
        &&& self.wtime == le32(b, 48) as i64
        &&& self.mnt_count == le16(b, 52)
        &&& self.max_mnt_count == le16(b, 54)
        &&& self.magic == le16(b, 56)
        &&& self.state@ == le16(b, 58)
        &&& self.errors == ErrorPolicy::spec_from_raw(le16(b, 60))
        &&& self.minor_rev_level == le16(b, 62)
        &&& self.lastcheck == le32(b, 64) as i64
        &&& self.checkinterval == le32(b, 68)
        &&& self.creator_os == Creator::spec_from_raw(le32(b, 72))
        &&& self.rev_level == RevisionLevel::spec_from_raw(le32(b, 76))
        &&& self.def_resuid == le16(b, 80)
        &&& self.def_resgid == le16(b, 82)
        &&& self.first_ino == le32(b, 84)
        &&& self.inode_size == le16(b, 88)
        &&& self.block_group_nr == le16(b, 90)
        &&& self.feature_compat@ == le32(b, 92)
        &&& self.feature_incompat@ == le32(b, 96)
        &&& self.feature_ro_compat@ == le32(b, 100)
        &&& self.uuid.read_from(b, 104)
        &&& text_at(b, 120, 16) == Some(self.volume_name@)
        &&& text_at(b, 136, 64) == Some(self.last_mounted@)
        &&& self.algorithm_usage_bitmap == le32(b, 200)
        &&& self.prealloc_blocks == b[204]
        &&& self.prealloc_dir_blocks == b[205]
        &&& self.reserved_gdt_blocks == le16(b, 206)
        &&& self.journal_uuid.read_from(b, 208)
        &&& self.journal_inum == le32(b, 224)
        &&& self.journal_dev == le32(b, 228)
        &&& self.last_orphan == le32(b, 232)
        &&& self.hash_seed.read_from(b, 236)
        &&& self.def_hash_version == HashVersion::spec_from_raw(b[252])
        &&& self.jnl_backup_type == b[253]
        &&& self.desc_size == le16(b, 254)
        &&& self.default_mount_opts@ == le32(b, 256)
        &&& self.first_meta_bg == le32(b, 260)
        &&& self.mkfs_time == le32(b, 264) as i64
        &&& self.jnl_blocks@ == le32s(b, 268, 17)
        &&& self.blocks_count_hi == le32(b, 336)
        &&& self.r_blocks_count_hi == le32(b, 340)
        &&& self.free_blocks_count_hi == le32(b, 344)
        &&& self.min_extra_isize == le16(b, 348)
        &&& self.want_extra_isize == le16(b, 350)
        &&& self.flags@ == le32(b, 352)
        &&& self.raid_stride == le16(b, 356)
        &&& self.mmp_interval == le16(b, 358)
        &&& self.mmp_block == le64(b, 360)
        &&& self.raid_stripe_width == le32(b, 368)
        &&& self.log_groups_per_flex == b[372]
        &&& self.checksum_type == ChecksumType::spec_from_raw(b[373])
        &&& self.reserved_pad == le16(b, 374)
        &&& self.kbytes_written == le64(b, 376)
        &&& self.snapshot_inum == le32(b, 384)
        &&& self.snapshot_id == le32(b, 388)
        &&& self.snapshot_r_blocks_count == le64(b, 392)
        &&& self.snapshot_list == le32(b, 400)
        &&& self.error_count == le32(b, 404)
        &&& self.first_error_time == le32(b, 408) as i64
        &&& self.first_error_ino == le32(b, 412)
        &&& self.first_error_block == le64(b, 416)
        &&& text_at(b, 424, 32) == Some(self.first_error_func@)
        &&& self.first_error_line == le32(b, 456)
        &&& self.last_error_time == le32(b, 460) as i64
        &&& self.last_error_ino == le32(b, 464)
        &&& self.last_error_line == le32(b, 468)
        &&& self.last_error_block == le64(b, 472)
        &&& text_at(b, 480, 32) == Some(self.last_error_func@)
        &&& text_at(b, 512, 64) == Some(self.mount_opts@)
        &&& self.usr_quota_inum == le32(b, 576)
        &&& self.grp_quota_inum == le32(b, 580)
        &&& self.overhead_blocks == le32(b, 584)
        &&& self.backup_bgs@ == le32s(b, 588, 2)
        &&& self.encrypt_algos@ == Seq::new(4, |i: int| EncryptionMode::spec_from_raw(b[596 + i]))
        &&& self.encrypt_pw_salt.read_from(b, 600)
        &&& self.lpf_ino == le32(b, 616)
        &&& self.prj_quota_inum == le32(b, 620)
        &&& self.checksum_seed == le32(b, 624)
        &&& self.wtime_hi == b[628]
        &&& self.mtime_hi == b[629]
        &&& self.mkfs_time_hi == b[630]
        &&& self.lastcheck_hi == b[631]
        &&& self.first_error_time_hi == b[632]
        &&& self.last_error_time_hi == b[633]
        &&& self.pad == le16(b, 634)
        &&& self.encoding.encoding == le16(b, 636)
        &&& self.encoding_flags == le16(b, 638)
        &&& self.reserved@ == le32s(b, 640, 95)
        &&& self.checksum == le32(b, 1020)
    }

    /// The result of decoding the bytes `b`: an I/O error when they are
    /// fewer than 1024, else the first text field that is not UTF-8, else
    /// the superblock.
    pub open spec fn decode_result_ok(r: Result<Self, Error>, b: Seq<u8>) -> bool {
        if b.len() < Self::RAW_WIDTH {
            r == Err::<Self, Error>(Error::IO(IoError::UnexpectedEof))
        } else {
            match first_invalid_text(b) {
                Some(offset) => r == Err::<Self, Error>(Error::String(Utf8Error { offset })),
                None => r matches Ok(sb) && sb.decodes_from(b),
            }
        }
    }

    /// Decodes the superblock from the first 1024 bytes of `b`.
    pub fn from_block(b: &[u8]) -> (r: Result<Self, Error>)
        ensures
            Self::decode_result_ok(r, b@),
    {
        if b.len() < Self::RAW_WIDTH {
            return Err(Error::IO(IoError::UnexpectedEof));
        }
        let volume_name = match string_from_utf8(copy_bytes(b, 120, 16)) {
            Some(s) => s,
            None => {
                return Err(Error::String(Utf8Error { offset: 120 }));
            },
        };
        let last_mounted = match string_from_utf8(copy_bytes(b, 136, 64)) {
            Some(s) => s,
            None => {
                return Err(Error::String(Utf8Error { offset: 136 }));
            },
        };
        let first_error_func = match string_from_utf8(copy_bytes(b, 424, 32)) {
            Some(s) => s,
            None => {
                return Err(Error::String(Utf8Error { offset: 424 }));
            },
        };
        let last_error_func = match string_from_utf8(copy_bytes(b, 480, 32)) {
            Some(s) => s,
            None => {
                return Err(Error::String(Utf8Error { offset: 480 }));
            },
        };
        let mount_opts = match string_from_utf8(copy_bytes(b, 512, 64)) {
            Some(s) => s,
            None => {
                return Err(Error::String(Utf8Error { offset: 512 }));
            },
        };
        let modes = copy_bytes(b, 596, 4);
        let encrypt_algos = EncryptionMode::from_modes(modes.as_slice());
        assert forall|i: int| 0 <= i < 4 implies encrypt_algos@[i] == EncryptionMode::spec_from_raw(
            b@[596 + i],
        ) by {
            assert(modes@[i] == b@[596 + i]);
        }
        assert(encrypt_algos@ =~= Seq::new(4, |i: int| EncryptionMode::spec_from_raw(b@[596 + i])));
        let sb = Superblock {
            inodes_count: u32_le(b, 0),
            blocks_count_lo: u32_le(b, 4),
            r_blocks_count_lo: u32_le(b, 8),
            free_blocks_count_lo: u32_le(b, 12),
            free_inodes_count: u32_le(b, 16),
            first_data_block: u32_le(b, 20),
            log_block_size: u32_le(b, 24),
            log_cluster_size: u32_le(b, 28),
            blocks_per_group: u32_le(b, 32),
            clusters_per_group: u32_le(b, 36),
            inodes_per_group: u32_le(b, 40),
            mtime: u32_le(b, 44) as i64,
            wtime: u32_le(b, 48) as i64,
            mnt_count: u16_le(b, 52),
            max_mnt_count: u16_le(b, 54),
            magic: u16_le(b, 56),
            state: State::from_raw(u16_le(b, 58)),
            errors: ErrorPolicy::from_raw(u16_le(b, 60)),
            minor_rev_level: u16_le(b, 62),
            lastcheck: u32_le(b, 64) as i64,
            checkinterval: u32_le(b, 68),
            creator_os: Creator::from_raw(u32_le(b, 72)),
            rev_level: RevisionLevel::from_raw(u32_le(b, 76)),
            def_resuid: u16_le(b, 80),
            def_resgid: u16_le(b, 82),
            first_ino: u32_le(b, 84),
            inode_size: u16_le(b, 88),
            block_group_nr: u16_le(b, 90),
            feature_compat: FeatureCompat::from_raw(u32_le(b, 92)),
            feature_incompat: FeatureIncompat::from_raw(u32_le(b, 96)),
            feature_ro_compat: ReadOnlyFeatureCompat::from_raw(u32_le(b, 100)),
            uuid: Uuid::from_bytes(b, 104),
            volume_name,
            last_mounted,
            algorithm_usage_bitmap: u32_le(b, 200),
            prealloc_blocks: b[204],
            prealloc_dir_blocks: b[205],
            reserved_gdt_blocks: u16_le(b, 206),
            journal_uuid: Uuid::from_bytes(b, 208),
            journal_inum: u32_le(b, 224),
            journal_dev: u32_le(b, 228),
            last_orphan: u32_le(b, 232),
            hash_seed: Uuid::from_bytes(b, 236),
            def_hash_version: HashVersion::from_raw(b[252]),
            jnl_backup_type: b[253],
            desc_size: u16_le(b, 254),
            default_mount_opts: DefaultMountOptions::from_raw(u32_le(b, 256)),
            first_meta_bg: u32_le(b, 260),
            mkfs_time: u32_le(b, 264) as i64,
            jnl_blocks: read_u32s(b, 268, 17),
            blocks_count_hi: u32_le(b, 336),
            r_blocks_count_hi: u32_le(b, 340),
            free_blocks_count_hi: u32_le(b, 344),
            min_extra_isize: u16_le(b, 348),
            want_extra_isize: u16_le(b, 350),
            flags: Flags::from_raw(u32_le(b, 352)),
            raid_stride: u16_le(b, 356),
            mmp_interval: u16_le(b, 358),
            mmp_block: u64_le(b, 360),
            raid_stripe_width: u32_le(b, 368),
            log_groups_per_flex: b[372],
            checksum_type: ChecksumType::from_raw(b[373]),
            reserved_pad: u16_le(b, 374),
            kbytes_written: u64_le(b, 376),
            snapshot_inum: u32_le(b, 384),
            snapshot_id: u32_le(b, 388),
            snapshot_r_blocks_count: u64_le(b, 392),
            snapshot_list: u32_le(b, 400),
            error_count: u32_le(b, 404),
            first_error_time: u32_le(b, 408) as i64,
            first_error_ino: u32_le(b, 412),
            first_error_block: u64_le(b, 416),
            first_error_func,
            first_error_line: u32_le(b, 456),
            last_error_time: u32_le(b, 460) as i64,
            last_error_ino: u32_le(b, 464),
            last_error_line: u32_le(b, 468),
            last_error_block: u64_le(b, 472),
            last_error_func,
            mount_opts,
            usr_quota_inum: u32_le(b, 576),
            grp_quota_inum: u32_le(b, 580),
            overhead_blocks: u32_le(b, 584),
            backup_bgs: read_u32s(b, 588, 2),
            encrypt_algos,
            encrypt_pw_salt: Uuid::from_bytes(b, 600),
            lpf_ino: u32_le(b, 616),
            prj_quota_inum: u32_le(b, 620),
            checksum_seed: u32_le(b, 624),
            wtime_hi: b[628],
            mtime_hi: b[629],
            mkfs_time_hi: b[630],
            lastcheck_hi: b[631],
            first_error_time_hi: b[632],
            last_error_time_hi: b[633],
            pad: u16_le(b, 634),
            encoding: CharEncoding::from_raw(u16_le(b, 636)),
            encoding_flags: u16_le(b, 638),
            reserved: read_u32s(b, 640, 95),
            checksum: u32_le(b, 1020),
        };
        Ok(sb)
    }

    /// Reads 1024 bytes at the cursor's position and decodes them. A short
    /// read gives an I/O error and never a partial superblock.
    pub fn new(inner: &mut ByteCursor) -> (r: Result<Self, Error>)
        ensures
            final(inner).spec_data() == old(inner).spec_data(),
            old(inner).spec_pos() + 1024 > old(inner).spec_data().len() ==> r == Err::<Self, Error>(
                Error::IO(IoError::UnexpectedEof),
            ),
            old(inner).spec_pos() + 1024 <= old(inner).spec_data().len() ==> Self::decode_result_ok(
                r,
                old(inner).spec_data().subrange(old(inner).spec_pos(), old(inner).spec_pos() + 1024),
            ),
    {
        match inner.read_exact(Self::RAW_WIDTH) {
            Ok(block) => Self::from_block(block.as_slice()),
            Err(e) => Err(Error::IO(e)),
        }
    }

    /// `None` when the magic number is 0xEF53, else the number found.
    pub fn check_signature(&self) -> (r: Option<SignatureError>)
        ensures
            r == (if self.magic == Self::MAGIC_SIGNATURE {
                None
            } else {
                Some(SignatureError(self.magic))
            }),
    {
        if self.magic == Self::MAGIC_SIGNATURE {
            None
        } else {
            Some(SignatureError(self.magic))
        }
    }

    /// `2 ^ (10 + log_block_size)`.
    pub fn get_block_size(&self) -> (r: u32)
        requires
            self.log_block_size <= 21,
        ensures
            r == pow2((10 + self.log_block_size) as nat),
    {
        let e = 10 + self.log_block_size;
        proof {
            lemma_u32_pow2_no_overflow(e as nat);
            lemma_u32_shl_is_mul(1, e);
        }
        1u32 << e
    }

    /// `2 ^ (10 + log_cluster_size)`.
    pub fn get_cluster_size(&self) -> (r: u32)
        requires
            self.log_cluster_size <= 21,
        ensures
            r == pow2((10 + self.log_cluster_size) as nat),
    {
        let e = 10 + self.log_cluster_size;
        proof {
            lemma_u32_pow2_no_overflow(e as nat);
            lemma_u32_shl_is_mul(1, e);
        }
        1u32 << e
    }

    /// Groups per flexible block group: `2 ^ log_groups_per_flex`.
    pub fn get_flexible_block_group(&self) -> (r: u32)
        requires
            self.log_groups_per_flex < 32,
        ensures
            r == pow2(self.log_groups_per_flex as nat),
    {
        let e = self.log_groups_per_flex as u32;
        proof {
            lemma_u32_pow2_no_overflow(e as nat);
            lemma_u32_shl_is_mul(1, e);
        }
        1u32 << e
    }

    /// The inode size: 128 on original-revision filesystems, else the
    /// recorded size.
    pub fn get_inode_size(&self) -> (r: u16)
        ensures
            r == (if self.rev_level == RevisionLevel::Original {
                Self::GOOD_OLD_INODE_SIZE
            } else {
                self.inode_size
            }),
    {
        match self.rev_level {
            RevisionLevel::Original => Self::GOOD_OLD_INODE_SIZE,
            _ => self.inode_size,
        }
    }

    /// The block count; the high half counts only with the 64bit feature.
    pub fn get_blocks_count(&self) -> (r: u64)
        ensures
            r == gated_count(self.feature_incompat@, self.blocks_count_lo, self.blocks_count_hi),
    {
        Self::gated(&self.feature_incompat, self.blocks_count_lo, self.blocks_count_hi)
    }

    /// The reserved block count; the high half counts only with the 64bit
    /// feature.
    pub fn get_reserved_blocks_count(&self) -> (r: u64)
        ensures
            r == gated_count(self.feature_incompat@, self.r_blocks_count_lo, self.r_blocks_count_hi),
    {
        Self::gated(&self.feature_incompat, self.r_blocks_count_lo, self.r_blocks_count_hi)
    }

    /// The free block count; the high half counts only with the 64bit
    /// feature.
    pub fn get_free_blocks_count(&self) -> (r: u64)
        ensures
            r == gated_count(
                self.feature_incompat@,
                self.free_blocks_count_lo,
                self.free_blocks_count_hi,
            ),
    {
        Self::gated(&self.feature_incompat, self.free_blocks_count_lo, self.free_blocks_count_hi)
    }

    fn gated(incompat: &FeatureIncompat, lo: u32, hi: u32) -> (r: u64)
        ensures
            r == gated_count(incompat@, lo, hi),
    {
        if incompat.contains(FeatureIncompat::BIT64) {
            let r = crate::bytes::concat_u32_u64(lo, hi);
            proof {
                lemma2_to64();
            }
            r
        } else {
            lo as u64
        }
    }

    /// The names of the three feature sets in turn, then `(unknown_bits)`
    /// when one of them has a bit outside its declared flags.
    pub open spec fn spec_features(self) -> Seq<&'static str> {
        FeatureCompat::spec_features_list(self.feature_compat@)
            + FeatureIncompat::spec_features_list(self.feature_incompat@)
            + ReadOnlyFeatureCompat::spec_features_list(self.feature_ro_compat@) + if self.feature_compat@
            & !FeatureCompat::ALL != 0 || self.feature_incompat@ & !FeatureIncompat::ALL != 0
            || self.feature_ro_compat@ & !ReadOnlyFeatureCompat::ALL != 0 {
            seq!["(unknown_bits)"]
        } else {
            Seq::empty()
        }
    }

    /// The names of the features that are set, compatible ones first, then
    /// incompatible, then read-only compatible, each in declaration order;
    /// `(unknown_bits)` last when any set has bits outside its flags.
    pub fn get_features(&self) -> (r: Vec<&'static str>)
        ensures
            r@ == self.spec_features(),
    {
        let mut features = self.feature_compat.features_list();
        let mut incompat = self.feature_incompat.features_list();
        features.append(&mut incompat);
        let mut ro = self.feature_ro_compat.features_list();
        features.append(&mut ro);
        if self.feature_compat.unknown_bits() || self.feature_incompat.unknown_bits()
            || self.feature_ro_compat.unknown_bits() {
            features.push("(unknown_bits)");
        }
        assert(features@ =~= self.spec_features());
        features
    }

    /// Whether the `DIR_PREALLOC` flag of `feature_compat` is set.
    pub fn feature_dir_prealloc(&self) -> (r: bool)
        ensures
            r == (self.feature_compat@ & FeatureCompat::DIR_PREALLOC == FeatureCompat::DIR_PREALLOC),
    {
        self.feature_compat.contains(FeatureCompat::DIR_PREALLOC)
    }

    /// Whether the `IMAGIC_INODE` flag of `feature_compat` is set.
    pub fn feature_imagic_inode(&self) -> (r: bool)
        ensures
            r == (self.feature_compat@ & FeatureCompat::IMAGIC_INODE == FeatureCompat::IMAGIC_INODE),
    {
        self.feature_compat.contains(FeatureCompat::IMAGIC_INODE)
    }

    /// Whether the `HAS_JOURNAL` flag of `feature_compat` is set.
    pub fn feature_has_journal(&self) -> (r: bool)
        ensures
            r == (self.feature_compat@ & FeatureCompat::HAS_JOURNAL == FeatureCompat::HAS_JOURNAL),
    {
        self.feature_compat.contains(FeatureCompat::HAS_JOURNAL)
    }

    /// Whether the `EXT_ATTR` flag of `feature_compat` is set.
    pub fn feature_ext_attr(&self) -> (r: bool)
        ensures
            r == (self.feature_compat@ & FeatureCompat::EXT_ATTR == FeatureCompat::EXT_ATTR),
    {
        self.feature_compat.contains(FeatureCompat::EXT_ATTR)
    }

    /// Whether the `RESIZE_INODE` flag of `feature_compat` is set.
    pub fn feature_resize_inode(&self) -> (r: bool)
        ensures
            r == (self.feature_compat@ & FeatureCompat::RESIZE_INODE == FeatureCompat::RESIZE_INODE),
    {
        self.feature_compat.contains(FeatureCompat::RESIZE_INODE)
    }

    /// Whether the `DIR_INDEX` flag of `feature_compat` is set.
    pub fn feature_dir_index(&self) -> (r: bool)
        ensures
            r == (self.feature_compat@ & FeatureCompat::DIR_INDEX == FeatureCompat::DIR_INDEX),
    {
        self.feature_compat.contains(FeatureCompat::DIR_INDEX)
    }

    /// Whether the `LAZY_BG` flag of `feature_compat` is set.
    pub fn feature_lazy_bg(&self) -> (r: bool)
        ensures
            r == (self.feature_compat@ & FeatureCompat::LAZY_BG == FeatureCompat::LAZY_BG),
    {
        self.feature_compat.contains(FeatureCompat::LAZY_BG)
    }

    /// Whether the `EXCLUDE_INODE` flag of `feature_compat` is set.
    pub fn feature_exclude_inode(&self) -> (r: bool)
        ensures
            r == (self.feature_compat@ & FeatureCompat::EXCLUDE_INODE == FeatureCompat::EXCLUDE_INODE),
    {
        self.feature_compat.contains(FeatureCompat::EXCLUDE_INODE)
    }

    /// Whether the `EXCLUDE_BITMAP` flag of `feature_compat` is set.
    pub fn feature_exclude_bitmap(&self) -> (r: bool)
        ensures
            r == (self.feature_compat@ & FeatureCompat::EXCLUDE_BITMAP == FeatureCompat::EXCLUDE_BITMAP),
    {
        self.feature_compat.contains(FeatureCompat::EXCLUDE_BITMAP)
    }

    /// Whether the `SPARSE_SUPER2` flag of `feature_compat` is set.
    pub fn feature_sparse_super2(&self) -> (r: bool)
        ensures
            r == (self.feature_compat@ & FeatureCompat::SPARSE_SUPER2 == FeatureCompat::SPARSE_SUPER2),
    {
        self.feature_compat.contains(FeatureCompat::SPARSE_SUPER2)
    }

    /// Whether the `COMPRESSION` flag of `feature_incompat` is set.
    pub fn feature_compression(&self) -> (r: bool)
        ensures
            r == (self.feature_incompat@ & FeatureIncompat::COMPRESSION == FeatureIncompat::COMPRESSION),
    {
        self.feature_incompat.contains(FeatureIncompat::COMPRESSION)
    }

    /// Whether the `FILETYPE` flag of `feature_incompat` is set.
    pub fn feature_filetype(&self) -> (r: bool)
        ensures
            r == (self.feature_incompat@ & FeatureIncompat::FILETYPE == FeatureIncompat::FILETYPE),
    {
        self.feature_incompat.contains(FeatureIncompat::FILETYPE)
    }

    /// Whether the `RECOVER` flag of `feature_incompat` is set.
    pub fn feature_recover(&self) -> (r: bool)
        ensures
            r == (self.feature_incompat@ & FeatureIncompat::RECOVER == FeatureIncompat::RECOVER),
    {
        self.feature_incompat.contains(FeatureIncompat::RECOVER)
    }

    /// Whether the `JOURNAL_DEV` flag of `feature_incompat` is set.
    pub fn feature_journal_dev(&self) -> (r: bool)
        ensures
            r == (self.feature_incompat@ & FeatureIncompat::JOURNAL_DEV == FeatureIncompat::JOURNAL_DEV),
    {
        self.feature_incompat.contains(FeatureIncompat::JOURNAL_DEV)
    }

    /// Whether the `META_BG` flag of `feature_incompat` is set.
    pub fn feature_meta_bg(&self) -> (r: bool)
        ensures
            r == (self.feature_incompat@ & FeatureIncompat::META_BG == FeatureIncompat::META_BG),
    {
        self.feature_incompat.contains(FeatureIncompat::META_BG)
    }

    /// Whether the `EXTENT` flag of `feature_incompat` is set.
    pub fn feature_extent(&self) -> (r: bool)
        ensures
            r == (self.feature_incompat@ & FeatureIncompat::EXTENT == FeatureIncompat::EXTENT),
    {
        self.feature_incompat.contains(FeatureIncompat::EXTENT)
    }

    /// Whether the `BIT64` flag of `feature_incompat` is set.
    pub fn feature_64bit(&self) -> (r: bool)
        ensures
            r == (self.feature_incompat@ & FeatureIncompat::BIT64 == FeatureIncompat::BIT64),
    {
        self.feature_incompat.contains(FeatureIncompat::BIT64)
    }

    /// Whether the `MMP` flag of `feature_incompat` is set.
    pub fn feature_mmp(&self) -> (r: bool)
        ensures
            r == (self.feature_incompat@ & FeatureIncompat::MMP == FeatureIncompat::MMP),
    {
        self.feature_incompat.contains(FeatureIncompat::MMP)
    }

    /// Whether the `FLEX_BG` flag of `feature_incompat` is set.
    pub fn feature_flex_bg(&self) -> (r: bool)
        ensures
            r == (self.feature_incompat@ & FeatureIncompat::FLEX_BG == FeatureIncompat::FLEX_BG),
    {
        self.feature_incompat.contains(FeatureIncompat::FLEX_BG)
    }

    /// Whether the `EA_INODE` flag of `feature_incompat` is set.
    pub fn feature_ea_inode(&self) -> (r: bool)
        ensures
            r == (self.feature_incompat@ & FeatureIncompat::EA_INODE == FeatureIncompat::EA_INODE),
    {
        self.feature_incompat.contains(FeatureIncompat::EA_INODE)
    }

    /// Whether the `DIRDATA` flag of `feature_incompat` is set.
    pub fn feature_dirdata(&self) -> (r: bool)
        ensures
            r == (self.feature_incompat@ & FeatureIncompat::DIRDATA == FeatureIncompat::DIRDATA),
    {
        self.feature_incompat.contains(FeatureIncompat::DIRDATA)
    }

    /// Whether the `CSUM_SEED` flag of `feature_incompat` is set.
    pub fn feature_csum_seed(&self) -> (r: bool)
        ensures
            r == (self.feature_incompat@ & FeatureIncompat::CSUM_SEED == FeatureIncompat::CSUM_SEED),
    {
        self.feature_incompat.contains(FeatureIncompat::CSUM_SEED)
    }

    /// Whether the `LARGEDIR` flag of `feature_incompat` is set.
    pub fn feature_largedir(&self) -> (r: bool)
        ensures
            r == (self.feature_incompat@ & FeatureIncompat::LARGEDIR == FeatureIncompat::LARGEDIR),
    {
        self.feature_incompat.contains(FeatureIncompat::LARGEDIR)
    }

    /// Whether the `INLINE_DATA` flag of `feature_incompat` is set.
    pub fn feature_inline_data(&self) -> (r: bool)
        ensures
            r == (self.feature_incompat@ & FeatureIncompat::INLINE_DATA == FeatureIncompat::INLINE_DATA),
    {
        self.feature_incompat.contains(FeatureIncompat::INLINE_DATA)
    }

    /// Whether the `ENCRYPT` flag of `feature_incompat` is set.
    pub fn feature_encrypt(&self) -> (r: bool)
        ensures
            r == (self.feature_incompat@ & FeatureIncompat::ENCRYPT == FeatureIncompat::ENCRYPT),
    {
        self.feature_incompat.contains(FeatureIncompat::ENCRYPT)
    }

    /// Whether the `CASEFOLD` flag of `feature_incompat` is set.
    pub fn feature_casefold(&self) -> (r: bool)
        ensures
            r == (self.feature_incompat@ & FeatureIncompat::CASEFOLD == FeatureIncompat::CASEFOLD),
    {
        self.feature_incompat.contains(FeatureIncompat::CASEFOLD)
    }

    /// Whether the `SPARSE_SUPER` flag of `feature_ro_compat` is set.
    pub fn feature_sparse_super(&self) -> (r: bool)
        ensures
            r == (self.feature_ro_compat@ & ReadOnlyFeatureCompat::SPARSE_SUPER == ReadOnlyFeatureCompat::SPARSE_SUPER),
    {
        self.feature_ro_compat.contains(ReadOnlyFeatureCompat::SPARSE_SUPER)
    }

    /// Whether the `LARGE_FILE` flag of `feature_ro_compat` is set.
    pub fn feature_large_file(&self) -> (r: bool)
        ensures
            r == (self.feature_ro_compat@ & ReadOnlyFeatureCompat::LARGE_FILE == ReadOnlyFeatureCompat::LARGE_FILE),
    {
        self.feature_ro_compat.contains(ReadOnlyFeatureCompat::LARGE_FILE)
    }

    /// Whether the `BTREE_DIR` flag of `feature_ro_compat` is set.
    pub fn feature_btree_dir(&self) -> (r: bool)
        ensures
            r == (self.feature_ro_compat@ & ReadOnlyFeatureCompat::BTREE_DIR == ReadOnlyFeatureCompat::BTREE_DIR),
    {
        self.feature_ro_compat.contains(ReadOnlyFeatureCompat::BTREE_DIR)
    }

    /// Whether the `HUGE_FILE` flag of `feature_ro_compat` is set.
    pub fn feature_huge_file(&self) -> (r: bool)
        ensures
            r == (self.feature_ro_compat@ & ReadOnlyFeatureCompat::HUGE_FILE == ReadOnlyFeatureCompat::HUGE_FILE),
    {
        self.feature_ro_compat.contains(ReadOnlyFeatureCompat::HUGE_FILE)
    }

    /// Whether the `GDT_CSUM` flag of `feature_ro_compat` is set.
    pub fn feature_gdt_csum(&self) -> (r: bool)
        ensures
            r == (self.feature_ro_compat@ & ReadOnlyFeatureCompat::GDT_CSUM == ReadOnlyFeatureCompat::GDT_CSUM),
    {
        self.feature_ro_compat.contains(ReadOnlyFeatureCompat::GDT_CSUM)
    }

    /// Whether the `DIR_NLINK` flag of `feature_ro_compat` is set.
    pub fn feature_dir_nlink(&self) -> (r: bool)
        ensures
            r == (self.feature_ro_compat@ & ReadOnlyFeatureCompat::DIR_NLINK == ReadOnlyFeatureCompat::DIR_NLINK),
    {
        self.feature_ro_compat.contains(ReadOnlyFeatureCompat::DIR_NLINK)
    }

    /// Whether the `EXTRA_ISIZE` flag of `feature_ro_compat` is set.
    pub fn feature_extra_isize(&self) -> (r: bool)
        ensures
            r == (self.feature_ro_compat@ & ReadOnlyFeatureCompat::EXTRA_ISIZE == ReadOnlyFeatureCompat::EXTRA_ISIZE),
    {
        self.feature_ro_compat.contains(ReadOnlyFeatureCompat::EXTRA_ISIZE)
    }

    /// Whether the `HAS_SNAPSHOT` flag of `feature_ro_compat` is set.
    pub fn feature_has_snapshot(&self) -> (r: bool)
        ensures
            r == (self.feature_ro_compat@ & ReadOnlyFeatureCompat::HAS_SNAPSHOT == ReadOnlyFeatureCompat::HAS_SNAPSHOT),
    {
        self.feature_ro_compat.contains(ReadOnlyFeatureCompat::HAS_SNAPSHOT)
    }

    /// Whether the `QUOTA` flag of `feature_ro_compat` is set.
    pub fn feature_quota(&self) -> (r: bool)
        ensures
            r == (self.feature_ro_compat@ & ReadOnlyFeatureCompat::QUOTA == ReadOnlyFeatureCompat::QUOTA),
    {
        self.feature_ro_compat.contains(ReadOnlyFeatureCompat::QUOTA)
    }

    /// Whether the `BIGALLOC` flag of `feature_ro_compat` is set.
    pub fn feature_bigalloc(&self) -> (r: bool)
        ensures
            r == (self.feature_ro_compat@ & ReadOnlyFeatureCompat::BIGALLOC == ReadOnlyFeatureCompat::BIGALLOC),
    {
        self.feature_ro_compat.contains(ReadOnlyFeatureCompat::BIGALLOC)
    }

    /// Whether the `METADATA_CSUM` flag of `feature_ro_compat` is set.
    pub fn feature_metadata_csum(&self) -> (r: bool)
        ensures
            r == (self.feature_ro_compat@ & ReadOnlyFeatureCompat::METADATA_CSUM == ReadOnlyFeatureCompat::METADATA_CSUM),
    {
        self.feature_ro_compat.contains(ReadOnlyFeatureCompat::METADATA_CSUM)
    }

    /// Whether the `REPLICA` flag of `feature_ro_compat` is set.
    pub fn feature_replica(&self) -> (r: bool)
        ensures
            r == (self.feature_ro_compat@ & ReadOnlyFeatureCompat::REPLICA == ReadOnlyFeatureCompat::REPLICA),
    {
        self.feature_ro_compat.contains(ReadOnlyFeatureCompat::REPLICA)
    }

    /// Whether the `READONLY` flag of `feature_ro_compat` is set.
    pub fn feature_readonly(&self) -> (r: bool)
        ensures
            r == (self.feature_ro_compat@ & ReadOnlyFeatureCompat::READONLY == ReadOnlyFeatureCompat::READONLY),
    {
        self.feature_ro_compat.contains(ReadOnlyFeatureCompat::READONLY)
    }

    /// Whether the `PROJECT` flag of `feature_ro_compat` is set.
    pub fn feature_project(&self) -> (r: bool)
        ensures
            r == (self.feature_ro_compat@ & ReadOnlyFeatureCompat::PROJECT == ReadOnlyFeatureCompat::PROJECT),
    {
        self.feature_ro_compat.contains(ReadOnlyFeatureCompat::PROJECT)
    }

    /// Whether the `VERITY` flag of `feature_ro_compat` is set.
    pub fn feature_verity(&self) -> (r: bool)
        ensures
            r == (self.feature_ro_compat@ & ReadOnlyFeatureCompat::VERITY == ReadOnlyFeatureCompat::VERITY),
    {
        self.feature_ro_compat.contains(ReadOnlyFeatureCompat::VERITY)
    }

    /// The bytes 0 to 32 that store the fields there.
    pub open spec fn spec_encode_0(self) -> Seq<u8> {
        enc32(self.inodes_count)
            + enc32(self.blocks_count_lo)
            + enc32(self.r_blocks_count_lo)
            + enc32(self.free_blocks_count_lo)
            + enc32(self.free_inodes_count)
            + enc32(self.first_data_block)
            + enc32(self.log_block_size)
            + enc32(self.log_cluster_size)
    }

    /// The bytes 32 to 58 that store the fields there.
    pub open spec fn spec_encode_1(self) -> Seq<u8> {
        enc32(self.blocks_per_group)
            + enc32(self.clusters_per_group)
            + enc32(self.inodes_per_group)
            + enc32(self.mtime as u32)
            + enc32(self.wtime as u32)
            + enc16(self.mnt_count)
            + enc16(self.max_mnt_count)
            + enc16(self.magic)
    }

    /// The bytes 58 to 82 that store the fields there.
    pub open spec fn spec_encode_2(self) -> Seq<u8> {
        enc16(self.state@)
            + enc16(self.errors.spec_to_raw())
            + enc16(self.minor_rev_level)
            + enc32(self.lastcheck as u32)
            + enc32(self.checkinterval)
            + enc32(self.creator_os.spec_to_raw())
            + enc32(self.rev_level.spec_to_raw())
            + enc16(self.def_resuid)
    }

    /// The bytes 82 to 120 that store the fields there.
    pub open spec fn spec_encode_3(self) -> Seq<u8> {
        enc16(self.def_resgid)
            + enc32(self.first_ino)
            + enc16(self.inode_size)
            + enc16(self.block_group_nr)
            + enc32(self.feature_compat@)
            + enc32(self.feature_incompat@)
            + enc32(self.feature_ro_compat@)
            + self.uuid.spec_encode()
    }

    /// The bytes 120 to 228 that store the fields there.
    pub open spec fn spec_encode_4(self) -> Seq<u8> {
        encode_utf8(self.volume_name@)
            + encode_utf8(self.last_mounted@)
            + enc32(self.algorithm_usage_bitmap)
            + seq![self.prealloc_blocks]
            + seq![self.prealloc_dir_blocks]
            + enc16(self.reserved_gdt_blocks)
            + self.journal_uuid.spec_encode()
            + enc32(self.journal_inum)
    }

    /// The bytes 228 to 264 that store the fields there.
    pub open spec fn spec_encode_5(self) -> Seq<u8> {
        enc32(self.journal_dev)
            + enc32(self.last_orphan)
            + self.hash_seed.spec_encode()
            + seq![self.def_hash_version.spec_to_raw()]
            + seq![self.jnl_backup_type]
            + enc16(self.desc_size)
            + enc32(self.default_mount_opts@)
            + enc32(self.first_meta_bg)
    }

    /// The bytes 264 to 356 that store the fields there.
    pub open spec fn spec_encode_6(self) -> Seq<u8> {
        enc32(self.mkfs_time as u32)
            + enc32s(self.jnl_blocks@)
            + enc32(self.blocks_count_hi)
            + enc32(self.r_blocks_count_hi)
            + enc32(self.free_blocks_count_hi)
            + enc16(self.min_extra_isize)
            + enc16(self.want_extra_isize)
            + enc32(self.flags@)
    }

    /// The bytes 356 to 384 that store the fields there.
    pub open spec fn spec_encode_7(self) -> Seq<u8> {
        enc16(self.raid_stride)
            + enc16(self.mmp_interval)
            + enc64(self.mmp_block)
            + enc32(self.raid_stripe_width)
            + seq![self.log_groups_per_flex]
            + seq![self.checksum_type.spec_to_raw()]
            + enc16(self.reserved_pad)
            + enc64(self.kbytes_written)
    }

    /// The bytes 384 to 424 that store the fields there.
    pub open spec fn spec_encode_8(self) -> Seq<u8> {
        enc32(self.snapshot_inum)
            + enc32(self.snapshot_id)
            + enc64(self.snapshot_r_blocks_count)
            + enc32(self.snapshot_list)
            + enc32(self.error_count)
            + enc32(self.first_error_time as u32)
            + enc32(self.first_error_ino)
            + enc64(self.first_error_block)
    }

    /// The bytes 424 to 576 that store the fields there.
    pub open spec fn spec_encode_9(self) -> Seq<u8> {
        encode_utf8(self.first_error_func@)
            + enc32(self.first_error_line)
            + enc32(self.last_error_time as u32)
            + enc32(self.last_error_ino)
            + enc32(self.last_error_line)
            + enc64(self.last_error_block)
            + encode_utf8(self.last_error_func@)
            + encode_utf8(self.mount_opts@)
    }

    /// The bytes 576 to 624 that store the fields there.
    pub open spec fn spec_encode_10(self) -> Seq<u8> {
        enc32(self.usr_quota_inum)
            + enc32(self.grp_quota_inum)
            + enc32(self.overhead_blocks)
            + enc32s(self.backup_bgs@)
            + self.encrypt_algos@.map_values(|m: EncryptionMode| m.spec_to_raw())
            + self.encrypt_pw_salt.spec_encode()
            + enc32(self.lpf_ino)
            + enc32(self.prj_quota_inum)
    }

    /// The bytes 624 to 636 that store the fields there.
    pub open spec fn spec_encode_11(self) -> Seq<u8> {
        enc32(self.checksum_seed)
            + seq![self.wtime_hi]
            + seq![self.mtime_hi]
            + seq![self.mkfs_time_hi]
            + seq![self.lastcheck_hi]
            + seq![self.first_error_time_hi]
            + seq![self.last_error_time_hi]
            + enc16(self.pad)
    }

    /// The bytes 636 to 1024 that store the fields there.
    pub open spec fn spec_encode_12(self) -> Seq<u8> {
        enc16(self.encoding.encoding)
            + enc16(self.encoding_flags)
            + enc32s(self.reserved@)
            + enc32(self.checksum)
    }

    /// The 1024 bytes that store `self`, each field written back at its width.
    pub open spec fn spec_encode(self) -> Seq<u8> {
        self.spec_encode_0()
            + self.spec_encode_1()
            + self.spec_encode_2()
            + self.spec_encode_3()
            + self.spec_encode_4()
            + self.spec_encode_5()
            + self.spec_encode_6()
            + self.spec_encode_7()
            + self.spec_encode_8()
            + self.spec_encode_9()
            + self.spec_encode_10()
            + self.spec_encode_11()
            + self.spec_encode_12()
    }

    proof fn lemma_round_trip_0(self, b: Seq<u8>)
        requires
            self.decodes_from(b),
        ensures
            self.spec_encode_0() == b.subrange(0, 32),
    {
        lemma_le32_round_trip(b, 0);
        lemma_le32_round_trip(b, 4);
        lemma_subrange_concat(b, 0, 4, 8);
        lemma_le32_round_trip(b, 8);
        lemma_subrange_concat(b, 0, 8, 12);
        lemma_le32_round_trip(b, 12);
        lemma_subrange_concat(b, 0, 12, 16);
        lemma_le32_round_trip(b, 16);
        lemma_subrange_concat(b, 0, 16, 20);
        lemma_le32_round_trip(b, 20);
        lemma_subrange_concat(b, 0, 20, 24);
        lemma_le32_round_trip(b, 24);
        lemma_subrange_concat(b, 0, 24, 28);
        lemma_le32_round_trip(b, 28);
        lemma_subrange_concat(b, 0, 28, 32);
    }

    proof fn lemma_round_trip_1(self, b: Seq<u8>)
        requires
            self.decodes_from(b),
        ensures
            self.spec_encode_1() == b.subrange(32, 58),
    {
        lemma_le32_round_trip(b, 32);
        lemma_le32_round_trip(b, 36);
        lemma_subrange_concat(b, 32, 36, 40);
        lemma_le32_round_trip(b, 40);
        lemma_subrange_concat(b, 32, 40, 44);
        lemma_le32_round_trip(b, 44);
        assert(self.mtime as u32 == le32(b, 44));
        lemma_subrange_concat(b, 32, 44, 48);
        lemma_le32_round_trip(b, 48);
        assert(self.wtime as u32 == le32(b, 48));
        lemma_subrange_concat(b, 32, 48, 52);
        lemma_le16_round_trip(b, 52);
        lemma_subrange_concat(b, 32, 52, 54);
        lemma_le16_round_trip(b, 54);
        lemma_subrange_concat(b, 32, 54, 56);
        lemma_le16_round_trip(b, 56);
        lemma_subrange_concat(b, 32, 56, 58);
    }

    proof fn lemma_round_trip_2(self, b: Seq<u8>)
        requires
            self.decodes_from(b),
        ensures
            self.spec_encode_2() == b.subrange(58, 82),
    {
        lemma_le16_round_trip(b, 58);
        lemma_le16_round_trip(b, 60);
        lemma_subrange_concat(b, 58, 60, 62);
        lemma_le16_round_trip(b, 62);
        lemma_subrange_concat(b, 58, 62, 64);
        lemma_le32_round_trip(b, 64);
        assert(self.lastcheck as u32 == le32(b, 64));
        lemma_subrange_concat(b, 58, 64, 68);
        lemma_le32_round_trip(b, 68);
        lemma_subrange_concat(b, 58, 68, 72);
        lemma_le32_round_trip(b, 72);
        lemma_subrange_concat(b, 58, 72, 76);
        lemma_le32_round_trip(b, 76);
        lemma_subrange_concat(b, 58, 76, 80);
        lemma_le16_round_trip(b, 80);
        lemma_subrange_concat(b, 58, 80, 82);
    }

    proof fn lemma_round_trip_3(self, b: Seq<u8>)
        requires
            self.decodes_from(b),
        ensures
            self.spec_encode_3() == b.subrange(82, 120),
    {
        lemma_le16_round_trip(b, 82);
        lemma_le32_round_trip(b, 84);
        lemma_subrange_concat(b, 82, 84, 88);
        lemma_le16_round_trip(b, 88);
        lemma_subrange_concat(b, 82, 88, 90);
        lemma_le16_round_trip(b, 90);
        lemma_subrange_concat(b, 82, 90, 92);
        lemma_le32_round_trip(b, 92);
        lemma_subrange_concat(b, 82, 92, 96);
        lemma_le32_round_trip(b, 96);
        lemma_subrange_concat(b, 82, 96, 100);
        lemma_le32_round_trip(b, 100);
        lemma_subrange_concat(b, 82, 100, 104);
        self.uuid.lemma_round_trip(b, 104);
        lemma_subrange_concat(b, 82, 104, 120);
    }

    proof fn lemma_round_trip_4(self, b: Seq<u8>)
        requires
            self.decodes_from(b),
        ensures
            self.spec_encode_4() == b.subrange(120, 228),
    {
        decode_utf8_encode_utf8(b.subrange(120, 136));
        decode_utf8_encode_utf8(b.subrange(136, 200));
        lemma_subrange_concat(b, 120, 136, 200);
        lemma_le32_round_trip(b, 200);
        lemma_subrange_concat(b, 120, 200, 204);
        assert(seq![self.prealloc_blocks] =~= b.subrange(204, 205));
        lemma_subrange_concat(b, 120, 204, 205);
        assert(seq![self.prealloc_dir_blocks] =~= b.subrange(205, 206));
        lemma_subrange_concat(b, 120, 205, 206);
        lemma_le16_round_trip(b, 206);
        lemma_subrange_concat(b, 120, 206, 208);
        self.journal_uuid.lemma_round_trip(b, 208);
        lemma_subrange_concat(b, 120, 208, 224);
        lemma_le32_round_trip(b, 224);
        lemma_subrange_concat(b, 120, 224, 228);
    }

    proof fn lemma_round_trip_5(self, b: Seq<u8>)
        requires
            self.decodes_from(b),
        ensures
            self.spec_encode_5() == b.subrange(228, 264),
    {
        lemma_le32_round_trip(b, 228);
        lemma_le32_round_trip(b, 232);
        lemma_subrange_concat(b, 228, 232, 236);
        self.hash_seed.lemma_round_trip(b, 236);
        lemma_subrange_concat(b, 228, 236, 252);
        assert(seq![self.def_hash_version.spec_to_raw()] =~= b.subrange(252, 253));
        lemma_subrange_concat(b, 228, 252, 253);
        assert(seq![self.jnl_backup_type] =~= b.subrange(253, 254));
        lemma_subrange_concat(b, 228, 253, 254);
        lemma_le16_round_trip(b, 254);
        lemma_subrange_concat(b, 228, 254, 256);
        lemma_le32_round_trip(b, 256);
        lemma_subrange_concat(b, 228, 256, 260);
        lemma_le32_round_trip(b, 260);
        lemma_subrange_concat(b, 228, 260, 264);
    }

    proof fn lemma_round_trip_6(self, b: Seq<u8>)
        requires
            self.decodes_from(b),
        ensures
            self.spec_encode_6() == b.subrange(264, 356),
    {
        lemma_le32_round_trip(b, 264);
        assert(self.mkfs_time as u32 == le32(b, 264));
        lemma_le32s_round_trip(b, 268, 17);
        lemma_subrange_concat(b, 264, 268, 336);
        lemma_le32_round_trip(b, 336);
        lemma_subrange_concat(b, 264, 336, 340);
        lemma_le32_round_trip(b, 340);
        lemma_subrange_concat(b, 264, 340, 344);
        lemma_le32_round_trip(b, 344);
        lemma_subrange_concat(b, 264, 344, 348);
        lemma_le16_round_trip(b, 348);
        lemma_subrange_concat(b, 264, 348, 350);
        lemma_le16_round_trip(b, 350);
        lemma_subrange_concat(b, 264, 350, 352);
        lemma_le32_round_trip(b, 352);
        lemma_subrange_concat(b, 264, 352, 356);
    }

    proof fn lemma_round_trip_7(self, b: Seq<u8>)
        requires
            self.decodes_from(b),
        ensures
            self.spec_encode_7() == b.subrange(356, 384),
    {
        lemma_le16_round_trip(b, 356);
        lemma_le16_round_trip(b, 358);
        lemma_subrange_concat(b, 356, 358, 360);
        lemma_le64_round_trip(b, 360);
        lemma_subrange_concat(b, 356, 360, 368);
        lemma_le32_round_trip(b, 368);
        lemma_subrange_concat(b, 356, 368, 372);
        assert(seq![self.log_groups_per_flex] =~= b.subrange(372, 373));
        lemma_subrange_concat(b, 356, 372, 373);
        assert(seq![self.checksum_type.spec_to_raw()] =~= b.subrange(373, 374));
        lemma_subrange_concat(b, 356, 373, 374);
        lemma_le16_round_trip(b, 374);
        lemma_subrange_concat(b, 356, 374, 376);
        lemma_le64_round_trip(b, 376);
        lemma_subrange_concat(b, 356, 376, 384);
    }

    proof fn lemma_round_trip_8(self, b: Seq<u8>)
        requires
            self.decodes_from(b),
        ensures
            self.spec_encode_8() == b.subrange(384, 424),
    {
        lemma_le32_round_trip(b, 384);
        lemma_le32_round_trip(b, 388);
        lemma_subrange_concat(b, 384, 388, 392);
        lemma_le64_round_trip(b, 392);
        lemma_subrange_concat(b, 384, 392, 400);
        lemma_le32_round_trip(b, 400);
        lemma_subrange_concat(b, 384, 400, 404);
        lemma_le32_round_trip(b, 404);
        lemma_subrange_concat(b, 384, 404, 408);
        lemma_le32_round_trip(b, 408);
        assert(self.first_error_time as u32 == le32(b, 408));
        lemma_subrange_concat(b, 384, 408, 412);
        lemma_le32_round_trip(b, 412);
        lemma_subrange_concat(b, 384, 412, 416);
        lemma_le64_round_trip(b, 416);
        lemma_subrange_concat(b, 384, 416, 424);
    }

    proof fn lemma_round_trip_9(self, b: Seq<u8>)
        requires
            self.decodes_from(b),
        ensures
            self.spec_encode_9() == b.subrange(424, 576),
    {
        decode_utf8_encode_utf8(b.subrange(424, 456));
        lemma_le32_round_trip(b, 456);
        lemma_subrange_concat(b, 424, 456, 460);
        lemma_le32_round_trip(b, 460);
        assert(self.last_error_time as u32 == le32(b, 460));
        lemma_subrange_concat(b, 424, 460, 464);
        lemma_le32_round_trip(b, 464);
        lemma_subrange_concat(b, 424, 464, 468);
        lemma_le32_round_trip(b, 468);
        lemma_subrange_concat(b, 424, 468, 472);
        lemma_le64_round_trip(b, 472);
        lemma_subrange_concat(b, 424, 472, 480);
        decode_utf8_encode_utf8(b.subrange(480, 512));
        lemma_subrange_concat(b, 424, 480, 512);
        decode_utf8_encode_utf8(b.subrange(512, 576));
        lemma_subrange_concat(b, 424, 512, 576);
    }

    proof fn lemma_round_trip_10(self, b: Seq<u8>)
        requires
            self.decodes_from(b),
            forall|i: int| 596 <= i < 600 ==> b[i] <= EncryptionMode::AES_256_CBC,
        ensures
            self.spec_encode_10() == b.subrange(576, 624),
    {
        lemma_le32_round_trip(b, 576);
        lemma_le32_round_trip(b, 580);
        lemma_subrange_concat(b, 576, 580, 584);
        lemma_le32_round_trip(b, 584);
        lemma_subrange_concat(b, 576, 584, 588);
        lemma_le32s_round_trip(b, 588, 2);
        lemma_subrange_concat(b, 576, 588, 596);
        lemma_modes_round_trip(self.encrypt_algos@, b);
        lemma_subrange_concat(b, 576, 596, 600);
        self.encrypt_pw_salt.lemma_round_trip(b, 600);
        lemma_subrange_concat(b, 576, 600, 616);
        lemma_le32_round_trip(b, 616);
        lemma_subrange_concat(b, 576, 616, 620);
        lemma_le32_round_trip(b, 620);
        lemma_subrange_concat(b, 576, 620, 624);
    }

    proof fn lemma_round_trip_11(self, b: Seq<u8>)
        requires
            self.decodes_from(b),
        ensures
            self.spec_encode_11() == b.subrange(624, 636),
    {
        lemma_le32_round_trip(b, 624);
        assert(seq![self.wtime_hi] =~= b.subrange(628, 629));
        lemma_subrange_concat(b, 624, 628, 629);
        assert(seq![self.mtime_hi] =~= b.subrange(629, 630));
        lemma_subrange_concat(b, 624, 629, 630);
        assert(seq![self.mkfs_time_hi] =~= b.subrange(630, 631));
        lemma_subrange_concat(b, 624, 630, 631);
        assert(seq![self.lastcheck_hi] =~= b.subrange(631, 632));
        lemma_subrange_concat(b, 624, 631, 632);
        assert(seq![self.first_error_time_hi] =~= b.subrange(632, 633));
        lemma_subrange_concat(b, 624, 632, 633);
        assert(seq![self.last_error_time_hi] =~= b.subrange(633, 634));
        lemma_subrange_concat(b, 624, 633, 634);
        lemma_le16_round_trip(b, 634);
        lemma_subrange_concat(b, 624, 634, 636);
    }

    proof fn lemma_round_trip_12(self, b: Seq<u8>)
        requires
            self.decodes_from(b),
        ensures
            self.spec_encode_12() == b.subrange(636, 1024),
    {
        lemma_le16_round_trip(b, 636);
        lemma_le16_round_trip(b, 638);
        lemma_subrange_concat(b, 636, 638, 640);
        lemma_le32s_round_trip(b, 640, 95);
        lemma_subrange_concat(b, 636, 640, 1020);
        lemma_le32_round_trip(b, 1020);
        lemma_subrange_concat(b, 636, 1020, 1024);
    }

    /// Decoding a superblock and writing each field back at its width gives
    /// back the 1024 bytes that were read. Encryption slots are the one
    /// lossy field: values above 3 read as `Invalid`, so they are left out.
    pub proof fn lemma_round_trip(self, b: Seq<u8>)
        requires
            b.len() == Self::RAW_WIDTH,
            self.decodes_from(b),
            forall|i: int| 596 <= i < 600 ==> b[i] <= EncryptionMode::AES_256_CBC,
        ensures
            self.spec_encode() == b,
    {
        self.lemma_round_trip_0(b);
        self.lemma_round_trip_1(b);
        lemma_subrange_concat(b, 0, 32, 58);
        self.lemma_round_trip_2(b);
        lemma_subrange_concat(b, 0, 58, 82);
        self.lemma_round_trip_3(b);
        lemma_subrange_concat(b, 0, 82, 120);
        self.lemma_round_trip_4(b);
        lemma_subrange_concat(b, 0, 120, 228);
        self.lemma_round_trip_5(b);
        lemma_subrange_concat(b, 0, 228, 264);
        self.lemma_round_trip_6(b);
        lemma_subrange_concat(b, 0, 264, 356);
        self.lemma_round_trip_7(b);
        lemma_subrange_concat(b, 0, 356, 384);
        self.lemma_round_trip_8(b);
        lemma_subrange_concat(b, 0, 384, 424);
        self.lemma_round_trip_9(b);
        lemma_subrange_concat(b, 0, 424, 576);
        self.lemma_round_trip_10(b);
        lemma_subrange_concat(b, 0, 576, 624);
        self.lemma_round_trip_11(b);
        lemma_subrange_concat(b, 0, 624, 636);
        self.lemma_round_trip_12(b);
        lemma_subrange_concat(b, 0, 636, 1024);
        assert(b.subrange(0, 1024) =~= b);
    }

    /// The block size is a power of two, at least 1024: 1024 times
    /// `2 ^ log_block_size`; the same holds of the cluster size.
    pub proof fn lemma_sizes_are_powers_of_two(self)
        ensures
            pow2((10 + self.log_block_size) as nat) == 1024 * pow2(self.log_block_size as nat),
            pow2((10 + self.log_cluster_size) as nat) == 1024 * pow2(self.log_cluster_size as nat),
            pow2((10 + self.log_block_size) as nat) >= 1024,
            pow2((10 + self.log_cluster_size) as nat) >= 1024,
    {
        lemma2_to64();
        lemma_pow2_adds(10, self.log_block_size as nat);
        lemma_pow2_adds(10, self.log_cluster_size as nat);
        lemma_pow2_pos(self.log_block_size as nat);
        lemma_pow2_pos(self.log_cluster_size as nat);
    }
}

} // verus!
