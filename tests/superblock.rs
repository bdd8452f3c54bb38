use recover::cursor::{ByteCursor, IoError};
use recover::file_sys::FileSystem;
use recover::superblock::{
    Creator, DefaultMountOptions, EncryptionMode, Error, ErrorPolicy, FeatureCompat,
    FeatureIncompat, Flags, HashVersion, ReadOnlyFeatureCompat, RevisionLevel, SignatureError,
    State, Superblock, Utf8Error,
};

fn put16(b: &mut [u8], off: usize, v: u16) {
    b[off..off + 2].copy_from_slice(&v.to_le_bytes());
}

fn put32(b: &mut [u8], off: usize, v: u32) {
    b[off..off + 4].copy_from_slice(&v.to_le_bytes());
}

fn minimal_block() -> Vec<u8> {
    let mut b = vec![0u8; 1024];
    put32(&mut b, 0, 16);
    put32(&mut b, 4, 64);
    put32(&mut b, 24, 0);
    put32(&mut b, 32, 32);
    put32(&mut b, 40, 8);
    put16(&mut b, 56, 0xEF53);
    put16(&mut b, 58, 0x1);
    put16(&mut b, 60, 1);
    put32(&mut b, 76, 0);
    b
}

fn image_with(block: &[u8]) -> Vec<u8> {
    let mut img = vec![0u8; 1024];
    img.extend_from_slice(block);
    img.extend_from_slice(&vec![0u8; 2048]);
    img
}

#[test]
fn minimal_valid_superblock() {
    let mut fs = FileSystem::new(ByteCursor::new(image_with(&minimal_block())), 0).unwrap();
    assert_eq!(fs.sb.check_signature(), None);
    assert_eq!(fs.sb.get_block_size(), 1024);
    assert_eq!(fs.sb.get_inode_size(), 128);
    assert_eq!(fs.sb.get_blocks_count(), 64);
    assert_eq!(fs.sb.errors, ErrorPolicy::Continue);
    assert!(fs.sb.state.contains(State::CLEANLY_UNMOUNTED));
    let it = fs.iter_group_descriptors();
    assert_eq!(it.count(), 2);
    assert_eq!(it.offset_of(0), 2048);
    assert_eq!(it.offset_of(1), 2048 + 32);
    assert_eq!(fs.group_descriptors().len(), 2);
}

#[test]
fn bad_magic() {
    let mut b = minimal_block();
    put16(&mut b, 56, 0x0000);
    let sb = Superblock::from_block(&b).unwrap();
    assert_eq!(sb.check_signature(), Some(SignatureError(0x0000)));
    assert_eq!(
        SignatureError(0x0000).to_text(),
        "Expected magic number was 0xEF53 but found 0x0000."
    );
}

#[test]
fn signature_check_is_stable() {
    let sb = Superblock::from_block(&minimal_block()).unwrap();
    assert_eq!(sb.check_signature(), sb.check_signature());
    let mut b = minimal_block();
    put16(&mut b, 56, 0xEF54);
    let sb = Superblock::from_block(&b).unwrap();
    assert_eq!(sb.check_signature(), Some(SignatureError(0xEF54)));
    assert_eq!(sb.check_signature(), sb.check_signature());
}

#[test]
fn bit64_feature_counts() {
    let mut b = minimal_block();
    put32(&mut b, 96, 0x80);
    put32(&mut b, 4, 0);
    put32(&mut b, 336, 1);
    put32(&mut b, 8, 5);
    put32(&mut b, 340, 2);
    put32(&mut b, 12, 7);
    put32(&mut b, 344, 3);
    let mut fs = FileSystem::new(ByteCursor::new(image_with(&b)), 0).unwrap();
    assert_eq!(fs.sb.get_blocks_count(), 0x1_0000_0000);
    assert_eq!(fs.sb.get_reserved_blocks_count(), 0x2_0000_0005);
    assert_eq!(fs.sb.get_free_blocks_count(), 0x3_0000_0007);
    assert!(fs.sb.feature_64bit());
    let it = fs.iter_group_descriptors();
    assert_eq!(it.offset_of(1) - it.offset_of(0), 64);
    assert_eq!(fs.group_descriptors().len(), 2);
}

#[test]
fn high_halves_ignored_without_bit64() {
    let mut b = minimal_block();
    put32(&mut b, 336, 1);
    put32(&mut b, 340, 1);
    put32(&mut b, 344, 1);
    put32(&mut b, 8, 9);
    put32(&mut b, 12, 10);
    let sb = Superblock::from_block(&b).unwrap();
    assert_eq!(sb.get_blocks_count(), 64);
    assert_eq!(sb.get_reserved_blocks_count(), 9);
    assert_eq!(sb.get_free_blocks_count(), 10);
}

#[test]
fn feature_list_assembly() {
    let mut b = minimal_block();
    put32(&mut b, 92, 0x24);
    put32(&mut b, 96, 0x42);
    put32(&mut b, 100, 0x1);
    let sb = Superblock::from_block(&b).unwrap();
    assert_eq!(
        sb.get_features(),
        vec!["has_journal", "dir_index", "filetype", "extent", "sparse_super"]
    );
}

#[test]
fn feature_list_reports_unknown_bits() {
    let mut b = minimal_block();
    put32(&mut b, 92, 0x4 | 0x400);
    put32(&mut b, 100, 0x4000);
    let sb = Superblock::from_block(&b).unwrap();
    assert!(sb.feature_compat.unknown_bits());
    assert!(sb.feature_ro_compat.unknown_bits());
    assert!(!sb.feature_incompat.unknown_bits());
    assert_eq!(sb.get_features(), vec!["has_journal", "(unknown_bits)"]);
}

#[test]
fn feature_lists_in_declaration_order() {
    assert_eq!(
        FeatureCompat::from_raw(0x3FF).features_list(),
        vec![
            "dir_prealloc",
            "imagic_inodes",
            "has_journal",
            "ext_attr",
            "resize_inode",
            "dir_index",
            "lazy_bg",
            "exclude_inode",
            "exclude_bitmap",
            "sparse_super2"
        ]
    );
    assert_eq!(
        FeatureIncompat::from_raw(0x80 | 0x20000).features_list(),
        vec!["64bit", "casefold"]
    );
    assert_eq!(
        ReadOnlyFeatureCompat::from_raw(0x8000 | 0x200).features_list(),
        vec!["bigalloc", "verity"]
    );
    assert!(FeatureCompat::from_raw(0).features_list().is_empty());
}

#[test]
fn unknown_state_bit() {
    let mut b = minimal_block();
    put16(&mut b, 58, 0x9);
    let sb = Superblock::from_block(&b).unwrap();
    assert!(sb.state.contains(State::CLEANLY_UNMOUNTED));
    assert!(sb.state.unknown_bits());
    assert_eq!(sb.state.bits(), 0x9);
}

#[test]
fn contains_agrees_with_shared_bits() {
    let raw: u32 = 0x0000_5A5A;
    for i in 0u32..32 {
        let f = 1u32 << i;
        let known = FeatureIncompat::ALL & f != 0;
        if known {
            assert_eq!(FeatureIncompat::from_raw(raw).contains(f), raw & f != 0);
        }
    }
    assert_eq!(
        FeatureIncompat::from_raw(raw).unknown_bits(),
        raw & !FeatureIncompat::ALL != 0
    );
    assert!(!State::from_raw(0x7).unknown_bits());
    assert!(State::from_raw(0x8).unknown_bits());
}

#[test]
fn multi_bit_mount_option_needs_both_bits() {
    let opts = DefaultMountOptions::from_raw(0x20);
    assert!(!opts.contains(DefaultMountOptions::JMODE_WBACK));
    assert_eq!(opts.default_mount_opts_list(), vec!["jmode_data"]);
    let opts = DefaultMountOptions::from_raw(0x60 | 0x1000);
    assert_eq!(
        opts.default_mount_opts_list(),
        vec!["jmode_data", "jmode_ordered", "jmode_wback", "(unknown_bits)"]
    );
}

#[test]
fn superblock_flags_list() {
    assert_eq!(
        Flags::from_raw(0x1 | 0x4).flags_list(),
        vec!["signed_directory_hash", "test_filesystem"]
    );
    assert_eq!(Flags::from_raw(0x10).flags_list(), vec!["(unknown_bits)"]);
}

#[test]
fn all_zero_superblock() {
    let sb = Superblock::from_block(&vec![0u8; 1024]).unwrap();
    assert_eq!(sb.check_signature(), Some(SignatureError(0)));
    assert_eq!(sb.get_blocks_count(), 0);
    assert_eq!(sb.rev_level, RevisionLevel::Original);
    assert_eq!(sb.creator_os, Creator::Linux);
    assert!(sb.uuid.is_null());
    assert_eq!(sb.uuid.to_text(), "<none>");
}

#[test]
fn truncated_image_is_io_error() {
    let img = image_with(&minimal_block());
    for len in [0usize, 1023, 1024, 1500, 2047] {
        let r = FileSystem::new(ByteCursor::new(img[..len].to_vec()), 0);
        assert!(matches!(
            r,
            Err(recover::file_sys::Error::Superblock(Error::IO(IoError::UnexpectedEof)))
        ));
    }
    assert!(FileSystem::new(ByteCursor::new(img[..2048].to_vec()), 0).is_ok());
    assert_eq!(
        Superblock::from_block(&minimal_block()[..1000]).unwrap_err(),
        Error::IO(IoError::UnexpectedEof)
    );
}

#[test]
fn partition_offset_shifts_everything() {
    let mut img = vec![0u8; 512];
    img.extend(image_with(&minimal_block()));
    let mut fs = FileSystem::new(ByteCursor::new(img), 512).unwrap();
    assert_eq!(fs.sb.inodes_count, 16);
    assert_eq!(fs.group_descriptors().len(), 2);
    let r = FileSystem::new(ByteCursor::new(vec![0u8; 4096]), u64::MAX);
    assert!(matches!(r, Err(recover::file_sys::Error::IO(IoError::InvalidSeek))));
}

#[test]
fn invalid_utf8_names_the_field() {
    let mut b = minimal_block();
    b[136] = 0xFF;
    assert_eq!(
        Superblock::from_block(&b).unwrap_err(),
        Error::String(Utf8Error { offset: 136 })
    );
    b[120] = 0xC3;
    assert_eq!(
        Superblock::from_block(&b).unwrap_err(),
        Error::String(Utf8Error { offset: 120 })
    );
    let mut b = minimal_block();
    b[520] = 0x80;
    assert_eq!(
        Superblock::from_block(&b).unwrap_err(),
        Error::String(Utf8Error { offset: 512 })
    );
}

#[test]
fn text_fields_keep_whole_width() {
    let mut b = minimal_block();
    b[120..124].copy_from_slice(b"root");
    b[136] = b'/';
    let sb = Superblock::from_block(&b).unwrap();
    assert_eq!(sb.volume_name.len(), 16);
    assert!(sb.volume_name.starts_with("root\0"));
    assert_eq!(sb.last_mounted.len(), 64);
    assert_eq!(recover::util::get_string(&sb.volume_name), sb.volume_name.as_str());
    assert_eq!(recover::util::get_string(&sb.mount_opts), "<not available>");
}

#[test]
fn dynamic_revision_keeps_recorded_inode_size() {
    let mut b = minimal_block();
    put32(&mut b, 76, 1);
    put16(&mut b, 88, 128);
    let sb = Superblock::from_block(&b).unwrap();
    assert_eq!(sb.rev_level, RevisionLevel::Dynamic);
    assert_eq!(sb.get_inode_size(), 128);
    put16(&mut b, 88, 256);
    assert_eq!(Superblock::from_block(&b).unwrap().get_inode_size(), 256);
}

#[test]
fn original_revision_inode_size_is_128() {
    let mut b = minimal_block();
    put16(&mut b, 88, 256);
    let sb = Superblock::from_block(&b).unwrap();
    assert_eq!(sb.get_inode_size(), 128);
    put32(&mut b, 76, 7);
    let sb = Superblock::from_block(&b).unwrap();
    assert_eq!(sb.rev_level, RevisionLevel::Unknown(7));
    assert_eq!(sb.get_inode_size(), 256);
}

#[test]
fn block_and_cluster_sizes() {
    for log in 0..=21u32 {
        let mut b = minimal_block();
        put32(&mut b, 24, log);
        put32(&mut b, 28, log);
        let sb = Superblock::from_block(&b).unwrap();
        let bs = sb.get_block_size();
        assert!(bs >= 1024 && bs.is_power_of_two());
        assert_eq!(bs, 1024u32 << log);
        assert_eq!(sb.get_cluster_size(), bs);
    }
    let mut b = minimal_block();
    b[372] = 4;
    assert_eq!(Superblock::from_block(&b).unwrap().get_flexible_block_group(), 16);
}

#[test]
fn first_descriptor_follows_superblock_block() {
    let mut b = minimal_block();
    put32(&mut b, 24, 2);
    let mut img = image_with(&b);
    img.resize(4096 * 2, 0);
    let mut fs = FileSystem::new(ByteCursor::new(img), 0).unwrap();
    let it = fs.iter_group_descriptors();
    assert_eq!(it.offset_of(0), 4096);
    assert_eq!(fs.group_descriptors().len(), 2);
}

#[test]
fn enumerations_keep_unknown_values() {
    assert_eq!(ErrorPolicy::from_raw(2), ErrorPolicy::RemountReadOnly);
    assert_eq!(ErrorPolicy::from_raw(3), ErrorPolicy::Panic);
    assert_eq!(ErrorPolicy::from_raw(9), ErrorPolicy::Unknown(9));
    assert_eq!(Creator::from_raw(3), Creator::FreeBSD);
    assert_eq!(Creator::from_raw(4), Creator::Lites);
    assert_eq!(Creator::from_raw(77), Creator::Unknown(77));
    assert_eq!(HashVersion::from_raw(1), HashVersion::HalfMD4);
    assert_eq!(HashVersion::from_raw(5), HashVersion::TeaUnsigned);
    assert_eq!(HashVersion::from_raw(6), HashVersion::Unknown(6));
    assert_eq!(
        recover::superblock::ChecksumType::from_raw(1),
        recover::superblock::ChecksumType::Crc32c
    );
    assert_eq!(
        recover::superblock::ChecksumType::from_raw(2),
        recover::superblock::ChecksumType::Unknown(2)
    );
    assert_eq!(
        EncryptionMode::from_modes(&[0, 1, 2, 3, 4]),
        vec![
            EncryptionMode::Invalid,
            EncryptionMode::AES256XTS,
            EncryptionMode::AES256GCM,
            EncryptionMode::AES256CBC,
            EncryptionMode::Invalid
        ]
    );
    let enc = recover::superblock::CharEncoding::from_raw(1);
    assert_eq!(enc.name(), Some("utf8-12.1"));
    assert_eq!(recover::superblock::CharEncoding::from_raw(5).name(), None);
}

#[test]
fn fields_decode_at_their_offsets() {
    let mut b = minimal_block();
    put32(&mut b, 44, 1_700_000_000);
    put16(&mut b, 52, 3);
    put32(&mut b, 268, 0xAABBCCDD);
    put32(&mut b, 268 + 16 * 4, 0x11);
    b[596] = 1;
    b[597] = 9;
    put16(&mut b, 636, 1);
    put32(&mut b, 1016, 0xDEAD);
    put32(&mut b, 1020, 0x12345678);
    b[104..120].copy_from_slice(&[
        0x01, 0x23, 0x45, 0x67, 0x89, 0xAB, 0xCD, 0xEF, 0x10, 0x32, 0x54, 0x76, 0x98, 0xBA, 0xDC,
        0xFE,
    ]);
    let sb = Superblock::from_block(&b).unwrap();
    assert_eq!(sb.mtime, 1_700_000_000);
    assert_eq!(sb.mnt_count, 3);
    assert_eq!(sb.jnl_blocks.len(), 17);
    assert_eq!(sb.jnl_blocks[0], 0xAABBCCDD);
    assert_eq!(sb.jnl_blocks[16], 0x11);
    assert_eq!(sb.encrypt_algos.len(), 4);
    assert_eq!(sb.encrypt_algos[0], EncryptionMode::AES256XTS);
    assert_eq!(sb.encrypt_algos[1], EncryptionMode::Invalid);
    assert_eq!(sb.encoding.encoding, 1);
    assert_eq!(sb.reserved.len(), 95);
    assert_eq!(sb.reserved[94], 0xDEAD);
    assert_eq!(sb.checksum, 0x12345678);
    assert_eq!(sb.uuid.time_low, 0x01234567);
    assert_eq!(sb.uuid.to_text(), "01234567-89AB-CDEF-1032-547698BADCFE");
    assert!(!sb.uuid.is_null());
}
