use recover::inode::Mode;
use recover::superblock::{
    CharEncoding, ChecksumType, Creator, EncryptionMode, ErrorPolicy, HashVersion, RevisionLevel,
    State,
};

#[test]
fn enumeration_descriptions() {
    assert_eq!(ErrorPolicy::Continue.to_text(), "Continue");
    assert_eq!(ErrorPolicy::RemountReadOnly.to_text(), "Remount read-only");
    assert_eq!(ErrorPolicy::Unknown(7).to_text(), "Unknown 7 (Continue)");
    assert_eq!(Creator::FreeBSD.to_text(), "FreeBSD");
    assert_eq!(Creator::Unknown(12).to_text(), "Unknown(12)");
    assert_eq!(RevisionLevel::Original.to_text(), "0 (Original format)");
    assert_eq!(RevisionLevel::Dynamic.to_text(), "1 (v2 format w/ dynamic inode sizes)");
    assert_eq!(RevisionLevel::Unknown(42).to_text(), "42 (Unknown)");
    assert_eq!(HashVersion::HalfMD4Unsigned.to_text(), "Half MD4, unsigned");
    assert_eq!(HashVersion::Unknown(200).to_text(), "Unknown algorithm 200");
    assert_eq!(ChecksumType::Crc32c.to_text(), "crc32c");
    assert_eq!(ChecksumType::Unknown(0).to_text(), "Unknown type 0");
    assert_eq!(EncryptionMode::AES256GCM.to_text(), "Aes 256 GCM");
    assert_eq!(CharEncoding::from_raw(1).to_text(), "utf8-12.1");
    assert_eq!(CharEncoding::from_raw(65535).to_text(), "UNKNOWN_ENCODING_65535");
}

#[test]
fn state_descriptions() {
    assert_eq!(State::from_raw(0x1).state_list(), vec!["clean"]);
    assert_eq!(
        State::from_raw(0x6).state_list(),
        vec!["not clean", "errors detected", "orphans being recovered"]
    );
    assert_eq!(
        State::from_raw(0x9).state_list(),
        vec!["clean", "unknown bits were found"]
    );
}

#[test]
fn mode_text() {
    assert_eq!(Mode::from_raw(0x41ED).to_text(), "drwxr-xr-x");
    assert_eq!(Mode::from_raw(0x81A4).to_text(), ".rw-r--r--");
    assert_eq!(Mode::from_raw(0xA1FF).to_text(), "lrwxrwxrwx");
    assert_eq!(Mode::from_raw(0x8000 | 0o4755).to_text(), ".rwsr-xr-x");
    assert_eq!(Mode::from_raw(0x4000 | 0o1777).to_text(), "drwxrwxrwt");
    assert_eq!(Mode::from_raw(0x1000 | 0o2640).to_text(), "|rw-r-S---");
    assert_eq!(Mode::from_raw(0xF000).to_text(), "?---------");
}
