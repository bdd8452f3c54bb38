//! Closed-set enumerations of the superblock. Each decodes from its raw
//! integer by a total function: unknown values are kept in an `Unknown` leaf
//! (or, for encryption modes, read as `Invalid`).
use crate::util::{decimal_text, push_decimal};
use vstd::prelude::*;
use vstd::string::StringExecFns;

verus! {

/// Behaviour when detecting errors.
#[derive(Clone, Copy, Debug, PartialEq, Eq, Structural)]
pub enum ErrorPolicy {
    Continue,
    RemountReadOnly,
    Panic,
    Unknown(u16),
}

impl ErrorPolicy {
    /// A description for people.
    pub open spec fn spec_text(self) -> Seq<char> {
        match self {
            ErrorPolicy::Continue => "Continue"@,
            ErrorPolicy::RemountReadOnly => "Remount read-only"@,
            ErrorPolicy::Panic => "Panic"@,
            ErrorPolicy::Unknown(v) => "Unknown "@ + decimal_text(v as nat) + " (Continue)"@,
        }
    }

    /// A description for people.
    pub fn to_text(&self) -> (r: String)
        ensures
            r@ == self.spec_text(),
    {
        match self {
            ErrorPolicy::Continue => String::from_str("Continue"),
            ErrorPolicy::RemountReadOnly => String::from_str("Remount read-only"),
            ErrorPolicy::Panic => String::from_str("Panic"),
            ErrorPolicy::Unknown(v) => {
                let mut t = String::from_str("Unknown ");
                push_decimal(&mut t, *v as u64);
                t.append(" (Continue)");
                t
            },
        }
    }

    pub const CONTINUE: u16 = 1;

    pub const REMOUNT_READ_ONLY: u16 = 2;

    pub const PANIC: u16 = 3;

    /// The policy that the raw value `error` stands for.
    pub open spec fn spec_from_raw(error: u16) -> Self {
        if error == Self::CONTINUE {
            ErrorPolicy::Continue
        } else if error == Self::REMOUNT_READ_ONLY {
            ErrorPolicy::RemountReadOnly
        } else if error == Self::PANIC {
            ErrorPolicy::Panic
        } else {
            ErrorPolicy::Unknown(error)
        }
    }

    /// The raw value of a decoded policy.
    pub open spec fn spec_to_raw(self) -> u16 {
        match self {
            ErrorPolicy::Continue => Self::CONTINUE,
            ErrorPolicy::RemountReadOnly => Self::REMOUNT_READ_ONLY,
            ErrorPolicy::Panic => Self::PANIC,
            ErrorPolicy::Unknown(raw) => raw,
        }
    }

    /// Decodes a raw value; never fails.
    pub fn from_raw(error: u16) -> (r: Self)
        ensures
            r == Self::spec_from_raw(error),
            r.spec_to_raw() == error,
    {
        if error == Self::CONTINUE {
            ErrorPolicy::Continue
        } else if error == Self::REMOUNT_READ_ONLY {
            ErrorPolicy::RemountReadOnly
        } else if error == Self::PANIC {
            ErrorPolicy::Panic
        } else {
            ErrorPolicy::Unknown(error)
        }
    }
}

/// The operating system that created the filesystem.
#[derive(Clone, Copy, Debug, PartialEq, Eq, Structural)]
pub enum Creator {
    Linux,
    Hurd,
    Masix,
    FreeBSD,
    Lites,
    Unknown(u32),
}

impl Creator {
    /// A description for people.
    pub open spec fn spec_text(self) -> Seq<char> {
        match self {
            Creator::Linux => "Linux"@,
            Creator::Hurd => "Hurd"@,
            Creator::Masix => "Masix"@,
            Creator::FreeBSD => "FreeBSD"@,
            Creator::Lites => "Lites"@,
            Creator::Unknown(v) => "Unknown("@ + decimal_text(v as nat) + ")"@,
        }
    }

    /// A description for people.
    pub fn to_text(&self) -> (r: String)
        ensures
            r@ == self.spec_text(),
    {
        match self {
            Creator::Linux => String::from_str("Linux"),
            Creator::Hurd => String::from_str("Hurd"),
            Creator::Masix => String::from_str("Masix"),
            Creator::FreeBSD => String::from_str("FreeBSD"),
            Creator::Lites => String::from_str("Lites"),
            Creator::Unknown(v) => {
                let mut t = String::from_str("Unknown(");
                push_decimal(&mut t, *v as u64);
                t.append(")");
                t
            },
        }
    }

    pub const LINUX: u32 = 0;

    pub const HURD: u32 = 1;

    pub const MASIX: u32 = 2;

    pub const FREE_BSD: u32 = 3;

    pub const LITES: u32 = 4;

    /// The creator that the raw value stands for.
    pub open spec fn spec_from_raw(creator: u32) -> Self {
        if creator == Self::LINUX {
            Creator::Linux
        } else if creator == Self::HURD {
            Creator::Hurd
        } else if creator == Self::MASIX {
            Creator::Masix
        } else if creator == Self::FREE_BSD {
            Creator::FreeBSD
        } else if creator == Self::LITES {
            Creator::Lites
        } else {
            Creator::Unknown(creator)
        }
    }

    /// The raw value of a decoded creator.
    pub open spec fn spec_to_raw(self) -> u32 {
        match self {
            Creator::Linux => Self::LINUX,
            Creator::Hurd => Self::HURD,
            Creator::Masix => Self::MASIX,
            Creator::FreeBSD => Self::FREE_BSD,
            Creator::Lites => Self::LITES,
            Creator::Unknown(raw) => raw,
        }
    }

    /// Decodes a raw value; never fails.
    pub fn from_raw(creator: u32) -> (r: Self)
        ensures
            r == Self::spec_from_raw(creator),
            r.spec_to_raw() == creator,
    {
        if creator == Self::LINUX {
            Creator::Linux
        } else if creator == Self::HURD {
            Creator::Hurd
        } else if creator == Self::MASIX {
            Creator::Masix
        } else if creator == Self::FREE_BSD {
            Creator::FreeBSD
        } else if creator == Self::LITES {
            Creator::Lites
        } else {
            Creator::Unknown(creator)
        }
    }
}

/// Revision level of the on-disk format.
#[derive(Clone, Copy, Debug, PartialEq, Eq, Structural)]
pub enum RevisionLevel {
    Original,
    Dynamic,
    Unknown(u32),
}

impl RevisionLevel {
    /// A description for people.
    pub open spec fn spec_text(self) -> Seq<char> {
        match self {
            RevisionLevel::Original => "0 (Original format)"@,
            RevisionLevel::Dynamic => "1 (v2 format w/ dynamic inode sizes)"@,
            RevisionLevel::Unknown(v) => ""@ + decimal_text(v as nat) + " (Unknown)"@,
        }
    }

    /// A description for people.
    pub fn to_text(&self) -> (r: String)
        ensures
            r@ == self.spec_text(),
    {
        match self {
            RevisionLevel::Original => String::from_str("0 (Original format)"),
            RevisionLevel::Dynamic => String::from_str("1 (v2 format w/ dynamic inode sizes)"),
            RevisionLevel::Unknown(v) => {
                let mut t = String::from_str("");
                push_decimal(&mut t, *v as u64);
                t.append(" (Unknown)");
                t
            },
        }
    }

    pub const ORIGINAL_FORMAT: u32 = 0;

    pub const V2_FORMAT: u32 = 1;

    /// The revision that the raw value stands for.
    pub open spec fn spec_from_raw(rev: u32) -> Self {
        if rev == Self::ORIGINAL_FORMAT {
            RevisionLevel::Original
        } else if rev == Self::V2_FORMAT {
            RevisionLevel::Dynamic
        } else {
            RevisionLevel::Unknown(rev)
        }
    }

    /// The raw value of a decoded revision.
    pub open spec fn spec_to_raw(self) -> u32 {
        match self {
            RevisionLevel::Original => Self::ORIGINAL_FORMAT,
            RevisionLevel::Dynamic => Self::V2_FORMAT,
            RevisionLevel::Unknown(raw) => raw,
        }
    }

    /// Decodes a raw value; never fails.
    pub fn from_raw(rev: u32) -> (r: Self)
        ensures
            r == Self::spec_from_raw(rev),
            r.spec_to_raw() == rev,
    {
        if rev == Self::ORIGINAL_FORMAT {
            RevisionLevel::Original
        } else if rev == Self::V2_FORMAT {
            RevisionLevel::Dynamic
        } else {
            RevisionLevel::Unknown(rev)
        }
    }
}

/// Default hash algorithm for directory hashes.
#[derive(Clone, Copy, Debug, PartialEq, Eq, Structural)]
pub enum HashVersion {
    Legacy,
    HalfMD4,
    Tea,
    LegacyUnsigned,
    HalfMD4Unsigned,
    TeaUnsigned,
    Unknown(u8),
}

impl HashVersion {
    /// A description for people.
    pub open spec fn spec_text(self) -> Seq<char> {
        match self {
            HashVersion::Legacy => "Legacy"@,
            HashVersion::HalfMD4 => "Half MD4"@,
            HashVersion::Tea => "Tea"@,
            HashVersion::LegacyUnsigned => "Legacy, unsigned"@,
            HashVersion::HalfMD4Unsigned => "Half MD4, unsigned"@,
            HashVersion::TeaUnsigned => "Tea, unsigned"@,
            HashVersion::Unknown(v) => "Unknown algorithm "@ + decimal_text(v as nat),
        }
    }

    /// A description for people.
    pub fn to_text(&self) -> (r: String)
        ensures
            r@ == self.spec_text(),
    {
        match self {
            HashVersion::Legacy => String::from_str("Legacy"),
            HashVersion::HalfMD4 => String::from_str("Half MD4"),
            HashVersion::Tea => String::from_str("Tea"),
            HashVersion::LegacyUnsigned => String::from_str("Legacy, unsigned"),
            HashVersion::HalfMD4Unsigned => String::from_str("Half MD4, unsigned"),
            HashVersion::TeaUnsigned => String::from_str("Tea, unsigned"),
            HashVersion::Unknown(v) => {
                let mut t = String::from_str("Unknown algorithm ");
                push_decimal(&mut t, *v as u64);
                t
            },
        }
    }

    pub const LEGACY: u8 = 0;

    pub const HALF_MD4: u8 = 1;

    pub const TEA: u8 = 2;

    pub const LEGACY_UNSIGNED: u8 = 3;

    pub const HALF_MD4_UNSIGNED: u8 = 4;

    pub const TEA_UNSIGNED: u8 = 5;

    /// The algorithm that the raw value stands for.
    pub open spec fn spec_from_raw(version: u8) -> Self {
        if version == Self::LEGACY {
            HashVersion::Legacy
        } else if version == Self::HALF_MD4 {
            HashVersion::HalfMD4
        } else if version == Self::TEA {
            HashVersion::Tea
        } else if version == Self::LEGACY_UNSIGNED {
            HashVersion::LegacyUnsigned
        } else if version == Self::HALF_MD4_UNSIGNED {
            HashVersion::HalfMD4Unsigned
        } else if version == Self::TEA_UNSIGNED {
            HashVersion::TeaUnsigned
        } else {
            HashVersion::Unknown(version)
        }
    }

    /// The raw value of a decoded algorithm.
    pub open spec fn spec_to_raw(self) -> u8 {
        match self {
            HashVersion::Legacy => Self::LEGACY,
            HashVersion::HalfMD4 => Self::HALF_MD4,
            HashVersion::Tea => Self::TEA,
            HashVersion::LegacyUnsigned => Self::LEGACY_UNSIGNED,
            HashVersion::HalfMD4Unsigned => Self::HALF_MD4_UNSIGNED,
            HashVersion::TeaUnsigned => Self::TEA_UNSIGNED,
            HashVersion::Unknown(raw) => raw,
        }
    }

    /// Decodes a raw value; never fails.
    pub fn from_raw(version: u8) -> (r: Self)
        ensures
            r == Self::spec_from_raw(version),
            r.spec_to_raw() == version,
    {
        if version == Self::LEGACY {
            HashVersion::Legacy
        } else if version == Self::HALF_MD4 {
            HashVersion::HalfMD4
        } else if version == Self::TEA {
            HashVersion::Tea
        } else if version == Self::LEGACY_UNSIGNED {
            HashVersion::LegacyUnsigned
        } else if version == Self::HALF_MD4_UNSIGNED {
            HashVersion::HalfMD4Unsigned
        } else if version == Self::TEA_UNSIGNED {
            HashVersion::TeaUnsigned
        } else {
            HashVersion::Unknown(version)
        }
    }
}

/// Metadata checksum algorithm.
#[derive(Clone, Copy, Debug, PartialEq, Eq, Structural)]
pub enum ChecksumType {
    Crc32c,
    Unknown(u8),
}

impl ChecksumType {
    /// A description for people.
    pub open spec fn spec_text(self) -> Seq<char> {
        match self {
            ChecksumType::Crc32c => "crc32c"@,
            ChecksumType::Unknown(v) => "Unknown type "@ + decimal_text(v as nat),
        }
    }

    /// A description for people.
    pub fn to_text(&self) -> (r: String)
        ensures
            r@ == self.spec_text(),
    {
        match self {
            ChecksumType::Crc32c => String::from_str("crc32c"),
            ChecksumType::Unknown(v) => {
                let mut t = String::from_str("Unknown type ");
                push_decimal(&mut t, *v as u64);
                t
            },
        }
    }

    pub const CRC32C: u8 = 1;

    /// The algorithm that the raw value stands for.
    pub open spec fn spec_from_raw(csum: u8) -> Self {
        if csum == Self::CRC32C {
            ChecksumType::Crc32c
        } else {
            ChecksumType::Unknown(csum)
        }
    }

    /// The raw value of a decoded algorithm.
    pub open spec fn spec_to_raw(self) -> u8 {
        match self {
            ChecksumType::Crc32c => Self::CRC32C,
            ChecksumType::Unknown(raw) => raw,
        }
    }

    /// Decodes a raw value; never fails.
    pub fn from_raw(csum: u8) -> (r: Self)
        ensures
            r == Self::spec_from_raw(csum),
            r.spec_to_raw() == csum,
    {
        if csum == Self::CRC32C {
            ChecksumType::Crc32c
        } else {
            ChecksumType::Unknown(csum)
        }
    }
}

/// An encryption algorithm; values outside the known ones read as `Invalid`.
#[derive(Clone, Copy, Debug, PartialEq, Eq, Structural)]
pub enum EncryptionMode {
    Invalid,
    AES256XTS,
    AES256GCM,
    AES256CBC,
}

impl EncryptionMode {
    /// A description for people.
    pub open spec fn spec_text(self) -> Seq<char> {
        match self {
            EncryptionMode::Invalid => "Invalid"@,
            EncryptionMode::AES256XTS => "Aes 256 XTS"@,
            EncryptionMode::AES256GCM => "Aes 256 GCM"@,
            EncryptionMode::AES256CBC => "Aes 256 CBC"@,
        }
    }

    /// A description for people.
    pub fn to_text(&self) -> (r: String)
        ensures
            r@ == self.spec_text(),
    {
        match self {
            EncryptionMode::Invalid => String::from_str("Invalid"),
            EncryptionMode::AES256XTS => String::from_str("Aes 256 XTS"),
            EncryptionMode::AES256GCM => String::from_str("Aes 256 GCM"),
            EncryptionMode::AES256CBC => String::from_str("Aes 256 CBC"),
        }
    }

    pub const INVALID: u8 = 0;

    pub const AES_256_XTS: u8 = 1;

    pub const AES_256_GCM: u8 = 2;

    pub const AES_256_CBC: u8 = 3;

    /// The mode that the raw value stands for.
    pub open spec fn spec_from_raw(mode: u8) -> Self {
        if mode == Self::AES_256_XTS {
            EncryptionMode::AES256XTS
        } else if mode == Self::AES_256_GCM {
            EncryptionMode::AES256GCM
        } else if mode == Self::AES_256_CBC {
            EncryptionMode::AES256CBC
        } else {
            EncryptionMode::Invalid
        }
    }

    /// The raw value of a decoded mode (`Invalid` gives 0).
    pub open spec fn spec_to_raw(self) -> u8 {
        match self {
            EncryptionMode::Invalid => Self::INVALID,
            EncryptionMode::AES256XTS => Self::AES_256_XTS,
            EncryptionMode::AES256GCM => Self::AES_256_GCM,
            EncryptionMode::AES256CBC => Self::AES_256_CBC,
        }
    }

    /// Decodes a raw value; never fails.
    pub fn from_raw(mode: u8) -> (r: Self)
        ensures
            r == Self::spec_from_raw(mode),
            mode <= Self::AES_256_CBC ==> r.spec_to_raw() == mode,
    {
        if mode == Self::INVALID {
            EncryptionMode::Invalid
        } else if mode == Self::AES_256_XTS {
            EncryptionMode::AES256XTS
        } else if mode == Self::AES_256_GCM {
            EncryptionMode::AES256GCM
        } else if mode == Self::AES_256_CBC {
            EncryptionMode::AES256CBC
        } else {
            EncryptionMode::Invalid
        }
    }

    /// Decodes each raw value in turn.
    pub fn from_modes(modes: &[u8]) -> (r: Vec<EncryptionMode>)
        ensures
            r@.len() == modes@.len(),
            forall|i: int| 0 <= i < modes@.len() ==> r@[i] == Self::spec_from_raw(#[trigger] modes@[i]),
    {
        let mut out: Vec<EncryptionMode> = Vec::new();
        let mut i: usize = 0;
        while i < modes.len()
            invariant
                i <= modes@.len(),
                out@.len() == i,
                forall|j: int| 0 <= j < i ==> out@[j] == Self::spec_from_raw(#[trigger] modes@[j]),
            decreases modes@.len() - i,
        {
            out.push(EncryptionMode::from_raw(modes[i]));
            i = i + 1;
        }
        out
    }
}

/// Filename character encoding, kept as its raw value.
#[derive(Clone, Copy, Debug, PartialEq, Eq, Structural)]
pub struct CharEncoding {
    pub encoding: u16,
}

impl CharEncoding {
    /// The magic number of the UTF-8 (Unicode 12.1) encoding.
    pub const UTF8_12_1_MAGIC: u16 = 1;

    /// Wraps a raw value.
    pub fn from_raw(encoding: u16) -> (r: Self)
        ensures
            r.encoding == encoding,
    {
        CharEncoding { encoding }
    }

    /// The name of a known encoding.
    pub open spec fn spec_name(encoding: u16) -> Option<&'static str> {
        if encoding == Self::UTF8_12_1_MAGIC {
            Some("utf8-12.1")
        } else {
            None
        }
    }

    /// The name of a known encoding, else `UNKNOWN_ENCODING_` and the raw
    /// value.
    pub open spec fn spec_text(self) -> Seq<char> {
        match Self::spec_name(self.encoding) {
            Some(n) => n@,
            None => "UNKNOWN_ENCODING_"@ + decimal_text(self.encoding as nat),
        }
    }

    /// The name of a known encoding, else `UNKNOWN_ENCODING_` and the raw
    /// value.
    pub fn to_text(&self) -> (r: String)
        ensures
            r@ == self.spec_text(),
    {
        match self.name() {
            Some(n) => String::from_str(n),
            None => {
                let mut t = String::from_str("UNKNOWN_ENCODING_");
                push_decimal(&mut t, self.encoding as u64);
                t
            },
        }
    }

    /// The name of the encoding, when it is a known one.
    pub fn name(&self) -> (r: Option<&'static str>)
        ensures
            r == Self::spec_name(self.encoding),
    {
        if self.encoding == Self::UTF8_12_1_MAGIC {
            Some("utf8-12.1")
        } else {
            None
        }
    }
}

} // verus!
