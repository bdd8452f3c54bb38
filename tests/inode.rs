use chrono::{TimeZone, Utc};
use recover::cursor::{ByteCursor, IoError, SeekFrom};
use recover::inode::{Error, FileType, Flags, Inode, Mode, Osd1, Osd2};
use recover::superblock::Creator;

fn put16(b: &mut [u8], off: usize, v: u16) {
    b[off..off + 2].copy_from_slice(&v.to_le_bytes());
}

fn put32(b: &mut [u8], off: usize, v: u32) {
    b[off..off + 4].copy_from_slice(&v.to_le_bytes());
}

#[test]
fn inode_timestamp_parsing() {
    let mut b = vec![0u8; 128];
    put32(&mut b, 16, 1_700_000_000);
    put32(&mut b, 4, 42);
    put32(&mut b, 108, 0);
    put32(&mut b, 36, 0x1234);
    let inode = Inode::from_bytes(&b, false, &Creator::Linux).unwrap();
    assert_eq!(inode.size, 42);
    let when = Utc.timestamp_opt(inode.mtime, 0).single().unwrap();
    assert_eq!(when, Utc.with_ymd_and_hms(2023, 11, 14, 22, 13, 20).unwrap());
    assert_eq!(inode.osd1, Osd1::Linux { version: 0x1234 });
}

#[test]
fn timestamps_are_signed() {
    let mut b = vec![0u8; 128];
    put32(&mut b, 8, 0xFFFF_FFFF);
    let inode = Inode::from_bytes(&b, false, &Creator::Linux).unwrap();
    assert_eq!(inode.atime, -1);
}

#[test]
fn classic_inode_leaves_large_fields_zero() {
    let mut b = vec![0xFFu8; 160];
    put32(&mut b, 8, 5);
    let inode = Inode::from_bytes(&b, false, &Creator::Linux).unwrap();
    assert_eq!(inode.extra_isize, 0);
    assert_eq!(inode.checksum, 0);
    assert_eq!(inode.ctime_extra, 0);
    assert_eq!(inode.mtime_extra, 0);
    assert_eq!(inode.atime_extra, 0);
    assert_eq!(inode.crtime, 0);
    assert_eq!(inode.crtime_extra, 0);
    assert_eq!(inode.projid, 0);
    assert_eq!(inode.block.len(), 15);
}

#[test]
fn large_linux_inode_reunifies_halves() {
    let mut b = vec![0u8; 160];
    put16(&mut b, 2, 0x0001);
    put16(&mut b, 24, 0x0002);
    put32(&mut b, 4, 0x10);
    put32(&mut b, 108, 0x1);
    put32(&mut b, 104, 0x0000_0003);
    put16(&mut b, 116, 7);
    put16(&mut b, 118, 0x0004);
    put16(&mut b, 120, 0x0005);
    put16(&mut b, 122, 0x0006);
    put16(&mut b, 124, 0xBEEF);
    put16(&mut b, 128, 32);
    put16(&mut b, 130, 0xDEAD);
    put32(&mut b, 144, 1000);
    put32(&mut b, 156, 77);
    let inode = Inode::from_bytes(&b, true, &Creator::Linux).unwrap();
    assert_eq!(inode.uid, 0x0005_0001);
    assert_eq!(inode.gid, 0x0006_0002);
    assert_eq!(inode.size, 0x1_0000_0010);
    assert_eq!(inode.file_acl, 0x0004_0003);
    assert_eq!(inode.checksum, 0xDEAD_BEEF);
    assert_eq!(inode.extra_isize, 32);
    assert_eq!(inode.crtime, 1000);
    assert_eq!(inode.projid, 77);
    assert_eq!(
        inode.osd2,
        Osd2::Linux {
            blocks_high: 7,
            file_acl_high: 4,
            uid_high: 5,
            gid_high: 6,
            checksum_lo: 0xBEEF
        }
    );
}

#[test]
fn hurd_and_masix_layouts() {
    let mut b = vec![0u8; 160];
    put16(&mut b, 118, 0x0004);
    put16(&mut b, 120, 0x0005);
    put16(&mut b, 122, 0x0006);
    put32(&mut b, 124, 0x99);
    put32(&mut b, 36, 3);
    let hurd = Inode::from_bytes(&b, true, &Creator::Hurd).unwrap();
    assert_eq!(
        hurd.osd2,
        Osd2::Hurd { mode_high: 4, uid_high: 5, gid_high: 6, author: 0x99 }
    );
    assert_eq!(hurd.uid, 0x0005_0000);
    assert_eq!(hurd.file_acl, 0);
    assert_eq!(hurd.checksum, 0);
    assert_eq!(hurd.osd1, Osd1::Hurd { translator: 3 });
    let masix = Inode::from_bytes(&b, false, &Creator::Masix).unwrap();
    assert_eq!(masix.osd2, Osd2::Masix { file_acl_high: 4 });
    assert_eq!(masix.file_acl, 0x0004_0000);
    assert_eq!(masix.uid, 0);
    assert_eq!(masix.osd1, Osd1::Masix { reserved: 3 });
}

#[test]
fn unknown_creator_keeps_raw_bytes() {
    let mut b = vec![0u8; 128];
    for i in 116..128 {
        b[i] = i as u8;
    }
    put32(&mut b, 36, 0xABCD);
    let os = Creator::from_raw(9);
    assert_eq!(os, Creator::Unknown(9));
    let inode = Inode::from_bytes(&b, false, &os).unwrap();
    assert_eq!(inode.osd1, Osd1::Unknown(0xABCD));
    let mut raw = [0u8; 12];
    for i in 0..12 {
        raw[i] = (116 + i) as u8;
    }
    assert_eq!(inode.osd2, Osd2::Unknown(raw));
    assert_eq!(inode.uid, 0);
    assert_eq!(inode.gid, 0);
    let freebsd = Inode::from_bytes(&b, false, &Creator::FreeBSD).unwrap();
    assert_eq!(freebsd.osd2, Osd2::Unknown(raw));
}

#[test]
fn short_inode_is_io_error() {
    let b = vec![0u8; 150];
    assert_eq!(
        Inode::from_bytes(&b, true, &Creator::Linux).unwrap_err(),
        Error::IO(IoError::UnexpectedEof)
    );
    assert!(Inode::from_bytes(&b, false, &Creator::Linux).is_ok());
    let mut cur = ByteCursor::new(vec![0u8; 300]);
    assert_eq!(cur.seek(SeekFrom::Start(200)), Ok(200));
    assert!(Inode::new(&mut cur, false, &Creator::Linux).is_err());
    assert_eq!(cur.position(), 200);
    assert_eq!(cur.seek(SeekFrom::Current(-100)), Ok(100));
    assert!(Inode::new(&mut cur, false, &Creator::Linux).is_ok());
    assert_eq!(cur.position(), 228);
}

#[test]
fn mode_and_file_types() {
    let dir = Mode::from_raw(0x41ED);
    assert_eq!(dir.file_type_flags().bits(), Mode::DIR);
    assert_eq!(FileType::from_mode(dir), FileType::Directory);
    assert_eq!(FileType::from_mode(Mode::from_raw(0x81A4)), FileType::RegularFile);
    assert_eq!(FileType::from_mode(Mode::from_raw(0xA1FF)), FileType::SymbolicLink);
    assert_eq!(FileType::from_mode(Mode::from_raw(0x61B0)), FileType::BlockDevice);
    assert_eq!(FileType::from_mode(Mode::from_raw(0x2190)), FileType::CharacterDevice);
    assert_eq!(FileType::from_mode(Mode::from_raw(0x1000)), FileType::Fifo);
    assert_eq!(FileType::from_mode(Mode::from_raw(0xC1ED)), FileType::Socket);
    assert_eq!(FileType::from_mode(Mode::from_raw(0xF000)), FileType::Special);
    assert_eq!(FileType::from_code(1), FileType::RegularFile);
    assert_eq!(FileType::from_code(2), FileType::Directory);
    assert_eq!(FileType::from_code(3), FileType::CharacterDevice);
    assert_eq!(FileType::from_code(4), FileType::BlockDevice);
    assert_eq!(FileType::from_code(5), FileType::Fifo);
    assert_eq!(FileType::from_code(6), FileType::Socket);
    assert_eq!(FileType::from_code(7), FileType::SymbolicLink);
    assert_eq!(FileType::from_code(0), FileType::Special);
}

#[test]
fn mode_permission_columns() {
    let m = Mode::from_raw(0x8000 | 0o4755);
    assert_eq!(m.bit('r', Mode::OWNER_R), 'r');
    assert_eq!(m.bit('w', Mode::GROUP_W), '-');
    assert_eq!(m.user_execute_bit(), 's');
    assert_eq!(Mode::from_raw(0o4644).user_execute_bit(), 'S');
    assert_eq!(Mode::from_raw(0o2750).group_execute_bit(), 's');
    assert_eq!(Mode::from_raw(0o2740).group_execute_bit(), 'S');
    assert_eq!(Mode::from_raw(0o1777).other_execute_bit(), 't');
    assert_eq!(Mode::from_raw(0o1776).other_execute_bit(), 'T');
    assert_eq!(Mode::from_raw(0o0755).other_execute_bit(), 'x');
    assert_eq!(Mode::from_raw(0o0754).other_execute_bit(), '-');
}

#[test]
fn inode_flags_keep_raw_bits() {
    let f = Flags::from_raw(Flags::EXTENTS | 0x0080_0000);
    assert!(f.contains(Flags::EXTENTS));
    assert!(f.unknown_bits());
    assert!(!Flags::from_raw(Flags::USER_VISIBLE & Flags::ALL).unknown_bits());
}
