use recover::cursor::{ByteCursor, IoError, SeekFrom};
use recover::group_desc::{Error, Flags, GroupDesc};
use recover::util::{get_string, get_string_list, kbytes_to_human_readable};
use recover::uuid::Uuid;

fn put16(b: &mut [u8], off: usize, v: u16) {
    b[off..off + 2].copy_from_slice(&v.to_le_bytes());
}

fn put32(b: &mut [u8], off: usize, v: u32) {
    b[off..off + 4].copy_from_slice(&v.to_le_bytes());
}

#[test]
fn human_readable_sizes() {
    assert_eq!(kbytes_to_human_readable(0), "0 kB");
    assert_eq!(kbytes_to_human_readable(8191), "8191 kB");
    assert_eq!(kbytes_to_human_readable(8192), "8 MB");
    assert_eq!(kbytes_to_human_readable(1536 * 1024), "1536 MB");
    assert_eq!(kbytes_to_human_readable(8 * 1024 * 1024), "8 GB");
    assert_eq!(kbytes_to_human_readable(1 << 33), "8 TB");
    assert_eq!(kbytes_to_human_readable(1 << 43), "8 PB");
    assert_eq!(kbytes_to_human_readable(u64::MAX), "16777216 PB");
}

#[test]
fn placeholders_and_lists() {
    assert_eq!(get_string(""), "<not available>");
    assert_eq!(get_string("\0\0abc"), "<not available>");
    assert_eq!(get_string("ext4"), "ext4");
    assert_eq!(get_string_list(&vec![]), "(none)");
    assert_eq!(get_string_list(&vec!["one"]), "one");
    assert_eq!(get_string_list(&vec!["has_journal", "extent", "64bit"]), "has_journal extent 64bit");
}

#[test]
fn uuid_null_and_text() {
    let zero = vec![0u8; 20];
    let u = Uuid::from_bytes(&zero, 2);
    assert!(u.is_null());
    assert_eq!(u.to_text(), "<none>");
    let mut b = vec![0u8; 16];
    b[15] = 1;
    let u = Uuid::from_bytes(&b, 0);
    assert!(!u.is_null());
    assert_eq!(u.to_text(), "00000000-0000-0000-0000-000000000001");
    let b: Vec<u8> = (0u8..16).map(|i| i * 17).collect();
    let u = Uuid::from_bytes(&b, 0);
    assert_eq!(u.time_low, 0x00112233);
    assert_eq!(u.clock_seq, 0x8899);
    assert_eq!(u.to_text(), "00112233-4455-6677-8899-AABBCCDDEEFF");
}

#[test]
fn group_desc_32() {
    let mut b = vec![0u8; 32];
    put32(&mut b, 0, 10);
    put32(&mut b, 4, 11);
    put32(&mut b, 8, 12);
    put16(&mut b, 12, 13);
    put16(&mut b, 14, 14);
    put16(&mut b, 16, 15);
    put16(&mut b, 18, 0x5);
    put32(&mut b, 20, 16);
    put16(&mut b, 24, 17);
    put16(&mut b, 26, 18);
    put16(&mut b, 28, 19);
    put16(&mut b, 30, 20);
    let g = GroupDesc::from_bytes(&b, false).unwrap();
    assert_eq!(
        (g.block_bitmap, g.inode_bitmap, g.inode_table, g.exclude_bitmap),
        (10, 11, 12, 16)
    );
    assert_eq!(
        (g.free_blocks_count, g.free_inodes_count, g.used_dirs_count, g.itable_unused),
        (13, 14, 15, 19)
    );
    assert_eq!((g.block_bitmap_csum, g.inode_bitmap_csum, g.checksum), (17, 18, 20));
    assert_eq!(g.flags.flags_list(), vec!["inode_uninitialized", "inode_zeroed"]);
    assert_eq!(GroupDesc::from_bytes(&b, true).unwrap_err(), Error::IO(IoError::UnexpectedEof));
}

#[test]
fn group_desc_64_joins_halves() {
    let mut b = vec![0u8; 64];
    put32(&mut b, 0, 1);
    put32(&mut b, 32, 2);
    put32(&mut b, 8, 3);
    put32(&mut b, 40, 4);
    put16(&mut b, 12, 5);
    put16(&mut b, 44, 6);
    put16(&mut b, 28, 7);
    put16(&mut b, 50, 8);
    put32(&mut b, 20, 9);
    put32(&mut b, 52, 10);
    put16(&mut b, 26, 11);
    put16(&mut b, 58, 12);
    put16(&mut b, 18, 0x8);
    let g = GroupDesc::from_bytes(&b, true).unwrap();
    assert_eq!(g.block_bitmap, 0x2_0000_0001);
    assert_eq!(g.inode_table, 0x4_0000_0003);
    assert_eq!(g.free_blocks_count, 0x6_0005);
    assert_eq!(g.itable_unused, 0x8_0007);
    assert_eq!(g.exclude_bitmap, 0xA_0000_0009);
    assert_eq!(g.inode_bitmap_csum, 0xC_000B);
    assert_eq!(g.flags, Flags::from_raw(0x8));
    assert_eq!(g.flags.flags_list(), vec!["(unknown_bits)"]);
}

#[test]
fn cursor_reads_and_seeks() {
    let mut c = ByteCursor::new((0u8..10).collect());
    assert_eq!(c.read_exact(3), Ok(vec![0, 1, 2]));
    assert_eq!(c.position(), 3);
    assert_eq!(c.read_exact(8), Err(IoError::UnexpectedEof));
    assert_eq!(c.position(), 3);
    assert_eq!(c.seek(SeekFrom::End(-2)), Ok(8));
    assert_eq!(c.read_exact(2), Ok(vec![8, 9]));
    assert_eq!(c.seek(SeekFrom::Current(-20)), Err(IoError::InvalidSeek));
    assert_eq!(c.seek(SeekFrom::Start(50)), Ok(50));
    assert_eq!(c.read_exact(1), Err(IoError::UnexpectedEof));
    assert_eq!(c.read_exact(0), Err(IoError::UnexpectedEof));
    assert_eq!(c.len(), 10);
}
