//! The type of a file, from an inode's mode or a directory entry's code.
use super::Mode;
use vstd::prelude::*;

verus! {

/// The type of a file.
#[derive(Clone, Copy, Debug, PartialEq, Eq, Structural)]
pub enum FileType {
    Fifo,
    CharacterDevice,
    Directory,
    BlockDevice,
    RegularFile,
    SymbolicLink,
    Socket,
    Special,
}

impl FileType {
    /// The type that the file type nibble `t` (`mode & 0xF000`) encodes.
    pub open spec fn spec_from_type_bits(t: u16) -> Self {
        if t == Mode::FIFO {
            FileType::Fifo
        } else if t == Mode::CHAR_DEV {
            FileType::CharacterDevice
        } else if t == Mode::DIR {
            FileType::Directory
        } else if t == Mode::BLOCK_DEV {
            FileType::BlockDevice
        } else if t == Mode::REGULAR {
            FileType::RegularFile
        } else if t == Mode::SYMLINK {
            FileType::SymbolicLink
        } else if t == Mode::SOCKET {
            FileType::Socket
        } else {
            FileType::Special
        }
    }

    /// The type that a mode's high nibble encodes.
    pub fn from_mode(mode: Mode) -> (r: Self)
        ensures
            r == Self::spec_from_type_bits(mode@ & 0xF000),
    {
        let t = mode.file_type_flags().bits();
        if t == Mode::FIFO {
            FileType::Fifo
        } else if t == Mode::CHAR_DEV {
            FileType::CharacterDevice
        } else if t == Mode::DIR {
            FileType::Directory
        } else if t == Mode::BLOCK_DEV {
            FileType::BlockDevice
        } else if t == Mode::REGULAR {
            FileType::RegularFile
        } else if t == Mode::SYMLINK {
            FileType::SymbolicLink
        } else if t == Mode::SOCKET {
            FileType::Socket
        } else {
            FileType::Special
        }
    }

    /// The type that a directory entry's file type byte encodes.
    pub open spec fn spec_from_code(code: u8) -> Self {
        if code == 1 {
            FileType::RegularFile
        } else if code == 2 {
            FileType::Directory
        } else if code == 3 {
            FileType::CharacterDevice
        } else if code == 4 {
            FileType::BlockDevice
        } else if code == 5 {
            FileType::Fifo
        } else if code == 6 {
            FileType::Socket
        } else if code == 7 {
            FileType::SymbolicLink
        } else {
            FileType::Special
        }
    }

    /// The type that a directory entry's file type byte encodes.
    pub fn from_code(code: u8) -> (r: Self)
        ensures
            r == Self::spec_from_code(code),
    {
        if code == 1 {
            FileType::RegularFile
        } else if code == 2 {
            FileType::Directory
        } else if code == 3 {
            FileType::CharacterDevice
        } else if code == 4 {
            FileType::BlockDevice
        } else if code == 5 {
            FileType::Fifo
        } else if code == 6 {
            FileType::Socket
        } else if code == 7 {
            FileType::SymbolicLink
        } else {
            FileType::Special
        }
    }
}

} // verus!
