//! File mode: permission bits and the file type nibble.
use crate::util::push_char;
use vstd::prelude::*;

verus! {

/// File mode. The low twelve bits are permissions; the high four encode one of several mutually exclusive file types.
///
/// Bits outside the declared flags are kept as they were read.
#[derive(Clone, Copy, Debug, PartialEq, Eq, Structural)]
pub struct Mode {
    bits: u16,
}

impl View for Mode {
    type V = u16;

    closed spec fn view(&self) -> u16 {
        self.bits
    }
}

impl Mode {
    /// Others may execute.
    pub const OTHER_X: u16 = 0x1;

    /// Others may write.
    pub const OTHER_W: u16 = 0x2;

    /// Others may read.
    pub const OTHER_R: u16 = 0x4;

    /// Group members may execute.
    pub const GROUP_X: u16 = 0x8;

    /// Group members may write.
    pub const GROUP_W: u16 = 0x10;

    /// Group members may read.
    pub const GROUP_R: u16 = 0x20;

    /// Owner may execute.
    pub const OWNER_X: u16 = 0x40;

    /// Owner may write.
    pub const OWNER_W: u16 = 0x80;

    /// Owner may read.
    pub const OWNER_R: u16 = 0x100;

    /// Sticky bit.
    pub const STICKY_B: u16 = 0x200;

    /// Set GID.
    pub const SGID: u16 = 0x400;

    /// Set UID.
    pub const SUID: u16 = 0x800;

    /// FIFO.
    pub const FIFO: u16 = 0x1000;

    /// Character device.
    pub const CHAR_DEV: u16 = 0x2000;

    /// Directory.
    pub const DIR: u16 = 0x4000;

    /// Block device.
    pub const BLOCK_DEV: u16 = 0x6000;

    /// Regular file.
    pub const REGULAR: u16 = 0x8000;

    /// Symbolic link.
    pub const SYMLINK: u16 = 0xa000;

    /// Socket.
    pub const SOCKET: u16 = 0xc000;

    /// Every declared flag.
    pub const ALL: u16 = 0xffff;

    /// Wraps a raw value; never fails, and keeps unknown bits.
    pub fn from_raw(raw: u16) -> (r: Self)
        ensures
            r@ == raw,
    {
        Mode { bits: raw }
    }

    /// The raw value.
    pub fn bits(&self) -> (r: u16)
        ensures
            r == self@,
    {
        self.bits
    }

    /// Whether every bit of `flag` is set.
    pub fn contains(&self, flag: u16) -> (r: bool)
        ensures
            r == (self@ & flag == flag),
    {
        self.bits & flag == flag
    }

    /// Whether a bit outside the declared flags is set.
    pub fn unknown_bits(&self) -> (r: bool)
        ensures
            r == (self@ & !Self::ALL != 0),
    {
        self.bits & !Self::ALL != 0
    }

    /// The file type nibble alone: `mode & 0xF000`.
    pub fn file_type_flags(&self) -> (r: Self)
        ensures
            r@ == self@ & 0xF000,
    {
        Mode { bits: self.bits & 0xF000 }
    }

    /// The character of a file type nibble: `|` FIFO, `c` character device,
    /// `d` directory, `b` block device, `.` regular file, `l` symbolic link,
    /// `s` socket, `?` anything else.
    pub open spec fn spec_type_char(t: u16) -> char {
        if t == Self::FIFO {
            '|'
        } else if t == Self::CHAR_DEV {
            'c'
        } else if t == Self::DIR {
            'd'
        } else if t == Self::BLOCK_DEV {
            'b'
        } else if t == Self::REGULAR {
            '.'
        } else if t == Self::SYMLINK {
            'l'
        } else if t == Self::SOCKET {
            's'
        } else {
            '?'
        }
    }

    /// `chr` when every bit of `flag` is set in `bits`, else `-`.
    pub open spec fn spec_bit(bits: u16, chr: char, flag: u16) -> char {
        if bits & flag == flag {
            chr
        } else {
            '-'
        }
    }

    /// The type character, then read, write and execute for the owner, the
    /// group and others.
    pub open spec fn spec_text(self) -> Seq<char> {
        let b = self@;
        seq![
            Self::spec_type_char(b & 0xF000),
            Self::spec_bit(b, 'r', Self::OWNER_R),
            Self::spec_bit(b, 'w', Self::OWNER_W),
            Self::exec_char(b & Self::OWNER_X == Self::OWNER_X, b & Self::SUID == Self::SUID, 's', 'S'),
            Self::spec_bit(b, 'r', Self::GROUP_R),
            Self::spec_bit(b, 'w', Self::GROUP_W),
            Self::exec_char(b & Self::GROUP_X == Self::GROUP_X, b & Self::SGID == Self::SGID, 's', 'S'),
            Self::spec_bit(b, 'r', Self::OTHER_R),
            Self::spec_bit(b, 'w', Self::OTHER_W),
            Self::exec_char(
                b & Self::OTHER_X == Self::OTHER_X,
                b & Self::STICKY_B == Self::STICKY_B,
                't',
                'T',
            ),
        ]
    }

    /// The mode as ten characters, `ls -l` style: type, then permissions.
    pub fn to_text(&self) -> (r: String)
        ensures
            r@ == self.spec_text(),
    {
        let t = self.file_type_flags().bits();
        let type_char = if t == Self::FIFO {
            '|'
        } else if t == Self::CHAR_DEV {
            'c'
        } else if t == Self::DIR {
            'd'
        } else if t == Self::BLOCK_DEV {
            'b'
        } else if t == Self::REGULAR {
            '.'
        } else if t == Self::SYMLINK {
            'l'
        } else if t == Self::SOCKET {
            's'
        } else {
            '?'
        };
        let mut s = String::new();
        push_char(&mut s, type_char);
        push_char(&mut s, self.bit('r', Self::OWNER_R));
        push_char(&mut s, self.bit('w', Self::OWNER_W));
        push_char(&mut s, self.user_execute_bit());
        push_char(&mut s, self.bit('r', Self::GROUP_R));
        push_char(&mut s, self.bit('w', Self::GROUP_W));
        push_char(&mut s, self.group_execute_bit());
        push_char(&mut s, self.bit('r', Self::OTHER_R));
        push_char(&mut s, self.bit('w', Self::OTHER_W));
        push_char(&mut s, self.other_execute_bit());
        assert(s@ =~= self.spec_text());
        s
    }

    /// `chr` when every bit of `flag` is set, else `-`.
    pub fn bit(&self, chr: char, flag: u16) -> (r: char)
        ensures
            r == (if self@ & flag == flag {
                chr
            } else {
                '-'
            }),
    {
        if self.contains(flag) {
            chr
        } else {
            '-'
        }
    }

    /// The owner's execute column: `x`/`-`, or `s`/`S` with set-uid.
    pub fn user_execute_bit(&self) -> (r: char)
        ensures
            r == Self::exec_char(self@ & Self::OWNER_X == Self::OWNER_X, self@ & Self::SUID == Self::SUID, 's', 'S'),
    {
        Self::exec_column(self.contains(Self::OWNER_X), self.contains(Self::SUID), 's', 'S')
    }

    /// The group's execute column: `x`/`-`, or `s`/`S` with set-gid.
    pub fn group_execute_bit(&self) -> (r: char)
        ensures
            r == Self::exec_char(self@ & Self::GROUP_X == Self::GROUP_X, self@ & Self::SGID == Self::SGID, 's', 'S'),
    {
        Self::exec_column(self.contains(Self::GROUP_X), self.contains(Self::SGID), 's', 'S')
    }

    /// The others' execute column: `x`/`-`, or `t`/`T` with the sticky bit.
    pub fn other_execute_bit(&self) -> (r: char)
        ensures
            r == Self::exec_char(self@ & Self::OTHER_X == Self::OTHER_X, self@ & Self::STICKY_B == Self::STICKY_B, 't', 'T'),
    {
        Self::exec_column(self.contains(Self::OTHER_X), self.contains(Self::STICKY_B), 't', 'T')
    }

    /// An execute column: `x` or `-` without the special bit, `set` or
    /// `unset` with it, by whether the execute bit is set.
    pub open spec fn exec_char(exec: bool, special: bool, set: char, unset: char) -> char {
        if special {
            if exec {
                set
            } else {
                unset
            }
        } else if exec {
            'x'
        } else {
            '-'
        }
    }

    fn exec_column(exec: bool, special: bool, set: char, unset: char) -> (r: char)
        ensures
            r == Self::exec_char(exec, special, set, unset),
    {
        if special {
            if exec {
                set
            } else {
                unset
            }
        } else if exec {
            'x'
        } else {
            '-'
        }
    }
}

} // verus!
