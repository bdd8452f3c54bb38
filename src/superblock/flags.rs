//! The state, miscellaneous flags and default mount options of the superblock.
use crate::flags::{listed, push_listed};
use vstd::prelude::*;

verus! {

/// Filesystem state.
///
/// Bits outside the declared flags are kept as they were read.
#[derive(Clone, Copy, Debug, PartialEq, Eq, Structural)]
pub struct State {
    bits: u16,
}

impl View for State {
    type V = u16;

    closed spec fn view(&self) -> u16 {
        self.bits
    }
}

impl State {
    /// `clean` or `not clean`, then the other known conditions that are
    /// set, then `unknown bits were found` when a bit outside them is set.
    pub open spec fn spec_state_list(bits: u16) -> Seq<&'static str> {
        (if bits & Self::CLEANLY_UNMOUNTED == Self::CLEANLY_UNMOUNTED {
            seq!["clean"]
        } else {
            seq!["not clean"]
        }) + listed(bits as u32, Self::ERRORS_DETECTED as u32, "errors detected") + listed(
            bits as u32,
            Self::ORPHANS_BEING_RECOVERED as u32,
            "orphans being recovered",
        ) + (if bits & !Self::ALL != 0 {
            seq!["unknown bits were found"]
        } else {
            Seq::empty()
        })
    }

    /// Whether the filesystem is clean, then the other known conditions that
    /// are set, then `unknown bits were found` when a bit outside them is set.
    pub fn state_list(&self) -> (r: Vec<&'static str>)
        ensures
            r@ == Self::spec_state_list(self@),
    {
        let bits = self.bits as u32;
        let mut output: Vec<&'static str> = Vec::new();
        if self.contains(Self::CLEANLY_UNMOUNTED) {
            output.push("clean");
        } else {
            output.push("not clean");
        }
        let raw = self.bits;
        assert(bits & 2 == (raw & 2) as u32 && bits & 4 == (raw & 4) as u32) by (bit_vector)
            requires
                bits == raw as u32,
        ;
        push_listed(&mut output, bits, Self::ERRORS_DETECTED as u32, "errors detected");
        push_listed(&mut output, bits, Self::ORPHANS_BEING_RECOVERED as u32, "orphans being recovered");
        if self.unknown_bits() {
            output.push("unknown bits were found");
        }
        assert(output@ =~= Self::spec_state_list(self@));
        output
    }

    /// Cleanly unmounted.
    pub const CLEANLY_UNMOUNTED: u16 = 0x1;

    /// Errors detected.
    pub const ERRORS_DETECTED: u16 = 0x2;

    /// Orphans being recovered.
    pub const ORPHANS_BEING_RECOVERED: u16 = 0x4;

    /// Every declared flag.
    pub const ALL: u16 = 0x7;

    /// Wraps a raw value; never fails, and keeps unknown bits.
    pub fn from_raw(raw: u16) -> (r: Self)
        ensures
            r@ == raw,
    {
        State { bits: raw }
    }

    /// The raw value.
    pub fn bits(&self) -> (r: u16)
        ensures
            r == self@,
    {
        self.bits
    }

    /// Whether every bit of `flag` is set.
    pub fn contains(&self, flag: u16) -> (r: bool)
        ensures
            r == (self@ & flag == flag),
    {
        self.bits & flag == flag
    }

    /// Whether a bit outside the declared flags is set.
    pub fn unknown_bits(&self) -> (r: bool)
        ensures
            r == (self@ & !Self::ALL != 0),
    {
        self.bits & !Self::ALL != 0
    }
}

/// Miscellaneous filesystem flags.
///
/// Bits outside the declared flags are kept as they were read.
#[derive(Clone, Copy, Debug, PartialEq, Eq, Structural)]
pub struct Flags {
    bits: u32,
}

impl View for Flags {
    type V = u32;

    closed spec fn view(&self) -> u32 {
        self.bits
    }
}

impl Flags {
    pub const SIGNED_DIRECTORY_HASH: u32 = 0x1;

    pub const UNSIGNED_DIRECTORY_HASH: u32 = 0x2;

    pub const TEST_FILESYSTEM: u32 = 0x4;

    /// Every declared flag.
    pub const ALL: u32 = 0x7;

    /// Wraps a raw value; never fails, and keeps unknown bits.
    pub fn from_raw(raw: u32) -> (r: Self)
        ensures
            r@ == raw,
    {
        Flags { bits: raw }
    }

    /// The raw value.
    pub fn bits(&self) -> (r: u32)
        ensures
            r == self@,
    {
        self.bits
    }

    /// Whether every bit of `flag` is set.
    pub fn contains(&self, flag: u32) -> (r: bool)
        ensures
            r == (self@ & flag == flag),
    {
        self.bits & flag == flag
    }

    /// Whether a bit outside the declared flags is set.
    pub fn unknown_bits(&self) -> (r: bool)
        ensures
            r == (self@ & !Self::ALL != 0),
    {
        self.bits & !Self::ALL != 0
    }

    /// The names of the known flags set in `bits`, in declaration order, then
    /// `(unknown_bits)` when a bit outside them is set.
    pub open spec fn spec_flags_list(bits: u32) -> Seq<&'static str> {
        listed(bits, Self::SIGNED_DIRECTORY_HASH, "signed_directory_hash")
            + listed(bits, Self::UNSIGNED_DIRECTORY_HASH, "unsigned_directory_hash")
            + listed(bits, Self::TEST_FILESYSTEM, "test_filesystem")
            + (if bits & !Self::ALL != 0 {
            seq!["(unknown_bits)"]
        } else {
            Seq::empty()
        })
    }

    /// The names of the known flags that are set, in declaration order, then
    /// `(unknown_bits)` when a bit outside them is set.
    pub fn flags_list(&self) -> (r: Vec<&'static str>)
        ensures
            r@ == Self::spec_flags_list(self@),
    {
        let bits = self.bits;
        let mut output: Vec<&'static str> = Vec::new();
        push_listed(&mut output, bits, Self::SIGNED_DIRECTORY_HASH, "signed_directory_hash");
        assert(output@ =~= listed(bits, Self::SIGNED_DIRECTORY_HASH, "signed_directory_hash"));
        push_listed(&mut output, bits, Self::UNSIGNED_DIRECTORY_HASH, "unsigned_directory_hash");
        push_listed(&mut output, bits, Self::TEST_FILESYSTEM, "test_filesystem");
        if self.bits & !Self::ALL != 0 {
            output.push("(unknown_bits)");
        }
        assert(output@ =~= Self::spec_flags_list(self@));
        output
    }
}

/// Default mount options.
///
/// Bits outside the declared flags are kept as they were read.
#[derive(Clone, Copy, Debug, PartialEq, Eq, Structural)]
pub struct DefaultMountOptions {
    bits: u32,
}

impl View for DefaultMountOptions {
    type V = u32;

    closed spec fn view(&self) -> u32 {
        self.bits
    }
}

impl DefaultMountOptions {
    pub const DEBUG: u32 = 0x1;

    pub const BSDGROUPS: u32 = 0x2;

    pub const XATTR_USER: u32 = 0x4;

    pub const ACL: u32 = 0x8;

    pub const UID16: u32 = 0x10;

    pub const JMODE_DATA: u32 = 0x20;

    pub const JMODE_ORDERED: u32 = 0x40;

    pub const JMODE_WBACK: u32 = 0x60;

    pub const NOBARRIER: u32 = 0x100;

    pub const BLOCK_VALIDITY: u32 = 0x200;

    pub const DISCARD: u32 = 0x400;

    pub const NODEALLOC: u32 = 0x800;

    /// Every declared flag.
    pub const ALL: u32 = 0xf7f;

    /// Wraps a raw value; never fails, and keeps unknown bits.
    pub fn from_raw(raw: u32) -> (r: Self)
        ensures
            r@ == raw,
    {
        DefaultMountOptions { bits: raw }
    }

    /// The raw value.
    pub fn bits(&self) -> (r: u32)
        ensures
            r == self@,
    {
        self.bits
    }

    /// Whether every bit of `flag` is set.
    pub fn contains(&self, flag: u32) -> (r: bool)
        ensures
            r == (self@ & flag == flag),
    {
        self.bits & flag == flag
    }

    /// Whether a bit outside the declared flags is set.
    pub fn unknown_bits(&self) -> (r: bool)
        ensures
            r == (self@ & !Self::ALL != 0),
    {
        self.bits & !Self::ALL != 0
    }

    /// The names of the known flags set in `bits`, in declaration order, then
    /// `(unknown_bits)` when a bit outside them is set.
    pub open spec fn spec_default_mount_opts_list(bits: u32) -> Seq<&'static str> {
        listed(bits, Self::DEBUG, "debug")
            + listed(bits, Self::BSDGROUPS, "bsdgroups")
            + listed(bits, Self::XATTR_USER, "xattr_user")
            + listed(bits, Self::ACL, "acl")
            + listed(bits, Self::UID16, "uid16")
            + listed(bits, Self::JMODE_DATA, "jmode_data")
            + listed(bits, Self::JMODE_ORDERED, "jmode_ordered")
            + listed(bits, Self::JMODE_WBACK, "jmode_wback")
            + listed(bits, Self::NOBARRIER, "nobarrier")
            + listed(bits, Self::BLOCK_VALIDITY, "block_validity")
            + listed(bits, Self::DISCARD, "discard")
            + listed(bits, Self::NODEALLOC, "nodealloc")
            + (if bits & !Self::ALL != 0 {
            seq!["(unknown_bits)"]
        } else {
            Seq::empty()
        })
    }

    /// The names of the known flags that are set, in declaration order, then
    /// `(unknown_bits)` when a bit outside them is set.
    pub fn default_mount_opts_list(&self) -> (r: Vec<&'static str>)
        ensures
            r@ == Self::spec_default_mount_opts_list(self@),
    {
        let bits = self.bits;
        let mut output: Vec<&'static str> = Vec::new();
        push_listed(&mut output, bits, Self::DEBUG, "debug");
        assert(output@ =~= listed(bits, Self::DEBUG, "debug"));
        push_listed(&mut output, bits, Self::BSDGROUPS, "bsdgroups");
        push_listed(&mut output, bits, Self::XATTR_USER, "xattr_user");
        push_listed(&mut output, bits, Self::ACL, "acl");
        push_listed(&mut output, bits, Self::UID16, "uid16");
        push_listed(&mut output, bits, Self::JMODE_DATA, "jmode_data");
        push_listed(&mut output, bits, Self::JMODE_ORDERED, "jmode_ordered");
        push_listed(&mut output, bits, Self::JMODE_WBACK, "jmode_wback");
        push_listed(&mut output, bits, Self::NOBARRIER, "nobarrier");
        push_listed(&mut output, bits, Self::BLOCK_VALIDITY, "block_validity");
        push_listed(&mut output, bits, Self::DISCARD, "discard");
        push_listed(&mut output, bits, Self::NODEALLOC, "nodealloc");
        if self.bits & !Self::ALL != 0 {
            output.push("(unknown_bits)");
        }
        assert(output@ =~= Self::spec_default_mount_opts_list(self@));
        output
    }
}

} // verus!
