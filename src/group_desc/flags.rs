//! Block group flags.
use crate::flags::{listed, push_listed};
use vstd::prelude::*;

verus! {

/// Block group flags.
///
/// Bits outside the declared flags are kept as they were read.
#[derive(Clone, Copy, Debug, PartialEq, Eq, Structural)]
pub struct Flags {
    bits: u16,
}

impl View for Flags {
    type V = u16;

    closed spec fn view(&self) -> u16 {
        self.bits
    }
}

impl Flags {
    pub const INODE_UNINIT: u16 = 0x1;

    pub const BLOCK_UNINIT: u16 = 0x2;

    pub const INODE_ZEROED: u16 = 0x4;

    /// Every declared flag.
    pub const ALL: u16 = 0x7;

    /// Wraps a raw value; never fails, and keeps unknown bits.
    pub fn from_raw(raw: u16) -> (r: Self)
        ensures
            r@ == raw,
    {
        Flags { bits: raw }
    }

    /// The raw value.
    pub fn bits(&self) -> (r: u16)
        ensures
            r == self@,
    {
        self.bits
    }

    /// Whether every bit of `flag` is set.
    pub fn contains(&self, flag: u16) -> (r: bool)
        ensures
            r == (self@ & flag == flag),
    {
        self.bits & flag == flag
    }

    /// Whether a bit outside the declared flags is set.
    pub fn unknown_bits(&self) -> (r: bool)
        ensures
            r == (self@ & !Self::ALL != 0),
    {
        self.bits & !Self::ALL != 0
    }

    /// The names of the known flags set in `bits`, in declaration order, then
    /// `(unknown_bits)` when a bit outside them is set.
    pub open spec fn spec_flags_list(bits: u16) -> Seq<&'static str> {
        listed(bits as u32, Self::INODE_UNINIT as u32, "inode_uninitialized")
            + listed(bits as u32, Self::BLOCK_UNINIT as u32, "block_uninitialized")
            + listed(bits as u32, Self::INODE_ZEROED as u32, "inode_zeroed")
            + (if bits & !Self::ALL != 0 {
            seq!["(unknown_bits)"]
        } else {
            Seq::empty()
        })
    }

    /// The names of the known flags that are set, in declaration order, then
    /// `(unknown_bits)` when a bit outside them is set.
    pub fn flags_list(&self) -> (r: Vec<&'static str>)
        ensures
            r@ == Self::spec_flags_list(self@),
    {
        let bits = self.bits as u32;
        let mut output: Vec<&'static str> = Vec::new();
        push_listed(&mut output, bits, Self::INODE_UNINIT as u32, "inode_uninitialized");
        assert(output@ =~= listed(bits, Self::INODE_UNINIT as u32, "inode_uninitialized"));
        push_listed(&mut output, bits, Self::BLOCK_UNINIT as u32, "block_uninitialized");
        push_listed(&mut output, bits, Self::INODE_ZEROED as u32, "inode_zeroed");
        if self.bits & !Self::ALL != 0 {
            output.push("(unknown_bits)");
        }
        assert(output@ =~= Self::spec_flags_list(self@));
        output
    }
}

} // verus!
