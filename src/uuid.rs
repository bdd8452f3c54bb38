//! 128-bit identifiers: volume and journal UUIDs, hash seeds, salts.
use crate::bytes::{
    be16, be32, enc16_be, enc32_be, lemma_be16_round_trip, lemma_be32_round_trip, u16_be, u32_be,
};
use crate::util::{hex_text, push_hex};
use vstd::prelude::*;
use vstd::string::StringExecFns;

verus! {

/// A UUID as stored on disk: its first three groups and the clock sequence
/// are big-endian integers, the node is six raw bytes.
#[derive(Clone, Copy, Debug, PartialEq, Eq)]
pub struct Uuid {
    pub time_low: u32,
    pub time_mid: u16,
    pub time_hi_and_version: u16,
    pub clock_seq: u16,
    pub node: [u8; 6],
}

impl Uuid {
    /// Whether `self` is the UUID whose 16 bytes start at `off` in `b`.
    pub open spec fn read_from(self, b: Seq<u8>, off: int) -> bool {
        &&& self.time_low == be32(b, off)
        &&& self.time_mid == be16(b, off + 4)
        &&& self.time_hi_and_version == be16(b, off + 6)
        &&& self.clock_seq == be16(b, off + 8)
        &&& self.node@ == b.subrange(off + 10, off + 16)
    }

    /// The 16 bytes that store `self`.
    pub open spec fn spec_encode(self) -> Seq<u8> {
        enc32_be(self.time_low) + enc16_be(self.time_mid) + enc16_be(self.time_hi_and_version)
            + enc16_be(self.clock_seq) + self.node@
    }

    /// Whether all 16 bytes are zero.
    pub open spec fn spec_is_null(self) -> bool {
        &&& self.time_low == 0
        &&& self.time_mid == 0
        &&& self.time_hi_and_version == 0
        &&& self.clock_seq == 0
        &&& forall|i: int| 0 <= i < 6 ==> self.node@[i] == 0
    }

    /// Reads the UUID whose 16 bytes start at `off`.
    pub fn from_bytes(b: &[u8], off: usize) -> (r: Uuid)
        requires
            off + 16 <= b@.len(),
        ensures
            r.read_from(b@, off as int),
    {
        let _len = b.len();
        let node = [b[off + 10], b[off + 11], b[off + 12], b[off + 13], b[off + 14], b[off + 15]];
        let r = Uuid {
            time_low: u32_be(b, off),
            time_mid: u16_be(b, off + 4),
            time_hi_and_version: u16_be(b, off + 6),
            clock_seq: u16_be(b, off + 8),
            node,
        };
        assert(r.node@ =~= b@.subrange(off + 10, off + 16));
        r
    }

    /// Whether all 16 bytes are zero.
    pub fn is_null(&self) -> (r: bool)
        ensures
            r == self.spec_is_null(),
    {
        let r = self.time_low == 0 && self.time_mid == 0 && self.time_hi_and_version == 0
            && self.clock_seq == 0 && self.node[0] == 0 && self.node[1] == 0 && self.node[2] == 0
            && self.node[3] == 0 && self.node[4] == 0 && self.node[5] == 0;
        assert(r == self.spec_is_null()) by {
            if self.spec_is_null() {
                assert(self.node@[0] == 0 && self.node@[1] == 0 && self.node@[2] == 0);
                assert(self.node@[3] == 0 && self.node@[4] == 0 && self.node@[5] == 0);
            }
        }
        r
    }

    /// `<none>` for the null UUID, else the five groups in upper-case hex,
    /// `XXXXXXXX-XXXX-XXXX-XXXX-XXXXXXXXXXXX`.
    pub open spec fn spec_text(self) -> Seq<char> {
        if self.spec_is_null() {
            "<none>"@
        } else {
            hex_text(self.time_low as nat, 8) + "-"@ + hex_text(self.time_mid as nat, 4) + "-"@
                + hex_text(self.time_hi_and_version as nat, 4) + "-"@ + hex_text(
                self.clock_seq as nat,
                4,
            ) + "-"@ + hex_text(self.node@[0] as nat, 2) + hex_text(self.node@[1] as nat, 2)
                + hex_text(self.node@[2] as nat, 2) + hex_text(self.node@[3] as nat, 2) + hex_text(
                self.node@[4] as nat,
                2,
            ) + hex_text(self.node@[5] as nat, 2)
        }
    }

    /// The textual form: `<none>` for the null UUID, else
    /// `XXXXXXXX-XXXX-XXXX-XXXX-XXXXXXXXXXXX` in upper-case hex.
    pub fn to_text(&self) -> (r: String)
        ensures
            r@ == self.spec_text(),
    {
        if self.is_null() {
            return String::from_str("<none>");
        }
        let mut s = String::new();
        push_hex(&mut s, self.time_low as u64, 8);
        s.append("-");
        push_hex(&mut s, self.time_mid as u64, 4);
        s.append("-");
        push_hex(&mut s, self.time_hi_and_version as u64, 4);
        s.append("-");
        push_hex(&mut s, self.clock_seq as u64, 4);
        s.append("-");
        push_hex(&mut s, self.node[0] as u64, 2);
        push_hex(&mut s, self.node[1] as u64, 2);
        push_hex(&mut s, self.node[2] as u64, 2);
        push_hex(&mut s, self.node[3] as u64, 2);
        push_hex(&mut s, self.node[4] as u64, 2);
        push_hex(&mut s, self.node[5] as u64, 2);
        s
    }

    /// A UUID read from bytes is null exactly when all 16 of its bytes are
    /// zero.
    pub proof fn lemma_is_null_iff_zero_bytes(self, b: Seq<u8>, off: int)
        requires
            0 <= off,
            off + 16 <= b.len(),
            self.read_from(b, off),
        ensures
            self.spec_is_null() <==> (forall|i: int| off <= i < off + 16 ==> b[i] == 0),
    {
        lemma_be32_round_trip(b, off);
        lemma_be16_round_trip(b, off + 4);
        lemma_be16_round_trip(b, off + 6);
        lemma_be16_round_trip(b, off + 8);
        if self.spec_is_null() {
            assert forall|i: int| off <= i < off + 16 implies b[i] == 0 by {
                if i >= off + 10 {
                    assert(self.node@[i - off - 10] == b[i]);
                }
            }
        }
        if forall|i: int| off <= i < off + 16 ==> b[i] == 0 {
            assert forall|i: int| 0 <= i < 6 implies self.node@[i] == 0 by {
                assert(self.node@[i] == b[off + 10 + i]);
            }
        }
    }

    /// Re-encoding a UUID read from bytes gives back those bytes.
    pub proof fn lemma_round_trip(self, b: Seq<u8>, off: int)
        requires
            0 <= off,
            off + 16 <= b.len(),
            self.read_from(b, off),
        ensures
            self.spec_encode() == b.subrange(off, off + 16),
    {
        lemma_be32_round_trip(b, off);
        lemma_be16_round_trip(b, off + 4);
        lemma_be16_round_trip(b, off + 6);
        lemma_be16_round_trip(b, off + 8);
        assert(self.spec_encode() =~= b.subrange(off, off + 16));
    }
}

} // verus!
