//! Helpers shared by the bit-flag types: each wraps a raw integer, keeps
//! every bit of it (known or not), and lists the names of the known flags
//! that are set, in declaration order.
use vstd::prelude::*;

verus! {

/// `seq![name]` when every bit of `flag` is set in `bits`, else nothing.
pub open spec fn listed(bits: u32, flag: u32, name: &'static str) -> Seq<&'static str> {
    if bits & flag == flag {
        seq![name]
    } else {
        Seq::empty()
    }
}

/// Appends `name` to `v` when every bit of `flag` is set in `bits`.
pub fn push_listed(v: &mut Vec<&'static str>, bits: u32, flag: u32, name: &'static str)
    ensures
        final(v)@ == old(v)@ + listed(bits, flag, name),
{
    if bits & flag == flag {
        v.push(name);
        assert(final(v)@ =~= old(v)@ + listed(bits, flag, name));
    } else {
        assert(old(v)@ + listed(bits, flag, name) =~= old(v)@);
    }
}

/// For a flag made of one bit, a raw value contains the flag exactly when
/// the two share a bit: `from_raw(raw).contains(flag)` iff `raw & flag != 0`.
pub proof fn lemma_single_bit_contains(raw: u32, flag: u32)
    requires
        flag != 0,
        flag & ((flag - 1) as u32) == 0,
    ensures
        (raw & flag == flag) <==> (raw & flag != 0),
{
    assert((raw & flag == flag) <==> (raw & flag != 0)) by (bit_vector)
        requires
            flag != 0,
            flag & ((flag - 1) as u32) == 0,
    ;
}

} // verus!
