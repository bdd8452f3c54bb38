//! Text helpers: decimal and hexadecimal numerals, placeholders for empty
//! fields, lists joined by spaces, and sizes in human units.
use vstd::prelude::*;
use vstd::string::{StringExecFns, StringSliceAdditionalSpecFns};
use vstd::utf8::{decode_utf8, valid_utf8};

verus! {

/// Relies on `String::from_utf8`: it succeeds exactly when the bytes are
/// valid UTF-8, and the string then holds the characters they encode.
#[verifier::external_body]
pub(crate) fn string_from_utf8(b: Vec<u8>) -> (r: Option<String>)
    ensures
        (r is Some) <==> valid_utf8(b@),
        r matches Some(s) ==> s@ == decode_utf8(b@),
{
    String::from_utf8(b).ok()
}

/// Relies on `String::push`: appends the character `c`.
#[verifier::external_body]
pub(crate) fn push_char(s: &mut String, c: char)
    ensures
        final(s)@ == old(s)@.push(c),
{
    s.push(c)
}

/// The digit of value `d` (below 16), upper case past 9.
pub open spec fn digit_char(d: nat) -> char {
    if d < 10 {
        (('0' as nat) + d) as char
    } else {
        (('A' as nat) + d - 10) as char
    }
}

/// The decimal numeral of `n`, without leading zeros.
pub open spec fn decimal_text(n: nat) -> Seq<char>
    decreases n,
{
    if n < 10 {
        seq![digit_char(n)]
    } else {
        decimal_text(n / 10) + seq![digit_char(n % 10)]
    }
}

/// The `width` low hexadecimal digits of `n`, most significant first.
pub open spec fn hex_text(n: nat, width: nat) -> Seq<char>
    decreases width,
{
    if width == 0 {
        Seq::empty()
    } else {
        hex_text(n / 16, (width - 1) as nat) + seq![digit_char(n % 16)]
    }
}

/// The one-character string of digit `d`.
fn digit_str(d: u64) -> (r: &'static str)
    requires
        d < 16,
    ensures
        r@ == seq![digit_char(d as nat)],
{
    proof {
        reveal_strlit("0");
        reveal_strlit("1");
        reveal_strlit("2");
        reveal_strlit("3");
        reveal_strlit("4");
        reveal_strlit("5");
        reveal_strlit("6");
        reveal_strlit("7");
        reveal_strlit("8");
        reveal_strlit("9");
        reveal_strlit("A");
        reveal_strlit("B");
        reveal_strlit("C");
        reveal_strlit("D");
        reveal_strlit("E");
        reveal_strlit("F");
    }
    let r = if d == 0 {
        "0"
    } else if d == 1 {
        "1"
    } else if d == 2 {
        "2"
    } else if d == 3 {
        "3"
    } else if d == 4 {
        "4"
    } else if d == 5 {
        "5"
    } else if d == 6 {
        "6"
    } else if d == 7 {
        "7"
    } else if d == 8 {
        "8"
    } else if d == 9 {
        "9"
    } else if d == 10 {
        "A"
    } else if d == 11 {
        "B"
    } else if d == 12 {
        "C"
    } else if d == 13 {
        "D"
    } else if d == 14 {
        "E"
    } else {
        "F"
    };
    assert(r@ =~= seq![digit_char(d as nat)]);
    r
}

/// Appends the decimal numeral of `n` to `s`.
pub fn push_decimal(s: &mut String, n: u64)
    ensures
        final(s)@ == old(s)@ + decimal_text(n as nat),
    decreases n,
{
    if n >= 10 {
        push_decimal(s, n / 10);
    }
    s.append(digit_str(n % 10));
    assert(final(s)@ =~= old(s)@ + decimal_text(n as nat));
}

/// Appends the `width` low hexadecimal digits of `n` to `s`.
pub fn push_hex(s: &mut String, n: u64, width: u64)
    ensures
        final(s)@ == old(s)@ + hex_text(n as nat, width as nat),
    decreases width,
{
    if width > 0 {
        push_hex(s, n / 16, width - 1);
        s.append(digit_str(n % 16));
    }
    assert(final(s)@ =~= old(s)@ + hex_text(n as nat, width as nat));
}

/// `<not available>` for a field whose first byte is zero (or that is
/// empty), else the field itself.
pub fn get_string(string: &str) -> (r: &str)
    ensures
        r@ == (if string.spec_bytes().len() == 0 || string.spec_bytes()[0] == 0 {
            "<not available>"@
        } else {
            string@
        }),
{
    let b = string.as_bytes();
    if b.len() == 0 || b[0] == 0 {
        "<not available>"
    } else {
        string
    }
}

/// The items joined by single spaces.
pub open spec fn joined(list: Seq<Seq<char>>) -> Seq<char>
    decreases list.len(),
{
    if list.len() == 0 {
        Seq::empty()
    } else if list.len() == 1 {
        list[0]
    } else {
        joined(list.drop_last()) + " "@ + list.last()
    }
}

/// `(none)` for an empty list, else the items joined by single spaces.
pub fn get_string_list(list: &Vec<&str>) -> (r: String)
    ensures
        r@ == (if list@.len() == 0 {
            "(none)"@
        } else {
            joined(list@.map_values(|s: &str| s@))
        }),
{
    if list.len() == 0 {
        return String::from_str("(none)");
    }
    let mut out = String::from_str(list[0]);
    let mut i: usize = 1;
    assert(list@.map_values(|s: &str| s@).take(1) =~= seq![list@[0]@]);
    while i < list.len()
        invariant
            1 <= i <= list@.len(),
            out@ == joined(list@.map_values(|s: &str| s@).take(i as int)),
        decreases list@.len() - i,
    {
        out.append(" ");
        out.append(list[i]);
        let ghost items = list@.map_values(|s: &str| s@);
        assert(items.take(i + 1).drop_last() =~= items.take(i as int));
        i = i + 1;
    }
    assert(list@.map_values(|s: &str| s@).take(i as int) =~= list@.map_values(|s: &str| s@));
    out
}

/// A size given in KiB, in the largest unit under which it stays below
/// 8192, rounded to the nearest unit.
pub open spec fn human_readable(k: nat) -> Seq<char> {
    if k < 0x2000 {
        decimal_text(k) + " kB"@
    } else if k < 0x80_0000 {
        decimal_text((k + 0x200) / 0x400) + " MB"@
    } else if k < 0x2_0000_0000 {
        decimal_text((k + 0x8_0000) / 0x10_0000) + " GB"@
    } else if k < 0x800_0000_0000 {
        decimal_text((k + 0x2000_0000) / 0x4000_0000) + " TB"@
    } else {
        decimal_text((k + 0x80_0000_0000) / 0x100_0000_0000) + " PB"@
    }
}

/// A size given in KiB, in kB, MB, GB, TB or PB: the largest unit under
/// which it stays below 8192, rounded to the nearest unit.
pub fn kbytes_to_human_readable(kbytes: u64) -> (r: String)
    ensures
        r@ == human_readable(kbytes as nat),
{
    let mut s = String::new();
    if kbytes < 0x2000 {
        push_decimal(&mut s, kbytes);
        s.append(" kB");
    } else if kbytes < 0x80_0000 {
        push_decimal(&mut s, (kbytes + 0x200) / 0x400);
        s.append(" MB");
    } else if kbytes < 0x2_0000_0000 {
        push_decimal(&mut s, (kbytes + 0x8_0000) / 0x10_0000);
        s.append(" GB");
    } else if kbytes < 0x800_0000_0000 {
        push_decimal(&mut s, (kbytes + 0x2000_0000) / 0x4000_0000);
        s.append(" TB");
    } else {
        let v = ((kbytes as u128 + 0x80_0000_0000) / 0x100_0000_0000) as u64;
        push_decimal(&mut s, v);
        s.append(" PB");
    }
    assert(s@ =~= human_readable(kbytes as nat));
    s
}

} // verus!
