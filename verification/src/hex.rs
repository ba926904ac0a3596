//! Writing a value as a hexadecimal numeral.

use vstd::prelude::*;
use vstd::string::{is_ascii, StrSliceExecFns, StringExecFns};

verus! {

/// The character that stands for the digit `d`, for `d` below sixteen.
pub open spec fn hex_digit(d: nat) -> char {
    "0123456789abcdef"@[d as int]
}

/// The numeral of `v` in base sixteen, lower case, most significant digit
/// first, with no leading zero (zero itself is written `0`).
pub open spec fn hex(v: nat) -> Seq<char>
    decreases v,
{
    if v < 16 {
        seq![hex_digit(v)]
    } else {
        hex(v / 16).push(hex_digit(v % 16))
    }
}

/// The numeral of `v`, with zeros put in front until it has `width`
/// characters. A numeral that is longer than `width` is left whole.
pub open spec fn hex_padded(v: nat, width: nat) -> Seq<char> {
    if hex(v).len() >= width {
        hex(v)
    } else {
        Seq::new((width - hex(v).len()) as nat, |i: int| '0') + hex(v)
    }
}

/// Sixteen to the power of `places`.
pub open spec fn pow16(places: nat) -> nat
    decreases places,
{
    if places == 0 {
        1
    } else {
        16 * pow16((places - 1) as nat)
    }
}

/// A numeral has as many digits as the value has base-sixteen places: a
/// value below sixteen to the power of `places` has at most `places` digits.
pub proof fn lemma_hex_len(v: nat, places: nat)
    requires
        places >= 1,
        v < pow16(places),
    ensures
        1 <= hex(v).len() <= places,
    decreases v,
{
    if v >= 16 {
        reveal_with_fuel(pow16, 2);
        lemma_hex_len(v / 16, (places - 1) as nat);
    }
}

/// A 64-bit value is written with at most sixteen digits.
pub proof fn lemma_hex_len_u64(v: u64)
    ensures
        1 <= hex(v as nat).len() <= 16,
{
    assert(pow16(16) == 0x1_0000_0000_0000_0000) by {
        reveal_with_fuel(pow16, 17);
    }
    lemma_hex_len(v as nat, 16);
}

/// A padded numeral has exactly the width asked for, where the value has
/// no more places than that.
pub proof fn lemma_hex_padded_len(v: nat, width: nat)
    requires
        width >= 1,
        v < pow16(width),
    ensures
        hex_padded(v, width).len() == width,
{
    lemma_hex_len(v, width);
}

/// Appends the character of one digit.
fn push_digit(out: &mut String, d: u64)
    requires
        d < 16,
    ensures
        final(out)@ == old(out)@.push(hex_digit(d as nat)),
{
    let digits = "0123456789abcdef";
    proof {
        reveal_strlit("0123456789abcdef");
    }
    assert(is_ascii(digits));
    let digit = digits.substring_ascii(d as usize, d as usize + 1);
    assert(digit@ =~= seq![hex_digit(d as nat)]);
    out.append(digit);
}

/// Appends the numeral of `v`.
fn push_hex(out: &mut String, v: u64)
    ensures
        final(out)@ == old(out)@ + hex(v as nat),
    decreases v,
{
    if v >= 16 {
        push_hex(out, v / 16);
    }
    push_digit(out, v % 16);
}

/// The number of digits in the numeral of `v`.
fn hex_len(v: u64) -> (n: usize)
    ensures
        n == hex(v as nat).len(),
    decreases v,
{
    proof {
        lemma_hex_len_u64(v);
        lemma_hex_len_u64(v / 16);
    }
    if v < 16 {
        1
    } else {
        hex_len(v / 16) + 1
    }
}

/// Writes `v` in base sixteen with as few digits as it takes.
pub fn to_hex(v: u64) -> (s: String)
    ensures
        s@ == hex(v as nat),
{
    let mut s = String::new();
    push_hex(&mut s, v);
    s
}

/// Writes `v` in base sixteen, padded with zeros in front to `width`
/// characters.
pub fn to_hex_padded(v: u64, width: usize) -> (s: String)
    ensures
        s@ == hex_padded(v as nat, width as nat),
{
    let n: usize = hex_len(v);
    let mut s = String::new();
    let mut i: usize = n;
    while i < width
        invariant
            n == hex(v as nat).len(),
            n <= i,
            i <= width || i == n,
            s@ =~= Seq::new((i - n) as nat, |k: int| '0'),
        decreases width - i,
    {
        proof {
            reveal_strlit("0");
        }
        s.append("0");
        i = i + 1;
    }
    let ghost zeros = s@;
    push_hex(&mut s, v);
    assert(s@ =~= hex_padded(v as nat, width as nat)) by {
        assert(n >= width ==> zeros + hex(v as nat) =~= hex(v as nat));
    }
    s
}

} // verus!
