//! Reading a cell from a hexadecimal numeral.

use vstd::prelude::*;
use vstd::string::{is_ascii, StrSliceExecFns};
use crate::hex::{hex, hex_digit, hex_padded};

verus! {

/// The value of a digit character, in either case; `None` for every other
/// character.
pub open spec fn hex_value(c: char) -> Option<nat> {
    if '0' <= c <= '9' {
        Some((c as nat - '0' as nat) as nat)
    } else if 'a' <= c <= 'f' {
        Some((c as nat - 'a' as nat + 10) as nat)
    } else if 'A' <= c <= 'F' {
        Some((c as nat - 'A' as nat + 10) as nat)
    } else {
        None
    }
}

/// Whether every character of `s` is a digit.
pub open spec fn is_hex(s: Seq<char>) -> bool {
    forall|i: int| 0 <= i < s.len() ==> (#[trigger] hex_value(s[i])) is Some
}

/// The value of a numeral, most significant digit first. The empty numeral
/// has the value zero.
pub open spec fn hex_number(s: Seq<char>) -> nat
    decreases s.len(),
{
    if s.len() == 0 {
        0
    } else {
        16 * hex_number(s.drop_last()) + hex_value(s.last())->0
    }
}

/// `s` without the `0x` in front of it, taken off as often as it stands
/// there.
pub open spec fn trim_prefix(s: Seq<char>) -> Seq<char>
    decreases s.len(),
{
    if s.len() >= 2 && s[0] == '0' && s[1] == 'x' {
        trim_prefix(s.skip(2))
    } else {
        s
    }
}

/// `s` without the one plus sign that may stand in front of it.
pub open spec fn trim_sign(s: Seq<char>) -> Seq<char> {
    if s.len() >= 1 && s[0] == '+' {
        s.skip(1)
    } else {
        s
    }
}

/// The cell that `s` denotes.
///
/// Any number of `0x` prefixes and then one plus sign are passed over. What
/// is left must be a numeral: at least one digit, nothing but digits, in
/// either case, and a value that fits in 32 bits. Leading zeros are
/// accepted. Every other string denotes no cell.
pub open spec fn parse_hex(s: Seq<char>) -> Option<u32> {
    let digits = trim_sign(trim_prefix(s));
    if digits.len() >= 1 && is_hex(digits) && hex_number(digits) <= u32::MAX {
        Some(hex_number(digits) as u32)
    } else {
        None
    }
}

/// What `trim_prefix` takes off is made of the characters `0` and `x` alone,
/// and what it leaves is the rest of the string. Returns the number of
/// characters taken off.
pub proof fn lemma_trim_prefix(s: Seq<char>) -> (k: nat)
    ensures
        k <= s.len(),
        trim_prefix(s) == s.skip(k as int),
        forall|i: int| 0 <= i < k ==> s[i] == '0' || s[i] == 'x',
    decreases s.len(),
{
    if s.len() >= 2 && s[0] == '0' && s[1] == 'x' {
        let rest = s.skip(2);
        let k = lemma_trim_prefix(rest);
        assert(rest.skip(k as int) =~= s.skip(k as int + 2));
        assert forall|i: int| 0 <= i < k + 2 implies s[i] == '0' || s[i] == 'x' by {
            if i >= 2 {
                assert(s[i] == rest[i - 2]);
            }
        }
        k + 2
    } else {
        assert(s.skip(0) =~= s);
        0
    }
}

/// A string that holds a character outside ASCII denotes no cell.
pub proof fn lemma_parse_hex_ascii(s: Seq<char>)
    requires
        !vstd::utf8::is_ascii_chars(s),
    ensures
        parse_hex(s) is None,
{
    let j = choose|j: int| 0 <= j < s.len() && !('\0' <= #[trigger] s[j] <= '\u{7f}');
    let k = lemma_trim_prefix(s);
    let rest = s.skip(k as int);
    assert(rest[j - k] == s[j]);
    let digits = trim_sign(rest);
    if rest[0] == '+' {
        assert(digits[j - k - 1] == s[j]);
        assert(hex_value(digits[j - k - 1]) is None);
    } else {
        assert(hex_value(digits[j - k]) is None);
    }
}

/// The value of a numeral is at least the value of each of its prefixes.
pub proof fn lemma_hex_number_prefix(s: Seq<char>, n: int)
    requires
        0 <= n <= s.len(),
    ensures
        hex_number(s.take(n)) <= hex_number(s),
    decreases s.len(),
{
    if n == s.len() {
        assert(s.take(n) =~= s);
    } else {
        assert(s.drop_last().take(n) =~= s.take(n));
        lemma_hex_number_prefix(s.drop_last(), n);
    }
}

/// The value of one digit character.
fn digit_value(c: char) -> (r: Option<u64>)
    ensures
        match r {
            Some(d) => hex_value(c) == Some(d as nat) && d < 16,
            None => hex_value(c) is None,
        },
{
    if '0' <= c && c <= '9' {
        Some((c as u64) - ('0' as u64))
    } else if 'a' <= c && c <= 'f' {
        Some((c as u64) - ('a' as u64) + 10)
    } else if 'A' <= c && c <= 'F' {
        Some((c as u64) - ('A' as u64) + 10)
    } else {
        None
    }
}

/// The character at place `i` of an ASCII string.
fn char_at(s: &str, i: usize) -> (c: char)
    requires
        is_ascii(s),
        i < s@.len(),
    ensures
        c == s@[i as int],
{
    s.get_ascii(i) as char
}

/// Reads one cell from its hexadecimal numeral.
pub fn parse_cell(s: &str) -> (r: Option<u32>)
    ensures
        r == parse_hex(s@),
{
    if !s.is_ascii() {
        proof {
            lemma_parse_hex_ascii(s@);
        }
        return None;
    }
    proof {
        vstd::string::is_ascii_spec_bytes(s);
    }
    let n: usize = s.as_bytes().len();
    let mut i: usize = 0;
    assert(s@.skip(0) =~= s@);
    while n - i >= 2 && char_at(s, i) == '0' && char_at(s, i + 1) == 'x'
        invariant
            is_ascii(s),
            n == s@.len(),
            i <= n,
            trim_prefix(s@) == trim_prefix(s@.skip(i as int)),
        decreases n - i,
    {
        assert(s@.skip(i as int).skip(2) =~= s@.skip(i + 2));
        i = i + 2;
    }
    if i < n && char_at(s, i) == '+' {
        assert(s@.skip(i as int).skip(1) =~= s@.skip(i + 1));
        i = i + 1;
    }
    let ghost digits = s@.skip(i as int);
    assert(digits == trim_sign(trim_prefix(s@)));
    if i == n {
        return None;
    }
    let start: usize = i;
    let mut value: u64 = 0;
    while i < n
        invariant
            is_ascii(s),
            n == s@.len(),
            start <= i <= n,
            digits == s@.skip(start as int),
            digits == trim_sign(trim_prefix(s@)),
            is_hex(digits.take(i - start)),
            value == hex_number(digits.take(i - start)),
            value <= u32::MAX,
        decreases n - i,
    {
        let ghost seen = digits.take(i - start + 1);
        proof {
            assert(seen.drop_last() =~= digits.take(i - start));
            assert(seen.last() == s@[i as int]);
        }
        match digit_value(char_at(s, i)) {
            Some(d) => {
                value = value * 16 + d;
            },
            None => {
                assert(hex_value(digits[i - start]) is None);
                return None;
            },
        }
        if value > 0xffff_ffff {
            proof {
                lemma_hex_number_prefix(digits, i - start + 1);
            }
            return None;
        }
        i = i + 1;
    }
    assert(digits.take(i - start) =~= digits);
    Some(value as u32)
}

/// The character of a digit is a digit character, and its value is that
/// digit. It is neither the `x` of a prefix nor a sign.
pub proof fn lemma_hex_digit_value(d: nat)
    requires
        d < 16,
    ensures
        hex_value(hex_digit(d)) == Some(d),
        hex_digit(d) != 'x',
        hex_digit(d) != '+',
        hex_digit(0) == '0',
{
    reveal_strlit("0123456789abcdef");
    let digits = "0123456789abcdef"@;
    assert(digits[0] == '0' && digits[1] == '1' && digits[2] == '2' && digits[3] == '3');
    assert(digits[4] == '4' && digits[5] == '5' && digits[6] == '6' && digits[7] == '7');
    assert(digits[8] == '8' && digits[9] == '9' && digits[10] == 'a' && digits[11] == 'b');
    assert(digits[12] == 'c' && digits[13] == 'd' && digits[14] == 'e' && digits[15] == 'f');
}

/// What `hex` writes is a numeral, and its value is what was written.
pub proof fn lemma_hex_number_of_hex(v: nat)
    ensures
        hex(v).len() >= 1,
        is_hex(hex(v)),
        hex_number(hex(v)) == v,
        forall|i: int| 0 <= i < hex(v).len() ==> hex(v)[i] != 'x' && hex(v)[i] != '+',
    decreases v,
{
    let s = hex(v);
    if v < 16 {
        lemma_hex_digit_value(v);
        assert(s.drop_last() =~= Seq::<char>::empty());
        assert(hex_number(s) == 16 * hex_number(s.drop_last()) + hex_value(s.last())->0);
    } else {
        lemma_hex_number_of_hex(v / 16);
        lemma_hex_digit_value(v % 16);
        assert(s.drop_last() =~= hex(v / 16));
        assert(s.last() == hex_digit(v % 16));
        assert forall|i: int| 0 <= i < s.len() implies (#[trigger] hex_value(s[i])) is Some by {
            if i < s.len() - 1 {
                assert(s[i] == hex(v / 16)[i]);
            }
        }
        assert forall|i: int| 0 <= i < s.len() implies s[i] != 'x' && s[i] != '+' by {
            if i < s.len() - 1 {
                assert(s[i] == hex(v / 16)[i]);
            }
        }
    }
}

/// Zeros in front of a numeral do not change its value.
pub proof fn lemma_hex_number_zeros(zeros: nat, s: Seq<char>)
    ensures
        hex_number(Seq::new(zeros, |i: int| '0') + s) == hex_number(s),
    decreases s.len(), zeros,
{
    let z = Seq::new(zeros, |i: int| '0');
    if s.len() > 0 {
        assert((z + s).drop_last() =~= z + s.drop_last());
        lemma_hex_number_zeros(zeros, s.drop_last());
    } else if zeros > 0 {
        let fewer = Seq::new((zeros - 1) as nat, |i: int| '0');
        assert((z + s).drop_last() =~= fewer + s);
        lemma_hex_number_zeros((zeros - 1) as nat, s);
    } else {
        assert(z + s =~= s);
    }
}

/// Reading gives back what writing was given: the numeral of a cell,
/// padded to any width, with the `0x` prefix or without it, denotes that
/// cell.
pub proof fn lemma_parse_hex_of_hex(v: u32, width: nat)
    ensures
        parse_hex(hex(v as nat)) == Some(v),
        parse_hex(hex_padded(v as nat, width)) == Some(v),
        parse_hex("0x"@ + hex_padded(v as nat, width)) == Some(v),
{
    lemma_hex_number_of_hex(v as nat);
    lemma_hex_digit_value(0);
    let digits = hex(v as nat);
    let padded = hex_padded(v as nat, width);
    let zeros = (padded.len() - digits.len()) as nat;
    assert(padded =~= Seq::new(zeros, |i: int| '0') + digits);
    lemma_hex_number_zeros(zeros, digits);
    assert forall|i: int| 0 <= i < padded.len() implies (#[trigger] hex_value(padded[i])) is Some
        && padded[i] != 'x' && padded[i] != '+' by {
        if i >= zeros {
            assert(padded[i] == digits[i - zeros]);
        }
    }
    assert(trim_prefix(padded) == padded);
    assert(trim_prefix(digits) == digits);
    reveal_strlit("0x");
    let prefixed = "0x"@ + padded;
    assert(prefixed[0] == '0' && prefixed[1] == 'x');
    assert(prefixed.skip(2) =~= padded);
    assert(trim_prefix(prefixed) == trim_prefix(prefixed.skip(2)));
}

} // verus!
