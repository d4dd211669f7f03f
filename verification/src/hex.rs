//! Hexadecimal decoding of validator indices.
//!
//! A validator index arrives as a hexadecimal string, with or without a
//! leading `0x` marker, in either letter case. Decoding strips one optional
//! `0x` prefix and reads the rest as a base-16 unsigned integer; it fails on
//! an empty digit sequence, on any non-hexadecimal character, and on a value
//! that does not fit in 64 bits.

use vstd::prelude::*;
use vstd::string::StrSliceExecFns;

verus! {

/// The value of one hexadecimal digit, in either letter case.
pub open spec fn hex_digit_value(c: char) -> Option<u8> {
    match c {
        '0' => Some(0u8),
        '1' => Some(1u8),
        '2' => Some(2u8),
        '3' => Some(3u8),
        '4' => Some(4u8),
        '5' => Some(5u8),
        '6' => Some(6u8),
        '7' => Some(7u8),
        '8' => Some(8u8),
        '9' => Some(9u8),
        'a' => Some(10u8),
        'b' => Some(11u8),
        'c' => Some(12u8),
        'd' => Some(13u8),
        'e' => Some(14u8),
        'f' => Some(15u8),
        'A' => Some(10u8),
        'B' => Some(11u8),
        'C' => Some(12u8),
        'D' => Some(13u8),
        'E' => Some(14u8),
        'F' => Some(15u8),
        _ => None,
    }
}

/// A non-empty sequence of hexadecimal digits.
pub open spec fn is_hex_digits(s: Seq<char>) -> bool {
    s.len() > 0 && forall|i: int| 0 <= i < s.len() ==> (#[trigger] hex_digit_value(s[i])) is Some
}

pub open spec fn hex_digit_or_zero(c: char) -> nat {
    match hex_digit_value(c) {
        Some(d) => d as nat,
        None => 0,
    }
}

/// The unbounded value of a digit sequence read in base 16.
pub open spec fn hex_value(s: Seq<char>) -> nat
    decreases s.len(),
{
    if s.len() == 0 {
        0
    } else {
        16 * hex_value(s.drop_last()) + hex_digit_or_zero(s.last())
    }
}

/// Removes one leading `0x`, if present.
pub open spec fn strip_hex_prefix(s: Seq<char>) -> Seq<char> {
    if s.len() >= 2 && s[0] == '0' && s[1] == 'x' {
        s.skip(2)
    } else {
        s
    }
}

/// The index that a validator-index string denotes: its digits after an
/// optional `0x` prefix, read in base 16, provided they are non-empty, all
/// hexadecimal, and their value fits in 64 bits.
pub open spec fn spec_decode_index(s: Seq<char>) -> Option<u64> {
    let t = strip_hex_prefix(s);
    if is_hex_digits(t) && hex_value(t) <= u64::MAX {
        Some(hex_value(t) as u64)
    } else {
        None
    }
}

/// A digit-sequence prefix never exceeds the whole: each further digit
/// multiplies the value by 16 and adds a non-negative amount.
proof fn lemma_hex_value_prefix_le(s: Seq<char>, j: int)
    requires
        0 <= j <= s.len(),
    ensures
        hex_value(s.take(j)) <= hex_value(s),
    decreases s.len() - j,
{
    if j == s.len() {
        assert(s.take(j) =~= s);
    } else {
        assert(s.take(j + 1).drop_last() =~= s.take(j));
        assert(s.take(j + 1).last() == s[j]);
        assert(hex_value(s.take(j)) <= hex_value(s.take(j + 1)));
        lemma_hex_value_prefix_le(s, j + 1);
    }
}

fn hex_digit(c: char) -> (r: Option<u8>)
    ensures
        r == hex_digit_value(c),
{
    match c {
        '0' => Some(0u8),
        '1' => Some(1u8),
        '2' => Some(2u8),
        '3' => Some(3u8),
        '4' => Some(4u8),
        '5' => Some(5u8),
        '6' => Some(6u8),
        '7' => Some(7u8),
        '8' => Some(8u8),
        '9' => Some(9u8),
        'a' => Some(10u8),
        'b' => Some(11u8),
        'c' => Some(12u8),
        'd' => Some(13u8),
        'e' => Some(14u8),
        'f' => Some(15u8),
        'A' => Some(10u8),
        'B' => Some(11u8),
        'C' => Some(12u8),
        'D' => Some(13u8),
        'E' => Some(14u8),
        'F' => Some(15u8),
        _ => None,
    }
}

/// Decodes a validator-index string, matching [`spec_decode_index`] exactly.
pub fn decode_hex_u64(s: &str) -> (r: Option<u64>)
    ensures
        r == spec_decode_index(s@),
{
    let n: usize = s.unicode_len();
    let has_prefix: bool = n >= 2 && s.get_char(0) == '0' && s.get_char(1) == 'x';
    let start: usize = if has_prefix { 2 } else { 0 };
    let ghost t: Seq<char> = strip_hex_prefix(s@);
    proof {
        if has_prefix {
            assert(t =~= s@.skip(2));
        } else {
            assert(t =~= s@.skip(0));
        }
    }
    if start == n {
        return None;
    }
    let mut acc: u64 = 0;
    let mut i: usize = start;
    while i < n
        invariant
            start <= i <= n,
            start < n,
            n == s@.len(),
            t == s@.skip(start as int),
            t == strip_hex_prefix(s@),
            forall|k: int| 0 <= k < i - start ==> (#[trigger] hex_digit_value(t[k])) is Some,
            hex_value(t.take(i - start)) == acc as nat,
        decreases n - i,
    {
        let c = s.get_char(i);
        proof {
            assert(c == t[i - start]);
        }
        match hex_digit(c) {
            None => {
                return None;
            },
            Some(d) => {
                let ghost j: int = i - start;
                proof {
                    assert(t.take(j + 1).drop_last() =~= t.take(j));
                    assert(t.take(j + 1).last() == t[j]);
                    assert(hex_value(t.take(j + 1)) == 16 * (acc as nat) + d as nat);
                }
                // 0x0fff_ffff_ffff_ffff is the largest accumulator that a
                // further digit cannot push past u64::MAX.
                if acc > 0x0fff_ffff_ffff_ffffu64 {
                    proof {
                        assert(hex_value(t.take(j + 1)) > u64::MAX);
                        lemma_hex_value_prefix_le(t, j + 1);
                    }
                    return None;
                }
                acc = acc * 16 + d as u64;
            },
        }
        i = i + 1;
    }
    proof {
        assert(t.take(n - start) =~= t);
    }
    Some(acc)
}

/// A character and its other-case form denote the same hexadecimal digit;
/// any other pair is the same character.
pub open spec fn equiv_hex_char(a: char, b: char) -> bool {
    a == b
        || (a == 'a' && b == 'A') || (a == 'A' && b == 'a')
        || (a == 'b' && b == 'B') || (a == 'B' && b == 'b')
        || (a == 'c' && b == 'C') || (a == 'C' && b == 'c')
        || (a == 'd' && b == 'D') || (a == 'D' && b == 'd')
        || (a == 'e' && b == 'E') || (a == 'E' && b == 'e')
        || (a == 'f' && b == 'F') || (a == 'F' && b == 'f')
}

proof fn lemma_hex_value_equiv(s: Seq<char>, t: Seq<char>)
    requires
        s.len() == t.len(),
        forall|i: int| 0 <= i < s.len() ==> #[trigger] equiv_hex_char(s[i], t[i]),
    ensures
        hex_value(s) == hex_value(t),
    decreases s.len(),
{
    if s.len() > 0 {
        assert(equiv_hex_char(s.last(), t.last()));
        assert(hex_digit_or_zero(s.last()) == hex_digit_or_zero(t.last()));
        assert(forall|i: int| 0 <= i < s.drop_last().len()
            ==> #[trigger] equiv_hex_char(s.drop_last()[i], t.drop_last()[i]));
        lemma_hex_value_equiv(s.drop_last(), t.drop_last());
    }
}

/// Law: decoding is case-insensitive. Two strings that agree up to the letter
/// case of their hexadecimal digits decode alike: both fail, or both yield
/// the same index.
pub proof fn lemma_decode_case_insensitive(s: Seq<char>, t: Seq<char>)
    requires
        s.len() == t.len(),
        forall|i: int| 0 <= i < s.len() ==> #[trigger] equiv_hex_char(s[i], t[i]),
    ensures
        spec_decode_index(s) == spec_decode_index(t),
{
    if s.len() >= 2 {
        assert(equiv_hex_char(s[0], t[0]));
        assert(equiv_hex_char(s[1], t[1]));
        assert((s[0] == '0' && s[1] == 'x') <==> (t[0] == '0' && t[1] == 'x'));
    }
    let ss = strip_hex_prefix(s);
    let tt = strip_hex_prefix(t);
    assert(ss.len() == tt.len());
    assert forall|i: int| 0 <= i < ss.len() implies #[trigger] equiv_hex_char(ss[i], tt[i]) by {
        if s.len() >= 2 && s[0] == '0' && s[1] == 'x' {
            assert(ss[i] == s[i + 2]);
            assert(tt[i] == t[i + 2]);
            assert(equiv_hex_char(s[i + 2], t[i + 2]));
        } else {
            assert(equiv_hex_char(s[i], t[i]));
        }
    }
    if is_hex_digits(ss) {
        assert forall|i: int| 0 <= i < tt.len() implies (#[trigger] hex_digit_value(tt[i])) is Some by {
            assert(equiv_hex_char(ss[i], tt[i]));
            assert(hex_digit_value(ss[i]) is Some);
        }
        assert(is_hex_digits(tt));
    }
    if is_hex_digits(tt) {
        assert forall|i: int| 0 <= i < ss.len() implies (#[trigger] hex_digit_value(ss[i])) is Some by {
            assert(equiv_hex_char(ss[i], tt[i]));
            assert(hex_digit_value(tt[i]) is Some);
        }
        assert(is_hex_digits(ss));
    }
    lemma_hex_value_equiv(ss, tt);
}

/// Law: decoding is prefix-tolerant. In front of a plain digit string, a
/// `0x` marker does not change what is decoded.
pub proof fn lemma_decode_prefix_tolerant(s: Seq<char>)
    requires
        is_hex_digits(s),
    ensures
        spec_decode_index(seq!['0', 'x'] + s) == spec_decode_index(s),
{
    let p = seq!['0', 'x'] + s;
    assert(p[0] == '0' && p[1] == 'x');
    assert(strip_hex_prefix(p) =~= s);
    if s.len() >= 2 {
        assert(hex_digit_value(s[1]) is Some);
        assert(s[1] != 'x');
    }
    assert(strip_hex_prefix(s) =~= s);
}

} // verus!
