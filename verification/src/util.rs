//! Small total helpers the decoder is built on: byte-string equality,
//! guarded list lookup, and parsing of decimal amount strings.

use vstd::prelude::*;
use vstd::string::StrSliceExecFns;

verus! {

/// Byte-level equality of two byte strings.
pub fn bytes_eq(a: &[u8], b: &[u8]) -> (r: bool)
    ensures
        r == (a@ == b@),
{
    if a.len() != b.len() {
        return false;
    }
    let n = a.len();
    let mut i: usize = 0;
    while i < n
        invariant
            n == a@.len() == b@.len(),
            i <= n,
            forall|j: int| 0 <= j < i ==> a@[j] == b@[j],
        decreases n - i,
    {
        if a[i] != b[i] {
            return false;
        }
        i = i + 1;
    }
    proof {
        assert(a@ =~= b@);
    }
    true
}

/// The element of a sequence at a position, or nothing when the position is
/// outside the sequence.
pub open spec fn seq_get<A>(s: Seq<A>, i: int) -> Option<A> {
    if 0 <= i < s.len() {
        Some(s[i])
    } else {
        None
    }
}

/// Guarded lookup in an account-key list: a position outside the list is a
/// soft miss, never an error.
pub fn key_at<'a>(keys: &'a Vec<Vec<u8>>, index: usize) -> (r: Option<&'a Vec<u8>>)
    ensures
        match r {
            Some(k) => seq_get(keys.deep_view(), index as int) == Some(k.deep_view()),
            None => seq_get(keys.deep_view(), index as int) is None,
        },
{
    if index < keys.len() {
        Some(&keys[index])
    } else {
        None
    }
}

/// Whether a character is a decimal digit.
pub open spec fn spec_is_digit(c: char) -> bool {
    48 <= c as u32 <= 57
}

/// The value of a decimal digit; zero for any other character.
pub open spec fn spec_digit_value(c: char) -> nat {
    if spec_is_digit(c) {
        (c as u32 - 48) as nat
    } else {
        0
    }
}

/// Whether every character of a text is a decimal digit.
pub open spec fn spec_all_digits(s: Seq<char>) -> bool {
    forall|i: int| 0 <= i < s.len() ==> spec_is_digit(#[trigger] s[i])
}

/// The number denoted by a text of decimal digits, most significant first.
pub open spec fn spec_decimal_value(s: Seq<char>) -> nat
    decreases s.len(),
{
    if s.len() == 0 {
        0
    } else {
        spec_decimal_value(s.drop_last()) * 10 + spec_digit_value(s.last())
    }
}

/// The number a text denotes as an unsigned 64-bit amount: an optional plus
/// sign, then at least one decimal digit and nothing else, with a value that
/// fits; anything else denotes nothing.
pub open spec fn spec_parse_u64(s: Seq<char>) -> Option<u64> {
    let digits = if s.len() > 0 && s[0] == '+' {
        s.drop_first()
    } else {
        s
    };
    if digits.len() == 0 || !spec_all_digits(digits) {
        None
    } else if spec_decimal_value(digits) > u64::MAX {
        None
    } else {
        Some(spec_decimal_value(digits) as u64)
    }
}

/// The number a text denotes, or zero when it denotes nothing.
pub open spec fn spec_parse_u64_or_zero(s: Seq<char>) -> u64 {
    match spec_parse_u64(s) {
        Some(v) => v,
        None => 0,
    }
}

/// Extending a digit text to the right never decreases its value.
proof fn lemma_decimal_value_window_monotone(s: Seq<char>, a: int, k1: int, k2: int)
    requires
        0 <= a <= k1 <= k2 <= s.len(),
    ensures
        spec_decimal_value(s.subrange(a, k1)) <= spec_decimal_value(s.subrange(a, k2)),
    decreases k2 - k1,
{
    if k1 < k2 {
        lemma_decimal_value_window_monotone(s, a, k1, k2 - 1);
        assert(s.subrange(a, k2).drop_last() =~= s.subrange(a, k2 - 1));
        let v = spec_decimal_value(s.subrange(a, k2 - 1));
        assert(spec_decimal_value(s.subrange(a, k2)) == v * 10 + spec_digit_value(
            s.subrange(a, k2).last(),
        ));
    }
}

/// Parse a decimal string to an unsigned 64-bit amount, exactly as
/// [`spec_parse_u64`] reads it: an optional leading plus sign, then one or
/// more decimal digits whose value fits; anything else parses to nothing.
pub fn parse_u64(s: &str) -> (r: Option<u64>)
    ensures
        r == spec_parse_u64(s@),
{
    let n = s.unicode_len();
    let start: usize = if n > 0 && s.get_char(0) == '+' {
        1
    } else {
        0
    };
    let ghost digits = if s@.len() > 0 && s@[0] == '+' {
        s@.drop_first()
    } else {
        s@
    };
    proof {
        assert(digits =~= s@.subrange(start as int, n as int));
    }
    if start >= n {
        return None;
    }
    let mut val: u64 = 0;
    let mut j: usize = start;
    while j < n
        invariant
            start <= j <= n,
            n == s@.len(),
            digits == (if s@.len() > 0 && s@[0] == '+' {
                s@.drop_first()
            } else {
                s@
            }),
            digits =~= s@.subrange(start as int, n as int),
            spec_all_digits(s@.subrange(start as int, j as int)),
            val == spec_decimal_value(s@.subrange(start as int, j as int)),
        decreases n - j,
    {
        let c = s.get_char(j);
        let u = c as u32;
        if u < 48 || u > 57 {
            proof {
                assert(digits[j - start] == s@[j as int]);
                assert(!spec_all_digits(digits));
            }
            return None;
        }
        let d = (u - 48) as u64;
        proof {
            assert(s@.subrange(start as int, j + 1).drop_last() =~= s@.subrange(
                start as int,
                j as int,
            ));
            assert(s@.subrange(start as int, j + 1).last() == s@[j as int]);
        }
        if val > u64::MAX / 10 || (val == u64::MAX / 10 && d > u64::MAX % 10) {
            proof {
                assert(spec_decimal_value(s@.subrange(start as int, j + 1)) == val * 10 + d);
                assert(spec_decimal_value(s@.subrange(start as int, j + 1)) > u64::MAX);
                lemma_decimal_value_window_monotone(s@, start as int, j + 1, n as int);
            }
            return None;
        }
        val = val * 10 + d;
        j = j + 1;
    }
    Some(val)
}

/// Parse a decimal string, reading anything unparsable as zero.
pub fn parse_u64_or_zero(s: &str) -> (r: u64)
    ensures
        r == spec_parse_u64_or_zero(s@),
{
    match parse_u64(s) {
        Some(v) => v,
        None => 0,
    }
}

} // verus!
