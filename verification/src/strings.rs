//! Character-level helpers for the parsing done elsewhere in the crate:
//! exact string comparison, conversion to an indexable character vector,
//! and decimal digit sequences.

use vstd::prelude::*;
use vstd::string::StrSliceExecFns;

verus! {

/// Whether every character of `s` is a decimal digit.
pub open spec fn all_digits(s: Seq<char>) -> bool {
    forall|i: int| 0 <= i < s.len() ==> '0' <= #[trigger] s[i] <= '9'
}

/// The numeric value of a digit sequence, most significant digit first.
pub open spec fn digits_value(s: Seq<char>) -> int
    decreases s.len(),
{
    if s.len() == 0 {
        0
    } else {
        digits_value(s.drop_last()) * 10 + (s.last() as int - '0' as int)
    }
}

/// A digit sequence is worth at least as much as any of its prefixes.
pub proof fn lemma_digits_value_prefix(s: Seq<char>, i: int)
    requires
        all_digits(s),
        0 <= i <= s.len(),
    ensures
        digits_value(s.take(i)) <= digits_value(s),
        digits_value(s) >= 0,
    decreases s.len() - i,
{
    if i == s.len() {
        assert(s.take(i) =~= s);
        lemma_digits_value_nonneg(s);
    } else {
        lemma_digits_value_prefix(s, i + 1);
        assert(s.take(i + 1).drop_last() =~= s.take(i));
        assert(s.take(i + 1).last() == s[i]);
        lemma_digits_value_nonneg(s.take(i));
    }
}

/// The value of a digit sequence is never negative.
pub proof fn lemma_digits_value_nonneg(s: Seq<char>)
    requires
        all_digits(s),
    ensures
        digits_value(s) >= 0,
    decreases s.len(),
{
    if s.len() > 0 {
        assert(all_digits(s.drop_last()));
        lemma_digits_value_nonneg(s.drop_last());
    }
}

/// Exact character-for-character equality of two string slices.
pub fn str_eq(a: &str, b: &str) -> (r: bool)
    ensures
        r == (a@ == b@),
{
    let n = a.unicode_len();
    if n != b.unicode_len() {
        return false;
    }
    let mut i: usize = 0;
    while i < n
        invariant
            n == a@.len(),
            n == b@.len(),
            i <= n,
            forall|j: int| 0 <= j < i ==> a@[j] == b@[j],
        decreases n - i,
    {
        if a.get_char(i) != b.get_char(i) {
            return false;
        }
        i = i + 1;
    }
    proof {
        assert(a@ =~= b@);
    }
    true
}

/// The characters of a string, collected into a vector for random access.
pub fn to_char_vec(s: &str) -> (r: Vec<char>)
    ensures
        r@ == s@,
{
    let n = s.unicode_len();
    let mut r: Vec<char> = Vec::new();
    let mut i: usize = 0;
    while i < n
        invariant
            n == s@.len(),
            i <= n,
            r@ =~= s@.take(i as int),
        decreases n - i,
    {
        r.push(s.get_char(i));
        i = i + 1;
        proof {
            assert(r@ =~= s@.take(i as int));
        }
    }
    proof {
        assert(s@.take(n as int) =~= s@);
    }
    r
}

/// What parsing a decimal number returns: the value of the digits, or
/// nothing when the text is empty, holds a non-digit, or exceeds `u32::MAX`.
pub open spec fn spec_parse_u32(s: Seq<char>) -> Option<u32> {
    if s.len() == 0 || !all_digits(s) || digits_value(s) > u32::MAX {
        None
    } else {
        Some(digits_value(s) as u32)
    }
}

/// Parses `s` as an unsigned decimal number of at most 32 bits.
pub fn parse_u32(s: &str) -> (r: Option<u32>)
    ensures
        r == spec_parse_u32(s@),
{
    let n = s.unicode_len();
    if n == 0 {
        return None;
    }
    let mut value: u64 = 0;
    let mut i: usize = 0;
    while i < n
        invariant
            n == s@.len(),
            0 < n,
            i <= n,
            all_digits(s@.take(i as int)),
            value == digits_value(s@.take(i as int)),
            value <= u32::MAX,
        decreases n - i,
    {
        let c = s.get_char(i);
        if c < '0' || c > '9' {
            assert(!all_digits(s@)) by {
                assert(s@[i as int] == c);
            }
            return None;
        }
        let d: u64 = (c as u32 as u64) - ('0' as u32 as u64);
        proof {
            assert(s@.take(i + 1).drop_last() =~= s@.take(i as int));
            assert(s@.take(i + 1).last() == s@[i as int]);
        }
        let next: u64 = value * 10 + d;
        i = i + 1;
        if next > u32::MAX as u64 {
            // Every longer digit string is worth at least this prefix.
            proof {
                if all_digits(s@) {
                    lemma_digits_value_prefix(s@, i as int);
                }
            }
            return None;
        }
        value = next;
    }
    proof {
        assert(s@.take(n as int) =~= s@);
    }
    Some(value as u32)
}

} // verus!
