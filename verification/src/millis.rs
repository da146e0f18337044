//! Parsing of millisecond counts given as decimal strings.
//!
//! A duration argument is a string of decimal digits, optionally preceded by
//! a single `+` sign. Parsing fails on an empty digit string, on any
//! non-digit character, and on a value too large for `u64`.

use vstd::prelude::*;
use vstd::string::StrSliceExecFns;

verus! {

/// A decimal digit.
pub open spec fn is_dec_digit(c: char) -> bool {
    '0' <= c && c <= '9'
}

/// The numeric value of one decimal digit.
pub open spec fn digit_value(c: char) -> int {
    c as int - '0' as int
}

/// Every character of `s` is a decimal digit.
pub open spec fn all_dec_digits(s: Seq<char>) -> bool {
    forall|i: int| 0 <= i < s.len() ==> is_dec_digit(#[trigger] s[i])
}

/// The value of a digit string read most-significant first.
pub open spec fn dec_value(s: Seq<char>) -> int
    decreases s.len(),
{
    if s.len() == 0 {
        0
    } else {
        dec_value(s.drop_last()) * 10 + digit_value(s.last())
    }
}

/// The digits of a numeral: everything after an optional leading `+`.
pub open spec fn digits_of(s: Seq<char>) -> Seq<char> {
    if s.len() > 0 && s[0] == '+' {
        s.subrange(1, s.len() as int)
    } else {
        s
    }
}

/// `s` is a well-formed numeral whose value fits in `u64`.
pub open spec fn parses_to_u64(s: Seq<char>) -> bool {
    &&& digits_of(s).len() > 0
    &&& all_dec_digits(digits_of(s))
    &&& dec_value(digits_of(s)) <= u64::MAX
}

/// The value a well-formed numeral denotes.
pub open spec fn numeral_value(s: Seq<char>) -> int {
    dec_value(digits_of(s))
}

/// A digit string's value is never negative.
pub proof fn lemma_dec_value_nonneg(s: Seq<char>)
    requires
        all_dec_digits(s),
    ensures
        dec_value(s) >= 0,
    decreases s.len(),
{
    if s.len() > 0 {
        assert(all_dec_digits(s.drop_last())) by {
            assert(forall|i: int|
                0 <= i < s.len() - 1 ==> s.drop_last()[i] == #[trigger] s[i]);
        }
        lemma_dec_value_nonneg(s.drop_last());
    }
}

/// Taking one more digit multiplies the value by ten and adds that digit.
pub proof fn lemma_dec_value_step(s: Seq<char>, i: int)
    requires
        0 <= i < s.len(),
    ensures
        dec_value(s.subrange(0, i + 1)) == dec_value(s.subrange(0, i)) * 10 + digit_value(s[i]),
{
    let pre = s.subrange(0, i + 1);
    assert(pre.drop_last() =~= s.subrange(0, i));
    assert(pre.last() == s[i]);
}

/// A longer all-digit prefix never has a smaller value.
pub proof fn lemma_dec_value_monotone(s: Seq<char>, i: int, j: int)
    requires
        0 <= i <= j <= s.len(),
        all_dec_digits(s),
    ensures
        dec_value(s.subrange(0, i)) <= dec_value(s.subrange(0, j)),
    decreases j - i,
{
    if i < j {
        lemma_dec_value_monotone(s, i, j - 1);
        lemma_dec_value_step(s, j - 1);
        assert(all_dec_digits(s.subrange(0, j - 1))) by {
            assert(forall|k: int|
                0 <= k < j - 1 ==> s.subrange(0, j - 1)[k] == #[trigger] s[k]);
        }
        lemma_dec_value_nonneg(s.subrange(0, j - 1));
    }
}

/// Parse a decimal numeral (optionally signed with `+`) into milliseconds.
///
/// Returns `Some` exactly on well-formed numerals whose value fits in `u64`,
/// and then returns the denoted value.
pub fn parse_millis(s: &str) -> (r: Option<u64>)
    ensures
        r is Some <==> parses_to_u64(s@),
        r matches Some(n) ==> n == numeral_value(s@),
{
    let len = s.unicode_len();
    let mut start: usize = 0;
    if len > 0 && s.get_char(0) == '+' {
        start = 1;
    }
    let ghost digits = digits_of(s@);
    assert(digits =~= s@.subrange(start as int, len as int));
    if start >= len {
        return None;
    }
    let mut value: u64 = 0;
    let mut i: usize = start;
    while i < len
        invariant
            start <= i <= len,
            len == s@.len(),
            digits_of(s@).len() == len - start,
            digits_of(s@) =~= s@.subrange(start as int, len as int),
            all_dec_digits(digits_of(s@).subrange(0, i - start)),
            value == dec_value(digits_of(s@).subrange(0, i - start)),
        decreases len - i,
    {
        let ghost digits = digits_of(s@);
        let ghost done: int = i - start;
        let c = s.get_char(i);
        assert(digits[done] == s@[i as int]);
        if c < '0' || c > '9' {
            assert(!is_dec_digit(digits[done]));
            assert(!all_dec_digits(digits));
            return None;
        }
        let d: u32 = (c as u32) - ('0' as u32);
        assert(d == digit_value(c)) by {
            assert('0' <= c <= '9');
        }
        proof {
            lemma_dec_value_step(digits, done);
        }
        let shifted = match value.checked_mul(10) {
            Some(v) => v,
            None => {
                proof {
                    if all_dec_digits(digits) {
                        lemma_dec_value_monotone(digits, done + 1, digits.len() as int);
                        assert(digits.subrange(0, digits.len() as int) =~= digits);
                    }
                }
                return None;
            },
        };
        let next = match shifted.checked_add(d as u64) {
            Some(v) => v,
            None => {
                proof {
                    if all_dec_digits(digits) {
                        lemma_dec_value_monotone(digits, done + 1, digits.len() as int);
                        assert(digits.subrange(0, digits.len() as int) =~= digits);
                    }
                }
                return None;
            },
        };
        value = next;
        i = i + 1;
        assert(all_dec_digits(digits.subrange(0, i - start))) by {
            assert(forall|k: int|
                0 <= k < done ==> digits.subrange(0, done)[k] == #[trigger] digits.subrange(
                    0,
                    done + 1,
                )[k]);
        }
    }
    proof {
        assert(digits_of(s@).subrange(0, (i - start) as int) =~= digits_of(s@));
    }
    Some(value)
}

} // verus!
