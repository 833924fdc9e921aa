//! Decimal-text parsing for provider codes.
//!
//! A provider delivers numeric codes as strings; this module reads such a
//! string as a `u16` exactly the way `u16::from_str` does: an optional
//! leading `+`, then one or more decimal digits whose value fits in `u16`.

use vstd::prelude::*;
use vstd::string::StrSliceExecFns;

verus! {

/// A decimal digit, `'0'` through `'9'`.
pub open spec fn is_dec_digit(c: char) -> bool {
    '0' <= c && c <= '9'
}

/// The numeric value of one decimal digit.
pub open spec fn dec_digit_value(c: char) -> int {
    c as int - '0' as int
}

/// Every character of `s` is a decimal digit.
pub open spec fn all_dec_digits(s: Seq<char>) -> bool {
    forall|i: int| 0 <= i < s.len() ==> is_dec_digit(#[trigger] s[i])
}

/// The value of a digit string, most significant digit first.
pub open spec fn dec_value(s: Seq<char>) -> int
    decreases s.len(),
{
    if s.len() == 0 {
        0
    } else {
        dec_value(s.drop_last()) * 10 + dec_digit_value(s.last())
    }
}

/// The digits of `s`: all of it, or what follows an optional leading `+`.
pub open spec fn unsigned_body(s: Seq<char>) -> Seq<char> {
    if s.len() > 0 && s[0] == '+' {
        s.drop_first()
    } else {
        s
    }
}

/// What parsing a `u16` from decimal text accepts and returns: an optional
/// leading `+`, then one or more decimal digits whose value is at most
/// `u16::MAX`; anything else is rejected.
pub open spec fn parse_u16_spec(s: Seq<char>) -> Option<u16> {
    let body = unsigned_body(s);
    if body.len() > 0 && all_dec_digits(body) && dec_value(body) <= u16::MAX {
        Some(dec_value(body) as u16)
    } else {
        None
    }
}

/// A digit string's value is never negative.
proof fn lemma_dec_value_nonneg(s: Seq<char>)
    requires
        all_dec_digits(s),
    ensures
        dec_value(s) >= 0,
    decreases s.len(),
{
    if s.len() > 0 {
        assert(forall|i: int| 0 <= i < s.drop_last().len() ==> is_dec_digit(
            #[trigger] s.drop_last()[i],
        ));
        lemma_dec_value_nonneg(s.drop_last());
        assert(is_dec_digit(s.last()));
    }
}

/// Extending a digit string on the right never lowers its value.
proof fn lemma_dec_value_prefix_le(s: Seq<char>, i: int, j: int)
    requires
        all_dec_digits(s),
        0 <= i <= j <= s.len(),
    ensures
        dec_value(s.subrange(0, i)) <= dec_value(s.subrange(0, j)),
    decreases j - i,
{
    if i < j {
        lemma_dec_value_prefix_le(s, i, j - 1);
        let shorter = s.subrange(0, j - 1);
        let longer = s.subrange(0, j);
        assert(longer.drop_last() =~= shorter);
        assert(forall|k: int| 0 <= k < shorter.len() ==> is_dec_digit(#[trigger] shorter[k]));
        lemma_dec_value_nonneg(shorter);
        assert(is_dec_digit(longer.last()));
    }
}

/// Reads decimal text as a `u16`, accepting exactly what `u16::from_str`
/// accepts: an optional leading `+`, then one or more decimal digits whose
/// value fits, with any number of leading zeros.
pub fn parse_u16(s: &str) -> (r: Option<u16>)
    ensures
        r == parse_u16_spec(s@),
{
    let n = s.unicode_len();
    let mut start: usize = 0;
    if n > 0 && s.get_char(0) == '+' {
        start = 1;
    }
    let ghost body = unsigned_body(s@);
    proof {
        assert(body =~= s@.subrange(start as int, n as int));
    }
    if start == n {
        return None;
    }
    let mut acc: u32 = 0;
    let mut j: usize = start;
    while j < n
        invariant
            start <= j <= n,
            n == s@.len(),
            start == 1 ==> n > 0 && s@[0] == '+',
            start == 0 ==> !(n > 0 && s@[0] == '+'),
            body == unsigned_body(s@),
            body =~= s@.subrange(start as int, n as int),
            all_dec_digits(s@.subrange(start as int, j as int)),
            acc == dec_value(s@.subrange(start as int, j as int)),
            acc <= 65535,
        decreases n - j,
    {
        let c = s.get_char(j);
        let v = c as u32;
        if v < 48 || v > 57 {
            proof {
                assert(body[j - start] == s@[j as int]);
                assert(!is_dec_digit(s@[j as int]));
            }
            return None;
        }
        let d = v - 48;
        let next = acc * 10 + d;
        proof {
            let grown = s@.subrange(start as int, j + 1);
            assert(grown.drop_last() =~= s@.subrange(start as int, j as int));
            assert(grown.last() == s@[j as int]);
            assert(is_dec_digit(s@[j as int]));
            assert(dec_value(grown) == next);
        }
        if next > 65535 {
            proof {
                if all_dec_digits(body) && dec_value(body) <= u16::MAX {
                    assert(s@.subrange(start as int, j + 1) =~= body.subrange(
                        0,
                        j + 1 - start,
                    ));
                    assert(body.subrange(0, body.len() as int) =~= body);
                    lemma_dec_value_prefix_le(body, j + 1 - start, body.len() as int);
                    assert(false);
                }
            }
            return None;
        }
        acc = next;
        j += 1;
    }
    proof {
        assert(s@.subrange(start as int, n as int) =~= body);
        assert(body.len() > 0);
    }
    Some(acc as u16)
}

} // verus!
