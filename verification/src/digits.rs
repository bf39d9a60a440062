//! Decimal numerals as they appear in command-line option values.
//!
//! A numeral is an optional leading `+` followed by one or more ASCII
//! digits; this is exactly the grammar the standard library's unsigned
//! integer parsing accepts, with the range check kept separate so one
//! routine serves every integer width the configuration uses.

use vstd::prelude::*;

verus! {

/// An ASCII decimal digit.
pub open spec fn is_dec_digit(c: char) -> bool {
    '0' as int <= c as int <= '9' as int
}

/// The numeric value of one decimal digit.
pub open spec fn digit_val(c: char) -> nat {
    (c as int - '0' as int) as nat
}

/// Every character of `s` is a decimal digit.
pub open spec fn all_dec_digits(s: Seq<char>) -> bool {
    forall|i: int| 0 <= i < s.len() ==> is_dec_digit(#[trigger] s[i])
}

/// The value of a digit string, most significant digit first.
pub open spec fn dec_val(s: Seq<char>) -> nat
    decreases s.len(),
{
    if s.len() == 0 {
        0
    } else {
        dec_val(s.drop_last()) * 10 + digit_val(s.last())
    }
}

/// The digit portion of a numeral: everything after an optional leading `+`.
pub open spec fn dec_digits_of(s: Seq<char>) -> Seq<char> {
    if s.len() > 0 && s[0] == '+' {
        s.subrange(1, s.len() as int)
    } else {
        s
    }
}

/// `s` is a well-formed decimal numeral: an optional `+`, then at least
/// one digit, and nothing else.
pub open spec fn is_dec_str(s: Seq<char>) -> bool {
    dec_digits_of(s).len() > 0 && all_dec_digits(dec_digits_of(s))
}

/// The numeric value of a well-formed numeral.
pub open spec fn dec_str_val(s: Seq<char>) -> nat {
    dec_val(dec_digits_of(s))
}

/// A digit string is worth at least as much as any of its prefixes.
proof fn lemma_dec_val_prefix(s: Seq<char>, k: int)
    requires
        0 <= k <= s.len(),
    ensures
        dec_val(s) >= dec_val(s.subrange(0, k)),
    decreases s.len() - k,
{
    if k == s.len() {
        assert(s.subrange(0, k) =~= s);
    } else {
        let t = s.subrange(0, k + 1);
        assert(t.drop_last() =~= s.subrange(0, k));
        assert(dec_val(t) == dec_val(s.subrange(0, k)) * 10 + digit_val(t.last()));
        lemma_dec_val_prefix(s, k + 1);
    }
}

/// Parses a decimal numeral, accepting exactly the well-formed numerals
/// whose value is at most `max`.
pub fn parse_dec_bounded(s: &str, max: u64) -> (r: Option<u64>)
    ensures
        r is Some <==> is_dec_str(s@) && dec_str_val(s@) <= max,
        r matches Some(v) ==> v == dec_str_val(s@),
{
    let n = s.unicode_len();
    let start: usize = if n > 0 && s.get_char(0) == '+' {
        1
    } else {
        0
    };
    if start >= n {
        assert(dec_digits_of(s@).len() == 0);
        return None;
    }
    let ghost digits = dec_digits_of(s@);
    assert(digits =~= s@.subrange(start as int, n as int));
    let mut acc: u64 = 0;
    let mut i: usize = start;
    while i < n
        invariant
            start <= i <= n,
            n == s@.len(),
            start < n,
            digits == dec_digits_of(s@),
            digits =~= s@.subrange(start as int, n as int),
            all_dec_digits(s@.subrange(start as int, i as int)),
            acc == dec_val(s@.subrange(start as int, i as int)),
            acc <= max,
        decreases n - i,
    {
        let c = s.get_char(i);
        let cv = c as u32;
        if !(48 <= cv && cv <= 57) {
            assert(digits[i - start] == s@[i as int]);
            assert(!is_dec_digit(s@[i as int]));
            return None;
        }
        let d: u64 = (cv - 48) as u64;
        assert(d == digit_val(s@[i as int]));
        let ghost upto = s@.subrange(start as int, i + 1);
        assert(upto.drop_last() =~= s@.subrange(start as int, i as int));
        assert(upto.last() == s@[i as int]);
        assert(dec_val(upto) == acc * 10 + d);
        if acc > max / 10 || (acc == max / 10 && d > max % 10) {
            proof {
                assert(max == (max / 10) * 10 + max % 10);
                assert(acc * 10 + d > max);
                assert(upto =~= digits.subrange(0, i + 1 - start));
                lemma_dec_val_prefix(digits, i + 1 - start);
                assert(dec_val(digits) >= dec_val(upto));
            }
            return None;
        }
        proof {
            assert(max == (max / 10) * 10 + max % 10);
            assert(acc * 10 + d <= max);
        }
        acc = acc * 10 + d;
        assert(all_dec_digits(upto));
        i += 1;
    }
    assert(s@.subrange(start as int, i as int) =~= digits);
    Some(acc)
}

} // verus!
