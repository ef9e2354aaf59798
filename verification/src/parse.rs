//! Decimal integer input, read as the standard library's `str::parse` reads it.
use vstd::prelude::*;

use crate::text::{decimal_int, decimal_nat, digit_char};

verus! {

/// An ASCII decimal digit.
pub open spec fn is_ascii_digit(c: char) -> bool {
    '0' <= c && c <= '9'
}

/// A non-empty run of ASCII decimal digits.
pub open spec fn all_digits(s: Seq<char>) -> bool {
    s.len() > 0 && forall|i: int| 0 <= i < s.len() ==> is_ascii_digit(#[trigger] s[i])
}

/// Value of a run of decimal digits, most significant first.
pub open spec fn digits_value(s: Seq<char>) -> int
    decreases s.len(),
{
    if s.len() == 0 {
        0
    } else {
        digits_value(s.drop_last()) * 10 + (s.last() as int - 48)
    }
}

/// Value of a decimal literal: an optional `+` sign (or `-` when `signed`) followed by at
/// least one ASCII digit, and nothing else.
pub open spec fn decimal_literal_value(s: Seq<char>, signed: bool) -> Option<int> {
    if s.len() > 0 && s[0] == '+' && all_digits(s.drop_first()) {
        Some(digits_value(s.drop_first()))
    } else if signed && s.len() > 0 && s[0] == '-' && all_digits(s.drop_first()) {
        Some(-digits_value(s.drop_first()))
    } else if all_digits(s) {
        Some(digits_value(s))
    } else {
        None
    }
}

/// The value a decimal literal denotes, when it lies in `lo..=hi`.
pub open spec fn literal_in_range(s: Seq<char>, signed: bool, lo: int, hi: int) -> Option<int> {
    match decimal_literal_value(s, signed) {
        Some(v) => if lo <= v && v <= hi {
            Some(v)
        } else {
            None
        },
        None => None,
    }
}

/// What `s.parse::<i32>()` accepts, as a number.
pub open spec fn parsed_i32(s: Seq<char>) -> Option<int> {
    literal_in_range(s, true, i32::MIN as int, i32::MAX as int)
}

/// What `s.parse::<u32>()` accepts, as a number.
pub open spec fn parsed_u32(s: Seq<char>) -> Option<int> {
    literal_in_range(s, false, 0, u32::MAX as int)
}

/// What `s.parse::<u64>()` accepts, as a number.
pub open spec fn parsed_u64(s: Seq<char>) -> Option<int> {
    literal_in_range(s, false, 0, u64::MAX as int)
}

/// `str::parse::<i32>`: an optional `+` or `-` sign followed by ASCII digits only, with
/// a value that fits; anything else (empty text, whitespace, a lone sign, overflow) is
/// an error, read here as `None`.
#[verifier::external_body]
pub(crate) fn parse_i32(s: &str) -> (r: Option<i32>)
    ensures
        match r {
            Some(v) => parsed_i32(s@) == Some(v as int),
            None => parsed_i32(s@) is None,
        },
{
    s.parse::<i32>().ok()
}

/// `str::parse::<u32>`: an optional `+` sign followed by ASCII digits only, with a value
/// that fits; anything else is an error, read here as `None`.
#[verifier::external_body]
pub(crate) fn parse_u32(s: &str) -> (r: Option<u32>)
    ensures
        match r {
            Some(v) => parsed_u32(s@) == Some(v as int),
            None => parsed_u32(s@) is None,
        },
{
    s.parse::<u32>().ok()
}

/// `str::parse::<u64>`: an optional `+` sign followed by ASCII digits only, with a value
/// that fits; anything else is an error, read here as `None`.
#[verifier::external_body]
pub(crate) fn parse_u64(s: &str) -> (r: Option<u64>)
    ensures
        match r {
            Some(v) => parsed_u64(s@) == Some(v as int),
            None => parsed_u64(s@) is None,
        },
{
    s.parse::<u64>().ok()
}

/// The decimal text of a natural number is a run of digits worth that number.
pub proof fn lemma_decimal_nat_value(n: nat)
    ensures
        all_digits(decimal_nat(n)),
        digits_value(decimal_nat(n)) == n,
        decimal_nat(n)[0] != '+' && decimal_nat(n)[0] != '-',
    decreases n,
{
    if n < 10 {
        assert(decimal_nat(n).drop_last() =~= Seq::<char>::empty());
        assert(digits_value(Seq::<char>::empty()) == 0);
        assert((digit_char(n) as int) == 48 + n);
        assert(decimal_nat(n).last() == digit_char(n));
    } else {
        lemma_decimal_nat_value(n / 10);
        let d = decimal_nat(n);
        assert(d.drop_last() =~= decimal_nat(n / 10));
        assert((digit_char(n % 10) as int) == 48 + n % 10);
        assert(d.last() == digit_char(n % 10));
        assert(digits_value(d.drop_last()) == n / 10);
        assert(n == (n / 10) * 10 + n % 10) by (nonlinear_arith);
        assert(d[0] == decimal_nat(n / 10)[0]);
    }
}

/// Reading back the decimal text of a number gives the number (signed reading).
pub proof fn decimal_int_reads_back(i: int)
    ensures
        decimal_literal_value(decimal_int(i), true) == Some(i),
{
    if i < 0 {
        lemma_decimal_nat_value((-i) as nat);
        assert(decimal_int(i).drop_first() =~= decimal_nat((-i) as nat));
    } else {
        lemma_decimal_nat_value(i as nat);
    }
}

/// Reading back the decimal text of a natural number gives the number (unsigned reading).
pub proof fn decimal_nat_reads_back(n: nat)
    ensures
        decimal_literal_value(decimal_nat(n), false) == Some(n as int),
{
    lemma_decimal_nat_value(n);
}

} // verus!
