//! Character-level string helpers shared by the label and record builders.
use vstd::prelude::*;
use vstd::string::*;

verus! {

/// `String::push`: appending one character extends the string's characters by that character.
pub assume_specification[ String::push ](s: &mut String, ch: char)
    ensures
        final(s)@ == old(s)@.push(ch),
;

/// `String::push_str`: appending a string slice concatenates the two character sequences.
pub assume_specification[ String::push_str ](s: &mut String, string: &str)
    ensures
        final(s)@ == old(s)@ + string@,
;

/// The ASCII digit character for a value below ten.
pub open spec fn digit_char(d: nat) -> char {
    (48 + d) as char
}

/// Base-ten rendering of a natural number, most significant digit first, no leading zeros.
pub open spec fn decimal_nat(n: nat) -> Seq<char>
    decreases n,
{
    if n < 10 {
        seq![digit_char(n)]
    } else {
        decimal_nat(n / 10).push(digit_char(n % 10))
    }
}

/// Base-ten rendering of an integer: a leading `-` for negative values, as `Display` prints it.
pub open spec fn decimal_int(i: int) -> Seq<char> {
    if i < 0 {
        seq!['-'] + decimal_nat((-i) as nat)
    } else {
        decimal_nat(i as nat)
    }
}

/// The digit character for `d < 10`.
pub fn digit(d: u64) -> (c: char)
    requires
        d < 10,
    ensures
        c == digit_char(d as nat),
{
    ((d as u8) + 48u8) as char
}

/// Decimal text of an unsigned integer.
pub fn decimal_u64(n: u64) -> (s: String)
    ensures
        s@ == decimal_nat(n as nat),
    decreases n,
{
    if n < 10 {
        let mut s = String::new();
        s.push(digit(n));
        s
    } else {
        let mut s = decimal_u64(n / 10);
        s.push(digit(n % 10));
        s
    }
}

/// Decimal text of a signed integer.
pub fn decimal_i64(n: i64) -> (s: String)
    ensures
        s@ == decimal_int(n as int),
{
    if n < 0 {
        let magnitude: u64 = ((-(n + 1)) as u64) + 1;
        let digits = decimal_u64(magnitude);
        let mut s = String::new();
        s.push('-');
        s.push_str(digits.as_str());
        s
    } else {
        decimal_u64(n as u64)
    }
}

/// Index of the first occurrence of `c` in `s`, or `s.len()` when `c` does not occur.
pub open spec fn first_index(s: Seq<char>, c: char) -> nat
    decreases s.len(),
{
    if s.len() == 0 {
        0
    } else if s[0] == c {
        0
    } else {
        1 + first_index(s.drop_first(), c)
    }
}

/// Whether `c` occurs in `s`.
pub open spec fn has_char(s: Seq<char>, c: char) -> bool {
    first_index(s, c) < s.len()
}

/// The part of `s` before the first `c` (all of `s` when `c` does not occur).
pub open spec fn before_char(s: Seq<char>, c: char) -> Seq<char> {
    s.take(first_index(s, c) as int)
}

/// The part of `s` after the first `c` (empty when `c` does not occur).
pub open spec fn after_char(s: Seq<char>, c: char) -> Seq<char> {
    s.skip(first_index(s, c) + 1int)
}

/// `s` with every trailing `c` removed.
pub open spec fn trim_end_char(s: Seq<char>, c: char) -> Seq<char>
    decreases s.len(),
{
    if s.len() > 0 && s.last() == c {
        trim_end_char(s.drop_last(), c)
    } else {
        s
    }
}

/// An index `i` with no `c` before it, and `c` at `i` (or `i` at the end), is the first index.
pub proof fn lemma_first_index(s: Seq<char>, c: char, i: int)
    requires
        0 <= i <= s.len(),
        forall|j: int| 0 <= j < i ==> s[j] != c,
        i == s.len() || s[i] == c,
    ensures
        first_index(s, c) == i,
    decreases i,
{
    if i > 0 {
        assert(s[0] != c);
        lemma_first_index(s.drop_first(), c, i - 1);
    }
}

/// Position of the first `c` in `s`, or its character length when `c` does not occur.
pub fn find_char(s: &str, c: char) -> (i: usize)
    ensures
        i == first_index(s@, c),
        i <= s@.len(),
{
    let n = s.unicode_len();
    let mut i: usize = 0;
    while i < n
        invariant
            n == s@.len(),
            i <= n,
            forall|j: int| 0 <= j < i ==> s@[j] != c,
        decreases n - i,
    {
        if s.get_char(i) == c {
            proof {
                lemma_first_index(s@, c, i as int);
            }
            return i;
        }
        i += 1;
    }
    proof {
        lemma_first_index(s@, c, n as int);
    }
    n
}

/// Length of `s` once every trailing `c` is removed.
pub fn trim_end_len(s: &str, c: char) -> (k: usize)
    ensures
        k <= s@.len(),
        trim_end_char(s@, c) == s@.take(k as int),
{
    let n = s.unicode_len();
    let mut k: usize = n;
    assert(s@.take(n as int) =~= s@);
    while k > 0 && s.get_char(k - 1) == c
        invariant
            n == s@.len(),
            k <= n,
            trim_end_char(s@, c) == trim_end_char(s@.take(k as int), c),
        decreases k,
    {
        assert(s@.take(k as int).drop_last() =~= s@.take(k - 1));
        k -= 1;
    }
    k
}

/// Whether two string slices hold the same characters.
pub fn str_eq(a: &str, b: &str) -> (r: bool)
    ensures
        r == (a@ == b@),
{
    let n = a.unicode_len();
    let m = b.unicode_len();
    if n != m {
        return false;
    }
    let mut i: usize = 0;
    while i < n
        invariant
            n == a@.len(),
            n == b@.len(),
            i <= n,
            forall|j: int| 0 <= j < i ==> a@[j] == b@[j],
        decreases n - i,
    {
        if a.get_char(i) != b.get_char(i) {
            return false;
        }
        i += 1;
    }
    assert(a@ =~= b@);
    true
}

} // verus!
