//! Short clock labels for ISO-8601 timestamps and run durations.
use vstd::prelude::*;
use vstd::string::*;

use crate::text::{
    after_char, before_char, decimal_i64, decimal_int, find_char, first_index, has_char,
    lemma_first_index, trim_end_char, trim_end_len,
};

verus! {

/// The `HH:MM` label of an ISO timestamp such as `2024-05-01T09:30:12.5Z`.
///
/// The date-time segment after the first `T` (up to any second `T`) is cut at its
/// first `.`, stripped of trailing `Z`s and split on `:`; when it has at least two
/// fields the label is the first two joined by `:`, otherwise the input comes back
/// unchanged (as it does when there is no `T` at all).
pub open spec fn clock_label(iso: Seq<char>) -> Seq<char> {
    if has_char(iso, 'T') {
        let date_time = before_char(after_char(iso, 'T'), 'T');
        let time = trim_end_char(before_char(date_time, '.'), 'Z');
        if has_char(time, ':') {
            before_char(time, ':') + seq![':'] + before_char(after_char(time, ':'), ':')
        } else {
            iso
        }
    } else {
        iso
    }
}

/// Shared implementation of the clock label.
fn clock_label_of(iso: &str) -> (r: String)
    ensures
        r@ == clock_label(iso@),
{
    let n = iso.unicode_len();
    let t = find_char(iso, 'T');
    if t == n {
        return iso.to_owned();
    }
    let rest = iso.substring_char(t + 1, n);
    assert(rest@ == after_char(iso@, 'T'));
    let t2 = find_char(rest, 'T');
    let date_time = rest.substring_char(0, t2);
    let dot = find_char(date_time, '.');
    let seconds = date_time.substring_char(0, dot);
    let k = trim_end_len(seconds, 'Z');
    let time = seconds.substring_char(0, k);
    let time_len = time.unicode_len();
    let colon = find_char(time, ':');
    if colon == time_len {
        return iso.to_owned();
    }
    let hours = time.substring_char(0, colon);
    let tail = time.substring_char(colon + 1, time_len);
    assert(tail@ == after_char(time@, ':'));
    let colon2 = find_char(tail, ':');
    let minutes = tail.substring_char(0, colon2);
    let mut out = hours.to_owned();
    out.push(':');
    out.push_str(minutes);
    assert(out@ =~= before_char(time@, ':') + seq![':'] + before_char(after_char(time@, ':'), ':'));
    out
}

/// Enqueue time of a job, shown as `HH:MM` in the queue table.
pub fn format_enqueued(iso: &str) -> (r: String)
    ensures
        r@ == clock_label(iso@),
{
    clock_label_of(iso)
}

/// Start time of a run, shown as `HH:MM` in the runs table.
pub fn format_started_at(iso: &str) -> (r: String)
    ensures
        r@ == clock_label(iso@),
{
    clock_label_of(iso)
}

/// Duration column text: `<n>ms`, or `-` while the run has no duration.
pub open spec fn duration_label(ms: Option<i64>) -> Seq<char> {
    match ms {
        Some(v) => decimal_int(v as int) + seq!['m', 's'],
        None => seq!['-'],
    }
}

/// Duration column text for the runs table.
pub fn format_duration(ms: Option<i64>) -> (r: String)
    ensures
        r@ == duration_label(ms),
{
    match ms {
        Some(v) => {
            let mut s = decimal_i64(v);
            s.push('m');
            s.push('s');
            assert(s@ =~= decimal_int(v as int) + seq!['m', 's']);
            s
        },
        None => {
            let mut s = String::new();
            s.push('-');
            assert(s@ =~= seq!['-']);
            s
        },
    }
}

/// `c` does not occur in `s`.
pub open spec fn lacks(s: Seq<char>, c: char) -> bool {
    forall|j: int| 0 <= j < s.len() ==> s[j] != c
}

/// What `first_index` promises: no `c` before it, and `c` at it unless it is the end.
proof fn lemma_first_index_facts(s: Seq<char>, c: char)
    ensures
        first_index(s, c) <= s.len(),
        forall|j: int| 0 <= j < first_index(s, c) ==> s[j] != c,
        first_index(s, c) < s.len() ==> s[first_index(s, c) as int] == c,
    decreases s.len(),
{
    if s.len() > 0 && s[0] != c {
        lemma_first_index_facts(s.drop_first(), c);
        assert forall|j: int| 0 <= j < first_index(s, c) implies s[j] != c by {
            if j > 0 {
                assert(s[j] == s.drop_first()[j - 1]);
            }
        }
    }
}

/// Splitting `a + c + b` at its first `c`, where `a` has no `c`, gives back `a` and `b`.
proof fn lemma_split_at_first(a: Seq<char>, c: char, b: Seq<char>)
    requires
        lacks(a, c),
    ensures
        has_char(a + seq![c] + b, c),
        before_char(a + seq![c] + b, c) == a,
        after_char(a + seq![c] + b, c) == b,
{
    let s = a + seq![c] + b;
    lemma_first_index(s, c, a.len() as int);
    assert(s.take(a.len() as int) =~= a);
    assert(s.skip(a.len() + 1int) =~= b);
}

/// A prefix without `c` passes through `before_char` untouched.
proof fn lemma_before_char_prefix(a: Seq<char>, b: Seq<char>, c: char)
    requires
        lacks(a, c),
    ensures
        before_char(a + b, c) == a + before_char(b, c),
        lacks(b, c) ==> before_char(a + b, c) == a + b,
{
    let s = a + b;
    lemma_first_index_facts(b, c);
    let k = first_index(b, c);
    lemma_first_index(s, c, a.len() + k as int);
    assert(s.take(a.len() + k as int) =~= a + b.take(k as int));
    if lacks(b, c) {
        lemma_first_index(b, c, b.len() as int);
        assert(b.take(b.len() as int) =~= b);
    }
}

/// Trimming trailing `c`s stops at a prefix that does not end in `c`.
proof fn lemma_trim_end_prefix(p: Seq<char>, q: Seq<char>, c: char)
    requires
        p.len() > 0,
        p.last() != c,
    ensures
        trim_end_char(p + q, c) == p + trim_end_char(q, c),
    decreases q.len(),
{
    if q.len() == 0 {
        assert(p + q =~= p);
        assert(p + trim_end_char(q, c) =~= p);
    } else if q.last() == c {
        assert((p + q).drop_last() =~= p + q.drop_last());
        lemma_trim_end_prefix(p, q.drop_last(), c);
    } else {
        assert((p + q).last() == q.last());
    }
}

/// An ISO timestamp `<date>T<hours>:<minutes>:<seconds...>` is labelled `<hours>:<minutes>`,
/// whatever follows the minutes (fractional seconds, a `Z`, an offset without `T`).
pub proof fn clock_label_is_hours_and_minutes(
    date: Seq<char>,
    hours: Seq<char>,
    minutes: Seq<char>,
    rest: Seq<char>,
)
    requires
        lacks(date, 'T'),
        lacks(hours, 'T') && lacks(hours, ':') && lacks(hours, '.'),
        lacks(minutes, 'T') && lacks(minutes, ':') && lacks(minutes, '.'),
        lacks(rest, 'T'),
    ensures
        clock_label(date + seq!['T'] + hours + seq![':'] + minutes + seq![':'] + rest) == hours
            + seq![':'] + minutes,
{
    let x = hours + seq![':'] + minutes + seq![':'] + rest;
    let iso = date + seq!['T'] + hours + seq![':'] + minutes + seq![':'] + rest;
    assert(iso =~= date + seq!['T'] + x);
    lemma_split_at_first(date, 'T', x);
    let head = hours + seq![':'] + minutes + seq![':'];
    assert(x =~= head + rest);
    assert(lacks(head, 'T') && lacks(head, '.'));
    lemma_before_char_prefix(head, rest, 'T');
    let date_time = before_char(after_char(iso, 'T'), 'T');
    assert(date_time == x);
    lemma_before_char_prefix(head, rest, '.');
    let r = before_char(rest, '.');
    assert(before_char(date_time, '.') == head + r);
    assert(head.last() == ':');
    lemma_trim_end_prefix(head, r, 'Z');
    let t = trim_end_char(r, 'Z');
    let time = trim_end_char(before_char(date_time, '.'), 'Z');
    assert(time == head + t);
    let tail = minutes + seq![':'] + t;
    assert(time =~= hours + seq![':'] + tail);
    lemma_split_at_first(hours, ':', tail);
    lemma_split_at_first(minutes, ':', t);
}

} // verus!
