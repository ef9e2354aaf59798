//! Display labels and test identifiers derived from task and job data.
use vstd::prelude::*;
use vstd::string::*;

use crate::dto::TaskSummary;
use crate::text::{decimal_i64, decimal_int};

verus! {

/// `pool="<pool>", priority=<priority>`, the routing summary of a task.
pub open spec fn pool_priority_text(pool: Seq<char>, priority: int) -> Seq<char> {
    "pool=\""@ + pool + "\", priority="@ + decimal_int(priority)
}

/// Routing summary of a pool and priority.
pub fn pool_priority_label(pool: &str, priority: i32) -> (r: String)
    ensures
        r@ == pool_priority_text(pool@, priority as int),
{
    let mut s = "pool=\"".to_owned();
    s.push_str(pool);
    s.push_str("\", priority=");
    let digits = decimal_i64(priority as i64);
    s.push_str(digits.as_str());
    s
}

/// Whether a task's effective routing differs from its registered defaults.
pub open spec fn has_ui_override(task: TaskSummary) -> bool {
    task.effective_priority != task.default_priority || task.effective_pool@ != task.default_pool@
}

/// The effective routing line of a task, marked as a UI override or as the defaults.
pub open spec fn effective_config_text(task: TaskSummary) -> Seq<char> {
    pool_priority_text(task.effective_pool@, task.effective_priority as int) + if has_ui_override(
        task,
    ) {
        " (UI override)"@
    } else {
        " (using defaults)"@
    }
}

/// Effective routing label shown on task summaries.
pub fn effective_config_label(task: &TaskSummary) -> (r: String)
    ensures
        r@ == effective_config_text(*task),
{
    let mut s = pool_priority_label(task.effective_pool.as_str(), task.effective_priority);
    let overridden = task.effective_priority != task.default_priority || task.effective_pool
        != task.default_pool;
    if overridden {
        s.push_str(" (UI override)");
    } else {
        s.push_str(" (using defaults)");
    }
    s
}

/// The effective routing label shows the effective pool and priority, and ends in
/// "(using defaults)" exactly when both equal the registered defaults; when the pool,
/// the priority, or both differ it ends in "(UI override)".
pub proof fn effective_label_marks_override(task: TaskSummary)
    ensures
        (task.effective_pool@ == task.default_pool@ && task.effective_priority
            == task.default_priority) ==> effective_config_text(task) == pool_priority_text(
            task.effective_pool@,
            task.effective_priority as int,
        ) + " (using defaults)"@,
        (task.effective_pool@ != task.default_pool@ || task.effective_priority
            != task.default_priority) ==> effective_config_text(task) == pool_priority_text(
            task.effective_pool@,
            task.effective_priority as int,
        ) + " (UI override)"@,
{
}

/// ASCII lower-casing of one character.
pub open spec fn ascii_lower(c: char) -> char {
    if 'A' <= c && c <= 'Z' {
        ((c as u32) + 32) as char
    } else {
        c
    }
}

/// `str::to_ascii_lowercase` maps `A`..`Z` to `a`..`z` and leaves every other character as it is.
pub assume_specification[ str::to_ascii_lowercase ](s: &str) -> (r: String)
    ensures
        r@ == s@.map_values(|c: char| ascii_lower(c)),
;

/// One character of a column slug: lower-cased, with spaces turned into `-`.
pub open spec fn slug_char(c: char) -> char {
    if ascii_lower(c) == ' ' {
        '-'
    } else {
        ascii_lower(c)
    }
}

/// Test id of a help-enabled column header: `boson-help-col-` and the label's slug.
pub open spec fn column_test_id_text(label: Seq<char>) -> Seq<char> {
    "boson-help-col-"@ + label.map_values(|c: char| slug_char(c))
}

/// Test id of a help-enabled column header.
pub fn column_test_id(label: &str) -> (r: String)
    ensures
        r@ == column_test_id_text(label@),
{
    let lower = label.to_ascii_lowercase();
    let lower_str = lower.as_str();
    let n = lower_str.unicode_len();
    let mut r = "boson-help-col-".to_owned();
    let mut i: usize = 0;
    while i < n
        invariant
            n == lower@.len(),
            lower@ == label@.map_values(|c: char| ascii_lower(c)),
            lower_str@ == lower@,
            i <= n,
            r@ == "boson-help-col-"@ + label@.take(i as int).map_values(|c: char| slug_char(c)),
        decreases n - i,
    {
        let c = lower_str.get_char(i);
        let out = if c == ' ' {
            '-'
        } else {
            c
        };
        r.push(out);
        assert(label@.take(i + 1).map_values(|c: char| slug_char(c)) =~= label@.take(
            i as int,
        ).map_values(|c: char| slug_char(c)).push(slug_char(label@[i as int])));
        i += 1;
    }
    assert(label@.take(n as int) =~= label@);
    r
}

/// A column test id is a slug: past its prefix it holds no space and no ASCII capital.
pub proof fn column_test_id_is_slug(label: Seq<char>)
    ensures
        column_test_id_text(label).len() == "boson-help-col-"@.len() + label.len(),
        forall|i: int|
            "boson-help-col-"@.len() <= i < column_test_id_text(label).len() ==> {
                let c = #[trigger] column_test_id_text(label)[i];
                c != ' ' && !('A' <= c && c <= 'Z')
            },
{
    assert forall|i: int|
        "boson-help-col-"@.len() <= i < column_test_id_text(label).len() implies {
            let c = #[trigger] column_test_id_text(label)[i];
            c != ' ' && !('A' <= c && c <= 'Z')
        } by {
        let k = i - "boson-help-col-"@.len();
        assert(column_test_id_text(label)[i] == slug_char(label[k]));
    }
}

/// `prefix` followed by `id`.
pub fn prefixed_id(prefix: &str, id: &str) -> (r: String)
    ensures
        r@ == prefix@ + id@,
{
    let mut s = prefix.to_owned();
    s.push_str(id);
    s
}

} // verus!
