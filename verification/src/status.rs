//! Job and run lifecycle states, their filter keys, and their badge styles.
use vstd::prelude::*;
use vstd::string::*;

use crate::labels::ascii_lower;
use crate::text::str_eq;

verus! {

/// Lifecycle state of a queued job.
#[derive(Clone, Copy, Debug, PartialEq, Eq, Structural)]
pub enum JobStatusDto {
    Queued,
    Running,
    Success,
    Failed,
    Canceled,
}

/// Outcome state of one run attempt.
#[derive(Clone, Copy, Debug, PartialEq, Eq, Structural)]
pub enum RunStatusDto {
    Running,
    Success,
    Failed,
    Canceled,
    Timeout,
}

/// Filter key under which a job status is stored in table records.
pub open spec fn job_key_of(status: JobStatusDto) -> Seq<char> {
    match status {
        JobStatusDto::Queued => "queued"@,
        JobStatusDto::Running => "running"@,
        JobStatusDto::Success => "success"@,
        JobStatusDto::Failed => "failed"@,
        JobStatusDto::Canceled => "canceled"@,
    }
}

/// Filter key under which a run status is stored in table records.
pub open spec fn run_key_of(status: RunStatusDto) -> Seq<char> {
    match status {
        RunStatusDto::Running => "running"@,
        RunStatusDto::Success => "success"@,
        RunStatusDto::Failed => "failed"@,
        RunStatusDto::Canceled => "canceled"@,
        RunStatusDto::Timeout => "timeout"@,
    }
}

/// Job status named by a key; unknown keys read as `Queued`.
pub open spec fn job_status_for_key(key: Seq<char>) -> JobStatusDto {
    if key == "queued"@ {
        JobStatusDto::Queued
    } else if key == "running"@ {
        JobStatusDto::Running
    } else if key == "success"@ {
        JobStatusDto::Success
    } else if key == "failed"@ {
        JobStatusDto::Failed
    } else if key == "canceled"@ {
        JobStatusDto::Canceled
    } else {
        JobStatusDto::Queued
    }
}

/// Run status named by a key; unknown keys read as `Running`.
pub open spec fn run_status_for_key(key: Seq<char>) -> RunStatusDto {
    if key == "running"@ {
        RunStatusDto::Running
    } else if key == "success"@ {
        RunStatusDto::Success
    } else if key == "failed"@ {
        RunStatusDto::Failed
    } else if key == "canceled"@ {
        RunStatusDto::Canceled
    } else if key == "timeout"@ {
        RunStatusDto::Timeout
    } else {
        RunStatusDto::Running
    }
}

/// The filter key of a job status.
pub fn job_status_key(status: JobStatusDto) -> (key: &'static str)
    ensures
        key@ == job_key_of(status),
{
    match status {
        JobStatusDto::Queued => "queued",
        JobStatusDto::Running => "running",
        JobStatusDto::Success => "success",
        JobStatusDto::Failed => "failed",
        JobStatusDto::Canceled => "canceled",
    }
}

/// The filter key of a run status.
pub fn run_status_key(status: RunStatusDto) -> (key: &'static str)
    ensures
        key@ == run_key_of(status),
{
    match status {
        RunStatusDto::Running => "running",
        RunStatusDto::Success => "success",
        RunStatusDto::Failed => "failed",
        RunStatusDto::Canceled => "canceled",
        RunStatusDto::Timeout => "timeout",
    }
}

/// Job status read back from a table cell; unknown text reads as `Queued`.
pub fn job_status_from_key(key: &str) -> (status: JobStatusDto)
    ensures
        status == job_status_for_key(key@),
{
    if str_eq(key, "queued") {
        JobStatusDto::Queued
    } else if str_eq(key, "running") {
        JobStatusDto::Running
    } else if str_eq(key, "success") {
        JobStatusDto::Success
    } else if str_eq(key, "failed") {
        JobStatusDto::Failed
    } else if str_eq(key, "canceled") {
        JobStatusDto::Canceled
    } else {
        JobStatusDto::Queued
    }
}

/// Run status read back from a table cell; unknown text reads as `Running`.
pub fn run_status_from_key(key: &str) -> (status: RunStatusDto)
    ensures
        status == run_status_for_key(key@),
{
    if str_eq(key, "running") {
        RunStatusDto::Running
    } else if str_eq(key, "success") {
        RunStatusDto::Success
    } else if str_eq(key, "failed") {
        RunStatusDto::Failed
    } else if str_eq(key, "canceled") {
        RunStatusDto::Canceled
    } else if str_eq(key, "timeout") {
        RunStatusDto::Timeout
    } else {
        RunStatusDto::Running
    }
}

/// Every job status survives the trip through its filter key: reading back the key
/// that a record stores gives the status that was written.
pub proof fn job_status_key_round_trip(status: JobStatusDto)
    ensures
        job_status_for_key(job_key_of(status)) == status,
{
    reveal_strlit("queued");
    reveal_strlit("running");
    reveal_strlit("success");
    reveal_strlit("failed");
    reveal_strlit("canceled");
    assert("queued"@.len() == 6 && "queued"@[0] == 'q');
    assert("running"@.len() == 7 && "running"@[0] == 'r');
    assert("success"@.len() == 7 && "success"@[0] == 's');
    assert("failed"@.len() == 6 && "failed"@[0] == 'f');
    assert("canceled"@.len() == 8);
}

/// Every run status survives the trip through its filter key.
pub proof fn run_status_key_round_trip(status: RunStatusDto)
    ensures
        run_status_for_key(run_key_of(status)) == status,
{
    reveal_strlit("running");
    reveal_strlit("success");
    reveal_strlit("failed");
    reveal_strlit("canceled");
    reveal_strlit("timeout");
    assert("running"@.len() == 7 && "running"@[0] == 'r');
    assert("success"@.len() == 7 && "success"@[0] == 's');
    assert("failed"@.len() == 6);
    assert("canceled"@.len() == 8);
    assert("timeout"@.len() == 7 && "timeout"@[0] == 't');
}

/// Distinct job statuses have distinct filter keys.
pub proof fn job_status_keys_distinct(a: JobStatusDto, b: JobStatusDto)
    ensures
        job_key_of(a) == job_key_of(b) ==> a == b,
{
    job_status_key_round_trip(a);
    job_status_key_round_trip(b);
}

/// Distinct run statuses have distinct filter keys.
pub proof fn run_status_keys_distinct(a: RunStatusDto, b: RunStatusDto)
    ensures
        run_key_of(a) == run_key_of(b) ==> a == b,
{
    run_status_key_round_trip(a);
    run_status_key_round_trip(b);
}

/// Badge fill style.
#[derive(Clone, Copy, Debug, PartialEq, Eq, Structural)]
pub enum BadgeAppearance {
    Outline,
    Tint,
    Filled,
}

/// Badge colour role.
#[derive(Clone, Copy, Debug, PartialEq, Eq, Structural)]
pub enum BadgeColor {
    Informative,
    Brand,
    Success,
    Danger,
    Warning,
}

/// Label text and look of a status badge.
#[derive(Clone, Copy, Debug)]
pub struct StatusBadge {
    pub label: &'static str,
    pub appearance: BadgeAppearance,
    pub color: BadgeColor,
}

/// Badge look of a job status: label, appearance and colour.
pub open spec fn job_badge_of(status: JobStatusDto) -> (Seq<char>, BadgeAppearance, BadgeColor) {
    match status {
        JobStatusDto::Queued => ("Queued"@, BadgeAppearance::Outline, BadgeColor::Informative),
        JobStatusDto::Running => ("Running"@, BadgeAppearance::Tint, BadgeColor::Brand),
        JobStatusDto::Success => ("Success"@, BadgeAppearance::Filled, BadgeColor::Success),
        JobStatusDto::Failed => ("Failed"@, BadgeAppearance::Filled, BadgeColor::Danger),
        JobStatusDto::Canceled => ("Canceled"@, BadgeAppearance::Outline, BadgeColor::Warning),
    }
}

/// Badge look of a run status: label, appearance and colour.
pub open spec fn run_badge_of(status: RunStatusDto) -> (Seq<char>, BadgeAppearance, BadgeColor) {
    match status {
        RunStatusDto::Running => ("Running"@, BadgeAppearance::Tint, BadgeColor::Brand),
        RunStatusDto::Success => ("Success"@, BadgeAppearance::Filled, BadgeColor::Success),
        RunStatusDto::Failed => ("Failed"@, BadgeAppearance::Filled, BadgeColor::Danger),
        RunStatusDto::Canceled => ("Canceled"@, BadgeAppearance::Outline, BadgeColor::Warning),
        RunStatusDto::Timeout => ("Timeout"@, BadgeAppearance::Outline, BadgeColor::Danger),
    }
}

/// The badge shown for a job status.
pub fn job_status_badge(status: JobStatusDto) -> (b: StatusBadge)
    ensures
        (b.label@, b.appearance, b.color) == job_badge_of(status),
{
    match status {
        JobStatusDto::Queued => StatusBadge {
            label: "Queued",
            appearance: BadgeAppearance::Outline,
            color: BadgeColor::Informative,
        },
        JobStatusDto::Running => StatusBadge {
            label: "Running",
            appearance: BadgeAppearance::Tint,
            color: BadgeColor::Brand,
        },
        JobStatusDto::Success => StatusBadge {
            label: "Success",
            appearance: BadgeAppearance::Filled,
            color: BadgeColor::Success,
        },
        JobStatusDto::Failed => StatusBadge {
            label: "Failed",
            appearance: BadgeAppearance::Filled,
            color: BadgeColor::Danger,
        },
        JobStatusDto::Canceled => StatusBadge {
            label: "Canceled",
            appearance: BadgeAppearance::Outline,
            color: BadgeColor::Warning,
        },
    }
}

/// The badge shown for a run status.
pub fn run_status_badge(status: RunStatusDto) -> (b: StatusBadge)
    ensures
        (b.label@, b.appearance, b.color) == run_badge_of(status),
{
    match status {
        RunStatusDto::Running => StatusBadge {
            label: "Running",
            appearance: BadgeAppearance::Tint,
            color: BadgeColor::Brand,
        },
        RunStatusDto::Success => StatusBadge {
            label: "Success",
            appearance: BadgeAppearance::Filled,
            color: BadgeColor::Success,
        },
        RunStatusDto::Failed => StatusBadge {
            label: "Failed",
            appearance: BadgeAppearance::Filled,
            color: BadgeColor::Danger,
        },
        RunStatusDto::Canceled => StatusBadge {
            label: "Canceled",
            appearance: BadgeAppearance::Outline,
            color: BadgeColor::Warning,
        },
        RunStatusDto::Timeout => StatusBadge {
            label: "Timeout",
            appearance: BadgeAppearance::Outline,
            color: BadgeColor::Danger,
        },
    }
}

/// Only queued and running jobs offer a cancel action.
pub fn job_can_cancel(status: JobStatusDto) -> (r: bool)
    ensures
        r == (status == JobStatusDto::Queued || status == JobStatusDto::Running),
{
    status == JobStatusDto::Queued || status == JobStatusDto::Running
}

/// A run badge names its status: its label, ASCII-lowercased, is the status's filter
/// key. Its colour tells the outcome: green (`Success`) exactly for a successful run,
/// red (`Danger`) exactly for a failed or timed-out run, `Warning` exactly for a
/// canceled run and `Brand` exactly for a running one. Finished runs that ended on
/// their own (success or failure) are filled, a running run is tinted, and canceled
/// or timed-out runs are outlined.
pub proof fn run_badge_names_status(status: RunStatusDto)
    ensures
        run_badge_of(status).0.map_values(|c: char| ascii_lower(c)) == run_key_of(status),
        (run_badge_of(status).2 == BadgeColor::Success) <==> (status is Success),
        (run_badge_of(status).2 == BadgeColor::Danger) <==> (status is Failed || status is Timeout),
        (run_badge_of(status).2 == BadgeColor::Warning) <==> (status is Canceled),
        (run_badge_of(status).2 == BadgeColor::Brand) <==> (status is Running),
        (run_badge_of(status).1 == BadgeAppearance::Filled) <==> (status is Success || status is Failed),
        (run_badge_of(status).1 == BadgeAppearance::Tint) <==> (status is Running),
        (run_badge_of(status).1 == BadgeAppearance::Outline) <==> (status is Canceled || status is Timeout),
{
    lemma_badge_labels_lower();
}

/// A job badge names its status: its label, ASCII-lowercased, is the status's filter
/// key. Green (`Success`) exactly for a successful job, red (`Danger`) exactly for a
/// failed one, `Warning` exactly for a canceled one, `Brand` exactly for a running one
/// and `Informative` exactly for a queued one; finished jobs that ended on their own
/// are filled, a running job is tinted, queued and canceled jobs are outlined.
pub proof fn job_badge_names_status(status: JobStatusDto)
    ensures
        job_badge_of(status).0.map_values(|c: char| ascii_lower(c)) == job_key_of(status),
        (job_badge_of(status).2 == BadgeColor::Success) <==> (status is Success),
        (job_badge_of(status).2 == BadgeColor::Danger) <==> (status is Failed),
        (job_badge_of(status).2 == BadgeColor::Warning) <==> (status is Canceled),
        (job_badge_of(status).2 == BadgeColor::Brand) <==> (status is Running),
        (job_badge_of(status).2 == BadgeColor::Informative) <==> (status is Queued),
        (job_badge_of(status).1 == BadgeAppearance::Filled) <==> (status is Success || status is Failed),
        (job_badge_of(status).1 == BadgeAppearance::Tint) <==> (status is Running),
        (job_badge_of(status).1 == BadgeAppearance::Outline) <==> (status is Queued || status is Canceled),
{
    lemma_badge_labels_lower();
}

/// Each badge label lower-cases to the key of the same name.
proof fn lemma_badge_labels_lower()
    ensures
        "Queued"@.map_values(|c: char| ascii_lower(c)) == "queued"@,
        "Running"@.map_values(|c: char| ascii_lower(c)) == "running"@,
        "Success"@.map_values(|c: char| ascii_lower(c)) == "success"@,
        "Failed"@.map_values(|c: char| ascii_lower(c)) == "failed"@,
        "Canceled"@.map_values(|c: char| ascii_lower(c)) == "canceled"@,
        "Timeout"@.map_values(|c: char| ascii_lower(c)) == "timeout"@,
{
    reveal_strlit("Queued");
    reveal_strlit("queued");
    reveal_strlit("Running");
    reveal_strlit("running");
    reveal_strlit("Success");
    reveal_strlit("success");
    reveal_strlit("Failed");
    reveal_strlit("failed");
    reveal_strlit("Canceled");
    reveal_strlit("canceled");
    reveal_strlit("Timeout");
    reveal_strlit("timeout");
    assert("Queued"@.map_values(|c: char| ascii_lower(c)) =~= "queued"@);
    assert("Running"@.map_values(|c: char| ascii_lower(c)) =~= "running"@);
    assert("Success"@.map_values(|c: char| ascii_lower(c)) =~= "success"@);
    assert("Failed"@.map_values(|c: char| ascii_lower(c)) =~= "failed"@);
    assert("Canceled"@.map_values(|c: char| ascii_lower(c)) =~= "canceled"@);
    assert("Timeout"@.map_values(|c: char| ascii_lower(c)) =~= "timeout"@);
}

} // verus!
