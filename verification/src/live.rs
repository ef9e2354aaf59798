//! Live-update events for job and run lifecycles, and the refresh decisions they drive.
use vstd::prelude::*;
use vstd::string::*;

use crate::dto::RunSummary;
use crate::status::RunStatusDto;
use crate::text::str_eq;

verus! {

/// Interval of the dashboard KPI poll, in milliseconds.
pub const BOSON_POLL_INTERVAL_MS: u64 = 20_000;

/// The fields of a live event payload that the console reads: its `kind` and its
/// `run_id`, each present only when the payload holds a string under that key.
#[derive(Clone, Debug, PartialEq)]
pub struct BosonLiveEvent {
    pub kind: Option<String>,
    pub run_id: Option<String>,
}

/// The event reports a status transition.
pub open spec fn is_status_event(event: BosonLiveEvent) -> bool {
    event.kind matches Some(k) && k@ == "status"@
}

/// The event concerns the given run.
pub open spec fn targets_run(event: BosonLiveEvent, run_id: Seq<char>) -> bool {
    event.run_id matches Some(id) && id@ == run_id
}

fn kind_is_status(event: &BosonLiveEvent) -> (r: bool)
    ensures
        r == is_status_event(*event),
{
    match &event.kind {
        Some(k) => str_eq(k.as_str(), "status"),
        None => false,
    }
}

/// Whether the event payload targets the given run.
pub fn boson_run_event_matches_run(event: &BosonLiveEvent, run_id: &str) -> (r: bool)
    ensures
        r == targets_run(*event, run_id@),
{
    match &event.run_id {
        Some(id) => str_eq(id.as_str(), run_id),
        None => false,
    }
}

/// Whether a job event is a status transition (and not some other kind of event).
pub fn boson_job_event_is_status(event: &BosonLiveEvent) -> (r: bool)
    ensures
        r == is_status_event(*event),
{
    kind_is_status(event)
}

/// Whether a run event is a status transition (and not some other kind of event).
pub fn boson_run_event_is_status(event: &BosonLiveEvent) -> (r: bool)
    ensures
        r == is_status_event(*event),
{
    kind_is_status(event)
}

/// The job whose run updates the detail page listens to: the run's job while the run
/// is still running and names a job.
pub open spec fn live_job_of(run: Option<RunSummary>) -> Option<Seq<char>> {
    match run {
        Some(r) => if r.status == RunStatusDto::Running && r.job_id@.len() > 0 {
            Some(r.job_id@)
        } else {
            None
        },
        None => None,
    }
}

/// Job id to follow for live run updates on the run detail page.
pub fn run_detail_live_job_id(run: Option<&RunSummary>) -> (r: Option<String>)
    ensures
        (match r {
            Some(s) => Some(s@),
            None => None,
        }) == live_job_of(
            match run {
                Some(x) => Some(*x),
                None => None,
            },
        ),
{
    match run {
        Some(x) => {
            if x.status == RunStatusDto::Running && x.job_id.as_str().unicode_len() > 0 {
                Some(x.job_id.clone())
            } else {
                None
            }
        },
        None => None,
    }
}

/// The run detail page follows a job only while the run is running: for a shown run
/// the followed job is exactly its own job id when the run is `Running` and names a
/// job, and there is none once the run has finished (success, failure, cancellation
/// or timeout), when it names no job, or when no run is shown.
pub proof fn live_job_only_while_running(run: RunSummary)
    ensures
        live_job_of(Some(run)) is Some <==> (run.status is Running && run.job_id@.len() > 0),
        live_job_of(Some(run)) matches Some(id) ==> id == run.job_id@,
        (run.status is Success || run.status is Failed || run.status is Canceled
            || run.status is Timeout) ==> live_job_of(Some(run)) is None,
        live_job_of(None) is None,
{
}

/// The run detail page reloads when a status event for the run it shows arrives.
pub open spec fn run_detail_refetches(current_run_id: Seq<char>, event: Option<BosonLiveEvent>) -> bool {
    current_run_id.len() > 0 && (event matches Some(e) && is_status_event(e) && targets_run(
        e,
        current_run_id,
    ))
}

/// The run detail page reloads exactly on a status event that names the run it shows:
/// never without an event or without a run id, never for another kind of event, and
/// never for an event about another run.
pub proof fn run_detail_refetches_only_on_own_status(run_id: Seq<char>, event: BosonLiveEvent)
    ensures
        run_detail_refetches(run_id, Some(event)) <==> (run_id.len() > 0 && (event.kind matches Some(
            k,
        ) && k@ == "status"@) && (event.run_id matches Some(r) && r@ == run_id)),
        !run_detail_refetches(run_id, None),
{
}

/// Whether the run detail page reloads its run after the latest live event.
pub fn run_detail_should_refetch(current_run_id: &str, event: Option<&BosonLiveEvent>) -> (r: bool)
    ensures
        r == run_detail_refetches(
            current_run_id@,
            match event {
                Some(e) => Some(*e),
                None => None,
            },
        ),
{
    if current_run_id.unicode_len() == 0 {
        return false;
    }
    match event {
        Some(e) => boson_run_event_is_status(e) && boson_run_event_matches_run(e, current_run_id),
        None => false,
    }
}

} // verus!
