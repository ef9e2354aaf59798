//! Table rows: jobs, runs and tasks as `orbital_data::DataRecord`s whose cells are all text.
use std::collections::HashMap;

use orbital_data::{DataRecord, DataValue};
use vstd::prelude::*;
use vstd::string::*;

use crate::dto::{JobSummary, RunSummary, TaskSummary};
use crate::labels::{pool_priority_label, pool_priority_text};
use crate::status::{
    job_key_of, job_status_for_key, job_status_key, job_status_key_round_trip, run_key_of,
    run_status_for_key, run_status_key, run_status_key_round_trip,
};
use crate::text::{decimal_i64, decimal_int, decimal_nat, decimal_u64};
use crate::timestamps::{
    clock_label, duration_label, format_duration, format_enqueued, format_started_at,
};

verus! {

/// `orbital_data::DataRecord`, one keyed row of a data table.
#[verifier::external_type_specification]
#[verifier::external_body]
pub struct ExDataRecord(DataRecord);

/// The row id of a record.
pub uninterp spec fn record_id(record: DataRecord) -> Seq<char>;

/// The cells of a record: each field key with the display text of its value.
pub uninterp spec fn record_cells(record: DataRecord) -> Map<Seq<char>, Seq<char>>;

/// Every value of a record is a `DataValue::Text`, so that filters and comparisons
/// treat each cell as plain text.
pub uninterp spec fn record_all_text(record: DataRecord) -> bool;

/// No key occurs twice among the cells.
pub open spec fn keys_distinct(cells: Seq<(String, String)>) -> bool {
    forall|i: int, j: int| 0 <= i < j < cells.len() ==> cells[i].0@ != cells[j].0@
}

/// The key/text map that a list of cells describes.
pub open spec fn text_cells(cells: Seq<(String, String)>) -> Map<Seq<char>, Seq<char>>
    decreases cells.len(),
{
    if cells.len() == 0 {
        Map::empty()
    } else {
        text_cells(cells.drop_last()).insert(cells.last().0@, cells.last().1@)
    }
}

/// Builds a record with `orbital_data::DataRecord::new`, storing every cell as
/// `DataValue::Text`. The record keeps the id, and its cells are the given pairs
/// (each key once, so no pair overwrites another), and every value is text.
#[verifier::external_body]
fn new_text_record(id: String, cells: Vec<(String, String)>) -> (r: DataRecord)
    requires
        keys_distinct(cells@),
    ensures
        record_id(r) == id@,
        record_all_text(r),
        record_cells(r) == text_cells(cells@),
{
    let values: HashMap<String, DataValue> = cells.into_iter().map(
        |(k, v)| (k, DataValue::Text(v)),
    ).collect();
    DataRecord::new(id, values)
}

/// Reads a cell with `orbital_data::DataRecord::get` and renders the value with
/// `orbital_data::DataValue::display_string`: `None` when the record has no such field,
/// otherwise the cell's display text. The two calls stand together because the cells'
/// name speaks of display text; what a non-text value displays as (a number, a date)
/// is left to that name and not stated.
#[verifier::external_body]
fn record_text(record: &DataRecord, key: &str) -> (r: Option<String>)
    ensures
        r is Some <==> record_cells(*record).contains_key(key@),
        r matches Some(s) ==> s@ == record_cells(*record)[key@],
{
    record.get(key).map(DataValue::display_string)
}

/// Text of a cell, or the empty string when the record has no such field.
pub open spec fn cell_or_empty(cells: Map<Seq<char>, Seq<char>>, key: Seq<char>) -> Seq<char> {
    if cells.contains_key(key) {
        cells[key]
    } else {
        Seq::empty()
    }
}

/// Display text of a field of a record, empty when the field is missing.
pub fn record_field_text(record: &DataRecord, key: &str) -> (r: String)
    ensures
        r@ == cell_or_empty(record_cells(*record), key@),
{
    match record_text(record, key) {
        Some(s) => s,
        None => String::new(),
    }
}

/// Cells of a job row.
pub open spec fn job_cells(job: JobSummary) -> Map<Seq<char>, Seq<char>> {
    map![
        "job_id"@ => job.job_id@,
        "task_name"@ => job.task_name@,
        "status"@ => job_key_of(job.status),
        "pool"@ => job.pool@,
        "priority"@ => decimal_int(job.priority as int),
        "created_at"@ => clock_label(job.created_at@),
    ]
}

/// Cells of a run row.
pub open spec fn run_cells(run: RunSummary) -> Map<Seq<char>, Seq<char>> {
    map![
        "run_id"@ => run.run_id@,
        "job_id"@ => run.job_id@,
        "task_name"@ => run.task_name@,
        "status"@ => run_key_of(run.status),
        "attempt"@ => decimal_nat(run.attempt as nat),
        "started_at"@ => clock_label(run.started_at@),
        "duration_ms"@ => duration_label(run.duration_ms),
    ]
}

/// Cells of a task row, with the success rate already rendered as text.
pub open spec fn task_cells(task: TaskSummary, success_rate: Seq<char>) -> Map<Seq<char>, Seq<char>> {
    map![
        "name"@ => task.name@,
        "signature"@ => task.signature_json@,
        "effective_pool"@ => pool_priority_text(task.effective_pool@, task.effective_priority as int),
        "default_pool"@ => pool_priority_text(task.default_pool@, task.default_priority as int),
        "jobs_queued"@ => decimal_nat(task.jobs_queued as nat),
        "runs_total"@ => decimal_nat(task.runs_total as nat),
        "success_rate"@ => success_rate,
    ]
}

/// The field keys of a job row, as the solver needs them to tell them apart.
proof fn lemma_job_keys()
    ensures
        "job_id"@.len() == 6 && "job_id"@[0] == 'j',
        "status"@.len() == 6 && "status"@[0] == 's',
        "task_name"@.len() == 9,
        "pool"@.len() == 4,
        "priority"@.len() == 8,
        "created_at"@.len() == 10,
{
    reveal_strlit("job_id");
    reveal_strlit("task_name");
    reveal_strlit("status");
    reveal_strlit("pool");
    reveal_strlit("priority");
    reveal_strlit("created_at");
}

/// The field keys of a run row, as the solver needs them to tell them apart.
proof fn lemma_run_keys()
    ensures
        "run_id"@.len() == 6 && "run_id"@[0] == 'r',
        "job_id"@.len() == 6 && "job_id"@[0] == 'j',
        "status"@.len() == 6 && "status"@[0] == 's',
        "task_name"@.len() == 9,
        "attempt"@.len() == 7,
        "started_at"@.len() == 10,
        "duration_ms"@.len() == 11,
{
    reveal_strlit("run_id");
    reveal_strlit("job_id");
    reveal_strlit("task_name");
    reveal_strlit("status");
    reveal_strlit("attempt");
    reveal_strlit("started_at");
    reveal_strlit("duration_ms");
}

/// The field keys of a task row, as the solver needs them to tell them apart.
proof fn lemma_task_keys()
    ensures
        "name"@.len() == 4,
        "signature"@.len() == 9,
        "effective_pool"@.len() == 14,
        "default_pool"@.len() == 12 && "default_pool"@[0] == 'd',
        "success_rate"@.len() == 12 && "success_rate"@[0] == 's',
        "jobs_queued"@.len() == 11,
        "runs_total"@.len() == 10,
{
    reveal_strlit("name");
    reveal_strlit("signature");
    reveal_strlit("effective_pool");
    reveal_strlit("default_pool");
    reveal_strlit("jobs_queued");
    reveal_strlit("runs_total");
    reveal_strlit("success_rate");
}

/// The queue-table row of a job, keyed by its job id.
pub fn job_to_record(job: JobSummary) -> (r: DataRecord)
    ensures
        record_id(r) == job.job_id@,
        record_all_text(r),
        record_cells(r) == job_cells(job),
{
    let ghost g = job;
    let id = job.job_id.clone();
    let status = job_status_key(job.status).to_owned();
    let priority = decimal_i64(job.priority as i64);
    let created_at = format_enqueued(job.created_at.as_str());
    let cells = vec![
        ("job_id".to_owned(), job.job_id),
        ("task_name".to_owned(), job.task_name),
        ("status".to_owned(), status),
        ("pool".to_owned(), job.pool),
        ("priority".to_owned(), priority),
        ("created_at".to_owned(), created_at),
    ];
    proof {
        lemma_job_keys();
        reveal_with_fuel(text_cells, 7);
        assert(text_cells(cells@) =~= job_cells(g));
    }
    new_text_record(id, cells)
}

/// The runs-table row of a run, keyed by its run id.
pub fn run_to_record(run: RunSummary) -> (r: DataRecord)
    ensures
        record_id(r) == run.run_id@,
        record_all_text(r),
        record_cells(r) == run_cells(run),
{
    let ghost g = run;
    let id = run.run_id.clone();
    let status = run_status_key(run.status).to_owned();
    let attempt = decimal_u64(run.attempt as u64);
    let started_at = format_started_at(run.started_at.as_str());
    let duration = format_duration(run.duration_ms);
    let cells = vec![
        ("run_id".to_owned(), run.run_id),
        ("job_id".to_owned(), run.job_id),
        ("task_name".to_owned(), run.task_name),
        ("status".to_owned(), status),
        ("attempt".to_owned(), attempt),
        ("started_at".to_owned(), started_at),
        ("duration_ms".to_owned(), duration),
    ];
    proof {
        lemma_run_keys();
        reveal_with_fuel(text_cells, 8);
        assert(text_cells(cells@) =~= run_cells(g));
    }
    new_text_record(id, cells)
}

/// The tasks-table row of a task, keyed by its name; `success_rate_label` is the
/// rendered success-rate cell.
pub fn task_to_record(task: TaskSummary, success_rate_label: String) -> (r: DataRecord)
    ensures
        record_id(r) == task.name@,
        record_all_text(r),
        record_cells(r) == task_cells(task, success_rate_label@),
{
    let ghost g = task;
    let id = task.name.clone();
    let effective_pool = pool_priority_label(task.effective_pool.as_str(), task.effective_priority);
    let default_pool = pool_priority_label(task.default_pool.as_str(), task.default_priority);
    let jobs_queued = decimal_u64(task.jobs_queued);
    let runs_total = decimal_u64(task.runs_total);
    let cells = vec![
        ("name".to_owned(), task.name),
        ("signature".to_owned(), task.signature_json),
        ("effective_pool".to_owned(), effective_pool),
        ("default_pool".to_owned(), default_pool),
        ("jobs_queued".to_owned(), jobs_queued),
        ("runs_total".to_owned(), runs_total),
        ("success_rate".to_owned(), success_rate_label),
    ];
    proof {
        lemma_task_keys();
        reveal_with_fuel(text_cells, 8);
        assert(text_cells(cells@) =~= task_cells(g, success_rate_label@));
    }
    new_text_record(id, cells)
}

/// The task name stored in a tasks-table row, empty when the row has none.
pub fn record_to_task_name(record: &DataRecord) -> (r: String)
    ensures
        r@ == cell_or_empty(record_cells(*record), "name"@),
{
    record_field_text(record, "name")
}

/// Each cell of a job row holds the job field of the same name: the row has exactly
/// the six job fields as keys, the id, task name and pool as they are, the status as
/// its filter key, the priority in decimal and the enqueue time as its clock label.
pub proof fn job_row_holds_job_fields(job: JobSummary)
    ensures
        job_cells(job).dom() == set!["job_id"@, "task_name"@, "status"@, "pool"@, "priority"@, "created_at"@],
        job_cells(job)["job_id"@] == job.job_id@,
        job_cells(job)["task_name"@] == job.task_name@,
        job_cells(job)["status"@] == job_key_of(job.status),
        job_cells(job)["pool"@] == job.pool@,
        job_cells(job)["priority"@] == decimal_int(job.priority as int),
        job_cells(job)["created_at"@] == clock_label(job.created_at@),
{
    lemma_job_keys();
    assert(job_cells(job).dom() =~= set!["job_id"@, "task_name"@, "status"@, "pool"@, "priority"@, "created_at"@]);
}

/// Each cell of a run row holds the run field of the same name: the row has exactly
/// the seven run fields as keys, the run id, job id and task name as they are, the
/// status as its filter key, the attempt in decimal, the start time as its clock label
/// and the duration as its duration label.
pub proof fn run_row_holds_run_fields(run: RunSummary)
    ensures
        run_cells(run).dom() == set![
            "run_id"@, "job_id"@, "task_name"@, "status"@, "attempt"@, "started_at"@, "duration_ms"@
        ],
        run_cells(run)["run_id"@] == run.run_id@,
        run_cells(run)["job_id"@] == run.job_id@,
        run_cells(run)["task_name"@] == run.task_name@,
        run_cells(run)["status"@] == run_key_of(run.status),
        run_cells(run)["attempt"@] == decimal_nat(run.attempt as nat),
        run_cells(run)["started_at"@] == clock_label(run.started_at@),
        run_cells(run)["duration_ms"@] == duration_label(run.duration_ms),
{
    lemma_run_keys();
    assert(run_cells(run).dom() =~= set![
        "run_id"@, "job_id"@, "task_name"@, "status"@, "attempt"@, "started_at"@, "duration_ms"@
    ]);
}

/// Each cell of a task row holds the task field of the same name: the row has exactly
/// the seven task fields as keys, the name and signature as they are, the effective
/// and default routing as pool/priority summaries, the counters in decimal and the
/// given success-rate text.
pub proof fn task_row_holds_task_fields(task: TaskSummary, success_rate: Seq<char>)
    ensures
        task_cells(task, success_rate).dom() == set![
            "name"@, "signature"@, "effective_pool"@, "default_pool"@, "jobs_queued"@, "runs_total"@, "success_rate"@
        ],
        task_cells(task, success_rate)["name"@] == task.name@,
        task_cells(task, success_rate)["signature"@] == task.signature_json@,
        task_cells(task, success_rate)["effective_pool"@] == pool_priority_text(
            task.effective_pool@,
            task.effective_priority as int,
        ),
        task_cells(task, success_rate)["default_pool"@] == pool_priority_text(
            task.default_pool@,
            task.default_priority as int,
        ),
        task_cells(task, success_rate)["jobs_queued"@] == decimal_nat(task.jobs_queued as nat),
        task_cells(task, success_rate)["runs_total"@] == decimal_nat(task.runs_total as nat),
        task_cells(task, success_rate)["success_rate"@] == success_rate,
{
    lemma_task_keys();
    assert(task_cells(task, success_rate).dom() =~= set![
        "name"@, "signature"@, "effective_pool"@, "default_pool"@, "jobs_queued"@, "runs_total"@, "success_rate"@
    ]);
}

/// A task row gives back the name of the task it was built from.
pub proof fn task_record_name_round_trip(task: TaskSummary, success_rate: Seq<char>)
    ensures
        cell_or_empty(task_cells(task, success_rate), "name"@) == task.name@,
{
    lemma_task_keys();
}

/// The status cell of a job row reads back as the job's status.
pub proof fn job_record_status_round_trip(job: JobSummary)
    ensures
        job_cells(job).contains_key("status"@),
        job_status_for_key(job_cells(job)["status"@]) == job.status,
{
    lemma_job_keys();
    job_status_key_round_trip(job.status);
}

/// The status cell of a run row reads back as the run's status.
pub proof fn run_record_status_round_trip(run: RunSummary)
    ensures
        run_cells(run).contains_key("status"@),
        run_status_for_key(run_cells(run)["status"@]) == run.status,
{
    lemma_run_keys();
    run_status_key_round_trip(run.status);
}

} // verus!
