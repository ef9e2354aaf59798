//! Column layouts of the queue, runs and tasks tables.
use vstd::prelude::*;
use vstd::string::*;

verus! {

/// Help text attached to a column header.
#[derive(Clone, Copy, Debug, PartialEq, Eq, Structural)]
pub enum ColumnHelp {
    Pool,
    Priority,
    Attempt,
    Duration,
    Signature,
    Effective,
    Defaults,
    SuccessRate,
}

/// How a column's cells are drawn.
#[derive(Clone, Copy, Debug, PartialEq, Eq, Structural)]
pub enum CellView {
    /// The cell's text as it is.
    Text,
    /// The job id in bold.
    JobId,
    /// A job status badge.
    JobStatus,
    /// The cancel button of a cancellable job.
    JobCancel,
    /// The run id as a link to the run.
    RunLink,
    /// A run status badge.
    RunStatus,
    /// The task name in bold.
    TaskName,
    /// The task signature as code.
    TaskSignature,
    /// The task action buttons.
    TaskActions,
}

/// One column of a data table: `sortable` says whether its header sorts the rows,
/// `filterable` is false where filtering is switched off, and `single_select` marks
/// status columns filtered by value.
#[derive(Clone, Copy, Debug)]
pub struct ColumnSpec {
    pub key: &'static str,
    pub title: &'static str,
    pub sortable: bool,
    pub single_select: bool,
    pub filterable: bool,
    pub header_help: Option<ColumnHelp>,
    pub cell: CellView,
}

/// The column as plain values.
pub open spec fn column_view(c: ColumnSpec) -> (Seq<char>, Seq<char>, bool, bool, bool, Option<ColumnHelp>, CellView) {
    (c.key@, c.title@, c.sortable, c.single_select, c.filterable, c.header_help, c.cell)
}

/// Columns of the queue table.
pub open spec fn queue_columns() -> Seq<(Seq<char>, Seq<char>, bool, bool, bool, Option<ColumnHelp>, CellView)> {
    seq![
        ("job_id"@, "Job"@, false, false, true, None, CellView::JobId),
        ("task_name"@, "Task"@, false, false, true, None, CellView::Text),
        ("status"@, "Status"@, false, true, true, None, CellView::JobStatus),
        ("pool"@, "Pool"@, false, false, true, Some(ColumnHelp::Pool), CellView::Text),
        ("priority"@, "Priority"@, false, false, true, Some(ColumnHelp::Priority), CellView::Text),
        ("created_at"@, "Enqueued"@, false, false, true, None, CellView::Text),
        ("cancel"@, ""@, false, false, false, None, CellView::JobCancel),
    ]
}

/// Columns of the runs table.
pub open spec fn runs_columns() -> Seq<(Seq<char>, Seq<char>, bool, bool, bool, Option<ColumnHelp>, CellView)> {
    seq![
        ("run_id"@, "Run"@, false, false, true, None, CellView::RunLink),
        ("job_id"@, "Job"@, false, false, true, None, CellView::Text),
        ("task_name"@, "Task"@, false, false, true, None, CellView::Text),
        ("status"@, "Status"@, false, true, true, None, CellView::RunStatus),
        ("attempt"@, "Attempt"@, false, false, true, Some(ColumnHelp::Attempt), CellView::Text),
        ("started_at"@, "Started"@, false, false, true, None, CellView::Text),
        ("duration_ms"@, "Duration"@, false, false, true, Some(ColumnHelp::Duration), CellView::Text),
    ]
}

/// Columns of the tasks table.
pub open spec fn tasks_columns() -> Seq<(Seq<char>, Seq<char>, bool, bool, bool, Option<ColumnHelp>, CellView)> {
    seq![
        ("name"@, "Task"@, false, false, true, None, CellView::TaskName),
        ("signature"@, "Signature"@, false, false, true, Some(ColumnHelp::Signature), CellView::TaskSignature),
        ("effective_pool"@, "Effective"@, false, false, true, Some(ColumnHelp::Effective), CellView::Text),
        ("default_pool"@, "Defaults"@, false, false, true, Some(ColumnHelp::Defaults), CellView::Text),
        ("jobs_queued"@, "Queued"@, false, false, true, None, CellView::Text),
        ("runs_total"@, "Runs"@, false, false, true, None, CellView::Text),
        ("success_rate"@, "Success Rate"@, false, false, true, Some(ColumnHelp::SuccessRate), CellView::Text),
        ("actions"@, "Actions"@, false, false, false, None, CellView::TaskActions),
    ]
}

/// The key of the `i`-th column of a layout.
pub open spec fn col_key(cols: Seq<(Seq<char>, Seq<char>, bool, bool, bool, Option<ColumnHelp>, CellView)>, i: int) -> Seq<char> {
    cols[i].0
}

/// How a queue-table column is drawn follows from its key: the job id column and only
/// it is drawn as a job id, the status column and only it as a status badge (and it
/// alone is filtered by value), the cancel column and only it as the cancel button (and
/// it alone is not filterable), every other column as plain text; no column sorts.
pub open spec fn queue_column_fits_key(c: (Seq<char>, Seq<char>, bool, bool, bool, Option<ColumnHelp>, CellView)) -> bool {
    &&& (c.6 == CellView::JobId) <==> (c.0 == "job_id"@)
    &&& (c.6 == CellView::JobStatus) <==> (c.0 == "status"@)
    &&& (c.6 == CellView::JobCancel) <==> (c.0 == "cancel"@)
    &&& (c.6 == CellView::Text) <==> (c.0 != "job_id"@ && c.0 != "status"@ && c.0 != "cancel"@)
    &&& c.3 <==> (c.0 == "status"@)
    &&& !c.4 <==> (c.0 == "cancel"@)
    &&& !c.2
}

/// How a runs-table column is drawn follows from its key: the run id column and only
/// it links to the run, the status column and only it is a status badge (and it alone
/// is filtered by value), every other column is plain text; every column is
/// filterable and none sorts.
pub open spec fn runs_column_fits_key(c: (Seq<char>, Seq<char>, bool, bool, bool, Option<ColumnHelp>, CellView)) -> bool {
    &&& (c.6 == CellView::RunLink) <==> (c.0 == "run_id"@)
    &&& (c.6 == CellView::RunStatus) <==> (c.0 == "status"@)
    &&& (c.6 == CellView::Text) <==> (c.0 != "run_id"@ && c.0 != "status"@)
    &&& c.3 <==> (c.0 == "status"@)
    &&& c.4
    &&& !c.2
}

/// How a tasks-table column is drawn follows from its key: the name column and only it
/// shows the task name, the signature column and only it the signature as code, the
/// actions column and only it the task action buttons (and it alone is not
/// filterable), every other column plain text; no column is filtered by value and none
/// sorts.
pub open spec fn tasks_column_fits_key(c: (Seq<char>, Seq<char>, bool, bool, bool, Option<ColumnHelp>, CellView)) -> bool {
    &&& (c.6 == CellView::TaskName) <==> (c.0 == "name"@)
    &&& (c.6 == CellView::TaskSignature) <==> (c.0 == "signature"@)
    &&& (c.6 == CellView::TaskActions) <==> (c.0 == "actions"@)
    &&& (c.6 == CellView::Text) <==> (c.0 != "name"@ && c.0 != "signature"@ && c.0 != "actions"@)
    &&& !c.3
    &&& !c.4 <==> (c.0 == "actions"@)
    &&& !c.2
}

/// Every column of the queue table is drawn as its key says, and the job id, status
/// and cancel columns are all there.
pub proof fn queue_special_columns()
    ensures
        queue_columns().len() == 7,
        col_key(queue_columns(), 0) == "job_id"@,
        col_key(queue_columns(), 2) == "status"@,
        col_key(queue_columns(), 6) == "cancel"@,
        forall|i: int| 0 <= i < queue_columns().len() ==> queue_column_fits_key(#[trigger] queue_columns()[i]),
{
    reveal_strlit("job_id");
    reveal_strlit("task_name");
    reveal_strlit("status");
    reveal_strlit("pool");
    reveal_strlit("priority");
    reveal_strlit("created_at");
    reveal_strlit("cancel");
    assert("job_id"@.len() == 6 && "job_id"@[0] == 'j');
    assert("status"@.len() == 6 && "status"@[0] == 's');
    assert("cancel"@.len() == 6 && "cancel"@[0] == 'c');
    assert("task_name"@.len() == 9 && "pool"@.len() == 4 && "priority"@.len() == 8);
    assert("created_at"@.len() == 10);
    assert forall|i: int| 0 <= i < queue_columns().len() implies queue_column_fits_key(
        #[trigger] queue_columns()[i],
    ) by {
        assert(i == 0 || i == 1 || i == 2 || i == 3 || i == 4 || i == 5 || i == 6);
    }
}

/// Every column of the runs table is drawn as its key says, and the run id and status
/// columns are both there.
pub proof fn runs_special_columns()
    ensures
        runs_columns().len() == 7,
        col_key(runs_columns(), 0) == "run_id"@,
        col_key(runs_columns(), 3) == "status"@,
        forall|i: int| 0 <= i < runs_columns().len() ==> runs_column_fits_key(#[trigger] runs_columns()[i]),
{
    reveal_strlit("run_id");
    reveal_strlit("job_id");
    reveal_strlit("task_name");
    reveal_strlit("status");
    reveal_strlit("attempt");
    reveal_strlit("started_at");
    reveal_strlit("duration_ms");
    assert("run_id"@.len() == 6 && "run_id"@[0] == 'r');
    assert("job_id"@.len() == 6 && "job_id"@[0] == 'j');
    assert("status"@.len() == 6 && "status"@[0] == 's');
    assert("task_name"@.len() == 9 && "attempt"@.len() == 7 && "started_at"@.len() == 10);
    assert("duration_ms"@.len() == 11);
    assert forall|i: int| 0 <= i < runs_columns().len() implies runs_column_fits_key(
        #[trigger] runs_columns()[i],
    ) by {
        assert(i == 0 || i == 1 || i == 2 || i == 3 || i == 4 || i == 5 || i == 6);
    }
}

/// Every column of the tasks table is drawn as its key says, and the name, signature
/// and actions columns are all there.
pub proof fn tasks_special_columns()
    ensures
        tasks_columns().len() == 8,
        col_key(tasks_columns(), 0) == "name"@,
        col_key(tasks_columns(), 1) == "signature"@,
        col_key(tasks_columns(), 7) == "actions"@,
        forall|i: int| 0 <= i < tasks_columns().len() ==> tasks_column_fits_key(#[trigger] tasks_columns()[i]),
{
    reveal_strlit("name");
    reveal_strlit("signature");
    reveal_strlit("effective_pool");
    reveal_strlit("default_pool");
    reveal_strlit("jobs_queued");
    reveal_strlit("runs_total");
    reveal_strlit("success_rate");
    reveal_strlit("actions");
    assert("name"@.len() == 4 && "signature"@.len() == 9 && "actions"@.len() == 7);
    assert("effective_pool"@.len() == 14 && "default_pool"@.len() == 12);
    assert("jobs_queued"@.len() == 11 && "runs_total"@.len() == 10);
    assert("success_rate"@.len() == 12);
    assert forall|i: int| 0 <= i < tasks_columns().len() implies tasks_column_fits_key(
        #[trigger] tasks_columns()[i],
    ) by {
        assert(i == 0 || i == 1 || i == 2 || i == 3 || i == 4 || i == 5 || i == 6 || i == 7);
    }
}

fn column(
    key: &'static str,
    title: &'static str,
    sortable: bool,
    single_select: bool,
    filterable: bool,
    header_help: Option<ColumnHelp>,
    cell: CellView,
) -> (c: ColumnSpec)
    ensures
        column_view(c) == (key@, title@, sortable, single_select, filterable, header_help, cell),
{
    ColumnSpec { key, title, sortable, single_select, filterable, header_help, cell }
}

/// Column layout of the queue table.
pub fn queue_column_layout() -> (r: Vec<ColumnSpec>)
    ensures
        r@.map_values(|c: ColumnSpec| column_view(c)) == queue_columns(),
{
    let r = vec![
        column("job_id", "Job", false, false, true, None, CellView::JobId),
        column("task_name", "Task", false, false, true, None, CellView::Text),
        column("status", "Status", false, true, true, None, CellView::JobStatus),
        column("pool", "Pool", false, false, true, Some(ColumnHelp::Pool), CellView::Text),
        column("priority", "Priority", false, false, true, Some(ColumnHelp::Priority), CellView::Text),
        column("created_at", "Enqueued", false, false, true, None, CellView::Text),
        column("cancel", "", false, false, false, None, CellView::JobCancel),
    ];
    assert(r@.map_values(|c: ColumnSpec| column_view(c)) =~= queue_columns());
    r
}

/// Column layout of the runs table.
pub fn runs_column_layout() -> (r: Vec<ColumnSpec>)
    ensures
        r@.map_values(|c: ColumnSpec| column_view(c)) == runs_columns(),
{
    let r = vec![
        column("run_id", "Run", false, false, true, None, CellView::RunLink),
        column("job_id", "Job", false, false, true, None, CellView::Text),
        column("task_name", "Task", false, false, true, None, CellView::Text),
        column("status", "Status", false, true, true, None, CellView::RunStatus),
        column("attempt", "Attempt", false, false, true, Some(ColumnHelp::Attempt), CellView::Text),
        column("started_at", "Started", false, false, true, None, CellView::Text),
        column("duration_ms", "Duration", false, false, true, Some(ColumnHelp::Duration), CellView::Text),
    ];
    assert(r@.map_values(|c: ColumnSpec| column_view(c)) =~= runs_columns());
    r
}

/// Column layout of the tasks table.
pub fn tasks_column_layout() -> (r: Vec<ColumnSpec>)
    ensures
        r@.map_values(|c: ColumnSpec| column_view(c)) == tasks_columns(),
{
    let r = vec![
        column("name", "Task", false, false, true, None, CellView::TaskName),
        column("signature", "Signature", false, false, true, Some(ColumnHelp::Signature), CellView::TaskSignature),
        column("effective_pool", "Effective", false, false, true, Some(ColumnHelp::Effective), CellView::Text),
        column("default_pool", "Defaults", false, false, true, Some(ColumnHelp::Defaults), CellView::Text),
        column("jobs_queued", "Queued", false, false, true, None, CellView::Text),
        column("runs_total", "Runs", false, false, true, None, CellView::Text),
        column("success_rate", "Success Rate", false, false, true, Some(ColumnHelp::SuccessRate), CellView::Text),
        column("actions", "Actions", false, false, false, None, CellView::TaskActions),
    ];
    assert(r@.map_values(|c: ColumnSpec| column_view(c)) =~= tasks_columns());
    r
}

/// Fields of the tasks list view: the primary field and the secondary fields under it.
pub fn tasks_list_view_fields() -> (r: (&'static str, Vec<&'static str>))
    ensures
        r.0@ == "name"@,
        r.1@.len() == 3,
        r.1@[0]@ == "effective_pool"@,
        r.1@[1]@ == "jobs_queued"@,
        r.1@[2]@ == "success_rate"@,
{
    ("name", vec!["effective_pool", "jobs_queued", "success_rate"])
}

} // verus!
