//! Decisions the console pages make: route paths, run filters, chart ranges,
//! dashboard counters and the labels of the run detail grid.
use vstd::prelude::*;
use vstd::string::*;

use crate::dto::{DashboardStats, TaskSummary};
use crate::text::{decimal_i64, decimal_int, decimal_nat, decimal_u64, str_eq};

verus! {

/// Dashboard route.
pub const BOSON_ROOT_PATH: &'static str = "/boson";

/// Task index route.
pub const BOSON_TASKS_PATH: &'static str = "/boson/tasks";

/// Queue route.
pub const BOSON_QUEUE_PATH: &'static str = "/boson/queue";

/// Run history route.
pub const BOSON_RUNS_PATH: &'static str = "/boson/runs";

/// Run history filtered to one job: `/boson/runs?job=<job_id>`.
pub open spec fn runs_for_job_text(job_id: Seq<char>) -> Seq<char> {
    "/boson/runs"@ + "?job="@ + job_id
}

/// Link to the run history of one job.
pub fn runs_for_job_href(job_id: &str) -> (r: String)
    ensures
        r@ == runs_for_job_text(job_id@),
{
    let mut s = BOSON_RUNS_PATH.to_owned();
    s.push_str("?job=");
    s.push_str(job_id);
    s
}

/// Task detail route: `/boson/tasks/<name>`.
pub open spec fn task_href_text(name: Seq<char>) -> Seq<char> {
    "/boson/tasks"@ + seq!['/'] + name
}

/// Link to a task's detail page.
pub fn task_href(name: &str) -> (r: String)
    ensures
        r@ == task_href_text(name@),
{
    let mut s = BOSON_TASKS_PATH.to_owned();
    s.push('/');
    s.push_str(name);
    s
}

/// Link to a task's configuration page: `/boson/tasks/<name>/config`.
pub fn task_config_href(name: &str) -> (r: String)
    ensures
        r@ == task_href_text(name@) + "/config"@,
{
    let mut s = task_href(name);
    s.push_str("/config");
    s
}

/// Link to a run's detail page: `/boson/runs/<id>`.
pub fn run_href(run_id: &str) -> (r: String)
    ensures
        r@ == "/boson/runs"@ + seq!['/'] + run_id@,
{
    let mut s = BOSON_RUNS_PATH.to_owned();
    s.push('/');
    s.push_str(run_id);
    s
}

/// One virtual pool offered by the task config form.
#[derive(Clone, Debug, PartialEq)]
pub struct GluonPoolPickRow {
    pub id: String,
    pub label: String,
    pub detail: String,
}

/// Index of the first pool option with the given id, or the number of options.
pub open spec fn first_pool_index(options: Seq<GluonPoolPickRow>, pool: Seq<char>) -> nat
    decreases options.len(),
{
    if options.len() == 0 {
        0
    } else if options[0].id@ == pool {
        0
    } else {
        1 + first_pool_index(options.drop_first(), pool)
    }
}

/// The hint under the pool picker: the detail of the first option with the selected id,
/// empty when no option has it.
pub open spec fn pool_hint_text(options: Seq<GluonPoolPickRow>, pool: Seq<char>) -> Seq<char> {
    if first_pool_index(options, pool) < options.len() {
        options[first_pool_index(options, pool) as int].detail@
    } else {
        Seq::empty()
    }
}

proof fn lemma_first_pool_index(options: Seq<GluonPoolPickRow>, pool: Seq<char>, i: int)
    requires
        0 <= i <= options.len(),
        forall|j: int| 0 <= j < i ==> options[j].id@ != pool,
        i == options.len() || options[i].id@ == pool,
    ensures
        first_pool_index(options, pool) == i,
    decreases i,
{
    if i > 0 {
        lemma_first_pool_index(options.drop_first(), pool, i - 1);
    }
}

/// Hint shown under the pool picker for the selected pool.
pub fn pool_option_detail(options: &Vec<GluonPoolPickRow>, pool: &str) -> (r: String)
    ensures
        r@ == pool_hint_text(options@, pool@),
{
    let n = options.len();
    let mut i: usize = 0;
    while i < n
        invariant
            n == options@.len(),
            i <= n,
            forall|j: int| 0 <= j < i ==> options@[j].id@ != pool@,
        decreases n - i,
    {
        if str_eq(options[i].id.as_str(), pool) {
            proof {
                lemma_first_pool_index(options@, pool@, i as int);
            }
            return options[i].detail.clone();
        }
        i += 1;
    }
    proof {
        lemma_first_pool_index(options@, pool@, n as int);
    }
    String::new()
}

/// Which runs the runs table lists.
/// What `first_pool_index` promises: no earlier option has the id, and the option at
/// the index (unless it is the end) has it.
proof fn lemma_first_pool_index_facts(options: Seq<GluonPoolPickRow>, pool: Seq<char>)
    ensures
        first_pool_index(options, pool) <= options.len(),
        forall|j: int| 0 <= j < first_pool_index(options, pool) ==> options[j].id@ != pool,
        first_pool_index(options, pool) < options.len() ==> options[first_pool_index(
            options,
            pool,
        ) as int].id@ == pool,
    decreases options.len(),
{
    if options.len() > 0 && options[0].id@ != pool {
        lemma_first_pool_index_facts(options.drop_first(), pool);
        assert forall|j: int| 0 <= j < first_pool_index(options, pool) implies options[j].id@
            != pool by {
            if j > 0 {
                assert(options[j] == options.drop_first()[j - 1]);
            }
        }
    }
}

/// The pool hint is the detail of the first option whose id is the selected pool, and
/// it is empty exactly when no option has that id.
pub proof fn pool_hint_is_first_matching_detail(options: Seq<GluonPoolPickRow>, pool: Seq<char>)
    ensures
        (exists|i: int| 0 <= i < options.len() && options[i].id@ == pool) ==> exists|i: int|
            0 <= i < options.len() && options[i].id@ == pool && (forall|j: int|
                0 <= j < i ==> options[j].id@ != pool) && pool_hint_text(options, pool)
                == options[i].detail@,
        (forall|i: int| 0 <= i < options.len() ==> options[i].id@ != pool) ==> pool_hint_text(
            options,
            pool,
        ) == Seq::<char>::empty(),
{
    lemma_first_pool_index_facts(options, pool);
    let k = first_pool_index(options, pool) as int;
    if exists|i: int| 0 <= i < options.len() && options[i].id@ == pool {
        let i = choose|i: int| 0 <= i < options.len() && options[i].id@ == pool;
        assert(k < options.len());
        assert(options[k].id@ == pool);
    }
}

/// The runs page is scoped to a job exactly when the `job` parameter names one (is
/// present and not empty), and then to that very job.
pub proof fn runs_scope_follows_job_parameter(job: Option<Seq<char>>)
    ensures
        scope_for_job(job) is Some <==> (job matches Some(j) && j.len() > 0),
        scope_for_job(job) matches Some(j) ==> job == Some(j),
{
}

#[derive(Clone, Debug, PartialEq, Eq)]
pub enum RunsTableScope {
    All,
    ForJob(String),
}

/// The scope that a `job` query parameter selects: one job when it names one, all runs
/// when it is absent or empty.
pub open spec fn scope_for_job(job: Option<Seq<char>>) -> Option<Seq<char>> {
    match job {
        Some(j) => if j.len() > 0 {
            Some(j)
        } else {
            None
        },
        None => None,
    }
}

/// The job a scope is filtered to.
pub open spec fn scope_job(scope: RunsTableScope) -> Option<Seq<char>> {
    match scope {
        RunsTableScope::All => None,
        RunsTableScope::ForJob(j) => Some(j@),
    }
}

/// Runs-table scope for the `job` query parameter of the runs page.
pub fn runs_scope_for_job(job: Option<String>) -> (s: RunsTableScope)
    ensures
        scope_job(s) == scope_for_job(
            match job {
                Some(j) => Some(j@),
                None => None,
            },
        ),
{
    match job {
        Some(j) => {
            if j.as_str().unicode_len() > 0 {
                RunsTableScope::ForJob(j)
            } else {
                RunsTableScope::All
            }
        },
        None => RunsTableScope::All,
    }
}

/// Empty-table message of the runs table for a scope.
pub fn runs_empty_description(scope: &RunsTableScope) -> (r: &'static str)
    ensures
        r@ == match scope {
            RunsTableScope::All => "Run history will appear here when jobs execute."@,
            RunsTableScope::ForJob(_) => "No runs found for the selected job."@,
        },
{
    match scope {
        RunsTableScope::All => "Run history will appear here when jobs execute.",
        RunsTableScope::ForJob(_) => "No runs found for the selected job.",
    }
}

/// Run-outcome chart range of one day, in seconds.
pub const RANGE_24H: i64 = 86_400;

/// Run-outcome chart range of one week, in seconds.
pub const RANGE_7D: i64 = 604_800;

/// A range button is shown as primary when its range is the selected one.
pub fn range_button_is_primary(selected: i64, range: i64) -> (r: bool)
    ensures
        r == (selected == range),
{
    selected == range
}

/// Ranges longer than a day are bucketed by day, a day by the hour.
pub fn trend_uses_daily_buckets(selected: i64) -> (r: bool)
    ensures
        r == (selected > RANGE_24H),
{
    selected > RANGE_24H
}

/// The first five tasks of the index, as the dashboard overview shows them.
pub fn top_tasks(tasks: Vec<TaskSummary>) -> (r: Vec<TaskSummary>)
    ensures
        r@ == tasks@.take(if tasks@.len() < 5 {
            tasks@.len() as int
        } else {
            5
        }),
{
    let mut v = tasks;
    let ghost before = v@;
    v.truncate(5);
    assert(v@ =~= before.take(if before.len() < 5 { before.len() as int } else { 5 }));
    v
}

/// A counter's text: its decimal value, or empty while the counters have not loaded.
pub open spec fn kpi_text_of(value: Option<u64>) -> Seq<char> {
    match value {
        Some(v) => decimal_nat(v as nat),
        None => Seq::empty(),
    }
}

/// The four dashboard counter texts.
#[derive(Debug)]
pub struct DashboardKpiTexts {
    pub task_count: String,
    pub jobs_queued: String,
    pub jobs_running: String,
    pub runs_today: String,
}

fn kpi_text(value: Option<u64>) -> (r: String)
    ensures
        r@ == kpi_text_of(value),
{
    match value {
        Some(v) => decimal_u64(v),
        None => String::new(),
    }
}

/// Counter texts of the dashboard cards for the loaded counters (empty before they load).
pub fn dashboard_kpi_texts(stats: Option<DashboardStats>) -> (r: DashboardKpiTexts)
    ensures
        r.task_count@ == kpi_text_of(
            match stats {
                Some(s) => Some(s.task_count),
                None => None,
            },
        ),
        r.jobs_queued@ == kpi_text_of(
            match stats {
                Some(s) => Some(s.jobs_queued),
                None => None,
            },
        ),
        r.jobs_running@ == kpi_text_of(
            match stats {
                Some(s) => Some(s.jobs_running),
                None => None,
            },
        ),
        r.runs_today@ == kpi_text_of(
            match stats {
                Some(s) => Some(s.runs_today),
                None => None,
            },
        ),
{
    match stats {
        Some(s) => DashboardKpiTexts {
            task_count: kpi_text(Some(s.task_count)),
            jobs_queued: kpi_text(Some(s.jobs_queued)),
            jobs_running: kpi_text(Some(s.jobs_running)),
            runs_today: kpi_text(Some(s.runs_today)),
        },
        None => DashboardKpiTexts {
            task_count: kpi_text(None),
            jobs_queued: kpi_text(None),
            jobs_running: kpi_text(None),
            runs_today: kpi_text(None),
        },
    }
}

/// Finish time of a run on the detail grid: the timestamp, or `-` while running.
pub fn finished_label(finished_at: Option<String>) -> (r: String)
    ensures
        r@ == match finished_at {
            Some(f) => f@,
            None => seq!['-'],
        },
{
    match finished_at {
        Some(f) => f,
        None => {
            let mut s = String::new();
            s.push('-');
            assert(s@ =~= seq!['-']);
            s
        },
    }
}

/// Duration of a run on the detail grid: `<n> ms`, or `-` while running.
pub fn run_duration_detail(ms: Option<i64>) -> (r: String)
    ensures
        r@ == match ms {
            Some(v) => decimal_int(v as int) + " ms"@,
            None => seq!['-'],
        },
{
    match ms {
        Some(v) => {
            let mut s = decimal_i64(v);
            s.push_str(" ms");
            s
        },
        None => {
            let mut s = String::new();
            s.push('-');
            assert(s@ =~= seq!['-']);
            s
        },
    }
}

/// The id a detail page looks up: none for an empty route parameter, which shows
/// "not found" without asking the coordinator.
pub fn detail_lookup_id(id: String) -> (r: Option<String>)
    ensures
        match r {
            Some(s) => s@ == id@ && id@.len() > 0,
            None => id@.len() == 0,
        },
{
    if id.as_str().unicode_len() == 0 {
        None
    } else {
        Some(id)
    }
}

/// The task whose configuration the config page loads; an empty route parameter is
/// the error `Missing task name`.
pub fn task_config_lookup(task_name: String) -> (r: Result<String, &'static str>)
    ensures
        match r {
            Ok(s) => s@ == task_name@ && task_name@.len() > 0,
            Err(e) => task_name@.len() == 0 && e@ == "Missing task name"@,
        },
{
    if task_name.as_str().unicode_len() == 0 {
        Err("Missing task name")
    } else {
        Ok(task_name)
    }
}

} // verus!
