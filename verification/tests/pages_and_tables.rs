use boson_app::columns::{queue_column_layout, runs_column_layout, tasks_column_layout, tasks_list_view_fields, CellView, ColumnHelp};
use boson_app::dto::{DashboardStats, TaskSummary};
use boson_app::pages::{
    pool_option_detail, run_href, task_config_href, task_href, GluonPoolPickRow,
    dashboard_kpi_texts, detail_lookup_id, finished_label, range_button_is_primary,
    run_duration_detail, runs_empty_description, runs_for_job_href, runs_scope_for_job,
    task_config_lookup, top_tasks, trend_uses_daily_buckets, RunsTableScope, BOSON_QUEUE_PATH,
    BOSON_ROOT_PATH, BOSON_RUNS_PATH, BOSON_TASKS_PATH, RANGE_24H, RANGE_7D,
};
use boson_app::permissions::{BosonPermission, BOSON_ADMIN_PERMISSION};
use boson_app::photon_ws::{merge_routes, BOSON_JOBS_WS_PATH, BOSON_JOB_RUN_WS_PREFIX};

fn task(name: &str) -> TaskSummary {
    TaskSummary {
        name: name.to_string(),
        signature_json: "{}".to_string(),
        default_pool: "global".to_string(),
        default_priority: 1,
        effective_pool: "global".to_string(),
        effective_priority: 1,
        jobs_queued: 0,
        runs_total: 0,
    }
}

#[test]
fn route_paths() {
    assert_eq!(BOSON_ROOT_PATH, "/boson");
    assert_eq!(BOSON_TASKS_PATH, "/boson/tasks");
    assert_eq!(BOSON_QUEUE_PATH, "/boson/queue");
    assert_eq!(BOSON_RUNS_PATH, "/boson/runs");
    assert_eq!(runs_for_job_href("job-1"), "/boson/runs?job=job-1");
}

#[test]
fn runs_scope_from_query() {
    assert_eq!(runs_scope_for_job(Some("job-1".to_string())), RunsTableScope::ForJob("job-1".to_string()));
    assert_eq!(runs_scope_for_job(Some(String::new())), RunsTableScope::All);
    assert_eq!(runs_scope_for_job(None), RunsTableScope::All);
    assert_eq!(runs_empty_description(&RunsTableScope::All), "Run history will appear here when jobs execute.");
    assert_eq!(runs_empty_description(&RunsTableScope::ForJob("j".to_string())), "No runs found for the selected job.");
}

#[test]
fn run_trend_ranges() {
    assert!(range_button_is_primary(RANGE_24H, RANGE_24H));
    assert!(!range_button_is_primary(RANGE_7D, RANGE_24H));
    assert!(!trend_uses_daily_buckets(RANGE_24H));
    assert!(trend_uses_daily_buckets(RANGE_7D));
    assert_eq!(RANGE_24H, 86_400);
    assert_eq!(RANGE_7D, 604_800);
}

#[test]
fn dashboard_shows_first_five_tasks() {
    let names = ["a", "b", "c", "d", "e", "f", "g"];
    let tasks: Vec<TaskSummary> = names.iter().map(|n| task(n)).collect();
    let top = top_tasks(tasks);
    assert_eq!(top.iter().map(|t| t.name.as_str()).collect::<Vec<_>>(), vec!["a", "b", "c", "d", "e"]);
    let few = top_tasks(vec![task("x"), task("y")]);
    assert_eq!(few.len(), 2);
    assert!(top_tasks(Vec::new()).is_empty());
}

#[test]
fn dashboard_counter_texts() {
    let k = dashboard_kpi_texts(Some(DashboardStats { task_count: 3, jobs_queued: 5, jobs_running: 0, runs_today: 1234 }));
    assert_eq!((k.task_count.as_str(), k.jobs_queued.as_str(), k.jobs_running.as_str(), k.runs_today.as_str()), ("3", "5", "0", "1234"));
    let k = dashboard_kpi_texts(None);
    assert_eq!((k.task_count.as_str(), k.runs_today.as_str()), ("", ""));
}

#[test]
fn run_detail_labels() {
    assert_eq!(finished_label(Some("2024-05-01T10:06:00Z".to_string())), "2024-05-01T10:06:00Z");
    assert_eq!(finished_label(None), "-");
    assert_eq!(run_duration_detail(Some(42)), "42 ms");
    assert_eq!(run_duration_detail(None), "-");
}

#[test]
fn detail_lookups() {
    assert_eq!(detail_lookup_id(String::new()), None);
    assert_eq!(detail_lookup_id("run-1".to_string()), Some("run-1".to_string()));
    assert_eq!(task_config_lookup(String::new()), Err("Missing task name"));
    assert_eq!(task_config_lookup("orders.task".to_string()), Ok("orders.task".to_string()));
}

#[test]
fn queue_columns() {
    let cols = queue_column_layout();
    let keys: Vec<&str> = cols.iter().map(|c| c.key).collect();
    assert_eq!(keys, vec!["job_id", "task_name", "status", "pool", "priority", "created_at", "cancel"]);
    assert_eq!(cols[5].title, "Enqueued");
    assert!(cols[2].single_select);
    assert_eq!(cols[3].header_help, Some(ColumnHelp::Pool));
    assert_eq!(cols[6].cell, CellView::JobCancel);
    assert!(!cols[6].filterable);
    assert!(cols.iter().all(|c| !c.sortable));
}

#[test]
fn runs_and_tasks_columns() {
    let cols = runs_column_layout();
    let keys: Vec<&str> = cols.iter().map(|c| c.key).collect();
    assert_eq!(keys, vec!["run_id", "job_id", "task_name", "status", "attempt", "started_at", "duration_ms"]);
    assert_eq!(cols[0].cell, CellView::RunLink);
    assert_eq!(cols[6].header_help, Some(ColumnHelp::Duration));
    assert!(cols.iter().all(|c| !c.sortable));
    let cols = tasks_column_layout();
    assert!(cols.iter().all(|c| !c.sortable));
    let titles: Vec<&str> = cols.iter().map(|c| c.title).collect();
    assert_eq!(titles, vec!["Task", "Signature", "Effective", "Defaults", "Queued", "Runs", "Success Rate", "Actions"]);
    assert!(!cols[7].filterable);
    let (primary, secondary) = tasks_list_view_fields();
    assert_eq!(primary, "name");
    assert_eq!(secondary, vec!["effective_pool", "jobs_queued", "success_rate"]);
}

#[test]
fn permission_manifest() {
    assert_eq!(BosonPermission::all(), vec![BosonPermission::BosonAdmin]);
    assert_eq!(BosonPermission::BosonAdmin.name(), BOSON_ADMIN_PERMISSION);
    assert_eq!(
        BosonPermission::BosonAdmin.description(),
        "Administer Boson job cancellation and task configuration"
    );
}

#[test]
fn photon_routes_pass_through() {
    let router: axum::Router = axum::Router::new();
    let _merged: axum::Router = merge_routes(router);
    assert_eq!(BOSON_JOBS_WS_PATH, "/ws/boson-jobs");
    assert_eq!(BOSON_JOB_RUN_WS_PREFIX, "/ws/boson-job");
}

#[test]
fn task_and_run_links() {
    assert_eq!(task_href("orders.task"), "/boson/tasks/orders.task");
    assert_eq!(task_config_href("orders.task"), "/boson/tasks/orders.task/config");
    assert_eq!(run_href("run-1"), "/boson/runs/run-1");
}

#[test]
fn pool_hint_uses_first_matching_option() {
    let row = |id: &str, detail: &str| GluonPoolPickRow {
        id: id.to_string(),
        label: id.to_uppercase(),
        detail: detail.to_string(),
    };
    let options = vec![row("global", "Shared workers"), row("gpu", "CUDA nodes"), row("gpu", "second")];
    assert_eq!(pool_option_detail(&options, "gpu"), "CUDA nodes");
    assert_eq!(pool_option_detail(&options, "global"), "Shared workers");
    assert_eq!(pool_option_detail(&options, "batch"), "");
    assert_eq!(pool_option_detail(&Vec::new(), "global"), "");
}
