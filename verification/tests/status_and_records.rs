use boson_app::dto::{JobSummary, RunSummary, TaskSummary};
use boson_app::records::{job_to_record, record_field_text, record_to_task_name, run_to_record, task_to_record};
use boson_app::status::{
    job_can_cancel, job_status_badge, job_status_from_key, job_status_key, run_status_badge,
    run_status_from_key, run_status_key, BadgeAppearance, BadgeColor, JobStatusDto, RunStatusDto,
};
use orbital_data::{DataRecord, DataValue};
use std::collections::HashMap;

const JOB_STATUSES: [JobStatusDto; 5] = [
    JobStatusDto::Queued,
    JobStatusDto::Running,
    JobStatusDto::Success,
    JobStatusDto::Failed,
    JobStatusDto::Canceled,
];

const RUN_STATUSES: [RunStatusDto; 5] = [
    RunStatusDto::Running,
    RunStatusDto::Success,
    RunStatusDto::Failed,
    RunStatusDto::Canceled,
    RunStatusDto::Timeout,
];

fn job(status: JobStatusDto) -> JobSummary {
    JobSummary {
        job_id: "job-1".to_string(),
        task_name: "orders.task".to_string(),
        status,
        pool: "global".to_string(),
        priority: -3,
        created_at: "2024-05-01T09:30:12.5Z".to_string(),
    }
}

fn run(status: RunStatusDto, duration_ms: Option<i64>) -> RunSummary {
    RunSummary {
        run_id: "run-1".to_string(),
        job_id: "job-1".to_string(),
        task_name: "orders.task".to_string(),
        status,
        attempt: 2,
        started_at: "2024-05-01T10:05:00Z".to_string(),
        finished_at: None,
        duration_ms,
        error_message: None,
    }
}

fn text(record: &DataRecord, key: &str) -> String {
    record.get(key).map(DataValue::display_string).unwrap()
}

fn all_text(record: &DataRecord) -> bool {
    record.values.values().all(|v| matches!(v, DataValue::Text(_)))
}

#[test]
fn job_status_keys() {
    assert_eq!(job_status_key(JobStatusDto::Queued), "queued");
    assert_eq!(job_status_key(JobStatusDto::Running), "running");
    assert_eq!(job_status_key(JobStatusDto::Success), "success");
    assert_eq!(job_status_key(JobStatusDto::Failed), "failed");
    assert_eq!(job_status_key(JobStatusDto::Canceled), "canceled");
}

#[test]
fn run_status_keys() {
    assert_eq!(run_status_key(RunStatusDto::Running), "running");
    assert_eq!(run_status_key(RunStatusDto::Success), "success");
    assert_eq!(run_status_key(RunStatusDto::Failed), "failed");
    assert_eq!(run_status_key(RunStatusDto::Canceled), "canceled");
    assert_eq!(run_status_key(RunStatusDto::Timeout), "timeout");
}

#[test]
fn status_keys_round_trip() {
    for s in JOB_STATUSES {
        assert_eq!(job_status_from_key(job_status_key(s)), s);
    }
    for s in RUN_STATUSES {
        assert_eq!(run_status_from_key(run_status_key(s)), s);
    }
}

#[test]
fn unknown_keys_use_defaults() {
    assert_eq!(job_status_from_key("paused"), JobStatusDto::Queued);
    assert_eq!(job_status_from_key(""), JobStatusDto::Queued);
    assert_eq!(job_status_from_key("Running"), JobStatusDto::Queued);
    assert_eq!(job_status_from_key("timeout"), JobStatusDto::Queued);
    assert_eq!(run_status_from_key("queued"), RunStatusDto::Running);
    assert_eq!(run_status_from_key("TIMEOUT"), RunStatusDto::Running);
}

#[test]
fn job_badges() {
    let b = job_status_badge(JobStatusDto::Queued);
    assert_eq!((b.label, b.appearance, b.color), ("Queued", BadgeAppearance::Outline, BadgeColor::Informative));
    let b = job_status_badge(JobStatusDto::Running);
    assert_eq!((b.label, b.appearance, b.color), ("Running", BadgeAppearance::Tint, BadgeColor::Brand));
    let b = job_status_badge(JobStatusDto::Success);
    assert_eq!((b.label, b.appearance, b.color), ("Success", BadgeAppearance::Filled, BadgeColor::Success));
    let b = job_status_badge(JobStatusDto::Failed);
    assert_eq!((b.label, b.appearance, b.color), ("Failed", BadgeAppearance::Filled, BadgeColor::Danger));
    let b = job_status_badge(JobStatusDto::Canceled);
    assert_eq!((b.label, b.appearance, b.color), ("Canceled", BadgeAppearance::Outline, BadgeColor::Warning));
}

#[test]
fn run_badges() {
    let b = run_status_badge(RunStatusDto::Timeout);
    assert_eq!((b.label, b.appearance, b.color), ("Timeout", BadgeAppearance::Outline, BadgeColor::Danger));
    let b = run_status_badge(RunStatusDto::Running);
    assert_eq!((b.label, b.appearance, b.color), ("Running", BadgeAppearance::Tint, BadgeColor::Brand));
    let b = run_status_badge(RunStatusDto::Canceled);
    assert_eq!((b.label, b.appearance, b.color), ("Canceled", BadgeAppearance::Outline, BadgeColor::Warning));
}

#[test]
fn only_queued_and_running_jobs_cancel() {
    assert!(job_can_cancel(JobStatusDto::Queued));
    assert!(job_can_cancel(JobStatusDto::Running));
    assert!(!job_can_cancel(JobStatusDto::Success));
    assert!(!job_can_cancel(JobStatusDto::Failed));
    assert!(!job_can_cancel(JobStatusDto::Canceled));
}

#[test]
fn job_record_cells() {
    let r = job_to_record(job(JobStatusDto::Running));
    assert_eq!(r.id, "job-1");
    assert_eq!(r.values.len(), 6);
    assert_eq!(text(&r, "job_id"), "job-1");
    assert_eq!(text(&r, "task_name"), "orders.task");
    assert_eq!(text(&r, "status"), "running");
    assert_eq!(text(&r, "pool"), "global");
    assert_eq!(text(&r, "priority"), "-3");
    assert_eq!(text(&r, "created_at"), "09:30");
    assert_eq!(r.values.get("status"), Some(&DataValue::Text("running".into())));
    assert!(all_text(&r));
}

#[test]
fn job_record_status_reads_back() {
    for s in JOB_STATUSES {
        let r = job_to_record(job(s));
        assert_eq!(job_status_from_key(&record_field_text(&r, "status")), s);
    }
}

#[test]
fn run_record_cells() {
    let r = run_to_record(run(RunStatusDto::Timeout, Some(250)));
    assert_eq!(r.id, "run-1");
    assert_eq!(r.values.len(), 7);
    assert_eq!(text(&r, "run_id"), "run-1");
    assert_eq!(text(&r, "job_id"), "job-1");
    assert_eq!(text(&r, "status"), "timeout");
    assert_eq!(text(&r, "attempt"), "2");
    assert_eq!(text(&r, "started_at"), "10:05");
    assert_eq!(text(&r, "duration_ms"), "250ms");
    assert!(all_text(&r));
    let r = run_to_record(run(RunStatusDto::Running, None));
    assert_eq!(text(&r, "duration_ms"), "-");
    assert_eq!(r.values.get("duration_ms"), Some(&DataValue::Text("-".into())));
    for s in RUN_STATUSES {
        let r = run_to_record(run(s, None));
        assert_eq!(run_status_from_key(&record_field_text(&r, "status")), s);
    }
}

#[test]
fn task_record_cells() {
    let t = TaskSummary {
        name: "orders.task".to_string(),
        signature_json: "{}".to_string(),
        default_pool: "global".to_string(),
        default_priority: 1,
        effective_pool: "gpu".to_string(),
        effective_priority: 0,
        jobs_queued: 3,
        runs_total: 120,
    };
    let r = task_to_record(t, "92%".to_string());
    assert_eq!(r.id, "orders.task");
    assert_eq!(r.values.len(), 7);
    assert_eq!(text(&r, "name"), "orders.task");
    assert_eq!(text(&r, "signature"), "{}");
    assert_eq!(text(&r, "effective_pool"), "pool=\"gpu\", priority=0");
    assert_eq!(text(&r, "default_pool"), "pool=\"global\", priority=1");
    assert_eq!(text(&r, "jobs_queued"), "3");
    assert_eq!(text(&r, "runs_total"), "120");
    assert_eq!(text(&r, "success_rate"), "92%");
    assert_eq!(record_to_task_name(&r), "orders.task");
    assert!(all_text(&r));
}

#[test]
fn task_name_of_foreign_records() {
    let empty = DataRecord::new("x", HashMap::new());
    assert_eq!(record_to_task_name(&empty), "");
    let other = DataRecord::new("x", HashMap::from([("name".to_string(), DataValue::Bool(true))]));
    assert_eq!(record_to_task_name(&other), "true");
    assert_eq!(record_field_text(&other, "missing"), "");
}
