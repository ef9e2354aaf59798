use boson_app::dto::{RetryPolicyDto, RunSummary, TaskConfigDto};
use boson_app::email_override::{email_verified_override, set_email_verified_override, EmailVerifiedOverride};
use boson_app::live::{
    boson_job_event_is_status, boson_run_event_is_status, boson_run_event_matches_run,
    run_detail_live_job_id, run_detail_should_refetch, BosonLiveEvent,
};
use boson_app::queue::QueueCancelState;
use boson_app::status::RunStatusDto;
use boson_app::task_config::{TaskConfigFormState, DEFAULT_BACKOFF_MULTIPLIER_BITS};

fn event(kind: Option<&str>, run_id: Option<&str>) -> BosonLiveEvent {
    BosonLiveEvent {
        kind: kind.map(str::to_string),
        run_id: run_id.map(str::to_string),
    }
}

fn run(status: RunStatusDto, job_id: &str) -> RunSummary {
    RunSummary {
        run_id: "run-1".to_string(),
        job_id: job_id.to_string(),
        task_name: "orders.task".to_string(),
        status,
        attempt: 1,
        started_at: "2024-05-01T10:05:00Z".to_string(),
        finished_at: None,
        duration_ms: None,
        error_message: None,
    }
}

#[test]
fn live_event_predicates() {
    let e = event(Some("status"), Some("run-1"));
    assert!(boson_job_event_is_status(&e));
    assert!(boson_run_event_is_status(&e));
    assert!(boson_run_event_matches_run(&e, "run-1"));
    assert!(!boson_run_event_matches_run(&e, "run-2"));
    let e = event(Some("log"), None);
    assert!(!boson_job_event_is_status(&e));
    assert!(!boson_run_event_matches_run(&e, "run-1"));
    let e = event(None, Some(""));
    assert!(!boson_run_event_is_status(&e));
    assert!(boson_run_event_matches_run(&e, ""));
}

#[test]
fn run_detail_refetch_decision() {
    let e = event(Some("status"), Some("run-1"));
    assert!(run_detail_should_refetch("run-1", Some(&e)));
    assert!(!run_detail_should_refetch("run-2", Some(&e)));
    assert!(!run_detail_should_refetch("", Some(&event(Some("status"), Some("")))));
    assert!(!run_detail_should_refetch("run-1", None));
    assert!(!run_detail_should_refetch("run-1", Some(&event(Some("stream"), Some("run-1")))));
}

#[test]
fn run_detail_follows_running_jobs_only() {
    assert_eq!(run_detail_live_job_id(Some(&run(RunStatusDto::Running, "job-9"))), Some("job-9".to_string()));
    assert_eq!(run_detail_live_job_id(Some(&run(RunStatusDto::Success, "job-9"))), None);
    assert_eq!(run_detail_live_job_id(Some(&run(RunStatusDto::Running, ""))), None);
    assert_eq!(run_detail_live_job_id(None), None);
}

#[test]
fn email_override_reads_back_writes() {
    let mut slot = EmailVerifiedOverride::new();
    assert_eq!(email_verified_override(&slot), None);
    assert_eq!(slot.code(), -1);
    set_email_verified_override(&mut slot, Some(true));
    assert_eq!(email_verified_override(&slot), Some(true));
    assert_eq!(slot.code(), 1);
    set_email_verified_override(&mut slot, Some(false));
    assert_eq!(email_verified_override(&slot), Some(false));
    assert_eq!(slot.code(), 0);
    set_email_verified_override(&mut slot, None);
    assert_eq!(email_verified_override(&slot), None);
    assert_eq!(email_verified_override(&EmailVerifiedOverride::from_code(7)), None);
    assert_eq!(email_verified_override(&EmailVerifiedOverride::from_code(1)), Some(true));
}

#[test]
fn queue_cancel_workflow() {
    let mut q = QueueCancelState::new();
    assert_eq!(q.refresh_signal(), 0);
    assert!(q.request_cancel("job-1".to_string()));
    assert!(q.is_cancelling("job-1"));
    assert_eq!(q.cancel_button_label("job-1"), "Cancelling…");
    assert_eq!(q.cancel_button_label("job-2"), "Cancel");
    assert!(!q.request_cancel("job-1".to_string()));
    assert!(q.request_cancel("job-2".to_string()));
    q.finish_cancel("job-1", Err("job already finished".to_string()));
    assert!(!q.is_cancelling("job-1"));
    assert!(q.is_cancelling("job-2"));
    assert_eq!(q.error(), Some("job already finished"));
    assert_eq!(q.refresh_signal(), 1);
    assert!(q.request_cancel("job-1".to_string()));
    assert_eq!(q.error(), None);
    q.finish_cancel("job-1", Ok(()));
    q.finish_cancel("job-2", Ok(()));
    assert!(!q.is_cancelling("job-1"));
    assert!(!q.is_cancelling("job-2"));
    assert_eq!(q.refresh_signal(), 3);
    q.finish_cancel("never-requested", Ok(()));
    assert_eq!(q.refresh_signal(), 4);
}

#[test]
fn queue_reloads_on_status_events() {
    let mut q = QueueCancelState::new();
    q.on_live_event(&event(Some("status"), None));
    assert_eq!(q.refresh_signal(), 1);
    q.on_live_event(&event(Some("progress"), None));
    assert_eq!(q.refresh_signal(), 1);
}

#[test]
fn integer_inputs_follow_std_parsing() {
    let priority = |text: &str| {
        let mut f = TaskConfigFormState::new();
        f.set_priority_text(text.to_string());
        f.priority
    };
    assert_eq!(priority("42"), 42);
    assert_eq!(priority("+7"), 7);
    assert_eq!(priority("-7"), -7);
    assert_eq!(priority("-2147483648"), i32::MIN);
    assert_eq!(priority("2147483648"), 1);
    assert_eq!(priority(""), 1);
    assert_eq!(priority("-"), 1);
    assert_eq!(priority(" 1"), 1);
    assert_eq!(priority("1_000"), 1);
    let attempts = |text: &str| {
        let mut f = TaskConfigFormState::new();
        f.set_max_attempts_text(text.to_string());
        f.max_attempts
    };
    assert_eq!(attempts("-1"), 3);
    assert_eq!(attempts("-0"), 3);
    assert_eq!(attempts("+0"), 0);
    assert_eq!(attempts("4294967295"), u32::MAX);
    assert_eq!(attempts("4294967296"), 3);
    let delay = |text: &str| {
        let mut f = TaskConfigFormState::new();
        f.set_max_delay_ms_text(text.to_string());
        f.max_delay_ms
    };
    assert_eq!(delay("007"), 7);
    assert_eq!(delay("18446744073709551615"), u64::MAX);
    assert_eq!(delay("18446744073709551616"), 300_000);
    assert_eq!(delay("١٢"), 300_000);
}

#[test]
fn task_config_defaults() {
    let f = TaskConfigFormState::new();
    assert_eq!(f.priority, 1);
    assert_eq!(f.pool, "global");
    assert_eq!(f.max_attempts, 3);
    assert_eq!(f.base_delay_ms, 1000);
    assert_eq!(f.max_delay_ms, 300_000);
    assert_eq!(f.backoff_multiplier_bits, 2.0f64.to_bits());
    assert_eq!(f.backoff_multiplier_bits, DEFAULT_BACKOFF_MULTIPLIER_BITS);
    assert_eq!(f.priority_str, "1");
    assert_eq!(f.max_attempts_str, "3");
    assert_eq!(f.base_delay_ms_str, "1000");
    assert_eq!(f.max_delay_ms_str, "300000");
    assert_eq!(f.backoff_multiplier_str, 2.0f64.to_string());
    assert!(!f.save_pending);
    assert_eq!(f.save_error, None);
    assert_eq!(f.save_button_label(), "Save Changes");
}

#[test]
fn task_config_inputs_keep_last_good_number() {
    let mut f = TaskConfigFormState::new();
    f.set_priority_text("5".to_string());
    assert_eq!(f.priority, 5);
    f.set_priority_text("5x".to_string());
    assert_eq!(f.priority, 5);
    assert_eq!(f.priority_str, "5x");
    f.set_priority_text("-2".to_string());
    assert_eq!(f.priority, -2);
    f.set_max_attempts_text("-1".to_string());
    assert_eq!(f.max_attempts, 3);
    f.set_max_attempts_text("1".to_string());
    assert_eq!(f.max_attempts, 1);
    f.set_base_delay_ms_text("".to_string());
    assert_eq!(f.base_delay_ms, 1000);
    f.set_base_delay_ms_text("250".to_string());
    assert_eq!(f.base_delay_ms, 250);
    f.set_max_delay_ms_text("60000".to_string());
    assert_eq!(f.max_delay_ms, 60_000);
    f.set_backoff_multiplier_text("1.5".to_string(), "1.5".parse::<f64>().ok().map(f64::to_bits));
    assert_eq!(f.backoff_multiplier_bits, 1.5f64.to_bits());
    f.set_backoff_multiplier_text("abc".to_string(), "abc".parse::<f64>().ok().map(f64::to_bits));
    assert_eq!(f.backoff_multiplier_bits, 1.5f64.to_bits());
    assert_eq!(f.backoff_multiplier_str, "abc");
    f.set_pool("gpu".to_string());
    assert_eq!(f.pool, "gpu");
}

#[test]
fn task_config_load_and_save() {
    let config = TaskConfigDto {
        priority: -4,
        pool: "batch".to_string(),
        retry_policy: RetryPolicyDto {
            max_attempts: 5,
            base_delay_ms: 200,
            backoff_multiplier_bits: 3.0f64.to_bits(),
            max_delay_ms: 9_000,
        },
    };
    let mut f = TaskConfigFormState::new();
    f.populate(config.clone(), 3.0f64.to_string());
    assert_eq!(f.priority_str, "-4");
    assert_eq!(f.max_attempts_str, "5");
    assert_eq!(f.base_delay_ms_str, "200");
    assert_eq!(f.max_delay_ms_str, "9000");
    assert_eq!(f.backoff_multiplier_str, "3");
    assert_eq!(f.pool, "batch");

    assert_eq!(f.begin_save(""), None);
    assert!(!f.save_pending);

    let req = f.begin_save("orders.task").unwrap();
    assert!(f.save_pending);
    assert_eq!(f.save_button_label(), "Saving...");
    assert_eq!(req.priority, Some(config.priority));
    assert_eq!(req.pool, Some(config.pool.clone()));
    assert_eq!(req.retry_policy, Some(config.retry_policy));

    assert!(!f.finish_save(Err("forbidden".to_string())));
    assert!(!f.save_pending);
    assert_eq!(f.save_error, Some("forbidden".to_string()));

    f.begin_save("orders.task").unwrap();
    assert_eq!(f.save_error, None);
    assert!(f.finish_save(Ok(())));
    assert!(!f.save_pending);
    assert_eq!(f.save_error, None);
}

#[test]
fn loaded_inputs_read_back_unchanged() {
    let config = TaskConfigDto {
        priority: i32::MIN,
        pool: "global".to_string(),
        retry_policy: RetryPolicyDto {
            max_attempts: u32::MAX,
            base_delay_ms: 0,
            backoff_multiplier_bits: 2.0f64.to_bits(),
            max_delay_ms: u64::MAX,
        },
    };
    let mut f = TaskConfigFormState::new();
    f.populate(config, 2.0f64.to_string());
    let (p, a, b, m) = (f.priority, f.max_attempts, f.base_delay_ms, f.max_delay_ms);
    f.set_priority_text(f.priority_str.clone());
    f.set_max_attempts_text(f.max_attempts_str.clone());
    f.set_base_delay_ms_text(f.base_delay_ms_str.clone());
    f.set_max_delay_ms_text(f.max_delay_ms_str.clone());
    assert_eq!((f.priority, f.max_attempts, f.base_delay_ms, f.max_delay_ms), (p, a, b, m));
    assert_eq!(f.priority_str, i32::MIN.to_string());
}

#[test]
fn answered_cancel_restores_pending_set() {
    let mut q = QueueCancelState::new();
    assert!(q.request_cancel("job-a".to_string()));
    assert!(q.request_cancel("job-b".to_string()));
    q.finish_cancel("job-b", Ok(()));
    assert!(q.is_cancelling("job-a"));
    assert!(!q.is_cancelling("job-b"));
}
