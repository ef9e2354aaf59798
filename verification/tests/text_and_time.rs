use boson_app::labels::{column_test_id, effective_config_label, pool_priority_label, prefixed_id};
use boson_app::dto::TaskSummary;
use boson_app::text::{decimal_i64, decimal_u64, find_char, str_eq, trim_end_len};
use boson_app::timestamps::{format_duration, format_enqueued, format_started_at};

fn task(default_pool: &str, default_priority: i32, pool: &str, priority: i32) -> TaskSummary {
    TaskSummary {
        name: "orders.task".to_string(),
        signature_json: "{\"id\":\"u64\"}".to_string(),
        default_pool: default_pool.to_string(),
        default_priority,
        effective_pool: pool.to_string(),
        effective_priority: priority,
        jobs_queued: 4,
        runs_total: 12,
    }
}

#[test]
fn decimal_rendering_matches_display() {
    assert_eq!(decimal_u64(0), "0");
    assert_eq!(decimal_u64(7), "7");
    assert_eq!(decimal_u64(300_000), "300000");
    assert_eq!(decimal_u64(u64::MAX), u64::MAX.to_string());
    assert_eq!(decimal_i64(-42), "-42");
    assert_eq!(decimal_i64(i64::MIN), i64::MIN.to_string());
    assert_eq!(decimal_i64(i64::MAX), i64::MAX.to_string());
}

#[test]
fn char_search_helpers() {
    assert_eq!(find_char("abc:def", ':'), 3);
    assert_eq!(find_char("abc", ':'), 3);
    assert_eq!(find_char("", ':'), 0);
    assert_eq!(trim_end_len("12ZZ", 'Z'), 2);
    assert_eq!(trim_end_len("ZZ", 'Z'), 0);
    assert_eq!(trim_end_len("1Z2", 'Z'), 3);
    assert!(str_eq("status", "status"));
    assert!(!str_eq("status", "statu"));
    assert!(!str_eq("ß", "s"));
}

#[test]
fn enqueued_time_is_hours_and_minutes() {
    assert_eq!(format_enqueued("2024-05-01T09:30:12.123Z"), "09:30");
    assert_eq!(format_enqueued("2024-05-01T09:30:12Z"), "09:30");
    assert_eq!(format_enqueued("2024-05-01T09:30Z"), "09:30");
    assert_eq!(format_enqueued("2024-05-01T09:30:00+02:00"), "09:30");
    assert_eq!(format_enqueued("T12:34:56"), "12:34");
}

#[test]
fn enqueued_time_falls_back_to_input() {
    assert_eq!(format_enqueued("2024-05-01"), "2024-05-01");
    assert_eq!(format_enqueued("2024-05-01T09"), "2024-05-01T09");
    assert_eq!(format_enqueued(""), "");
    assert_eq!(format_enqueued("T"), "T");
}

#[test]
fn second_t_ends_the_time_segment() {
    assert_eq!(format_enqueued("xT10:20T30:40"), "10:20");
    assert_eq!(format_enqueued("xT10T30:40"), "xT10T30:40");
}

#[test]
fn started_at_matches_enqueued_format() {
    assert_eq!(format_started_at("2025-12-31T23:59:59.999999Z"), "23:59");
    assert_eq!(format_started_at("not a timestamp"), "not a timestamp");
}

#[test]
fn duration_labels() {
    assert_eq!(format_duration(Some(1500)), "1500ms");
    assert_eq!(format_duration(Some(0)), "0ms");
    assert_eq!(format_duration(Some(-5)), "-5ms");
    assert_eq!(format_duration(None), "-");
}

#[test]
fn column_test_ids_are_slugs() {
    assert_eq!(column_test_id("Success Rate"), "boson-help-col-success-rate");
    assert_eq!(column_test_id("Pool"), "boson-help-col-pool");
    assert_eq!(column_test_id("A B  C"), "boson-help-col-a-b--c");
    assert_eq!(column_test_id("Ünï Code"), "boson-help-col-Ünï-code");
    assert_eq!(column_test_id(""), "boson-help-col-");
}

#[test]
fn pool_priority_labels() {
    assert_eq!(pool_priority_label("global", 1), "pool=\"global\", priority=1");
    assert_eq!(pool_priority_label("", -3), "pool=\"\", priority=-3");
}

#[test]
fn effective_label_marks_overrides() {
    assert_eq!(
        effective_config_label(&task("global", 1, "global", 1)),
        "pool=\"global\", priority=1 (using defaults)"
    );
    assert_eq!(
        effective_config_label(&task("global", 1, "gpu", 1)),
        "pool=\"gpu\", priority=1 (UI override)"
    );
    assert_eq!(
        effective_config_label(&task("global", 1, "global", 5)),
        "pool=\"global\", priority=5 (UI override)"
    );
}

#[test]
fn prefixed_ids() {
    assert_eq!(prefixed_id("job-card-", "job-1"), "job-card-job-1");
    assert_eq!(prefixed_id("", ""), "");
}
