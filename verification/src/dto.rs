//! Plain data carried between the coordinator and the console pages.
use vstd::prelude::*;

use crate::status::{JobStatusDto, RunStatusDto};

verus! {

/// One queued or running job as listed on the queue page.
#[derive(Clone, Debug, PartialEq)]
pub struct JobSummary {
    pub job_id: String,
    pub task_name: String,
    pub status: JobStatusDto,
    pub pool: String,
    pub priority: i32,
    pub created_at: String,
}

/// One run attempt as listed on the runs page and shown on the run detail page.
#[derive(Clone, Debug, PartialEq)]
pub struct RunSummary {
    pub run_id: String,
    pub job_id: String,
    pub task_name: String,
    pub status: RunStatusDto,
    pub attempt: u32,
    pub started_at: String,
    pub finished_at: Option<String>,
    pub duration_ms: Option<i64>,
    pub error_message: Option<String>,
}

/// One registered task with its routing defaults, overrides and counters.
///
/// The success rate is a floating-point percentage; it is formatted outside the
/// verified library and handed in as text where a label needs it.
#[derive(Clone, Debug, PartialEq)]
pub struct TaskSummary {
    pub name: String,
    pub signature_json: String,
    pub default_pool: String,
    pub default_priority: i32,
    pub effective_pool: String,
    pub effective_priority: i32,
    pub jobs_queued: u64,
    pub runs_total: u64,
}

/// Retry policy of a task. The backoff multiplier is a floating-point value and is
/// carried as its IEEE-754 bit pattern.
#[derive(Clone, Copy, Debug, PartialEq, Eq, Structural)]
pub struct RetryPolicyDto {
    pub max_attempts: u32,
    pub base_delay_ms: u64,
    pub backoff_multiplier_bits: u64,
    pub max_delay_ms: u64,
}

/// Stored configuration of a task.
#[derive(Clone, Debug, PartialEq)]
pub struct TaskConfigDto {
    pub priority: i32,
    pub pool: String,
    pub retry_policy: RetryPolicyDto,
}

/// Configuration overrides sent when an operator saves the task config form.
#[derive(Clone, Debug, PartialEq)]
pub struct UpdateTaskConfigRequest {
    pub priority: Option<i32>,
    pub pool: Option<String>,
    pub retry_policy: Option<RetryPolicyDto>,
}

/// Dashboard counters.
#[derive(Clone, Copy, Debug, PartialEq, Eq, Structural)]
pub struct DashboardStats {
    pub task_count: u64,
    pub jobs_queued: u64,
    pub jobs_running: u64,
    pub runs_today: u64,
}

} // verus!
