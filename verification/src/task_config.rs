//! The task configuration form: its numeric fields, the text the operator types into
//! them, loading a stored configuration, and the save workflow.
use vstd::prelude::*;
use vstd::string::*;

use crate::dto::{RetryPolicyDto, TaskConfigDto, UpdateTaskConfigRequest};
use crate::parse::{
    decimal_int_reads_back, decimal_nat_reads_back, parse_i32, parse_u32, parse_u64, parsed_i32,
    parsed_u32, parsed_u64,
};
use crate::text::{decimal_i64, decimal_int, decimal_nat, decimal_u64};

verus! {

/// IEEE-754 bit pattern of the default backoff multiplier, `2.0`.
pub const DEFAULT_BACKOFF_MULTIPLIER_BITS: u64 = 0x4000_0000_0000_0000;

/// Field values and text inputs of the task configuration form.
///
/// Each numeric field has a text input; typing text that parses updates the number,
/// typing text that does not parse leaves the last good number in place. The backoff
/// multiplier is a floating-point value: its text is parsed outside the library and its
/// value is kept as an IEEE-754 bit pattern.
#[derive(Debug)]
pub struct TaskConfigFormState {
    pub priority: i32,
    pub pool: String,
    pub max_attempts: u32,
    pub base_delay_ms: u64,
    pub backoff_multiplier_bits: u64,
    pub max_delay_ms: u64,
    pub priority_str: String,
    pub max_attempts_str: String,
    pub base_delay_ms_str: String,
    pub max_delay_ms_str: String,
    pub backoff_multiplier_str: String,
    pub save_pending: bool,
    pub save_error: Option<String>,
}

/// The number a text input leaves in its field: the parsed value, or the previous one.
pub open spec fn parsed_or(parsed: Option<int>, previous: int) -> int {
    match parsed {
        Some(v) => v,
        None => previous,
    }
}

/// The form's fields hold exactly the given configuration, each text input showing its
/// number in decimal.
pub open spec fn shows_config(s: TaskConfigFormState, c: TaskConfigDto) -> bool {
    &&& s.priority == c.priority
    &&& s.pool@ == c.pool@
    &&& s.max_attempts == c.retry_policy.max_attempts
    &&& s.base_delay_ms == c.retry_policy.base_delay_ms
    &&& s.backoff_multiplier_bits == c.retry_policy.backoff_multiplier_bits
    &&& s.max_delay_ms == c.retry_policy.max_delay_ms
    &&& s.priority_str@ == decimal_int(c.priority as int)
    &&& s.max_attempts_str@ == decimal_nat(c.retry_policy.max_attempts as nat)
    &&& s.base_delay_ms_str@ == decimal_nat(c.retry_policy.base_delay_ms as nat)
    &&& s.max_delay_ms_str@ == decimal_nat(c.retry_policy.max_delay_ms as nat)
}

/// The update request carries every field of the form.
pub open spec fn request_of_form(s: TaskConfigFormState, r: UpdateTaskConfigRequest) -> bool {
    &&& r.priority == Some(s.priority)
    &&& (r.pool matches Some(p) && p@ == s.pool@)
    &&& r.retry_policy == Some(
        RetryPolicyDto {
            max_attempts: s.max_attempts,
            base_delay_ms: s.base_delay_ms,
            backoff_multiplier_bits: s.backoff_multiplier_bits,
            max_delay_ms: s.max_delay_ms,
        },
    )
}

impl TaskConfigFormState {
    /// Defaults before the stored configuration loads: priority 1, pool `global`,
    /// 3 attempts, 1000 ms initial delay, backoff 2, 300000 ms maximum delay.
    pub fn new() -> (s: Self)
        ensures
            s.priority == 1,
            s.pool@ == "global"@,
            s.max_attempts == 3,
            s.base_delay_ms == 1000,
            s.backoff_multiplier_bits == DEFAULT_BACKOFF_MULTIPLIER_BITS,
            s.max_delay_ms == 300_000,
            s.priority_str@ == decimal_int(1),
            s.max_attempts_str@ == decimal_nat(3),
            s.base_delay_ms_str@ == decimal_nat(1000),
            s.max_delay_ms_str@ == decimal_nat(300_000),
            s.backoff_multiplier_str@ == "2"@,
            !s.save_pending,
            s.save_error is None,
    {
        TaskConfigFormState {
            priority: 1,
            pool: "global".to_owned(),
            max_attempts: 3,
            base_delay_ms: 1000,
            backoff_multiplier_bits: DEFAULT_BACKOFF_MULTIPLIER_BITS,
            max_delay_ms: 300_000,
            priority_str: decimal_i64(1),
            max_attempts_str: decimal_u64(3),
            base_delay_ms_str: decimal_u64(1000),
            max_delay_ms_str: decimal_u64(300_000),
            backoff_multiplier_str: "2".to_owned(),
            save_pending: false,
            save_error: None,
        }
    }

    /// The operator edits the priority input.
    pub fn set_priority_text(&mut self, text: String)
        ensures
            *final(self) == (TaskConfigFormState {
                priority_str: text,
                priority: parsed_or(parsed_i32(text@), old(self).priority as int) as i32,
                ..*old(self)
            }),
    {
        match parse_i32(text.as_str()) {
            Some(v) => {
                self.priority = v;
            },
            None => {},
        }
        self.priority_str = text;
    }

    /// The operator edits the max-attempts input.
    pub fn set_max_attempts_text(&mut self, text: String)
        ensures
            *final(self) == (TaskConfigFormState {
                max_attempts_str: text,
                max_attempts: parsed_or(parsed_u32(text@), old(self).max_attempts as int) as u32,
                ..*old(self)
            }),
    {
        match parse_u32(text.as_str()) {
            Some(v) => {
                self.max_attempts = v;
            },
            None => {},
        }
        self.max_attempts_str = text;
    }

    /// The operator edits the initial-delay input.
    pub fn set_base_delay_ms_text(&mut self, text: String)
        ensures
            *final(self) == (TaskConfigFormState {
                base_delay_ms_str: text,
                base_delay_ms: parsed_or(parsed_u64(text@), old(self).base_delay_ms as int) as u64,
                ..*old(self)
            }),
    {
        match parse_u64(text.as_str()) {
            Some(v) => {
                self.base_delay_ms = v;
            },
            None => {},
        }
        self.base_delay_ms_str = text;
    }

    /// The operator edits the max-delay input.
    pub fn set_max_delay_ms_text(&mut self, text: String)
        ensures
            *final(self) == (TaskConfigFormState {
                max_delay_ms_str: text,
                max_delay_ms: parsed_or(parsed_u64(text@), old(self).max_delay_ms as int) as u64,
                ..*old(self)
            }),
    {
        match parse_u64(text.as_str()) {
            Some(v) => {
                self.max_delay_ms = v;
            },
            None => {},
        }
        self.max_delay_ms_str = text;
    }

    /// The operator edits the backoff-multiplier input; `parsed_bits` is the bit pattern
    /// of the number the text denotes, `None` when it is not a number.
    pub fn set_backoff_multiplier_text(&mut self, text: String, parsed_bits: Option<u64>)
        ensures
            *final(self) == (TaskConfigFormState {
                backoff_multiplier_str: text,
                backoff_multiplier_bits: match parsed_bits {
                    Some(b) => b,
                    None => old(self).backoff_multiplier_bits,
                },
                ..*old(self)
            }),
    {
        match parsed_bits {
            Some(b) => {
                self.backoff_multiplier_bits = b;
            },
            None => {},
        }
        self.backoff_multiplier_str = text;
    }

    /// The operator picks or types a pool.
    pub fn set_pool(&mut self, pool: String)
        ensures
            *final(self) == (TaskConfigFormState { pool: pool, ..*old(self) }),
    {
        self.pool = pool;
    }

    /// The stored configuration arrived: every field and input shows it.
    /// `backoff_multiplier_text` is the rendering of the multiplier.
    pub fn populate(&mut self, config: TaskConfigDto, backoff_multiplier_text: String)
        ensures
            shows_config(*final(self), config),
            final(self).backoff_multiplier_str == backoff_multiplier_text,
            final(self).save_pending == old(self).save_pending,
            final(self).save_error == old(self).save_error,
    {
        self.priority = config.priority;
        self.priority_str = decimal_i64(config.priority as i64);
        self.pool = config.pool;
        self.max_attempts = config.retry_policy.max_attempts;
        self.max_attempts_str = decimal_u64(config.retry_policy.max_attempts as u64);
        self.base_delay_ms = config.retry_policy.base_delay_ms;
        self.base_delay_ms_str = decimal_u64(config.retry_policy.base_delay_ms);
        self.backoff_multiplier_bits = config.retry_policy.backoff_multiplier_bits;
        self.backoff_multiplier_str = backoff_multiplier_text;
        self.max_delay_ms = config.retry_policy.max_delay_ms;
        self.max_delay_ms_str = decimal_u64(config.retry_policy.max_delay_ms);
    }

    /// The operator presses save. Without a task name nothing happens; otherwise the
    /// form is marked as saving, the last error is cleared, and the request to send is
    /// returned.
    pub fn begin_save(&mut self, task_name: &str) -> (r: Option<UpdateTaskConfigRequest>)
        ensures
            task_name@.len() == 0 ==> r is None && *final(self) == *old(self),
            task_name@.len() > 0 ==> (r matches Some(req) && request_of_form(*old(self), req))
                && *final(self) == (TaskConfigFormState {
                save_pending: true,
                save_error: None,
                ..*old(self)
            }),
    {
        if task_name.unicode_len() == 0 {
            return None;
        }
        self.save_pending = true;
        self.save_error = None;
        Some(
            UpdateTaskConfigRequest {
                priority: Some(self.priority),
                pool: Some(self.pool.clone()),
                retry_policy: Some(
                    RetryPolicyDto {
                        max_attempts: self.max_attempts,
                        base_delay_ms: self.base_delay_ms,
                        backoff_multiplier_bits: self.backoff_multiplier_bits,
                        max_delay_ms: self.max_delay_ms,
                    },
                ),
            },
        )
    }

    /// The save answer arrived. Returns whether the stored configuration is to be
    /// reloaded (after a successful save); a failed save shows its error instead.
    pub fn finish_save(&mut self, outcome: Result<(), String>) -> (reload: bool)
        ensures
            reload == outcome is Ok,
            *final(self) == (TaskConfigFormState {
                save_pending: false,
                save_error: match outcome {
                    Ok(()) => old(self).save_error,
                    Err(e) => Some(e),
                },
                ..*old(self)
            }),
    {
        self.save_pending = false;
        match outcome {
            Ok(()) => true,
            Err(e) => {
                self.save_error = Some(e);
                false
            },
        }
    }

    /// Label of the save button.
    pub fn save_button_label(&self) -> (r: &'static str)
        ensures
            r@ == if self.save_pending {
                "Saving..."@
            } else {
                "Save Changes"@
            },
    {
        if self.save_pending {
            "Saving..."
        } else {
            "Save Changes"
        }
    }
}

/// Saving a form that shows a stored configuration sends that configuration back.
pub proof fn saved_request_matches_loaded_config(
    s: TaskConfigFormState,
    c: TaskConfigDto,
    r: UpdateTaskConfigRequest,
)
    requires
        shows_config(s, c),
        request_of_form(s, r),
    ensures
        r.priority == Some(c.priority),
        r.pool matches Some(p) && p@ == c.pool@,
        r.retry_policy == Some(c.retry_policy),
{
}

/// The text a loaded configuration puts into each numeric input parses back to the
/// number in the field, so leaving an input untouched never changes its value.
pub proof fn loaded_inputs_parse_back(s: TaskConfigFormState, c: TaskConfigDto)
    requires
        shows_config(s, c),
    ensures
        parsed_i32(s.priority_str@) == Some(s.priority as int),
        parsed_u32(s.max_attempts_str@) == Some(s.max_attempts as int),
        parsed_u64(s.base_delay_ms_str@) == Some(s.base_delay_ms as int),
        parsed_u64(s.max_delay_ms_str@) == Some(s.max_delay_ms as int),
{
    decimal_int_reads_back(c.priority as int);
    decimal_nat_reads_back(c.retry_policy.max_attempts as nat);
    decimal_nat_reads_back(c.retry_policy.base_delay_ms as nat);
    decimal_nat_reads_back(c.retry_policy.max_delay_ms as nat);
}

} // verus!
