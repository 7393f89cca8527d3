//! Records exchanged with the audit store, and the store's own decisions:
//! state names, decision names, sequence numbers, cache reuse and lock
//! staleness.
use vstd::prelude::*;

use crate::policy::RuntimeDecisionValue;
use crate::state::TaskStateValue;
use crate::text::str_eq;

verus! {

#[derive(Debug, Clone, PartialEq, Eq)]
pub struct AuditEventInput {
    pub task_id: String,
    pub event_type: String,
    pub summary: String,
    pub payload_json: String,
}

#[derive(Debug, Clone, Copy, PartialEq, Eq, Structural)]
pub struct AuditEventRecord {
    pub id: i64,
    pub task_sequence: i64,
}

#[derive(Debug, Clone, PartialEq, Eq)]
pub struct RuntimeDecisionRecord {
    pub task_id: String,
    pub request_id: Option<String>,
    pub operation: String,
    pub decision: RuntimeDecisionValue,
    pub reasons: Vec<String>,
    pub command_hash: Option<String>,
}

#[derive(Debug, Clone, PartialEq, Eq)]
pub struct SchemaValidationRecord {
    pub task_id: String,
    pub request_id: Option<String>,
    pub expected_schema: String,
    pub valid: bool,
    pub errors_json: String,
}

#[derive(Debug, Clone, PartialEq, Eq)]
pub struct RuntimeStepRecord {
    pub id: i64,
    pub task_id: String,
    pub request_id: Option<String>,
    pub operation: String,
    pub state: String,
}

#[derive(Debug, Clone, PartialEq, Eq)]
pub struct RuntimeEventRecord {
    pub id: i64,
    pub task_id: String,
    pub request_id: Option<String>,
    pub step_id: Option<i64>,
    pub task_sequence: i64,
    pub event_type: String,
    pub payload_json: String,
}

#[derive(Debug, Clone, PartialEq, Eq)]
pub struct CacheMetadata {
    pub cache_key: String,
    pub payload_hash: String,
}

/// The name a task state is stored under.
pub open spec fn state_name(v: TaskStateValue) -> Seq<char> {
    match v {
        TaskStateValue::Queued => "queued"@,
        TaskStateValue::Running => "running"@,
        TaskStateValue::Blocked => "blocked"@,
        TaskStateValue::WaitingApproval => "waiting_approval"@,
        TaskStateValue::Retrying => "retrying"@,
        TaskStateValue::PartiallyCompleted => "partially_completed"@,
        TaskStateValue::Completed => "completed"@,
        TaskStateValue::Failed => "failed"@,
        TaskStateValue::Cancelled => "cancelled"@,
    }
}

/// The name a decision is stored under.
pub open spec fn decision_name(v: RuntimeDecisionValue) -> Seq<char> {
    match v {
        RuntimeDecisionValue::Allow => "allow"@,
        RuntimeDecisionValue::Deny => "deny"@,
        RuntimeDecisionValue::RequireApproval => "require_approval"@,
        RuntimeDecisionValue::RetryableError => "retryable_error"@,
        RuntimeDecisionValue::FatalError => "fatal_error"@,
    }
}

pub fn task_state_to_str(value: TaskStateValue) -> (r: &'static str)
    ensures
        r@ == state_name(value),
{
    match value {
        TaskStateValue::Queued => "queued",
        TaskStateValue::Running => "running",
        TaskStateValue::Blocked => "blocked",
        TaskStateValue::WaitingApproval => "waiting_approval",
        TaskStateValue::Retrying => "retrying",
        TaskStateValue::PartiallyCompleted => "partially_completed",
        TaskStateValue::Completed => "completed",
        TaskStateValue::Failed => "failed",
        TaskStateValue::Cancelled => "cancelled",
    }
}

/// The state stored under `name`, or `None` for a name no state has.
pub fn task_state_from_str(name: &str) -> (r: Option<TaskStateValue>)
    ensures
        r matches Some(v) ==> state_name(v) == name@,
        r is None ==> forall|v: TaskStateValue| state_name(v) != name@,
{
    let all = [
        TaskStateValue::Queued,
        TaskStateValue::Running,
        TaskStateValue::Blocked,
        TaskStateValue::WaitingApproval,
        TaskStateValue::Retrying,
        TaskStateValue::PartiallyCompleted,
        TaskStateValue::Completed,
        TaskStateValue::Failed,
        TaskStateValue::Cancelled,
    ];
    let mut i: usize = 0;
    while i < 9
        invariant
            i <= 9,
            all@ == seq![
                TaskStateValue::Queued,
                TaskStateValue::Running,
                TaskStateValue::Blocked,
                TaskStateValue::WaitingApproval,
                TaskStateValue::Retrying,
                TaskStateValue::PartiallyCompleted,
                TaskStateValue::Completed,
                TaskStateValue::Failed,
                TaskStateValue::Cancelled,
            ],
            forall|j: int| 0 <= j < i ==> state_name(all@[j]) != name@,
        decreases 9 - i,
    {
        let v = all[i];
        if str_eq(task_state_to_str(v), name) {
            return Some(v);
        }
        i = i + 1;
    }
    proof {
        assert forall|v: TaskStateValue| state_name(v) != name@ by {
            match v {
                TaskStateValue::Queued => assert(all@[0] == v),
                TaskStateValue::Running => assert(all@[1] == v),
                TaskStateValue::Blocked => assert(all@[2] == v),
                TaskStateValue::WaitingApproval => assert(all@[3] == v),
                TaskStateValue::Retrying => assert(all@[4] == v),
                TaskStateValue::PartiallyCompleted => assert(all@[5] == v),
                TaskStateValue::Completed => assert(all@[6] == v),
                TaskStateValue::Failed => assert(all@[7] == v),
                TaskStateValue::Cancelled => assert(all@[8] == v),
            }
        }
    }
    None
}

/// State names are distinct, so a stored name reads back as the state
/// that was stored.
pub proof fn lemma_state_names_round_trip(v: TaskStateValue, w: TaskStateValue)
    ensures
        state_name(v) == state_name(w) ==> v == w,
{
    reveal_strlit("queued");
    reveal_strlit("running");
    reveal_strlit("blocked");
    reveal_strlit("waiting_approval");
    reveal_strlit("retrying");
    reveal_strlit("partially_completed");
    reveal_strlit("completed");
    reveal_strlit("failed");
    reveal_strlit("cancelled");
    if state_name(v) == state_name(w) && v != w {
        assert(state_name(v).len() == state_name(w).len());
        assert(state_name(v)[0] == state_name(w)[0]);
        assert(state_name(v)[1] == state_name(w)[1]);
    }
}

pub fn runtime_decision_to_str(value: RuntimeDecisionValue) -> (r: &'static str)
    ensures
        r@ == decision_name(value),
{
    match value {
        RuntimeDecisionValue::Allow => "allow",
        RuntimeDecisionValue::Deny => "deny",
        RuntimeDecisionValue::RequireApproval => "require_approval",
        RuntimeDecisionValue::RetryableError => "retryable_error",
        RuntimeDecisionValue::FatalError => "fatal_error",
    }
}

/// The next per-task sequence number after the largest one stored (0 when
/// none is).
pub fn next_sequence(current_max: i64) -> (r: i64)
    requires
        current_max < i64::MAX,
    ensures
        r == current_max + 1,
{
    current_max + 1
}

/// Whether a cached entry may be reused for a payload with
/// `actual_payload_hash`, and whether the entry must be marked corrupted:
/// no entry, no reuse; a hash mismatch marks corruption and refuses; a
/// matching hash reuses only when reuse is enabled.
pub fn cache_reuse_decision(
    stored: &Option<(String, i64)>,
    actual_payload_hash: &str,
) -> (r: (bool, bool))
    ensures
        match stored {
            None => r == (false, false),
            Some((expected, reuse_enabled)) => if expected@ != actual_payload_hash@ {
                r == (false, true)
            } else {
                r == (*reuse_enabled == 1, false)
            },
        },
{
    match stored {
        None => (false, false),
        Some((expected, reuse_enabled)) => {
            if !str_eq(expected.as_str(), actual_payload_hash) {
                (false, true)
            } else {
                (*reuse_enabled == 1, false)
            }
        },
    }
}

/// Locks acquired at or before this instant are stale.
pub fn stale_cutoff(now_ms: i64, stale_after_ms: i64) -> (r: i64)
    requires
        i64::MIN <= now_ms - stale_after_ms <= i64::MAX,
    ensures
        r == now_ms - stale_after_ms,
{
    now_ms - stale_after_ms
}

/// The names decisions are stored under, each decision its own:
/// `allow`, `deny`, `require_approval`, `retryable_error`, `fatal_error`.
pub proof fn lemma_decision_names(a: RuntimeDecisionValue, b: RuntimeDecisionValue)
    ensures
        decision_name(RuntimeDecisionValue::Allow) == "allow"@,
        decision_name(RuntimeDecisionValue::Deny) == "deny"@,
        decision_name(RuntimeDecisionValue::RequireApproval) == "require_approval"@,
        decision_name(RuntimeDecisionValue::RetryableError) == "retryable_error"@,
        decision_name(RuntimeDecisionValue::FatalError) == "fatal_error"@,
        decision_name(a) == decision_name(b) ==> a == b,
{
    reveal_strlit("allow");
    reveal_strlit("deny");
    reveal_strlit("require_approval");
    reveal_strlit("retryable_error");
    reveal_strlit("fatal_error");
    if decision_name(a) == decision_name(b) && a != b {
        assert(decision_name(a).len() == decision_name(b).len());
        assert(decision_name(a)[0] == decision_name(b)[0]);
    }
}

} // verus!
