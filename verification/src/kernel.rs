//! Runtime gate: merges the state and policy verdicts on an operation
//! request, and prepares what the audit store records for decisions and
//! task outcomes. The store itself is driven by the caller, which hands
//! back what it loaded and reports what failed.
use vstd::prelude::*;

use crate::artifact::ArtifactPolicyError;
use crate::json::{json_quote, optional_string, quote, string_array, write_optional_string, write_string_array};
use crate::policy::{
    evaluate_spec, strings_view, PolicyEngine, PolicyEngineView, ResourceProbes,
    RuntimeDecisionValue, RuntimeOperationRequest, ToolRegistry,
};
use crate::state::{
    default_timeout, outcome_view, terminal_value, transition_spec, value_name, TaskState, TaskStateError,
    TaskStateValue, TaskStateView,
};
use crate::storage::{decision_name, runtime_decision_to_str, AuditEventInput, RuntimeDecisionRecord};
use crate::text::{concat2, concat3, opt_view, owned, push_char};

verus! {

#[derive(Debug, Clone, PartialEq, Eq)]
pub struct RuntimeConfig {
    pub repo_root: String,
}

#[derive(Debug, Clone, Copy, PartialEq, Eq, Structural)]
pub struct EngineResults {
    pub state: RuntimeDecisionValue,
    pub policy: RuntimeDecisionValue,
}

pub fn engine_results(state: RuntimeDecisionValue, policy: RuntimeDecisionValue) -> (r:
    EngineResults)
    ensures
        r == (EngineResults { state, policy }),
{
    EngineResults { state, policy }
}

#[derive(Debug, Clone, PartialEq, Eq)]
pub struct RuntimeDecision {
    pub task_id: String,
    pub request_id: Option<String>,
    pub operation: String,
    pub decision: RuntimeDecisionValue,
    pub engine_results: EngineResults,
    pub reasons: Vec<String>,
    pub audit_event_id: Option<i64>,
}

#[derive(Debug, Clone, PartialEq, Eq)]
pub struct AuditEvent {
    pub task_id: String,
    pub event_type: String,
    pub summary: String,
    pub payload_json: String,
}

/// What loading a task's stored state gave: the state, no stored state,
/// or a store failure with its message.
#[derive(Debug, Clone)]
pub enum StateLoad {
    Found(TaskState),
    NotFound,
    Failed(String),
}

/// Why the kernel could not be built or an outcome could not be recorded.
#[derive(Debug, Clone, PartialEq, Eq)]
pub enum RuntimeError {
    Artifact(ArtifactPolicyError),
    InvalidTaskState(TaskStateError),
}

/// Decision precedence: a policy denial wins outright; then any fatal
/// error, any denial, any approval request, any retryable error, in that
/// order; otherwise allow.
pub open spec fn merge_spec(r: EngineResults) -> RuntimeDecisionValue {
    let either = |v: RuntimeDecisionValue| r.state == v || r.policy == v;
    if r.policy == RuntimeDecisionValue::Deny {
        RuntimeDecisionValue::Deny
    } else if either(RuntimeDecisionValue::FatalError) {
        RuntimeDecisionValue::FatalError
    } else if either(RuntimeDecisionValue::Deny) {
        RuntimeDecisionValue::Deny
    } else if either(RuntimeDecisionValue::RequireApproval) {
        RuntimeDecisionValue::RequireApproval
    } else if either(RuntimeDecisionValue::RetryableError) {
        RuntimeDecisionValue::RetryableError
    } else {
        RuntimeDecisionValue::Allow
    }
}

/// The reason given for a task found in a terminal state.
pub open spec fn terminal_reason(task_id: Seq<char>, v: TaskStateValue) -> Seq<char> {
    "task "@ + task_id + " is in terminal state "@ + value_name(v)
}

/// The state verdict for a load: a terminal task is denied, a live one
/// allowed, a missing one allowed as a fresh `Queued` task, and a store
/// failure is fatal.
pub open spec fn state_verdict(task_id: Seq<char>, load: StateLoad) -> (
    RuntimeDecisionValue,
    Seq<Seq<char>>,
) {
    match load {
        StateLoad::Found(s) => if terminal_value(s@.value) {
            (RuntimeDecisionValue::Deny, seq![terminal_reason(task_id, s@.value)])
        } else {
            (RuntimeDecisionValue::Allow, Seq::empty())
        },
        StateLoad::NotFound => (RuntimeDecisionValue::Allow, Seq::empty()),
        StateLoad::Failed(msg) => (
            RuntimeDecisionValue::FatalError,
            seq!["state load failed: "@ + msg@],
        ),
    }
}

/// The state the kernel works on: the loaded one, else a fresh task.
pub open spec fn current_state_spec(task_id: Seq<char>, load: StateLoad) -> Option<TaskStateView> {
    match load {
        StateLoad::Found(s) => Some(s@),
        _ => None,
    }
}

/// A fresh `Queued` task with default settings.
pub open spec fn is_fresh_task(s: TaskStateView, task_id: Seq<char>) -> bool {
    s == TaskStateView::fresh(task_id, TaskStateValue::Queued, 0, default_timeout())
}

/// The runtime gate: the policy engine plus the decision logic around the
/// audit store.
#[derive(Debug, Clone)]
pub struct RuntimeKernel {
    policy_engine: PolicyEngine,
}

impl RuntimeKernel {
    pub closed spec fn engine(&self) -> PolicyEngineView {
        self.policy_engine@
    }

    pub closed spec fn wf(&self) -> bool {
        self.policy_engine.wf()
    }

    /// A kernel whose policy engine knows the built-in diff review tool.
    pub fn initialize(repo_root: &str, repo_root_real: Option<String>) -> (r: Result<
        Self,
        RuntimeError,
    >)
        ensures
            repo_root_real is None ==> r == Err::<Self, RuntimeError>(
                RuntimeError::Artifact(ArtifactPolicyError::InvalidRepoRoot),
            ),
            repo_root_real is Some ==> (r matches Ok(k) && k.wf() && k.engine().operations.len()
                == 2),
    {
        Self::initialize_with_tool_registry(repo_root, repo_root_real, ToolRegistry::review_diff())
    }

    /// A kernel whose policy engine is built from `tool_registry`.
    pub fn initialize_with_tool_registry(
        repo_root: &str,
        repo_root_real: Option<String>,
        tool_registry: ToolRegistry,
    ) -> (r: Result<Self, RuntimeError>)
        requires
            tool_registry.wf(),
        ensures
            repo_root_real is None ==> r == Err::<Self, RuntimeError>(
                RuntimeError::Artifact(ArtifactPolicyError::InvalidRepoRoot),
            ),
            repo_root_real is Some ==> (r matches Ok(k) && k.wf() && k.engine().operations.len()
                == tool_registry@.len()),
    {
        match PolicyEngine::from_tool_registry(repo_root, repo_root_real, tool_registry) {
            Ok(policy_engine) => Ok(RuntimeKernel { policy_engine }),
            Err(e) => Err(RuntimeError::Artifact(e)),
        }
    }

    pub fn policy_engine(&self) -> (r: &PolicyEngine)
        ensures
            r@ == self.engine(),
            self.wf() ==> r.wf(),
    {
        &self.policy_engine
    }

    /// Merges the state and policy verdicts; see `merge_spec`.
    pub fn merge_decisions(results: EngineResults) -> (r: RuntimeDecisionValue)
        ensures
            r == merge_spec(results),
    {
        let either = |v: RuntimeDecisionValue| -> (b: bool)
            ensures
                b == (results.state == v || results.policy == v),
            { results.state == v || results.policy == v };
        if results.policy == RuntimeDecisionValue::Deny {
            return RuntimeDecisionValue::Deny;
        }
        if either(RuntimeDecisionValue::FatalError) {
            return RuntimeDecisionValue::FatalError;
        }
        if either(RuntimeDecisionValue::Deny) {
            return RuntimeDecisionValue::Deny;
        }
        if either(RuntimeDecisionValue::RequireApproval) {
            return RuntimeDecisionValue::RequireApproval;
        }
        if either(RuntimeDecisionValue::RetryableError) {
            return RuntimeDecisionValue::RetryableError;
        }
        RuntimeDecisionValue::Allow
    }

    /// The state verdict, its reasons and the state to carry on with; see
    /// `state_verdict`.
    pub fn evaluate_state(task_id: &str, load: StateLoad) -> (r: (
        RuntimeDecisionValue,
        Vec<String>,
        TaskState,
    ))
        ensures
            (r.0, strings_view(r.1@)) == state_verdict(task_id@, load),
            match current_state_spec(task_id@, load) {
                Some(s) => r.2@ == s,
                None => is_fresh_task(r.2@, task_id@),
            },
    {
        match load {
            StateLoad::Found(state) => {
                let v = state.value();
                if v.is_terminal() {
                    let mut reasons: Vec<String> = Vec::new();
                    let mut reason = concat3("task ", task_id, " is in terminal state ");
                    reason.append(v.name());
                    reasons.push(reason);
                    proof {
                        assert(strings_view(reasons@) =~= seq![terminal_reason(task_id@, v)]);
                    }
                    (RuntimeDecisionValue::Deny, reasons, state)
                } else {
                    let reasons: Vec<String> = Vec::new();
                    assert(strings_view(reasons@) =~= Seq::<Seq<char>>::empty());
                    (RuntimeDecisionValue::Allow, reasons, state)
                }
            },
            StateLoad::NotFound => {
                let reasons: Vec<String> = Vec::new();
                assert(strings_view(reasons@) =~= Seq::<Seq<char>>::empty());
                (RuntimeDecisionValue::Allow, reasons, TaskState::new(task_id))
            },
            StateLoad::Failed(msg) => {
                let mut reasons: Vec<String> = Vec::new();
                reasons.push(concat2("state load failed: ", msg.as_str()));
                proof {
                    assert(strings_view(reasons@) =~= seq!["state load failed: "@ + msg@]);
                }
                (RuntimeDecisionValue::FatalError, reasons, TaskState::new(task_id))
            },
        }
    }

    /// The decision on `request` before anything is stored: the state and
    /// policy verdicts, merged, with the state reasons before the policy
    /// reasons; and the state to carry on with.
    pub fn decide(
        &self,
        request: &RuntimeOperationRequest,
        load: StateLoad,
        probes: &ResourceProbes,
    ) -> (r: (RuntimeDecision, TaskState))
        requires
            self.wf(),
            probes.read@.len() == request.resources.read_paths@.len(),
            probes.write@.len() == request.resources.write_paths@.len(),
        ensures
            ({
                let sv = state_verdict(request.task_id@, load);
                let pv = evaluate_spec(self.engine(), *request, *probes);
                let er = EngineResults { state: sv.0, policy: pv.0 };
                &&& r.0.task_id@ == request.task_id@
                &&& r.0.request_id == request.request_id
                &&& r.0.operation@ == request.operation@
                &&& r.0.engine_results == er
                &&& r.0.decision == merge_spec(er)
                &&& strings_view(r.0.reasons@) == sv.1 + pv.1
                &&& r.0.audit_event_id is None
            }),
            match current_state_spec(request.task_id@, load) {
                Some(s) => r.1@ == s,
                None => is_fresh_task(r.1@, request.task_id@),
            },
    {
        let (state_decision, state_reasons, current) = Self::evaluate_state(
            request.task_id.as_str(),
            load,
        );
        let policy_result = self.policy_engine.evaluate(request, probes);
        let results = EngineResults { state: state_decision, policy: policy_result.decision };
        let mut reasons = state_reasons;
        let mut policy_reasons = policy_result.reasons;
        let ghost sr = strings_view(reasons@);
        let ghost pr = strings_view(policy_reasons@);
        reasons.append(&mut policy_reasons);
        assert(strings_view(reasons@) =~= sr + pr);
        let request_id = match &request.request_id {
            Some(id) => Some(id.clone()),
            None => None,
        };
        let decision = RuntimeDecision {
            task_id: request.task_id.clone(),
            request_id,
            operation: request.operation.clone(),
            decision: Self::merge_decisions(results),
            engine_results: results,
            reasons,
            audit_event_id: None,
        };
        (decision, current)
    }

    /// A storage failure makes the decision fatal and adds the failure as
    /// the last reason.
    pub fn record_storage_error(decision: RuntimeDecision, message: &str) -> (r: RuntimeDecision)
        ensures
            r.decision == RuntimeDecisionValue::FatalError,
            strings_view(r.reasons@) == strings_view(decision.reasons@).push(
                "storage error: "@ + message@,
            ),
            r.task_id == decision.task_id,
            r.request_id == decision.request_id,
            r.operation == decision.operation,
            r.engine_results == decision.engine_results,
            r.audit_event_id == decision.audit_event_id,
    {
        let mut d = decision;
        d.decision = RuntimeDecisionValue::FatalError;
        let ghost before = strings_view(d.reasons@);
        d.reasons.push(concat2("storage error: ", message));
        assert(strings_view(d.reasons@) =~= before.push("storage error: "@ + message@));
        d
    }

    /// The state to store once an operation is allowed: a `Queued` task
    /// moves to `Running`; any other task is stored as a plain restore of
    /// its value and call count.
    pub fn running_state_to_persist(task_id: &str, current: TaskState) -> (r: Option<TaskState>)
        ensures
            current@.value == TaskStateValue::Queued ==> (r matches Some(s) && s@
                == transition_spec(current@, TaskStateValue::Running).0),
            current@.value != TaskStateValue::Queued ==> (r matches Some(s) && s@
                == TaskStateView::fresh(
                task_id@,
                current@.value,
                current@.agent_calls,
                default_timeout(),
            )),
    {
        if current.value() == TaskStateValue::Queued {
            let mut next = current;
            match next.transition_to(TaskStateValue::Running) {
                Ok(()) => Some(next),
                Err(_) => None,
            }
        } else {
            Some(TaskState::restore(task_id, current.value(), current.agent_calls()))
        }
    }

    /// The state a stored load gives, or a fresh task when there is none
    /// or the load failed.
    pub fn load_or_create_task_state(task_id: &str, load: StateLoad) -> (r: TaskState)
        ensures
            match load {
                StateLoad::Found(s) => r@ == s@,
                _ => is_fresh_task(r@, task_id@),
            },
    {
        match load {
            StateLoad::Found(s) => s,
            _ => TaskState::new(task_id),
        }
    }

    /// The audit entry a direct audit write stores.
    pub fn write_audit(event: AuditEvent) -> (r: AuditEventInput)
        ensures
            r.task_id == event.task_id,
            r.event_type == event.event_type,
            r.summary == event.summary,
            r.payload_json == event.payload_json,
    {
        AuditEventInput {
            task_id: event.task_id,
            event_type: event.event_type,
            summary: event.summary,
            payload_json: event.payload_json,
        }
    }

    /// Completes the task: the state moves to `Completed` (any refusal is
    /// returned) and the audit entry for it is prepared.
    pub fn complete_task(task_id: &str, load: StateLoad) -> (r: Result<
        (TaskState, AuditEventInput),
        RuntimeError,
    >)
        ensures
            ({
                let start = match load {
                    StateLoad::Found(s) => s@,
                    _ => TaskStateView::fresh(task_id@, TaskStateValue::Queued, 0, default_timeout()),
                };
                let (next, outcome) = transition_spec(start, TaskStateValue::Completed);
                match r {
                    Ok((s, audit)) => outcome is Ok && s@ == next && audit.task_id@ == task_id@
                        && audit.event_type@ == "task_completed"@ && audit.summary@ == "Task "@
                        + task_id@ + " completed"@ && audit.payload_json@ == task_payload(task_id@),
                    Err(RuntimeError::InvalidTaskState(e)) => outcome == Err::<
                        (),
                        crate::state::TaskStateErrorView,
                    >(e@),
                    Err(_) => false,
                }
            }),
    {
        let mut state = Self::load_or_create_task_state(task_id, load);
        match state.transition_to(TaskStateValue::Completed) {
            Ok(()) => {},
            Err(e) => {
                return Err(RuntimeError::InvalidTaskState(e));
            },
        }
        let audit = AuditEventInput {
            task_id: owned(task_id),
            event_type: owned("task_completed"),
            summary: concat3("Task ", task_id, " completed"),
            payload_json: write_task_payload(task_id),
        };
        Ok((state, audit))
    }

    /// Fails the task for an operation: the state moves to `Failed` (any
    /// refusal is returned) and the audit entry with the error is prepared.
    pub fn fail_operation(
        task_id: &str,
        request_id: Option<String>,
        operation: &str,
        error_code: &str,
        error_message: &str,
        load: StateLoad,
    ) -> (r: Result<(TaskState, AuditEventInput), RuntimeError>)
        ensures
            ({
                let start = match load {
                    StateLoad::Found(s) => s@,
                    _ => TaskStateView::fresh(task_id@, TaskStateValue::Queued, 0, default_timeout()),
                };
                let (next, outcome) = transition_spec(start, TaskStateValue::Failed);
                match r {
                    Ok((s, audit)) => outcome is Ok && s@ == next && audit.task_id@ == task_id@
                        && audit.event_type@ == "task_failed"@ && audit.summary@ == "Task "@
                        + task_id@ + " failed ("@ + error_code@ + "): "@ + error_message@
                        && audit.payload_json@ == failure_payload(
                        task_id@,
                        request_id,
                        operation@,
                        error_code@,
                        error_message@,
                    ),
                    Err(RuntimeError::InvalidTaskState(e)) => outcome == Err::<
                        (),
                        crate::state::TaskStateErrorView,
                    >(e@),
                    Err(_) => false,
                }
            }),
    {
        let mut state = Self::load_or_create_task_state(task_id, load);
        match state.transition_to(TaskStateValue::Failed) {
            Ok(()) => {},
            Err(e) => {
                return Err(RuntimeError::InvalidTaskState(e));
            },
        }
        let mut summary = concat3("Task ", task_id, " failed (");
        summary.append(error_code);
        summary.append("): ");
        summary.append(error_message);
        let audit = AuditEventInput {
            task_id: owned(task_id),
            event_type: owned("task_failed"),
            summary,
            payload_json: write_failure_payload(
                task_id,
                &request_id,
                operation,
                error_code,
                error_message,
            ),
        };
        Ok((state, audit))
    }

    /// The decision record and its audit entry, as they are committed
    /// together.
    pub fn decision_audit(decision: &RuntimeDecision) -> (r: (RuntimeDecisionRecord, AuditEventInput))
        ensures
            r.0.task_id == decision.task_id,
            r.0.request_id == decision.request_id,
            r.0.operation == decision.operation,
            r.0.decision == decision.decision,
            r.0.reasons@ == decision.reasons@,
            r.0.command_hash is None,
            r.1.task_id == decision.task_id,
            r.1.event_type@ == "runtime_decision_"@ + decision_event_suffix(decision.decision),
            r.1.summary@ == "Runtime decision "@ + decision_debug_name(
                decision.decision,
            ) + " for "@ + decision.operation@,
            r.1.payload_json@ == decision_payload(decision),
    {
        let record = RuntimeDecisionRecord {
            task_id: decision.task_id.clone(),
            request_id: match &decision.request_id {
                Some(id) => Some(id.clone()),
                None => None,
            },
            operation: decision.operation.clone(),
            decision: decision.decision,
            reasons: crate::text::clone_strings(&decision.reasons),
            command_hash: None,
        };
        let mut summary = concat2(
            "Runtime decision ",
            decision_debug_text(decision.decision),
        );
        summary.append(" for ");
        summary.append(decision.operation.as_str());
        let audit = AuditEventInput {
            task_id: decision.task_id.clone(),
            event_type: concat2("runtime_decision_", decision_event_text(decision.decision)),
            summary,
            payload_json: decision.to_payload(),
        };
        (record, audit)
    }
}

/// The `Debug` name of a decision value.
pub open spec fn decision_debug_name(v: RuntimeDecisionValue) -> Seq<char> {
    match v {
        RuntimeDecisionValue::Allow => "Allow"@,
        RuntimeDecisionValue::Deny => "Deny"@,
        RuntimeDecisionValue::RequireApproval => "RequireApproval"@,
        RuntimeDecisionValue::RetryableError => "RetryableError"@,
        RuntimeDecisionValue::FatalError => "FatalError"@,
    }
}

pub fn decision_debug_text(v: RuntimeDecisionValue) -> (r: &'static str)
    ensures
        r@ == decision_debug_name(v),
{
    match v {
        RuntimeDecisionValue::Allow => "Allow",
        RuntimeDecisionValue::Deny => "Deny",
        RuntimeDecisionValue::RequireApproval => "RequireApproval",
        RuntimeDecisionValue::RetryableError => "RetryableError",
        RuntimeDecisionValue::FatalError => "FatalError",
    }
}

/// The `Debug` name in lower case, as decision audit event types use it.
pub open spec fn decision_event_suffix(v: RuntimeDecisionValue) -> Seq<char> {
    match v {
        RuntimeDecisionValue::Allow => "allow"@,
        RuntimeDecisionValue::Deny => "deny"@,
        RuntimeDecisionValue::RequireApproval => "requireapproval"@,
        RuntimeDecisionValue::RetryableError => "retryableerror"@,
        RuntimeDecisionValue::FatalError => "fatalerror"@,
    }
}

pub(crate) fn decision_event_text(v: RuntimeDecisionValue) -> (r: &'static str)
    ensures
        r@ == decision_event_suffix(v),
{
    match v {
        RuntimeDecisionValue::Allow => "allow",
        RuntimeDecisionValue::Deny => "deny",
        RuntimeDecisionValue::RequireApproval => "requireapproval",
        RuntimeDecisionValue::RetryableError => "retryableerror",
        RuntimeDecisionValue::FatalError => "fatalerror",
    }
}

/// `{"task_id":<id>}`.
pub open spec fn task_payload(task_id: Seq<char>) -> Seq<char> {
    "{\"task_id\":"@ + json_quote(task_id) + "}"@
}

fn write_task_payload(task_id: &str) -> (r: String)
    ensures
        r@ == task_payload(task_id@),
{
    let q = quote(task_id);
    concat3("{\"task_id\":", q.as_str(), "}")
}

/// The failure payload, keys in sorted order as the JSON writer emits them.
pub open spec fn failure_payload(
    task_id: Seq<char>,
    request_id: Option<String>,
    operation: Seq<char>,
    error_code: Seq<char>,
    error_message: Seq<char>,
) -> Seq<char> {
    "{\"error_code\":"@ + json_quote(error_code) + ",\"error_message\":"@ + json_quote(
        error_message,
    ) + ",\"operation\":"@ + json_quote(operation) + ",\"request_id\":"@ + optional_string(
        opt_view(request_id),
    ) + ",\"task_id\":"@ + json_quote(task_id) + "}"@
}

fn write_failure_payload(
    task_id: &str,
    request_id: &Option<String>,
    operation: &str,
    error_code: &str,
    error_message: &str,
) -> (r: String)
    ensures
        r@ == failure_payload(task_id@, *request_id, operation@, error_code@, error_message@),
{
    let mut s = concat2("{\"error_code\":", quote(error_code).as_str());
    s.append(",\"error_message\":");
    s.append(quote(error_message).as_str());
    s.append(",\"operation\":");
    s.append(quote(operation).as_str());
    s.append(",\"request_id\":");
    s.append(write_optional_string(request_id).as_str());
    s.append(",\"task_id\":");
    s.append(quote(task_id).as_str());
    s.append("}");
    s
}

/// The decision payload (`runtime_decision_v1`), keys in sorted order; the
/// audit event id, when known, is a decimal string.
pub open spec fn decision_payload(d: &RuntimeDecision) -> Seq<char> {
    let head = match d.audit_event_id {
        Some(id) => "{\"audit_event_id\":"@ + json_quote(crate::text::decimal(id as int))
            + ","@,
        None => "{"@,
    };
    let rid = match &d.request_id {
        Some(r) => ",\"request_id\":"@ + json_quote(r@),
        None => Seq::empty(),
    };
    head + "\"decision\":\""@ + decision_name(d.decision) + "\",\"engine_results\":{\"policy\":\""@
        + decision_name(d.engine_results.policy) + "\",\"state\":\""@ + decision_name(
        d.engine_results.state,
    ) + "\"},\"operation\":"@ + json_quote(d.operation@) + ",\"reasons\":"@ + string_array(
        strings_view(d.reasons@),
    ) + rid + ",\"schema_version\":\"runtime_decision_v1\",\"task_id\":"@ + json_quote(
        d.task_id@,
    ) + "}"@
}

impl RuntimeDecision {
    /// The decision as `runtime_decision_v1` JSON text; see `decision_payload`.
    pub fn to_payload(&self) -> (r: String)
        ensures
            r@ == decision_payload(self),
    {
        let mut s = match self.audit_event_id {
            Some(id) => {
                let digits = crate::text::decimal_string(id);
                let mut h = concat2("{\"audit_event_id\":", quote(digits.as_str()).as_str());
                h.append(",");
                h
            },
            None => owned("{"),
        };
        s.append("\"decision\":\"");
        s.append(runtime_decision_to_str(self.decision));
        s.append("\",\"engine_results\":{\"policy\":\"");
        s.append(runtime_decision_to_str(self.engine_results.policy));
        s.append("\",\"state\":\"");
        s.append(runtime_decision_to_str(self.engine_results.state));
        s.append("\"},\"operation\":");
        s.append(quote(self.operation.as_str()).as_str());
        s.append(",\"reasons\":");
        s.append(write_string_array(&self.reasons).as_str());
        match &self.request_id {
            Some(r) => {
                s.append(",\"request_id\":");
                s.append(quote(r.as_str()).as_str());
            },
            None => {},
        }
        s.append(",\"schema_version\":\"runtime_decision_v1\",\"task_id\":");
        s.append(quote(self.task_id.as_str()).as_str());
        s.append("}");
        proof {
            assert(s@ =~= decision_payload(self));
        }
        s
    }
}

/// A policy denial beats every state verdict; otherwise the merged value
/// is always one of the two verdicts, and both must allow for the merge to
/// allow.
pub proof fn lemma_merge_precedence(r: EngineResults)
    ensures
        r.policy == RuntimeDecisionValue::Deny ==> merge_spec(r) == RuntimeDecisionValue::Deny,
        merge_spec(r) == r.state || merge_spec(r) == r.policy,
        merge_spec(r) == RuntimeDecisionValue::Allow <==> (r.state == RuntimeDecisionValue::Allow
            && r.policy == RuntimeDecisionValue::Allow),
        r.state == RuntimeDecisionValue::FatalError && r.policy != RuntimeDecisionValue::Deny
            ==> merge_spec(r) == RuntimeDecisionValue::FatalError,
{
}

/// The `step_started` event payload, keys sorted.
pub open spec fn step_started_payload(task_id: Seq<char>, request_id: Option<Seq<char>>, operation: Seq<char>) -> Seq<char> {
    "{\"operation\":"@ + json_quote(operation) + ",\"request_id\":"@ + optional_string(request_id)
        + ",\"task_id\":"@ + json_quote(task_id) + "}"@
}

/// The `lifecycle_closed` event payload, keys sorted.
pub open spec fn lifecycle_closed_payload(
    task_id: Seq<char>,
    request_id: Option<Seq<char>>,
    operation: Seq<char>,
    state: Seq<char>,
) -> Seq<char> {
    "{\"operation\":"@ + json_quote(operation) + ",\"request_id\":"@ + optional_string(request_id)
        + ",\"state\":"@ + json_quote(state) + ",\"task_id\":"@ + json_quote(task_id) + "}"@
}

/// The `policy_evaluated` event payload, keys sorted.
pub open spec fn policy_evaluated_payload(d: &RuntimeDecision) -> Seq<char> {
    "{\"decision\":\""@ + decision_name(d.decision) + "\",\"operation\":"@ + json_quote(d.operation@)
        + ",\"policy_decision\":\""@ + decision_name(d.engine_results.policy) + "\",\"reasons\":"@
        + string_array(strings_view(d.reasons@)) + ",\"request_id\":"@ + optional_string(
        opt_view(d.request_id),
    ) + ",\"state_decision\":\""@ + decision_name(d.engine_results.state) + "\",\"task_id\":"@
        + json_quote(d.task_id@) + "}"@
}

/// The payload of the event that opens an operation's step.
pub fn step_started_event(task_id: &str, request_id: &Option<String>, operation: &str) -> (r: String)
    ensures
        r@ == step_started_payload(task_id@, opt_view(*request_id), operation@),
{
    let mut s = concat2("{\"operation\":", quote(operation).as_str());
    s.append(",\"request_id\":");
    s.append(write_optional_string(request_id).as_str());
    s.append(",\"task_id\":");
    s.append(quote(task_id).as_str());
    s.append("}");
    s
}

/// The payload of the event that closes an operation's step in `state`.
pub fn lifecycle_closed_event(
    task_id: &str,
    request_id: &Option<String>,
    operation: &str,
    state: &str,
) -> (r: String)
    ensures
        r@ == lifecycle_closed_payload(task_id@, opt_view(*request_id), operation@, state@),
{
    let mut s = concat2("{\"operation\":", quote(operation).as_str());
    s.append(",\"request_id\":");
    s.append(write_optional_string(request_id).as_str());
    s.append(",\"state\":");
    s.append(quote(state).as_str());
    s.append(",\"task_id\":");
    s.append(quote(task_id).as_str());
    s.append("}");
    s
}

impl RuntimeDecision {
    /// The payload of the event recording this decision on its step.
    pub fn policy_evaluated_event(&self) -> (r: String)
        ensures
            r@ == policy_evaluated_payload(self),
    {
        let mut s = owned("{\"decision\":\"");
        s.append(runtime_decision_to_str(self.decision));
        s.append("\",\"operation\":");
        s.append(quote(self.operation.as_str()).as_str());
        s.append(",\"policy_decision\":\"");
        s.append(runtime_decision_to_str(self.engine_results.policy));
        s.append("\",\"reasons\":");
        s.append(write_string_array(&self.reasons).as_str());
        s.append(",\"request_id\":");
        s.append(write_optional_string(&self.request_id).as_str());
        s.append(",\"state_decision\":\"");
        s.append(runtime_decision_to_str(self.engine_results.state));
        s.append("\",\"task_id\":");
        s.append(quote(self.task_id.as_str()).as_str());
        s.append("}");
        s
    }
}

/// Where the recording of a decision stands.
#[derive(Debug, Clone, Copy, PartialEq, Eq, Structural)]
pub enum RecordStage {
    StartingStep,
    PersistingDecision,
    WritingPolicyEvent,
    Finishing,
    Done,
}

/// What the store reports back.
#[derive(Debug)]
pub enum RecordEvent {
    /// The step was opened, or the store failed with this message.
    StepStarted(Result<i64, String>),
    /// The decision was committed with its audit entry of this id, or failed.
    DecisionPersisted(Result<i64, String>),
    /// The policy event was written, or failed.
    PolicyEventWritten(Result<(), String>),
    /// The step was closed (or the running state stored), or failed.
    Finished(Result<(), String>),
}

/// What the caller does with the store next.
#[derive(Debug, Clone, Copy, PartialEq, Eq, Structural)]
pub enum RecordAction {
    /// Commit the decision record with its audit entry.
    PersistDecision,
    /// Write the `policy_evaluated` event on the step.
    WritePolicyEvent,
    /// Store the task as running; the step stays open.
    PersistRunningState,
    /// Close the step in the decision's state.
    CloseStep,
    /// Return the decision.
    Return,
}

pub open spec fn record_event_fits(stage: RecordStage, event: RecordEvent) -> bool {
    match stage {
        RecordStage::StartingStep => event is StepStarted,
        RecordStage::PersistingDecision => event is DecisionPersisted,
        RecordStage::WritingPolicyEvent => event is PolicyEventWritten,
        RecordStage::Finishing => event is Finished,
        RecordStage::Done => false,
    }
}

/// The failure message an event reports, if any.
pub open spec fn event_failure(event: RecordEvent) -> Option<Seq<char>> {
    match event {
        RecordEvent::StepStarted(Err(m)) => Some(m@),
        RecordEvent::DecisionPersisted(Err(m)) => Some(m@),
        RecordEvent::PolicyEventWritten(Err(m)) => Some(m@),
        RecordEvent::Finished(Err(m)) => Some(m@),
        _ => None,
    }
}

/// Recording a decision in the store: open the step, commit the decision
/// with its audit entry, write the policy event, then store the running
/// state for an allowed operation or close the step otherwise. A store
/// failure ends the recording and makes the decision fatal.
pub struct DecisionRecorder {
    pub stage: RecordStage,
    pub decision: RuntimeDecision,
    pub step_id: Option<i64>,
}

impl DecisionRecorder {
    /// A recording of `decision` that has not started; the caller opens
    /// the step first.
    pub fn new(decision: RuntimeDecision) -> (r: Self)
        ensures
            r.stage == RecordStage::StartingStep,
            r.decision == decision,
            r.step_id is None,
    {
        DecisionRecorder { stage: RecordStage::StartingStep, decision, step_id: None }
    }

    /// Takes the store's report and says what to do next.
    pub fn step(&mut self, event: RecordEvent) -> (action: RecordAction)
        requires
            record_event_fits(old(self).stage, event),
        ensures
            match event_failure(event) {
                Some(m) => {
                    &&& action == RecordAction::Return
                    &&& final(self).stage == RecordStage::Done
                    &&& final(self).decision.decision == RuntimeDecisionValue::FatalError
                    &&& strings_view(final(self).decision.reasons@) == strings_view(
                        old(self).decision.reasons@,
                    ).push("storage error: "@ + m)
                    &&& final(self).decision.audit_event_id == old(self).decision.audit_event_id
                },
                None => {
                    &&& final(self).decision.reasons == old(self).decision.reasons
                    &&& final(self).decision.decision == old(self).decision.decision
                    &&& match event {
                        RecordEvent::StepStarted(Ok(id)) => action == RecordAction::PersistDecision
                            && final(self).stage == RecordStage::PersistingDecision
                            && final(self).step_id == Some(id)
                            && final(self).decision.audit_event_id == old(self).decision.audit_event_id,
                        RecordEvent::DecisionPersisted(Ok(audit_id)) => action
                            == RecordAction::WritePolicyEvent && final(self).stage
                            == RecordStage::WritingPolicyEvent && final(self).decision.audit_event_id
                            == Some(audit_id),
                        RecordEvent::PolicyEventWritten(Ok(())) => {
                            &&& final(self).decision.audit_event_id == old(self).decision.audit_event_id
                            &&& if old(self).decision.decision == RuntimeDecisionValue::Allow {
                                action == RecordAction::PersistRunningState && final(self).stage
                                    == RecordStage::Finishing
                            } else {
                                action == RecordAction::CloseStep && final(self).stage
                                    == RecordStage::Finishing
                            }
                        },
                        _ => action == RecordAction::Return && final(self).stage == RecordStage::Done
                            && final(self).decision.audit_event_id == old(self).decision.audit_event_id,
                    }
                },
            },
            final(self).decision.task_id == old(self).decision.task_id,
            final(self).decision.request_id == old(self).decision.request_id,
            final(self).decision.operation == old(self).decision.operation,
            final(self).decision.engine_results == old(self).decision.engine_results,
    {
        let failure: Option<&String> = match &event {
            RecordEvent::StepStarted(Err(m)) => Some(m),
            RecordEvent::DecisionPersisted(Err(m)) => Some(m),
            RecordEvent::PolicyEventWritten(Err(m)) => Some(m),
            RecordEvent::Finished(Err(m)) => Some(m),
            _ => None,
        };
        match failure {
            Some(m) => {
                self.decision.decision = RuntimeDecisionValue::FatalError;
                let ghost before = strings_view(self.decision.reasons@);
                self.decision.reasons.push(concat2("storage error: ", m.as_str()));
                assert(strings_view(self.decision.reasons@) =~= before.push(
                    "storage error: "@ + m@,
                ));
                self.stage = RecordStage::Done;
                return RecordAction::Return;
            },
            None => {},
        }
        match event {
            RecordEvent::StepStarted(Ok(id)) => {
                self.step_id = Some(id);
                self.stage = RecordStage::PersistingDecision;
                RecordAction::PersistDecision
            },
            RecordEvent::DecisionPersisted(Ok(audit_id)) => {
                self.decision.audit_event_id = Some(audit_id);
                self.stage = RecordStage::WritingPolicyEvent;
                RecordAction::WritePolicyEvent
            },
            RecordEvent::PolicyEventWritten(Ok(())) => {
                self.stage = RecordStage::Finishing;
                if self.decision.decision == RuntimeDecisionValue::Allow {
                    RecordAction::PersistRunningState
                } else {
                    RecordAction::CloseStep
                }
            },
            _ => {
                self.stage = RecordStage::Done;
                RecordAction::Return
            },
        }
    }
}

/// The order of the merge, stated on the two verdicts: a policy denial
/// wins; then a fatal error; then a denial from either side (a terminal
/// task is never softened to an approval or a retry); then a required
/// approval; then a retryable error; the merge allows only when both do.
pub proof fn lemma_merge_order(state: RuntimeDecisionValue, policy: RuntimeDecisionValue)
    ensures
        ({
            let m = merge_spec(EngineResults { state, policy });
            &&& policy == RuntimeDecisionValue::Deny ==> m == RuntimeDecisionValue::Deny
            &&& (state == RuntimeDecisionValue::FatalError || policy
                == RuntimeDecisionValue::FatalError) && policy != RuntimeDecisionValue::Deny ==> m
                == RuntimeDecisionValue::FatalError
            &&& (state == RuntimeDecisionValue::Deny || policy == RuntimeDecisionValue::Deny)
                && state != RuntimeDecisionValue::FatalError && policy
                != RuntimeDecisionValue::FatalError ==> m == RuntimeDecisionValue::Deny
            &&& state == RuntimeDecisionValue::Deny && policy == RuntimeDecisionValue::RequireApproval
                ==> m == RuntimeDecisionValue::Deny
            &&& (state == RuntimeDecisionValue::RequireApproval || policy
                == RuntimeDecisionValue::RequireApproval) && state != RuntimeDecisionValue::Deny
                && policy != RuntimeDecisionValue::Deny && state != RuntimeDecisionValue::FatalError
                && policy != RuntimeDecisionValue::FatalError ==> m
                == RuntimeDecisionValue::RequireApproval
            &&& (state == RuntimeDecisionValue::RetryableError || policy
                == RuntimeDecisionValue::RetryableError) && (state == RuntimeDecisionValue::Allow
                || state == RuntimeDecisionValue::RetryableError) && (policy
                == RuntimeDecisionValue::Allow || policy == RuntimeDecisionValue::RetryableError) ==> m
                == RuntimeDecisionValue::RetryableError
            &&& state == RuntimeDecisionValue::Allow && policy == RuntimeDecisionValue::Allow ==> m
                == RuntimeDecisionValue::Allow
        }),
{
}

} // verus!
