//! The worker runtime's decisions, which weigh a schema verdict beside the
//! state and policy verdicts: merging, the verdicts themselves, the request
//! document the schema check reads, and what the audit store records.
use vstd::prelude::*;

use crate::basic_state::{terminal_value, transition_spec, TaskState, TaskStateValue, TaskStateView};
use crate::json::{json_quote, optional_string, quote, string_array, write_string_array};
use crate::kernel::{decision_debug_name, decision_debug_text, decision_event_suffix};
use crate::policy::{
    strings_view, PermissionLevel, PolicyEvaluationResult, RuntimeDecisionValue,
    RuntimeOperationRequest,
};
use crate::schema::{
    error_objects, errors_view, validation_payload, write_error_objects, SchemaValidationResult,
};
use crate::storage::{
    decision_name, runtime_decision_to_str, AuditEventInput, RuntimeDecisionRecord,
    SchemaValidationRecord,
};
use crate::text::{concat2, concat3, opt_view, owned, str_eq};

verus! {

#[derive(Debug, Clone, Copy, PartialEq, Eq, Structural)]
pub struct EngineResults {
    pub schema: RuntimeDecisionValue,
    pub state: RuntimeDecisionValue,
    pub policy: RuntimeDecisionValue,
}

pub fn engine_results(
    schema: RuntimeDecisionValue,
    state: RuntimeDecisionValue,
    policy: RuntimeDecisionValue,
) -> (r: EngineResults)
    ensures
        r == (EngineResults { schema, state, policy }),
{
    EngineResults { schema, state, policy }
}

/// Some verdict equals `v`.
pub open spec fn any_verdict(r: EngineResults, v: RuntimeDecisionValue) -> bool {
    r.schema == v || r.state == v || r.policy == v
}

/// A policy denial wins outright; then any fatal error, any denial, any
/// approval request, any retryable error; otherwise allow.
pub open spec fn merge_spec(r: EngineResults) -> RuntimeDecisionValue {
    if r.policy == RuntimeDecisionValue::Deny {
        RuntimeDecisionValue::Deny
    } else if any_verdict(r, RuntimeDecisionValue::FatalError) {
        RuntimeDecisionValue::FatalError
    } else if any_verdict(r, RuntimeDecisionValue::Deny) {
        RuntimeDecisionValue::Deny
    } else if any_verdict(r, RuntimeDecisionValue::RequireApproval) {
        RuntimeDecisionValue::RequireApproval
    } else if any_verdict(r, RuntimeDecisionValue::RetryableError) {
        RuntimeDecisionValue::RetryableError
    } else {
        RuntimeDecisionValue::Allow
    }
}

fn holds(r: EngineResults, v: RuntimeDecisionValue) -> (b: bool)
    ensures
        b == any_verdict(r, v),
{
    r.schema == v || r.state == v || r.policy == v
}

/// Merges the three verdicts; see `merge_spec`.
pub fn merge_decisions(results: EngineResults) -> (r: RuntimeDecisionValue)
    ensures
        r == merge_spec(results),
{
    if results.policy == RuntimeDecisionValue::Deny {
        return RuntimeDecisionValue::Deny;
    }
    if holds(results, RuntimeDecisionValue::FatalError) {
        return RuntimeDecisionValue::FatalError;
    }
    if holds(results, RuntimeDecisionValue::Deny) {
        return RuntimeDecisionValue::Deny;
    }
    if holds(results, RuntimeDecisionValue::RequireApproval) {
        return RuntimeDecisionValue::RequireApproval;
    }
    if holds(results, RuntimeDecisionValue::RetryableError) {
        return RuntimeDecisionValue::RetryableError;
    }
    RuntimeDecisionValue::Allow
}

/// The merge allows only when all three verdicts allow, returns one of
/// them, and a schema or state denial is overridden only by a fatal error.
pub proof fn lemma_merge_precedence(r: EngineResults)
    ensures
        merge_spec(r) == RuntimeDecisionValue::Allow <==> (r.schema == RuntimeDecisionValue::Allow
            && r.state == RuntimeDecisionValue::Allow && r.policy == RuntimeDecisionValue::Allow),
        merge_spec(r) == r.schema || merge_spec(r) == r.state || merge_spec(r) == r.policy,
        any_verdict(r, RuntimeDecisionValue::Deny) ==> merge_spec(r) == RuntimeDecisionValue::Deny
            || merge_spec(r) == RuntimeDecisionValue::FatalError,
{
}

/// The name the request schema uses for an operation.
pub open spec fn operation_name_spec(operation: Seq<char>) -> Seq<char> {
    if operation == "reasonix.review_diff"@ {
        "call_reasonix_tool"@
    } else {
        operation
    }
}

pub fn runtime_operation_name(operation: &str) -> (r: &str)
    ensures
        r@ == operation_name_spec(operation@),
{
    if str_eq(operation, "reasonix.review_diff") {
        "call_reasonix_tool"
    } else {
        operation
    }
}

pub open spec fn permission_name(v: PermissionLevel) -> Seq<char> {
    match v {
        PermissionLevel::L0Readonly => "L0_READONLY"@,
        PermissionLevel::L1DiffReview => "L1_DIFF_REVIEW"@,
        PermissionLevel::L2PatchOnly => "L2_PATCH_ONLY"@,
        PermissionLevel::L3IsolatedWorktree => "L3_ISOLATED_WORKTREE"@,
    }
}

pub fn permission_level_to_str(v: PermissionLevel) -> (r: &'static str)
    ensures
        r@ == permission_name(v),
{
    match v {
        PermissionLevel::L0Readonly => "L0_READONLY",
        PermissionLevel::L1DiffReview => "L1_DIFF_REVIEW",
        PermissionLevel::L2PatchOnly => "L2_PATCH_ONLY",
        PermissionLevel::L3IsolatedWorktree => "L3_ISOLATED_WORKTREE",
    }
}

/// The permission level written `name`, if any.
pub fn permission_level_from_str(name: &str) -> (r: Option<PermissionLevel>)
    ensures
        r matches Some(v) ==> permission_name(v) == name@,
        r is None ==> forall|v: PermissionLevel| permission_name(v) != name@,
{
    if str_eq(name, "L0_READONLY") {
        Some(PermissionLevel::L0Readonly)
    } else if str_eq(name, "L1_DIFF_REVIEW") {
        Some(PermissionLevel::L1DiffReview)
    } else if str_eq(name, "L2_PATCH_ONLY") {
        Some(PermissionLevel::L2PatchOnly)
    } else if str_eq(name, "L3_ISOLATED_WORKTREE") {
        Some(PermissionLevel::L3IsolatedWorktree)
    } else {
        proof {
            assert forall|v: PermissionLevel| permission_name(v) != name@ by {
                match v {
                    PermissionLevel::L0Readonly => {},
                    PermissionLevel::L1DiffReview => {},
                    PermissionLevel::L2PatchOnly => {},
                    PermissionLevel::L3IsolatedWorktree => {},
                }
            }
        }
        None
    }
}

/// A decision of the worker runtime.
#[derive(Debug, Clone, PartialEq, Eq)]
pub struct RuntimeDecision {
    pub task_id: String,
    pub request_id: Option<String>,
    pub operation: String,
    pub decision: RuntimeDecisionValue,
    pub engine_results: EngineResults,
    pub reasons: Vec<String>,
    pub audit_event_id: Option<i64>,
}

/// The decision payload (`runtime_decision_v1`), keys in sorted order; the
/// audit event id, when known, is a decimal string.
pub open spec fn decision_payload(d: &RuntimeDecision) -> Seq<char> {
    let head = match d.audit_event_id {
        Some(id) => "{\"audit_event_id\":"@ + json_quote(crate::text::decimal(id as int)) + ","@,
        None => "{"@,
    };
    let rid = match &d.request_id {
        Some(r) => ",\"request_id\":"@ + json_quote(r@),
        None => Seq::empty(),
    };
    head + "\"decision\":\""@ + decision_name(d.decision) + "\",\"engine_results\":{\"policy\":\""@
        + decision_name(d.engine_results.policy) + "\",\"schema\":\""@ + decision_name(
        d.engine_results.schema,
    ) + "\",\"state\":\""@ + decision_name(d.engine_results.state) + "\"},\"operation\":"@
        + json_quote(d.operation@) + ",\"reasons\":"@ + string_array(strings_view(d.reasons@)) + rid
        + ",\"schema_version\":\"runtime_decision_v1\",\"task_id\":"@ + json_quote(d.task_id@)
        + "}"@
}

impl RuntimeDecision {
    /// The decision as `runtime_decision_v1` JSON text; see `decision_payload`.
    pub fn to_payload(&self) -> (r: String)
        ensures
            r@ == decision_payload(self),
    {
        let mut s = match self.audit_event_id {
            Some(id) => {
                let digits = crate::text::decimal_string(id);
                let mut h = concat2("{\"audit_event_id\":", quote(digits.as_str()).as_str());
                h.append(",");
                h
            },
            None => owned("{"),
        };
        s.append("\"decision\":\"");
        s.append(runtime_decision_to_str(self.decision));
        s.append("\",\"engine_results\":{\"policy\":\"");
        s.append(runtime_decision_to_str(self.engine_results.policy));
        s.append("\",\"schema\":\"");
        s.append(runtime_decision_to_str(self.engine_results.schema));
        s.append("\",\"state\":\"");
        s.append(runtime_decision_to_str(self.engine_results.state));
        s.append("\"},\"operation\":");
        s.append(quote(self.operation.as_str()).as_str());
        s.append(",\"reasons\":");
        s.append(write_string_array(&self.reasons).as_str());
        match &self.request_id {
            Some(r) => {
                s.append(",\"request_id\":");
                s.append(quote(r.as_str()).as_str());
            },
            None => {},
        }
        s.append(",\"schema_version\":\"runtime_decision_v1\",\"task_id\":");
        s.append(quote(self.task_id.as_str()).as_str());
        s.append("}");
        proof {
            assert(s@ =~= decision_payload(self));
        }
        s
    }

    /// A storage failure makes the decision fatal and adds the failure as
    /// the last reason.
    pub fn record_storage_error(self, message: &str) -> (r: RuntimeDecision)
        ensures
            r.decision == RuntimeDecisionValue::FatalError,
            strings_view(r.reasons@) == strings_view(self.reasons@).push(
                "storage error: "@ + message@,
            ),
            r.task_id == self.task_id,
            r.request_id == self.request_id,
            r.operation == self.operation,
            r.engine_results == self.engine_results,
            r.audit_event_id == self.audit_event_id,
    {
        let mut d = self;
        d.decision = RuntimeDecisionValue::FatalError;
        let ghost before = strings_view(d.reasons@);
        d.reasons.push(concat2("storage error: ", message));
        assert(strings_view(d.reasons@) =~= before.push("storage error: "@ + message@));
        d
    }

    /// The decision record and its audit entry, as they are committed
    /// together; `command_hash` is the policy's hash of the command, if any.
    pub fn audit_records(&self, command_hash: Option<String>) -> (r: (
        RuntimeDecisionRecord,
        AuditEventInput,
    ))
        ensures
            r.0.task_id == self.task_id,
            r.0.request_id == self.request_id,
            r.0.operation == self.operation,
            r.0.decision == self.decision,
            r.0.reasons@ == self.reasons@,
            r.0.command_hash == command_hash,
            r.1.task_id == self.task_id,
            r.1.event_type@ == "runtime_decision_"@ + decision_event_suffix(self.decision),
            r.1.summary@ == "Runtime decision "@ + decision_debug_name(self.decision) + " for "@
                + self.operation@,
            r.1.payload_json@ == decision_payload(self),
    {
        let record = RuntimeDecisionRecord {
            task_id: self.task_id.clone(),
            request_id: match &self.request_id {
                Some(id) => Some(id.clone()),
                None => None,
            },
            operation: self.operation.clone(),
            decision: self.decision,
            reasons: crate::text::clone_strings(&self.reasons),
            command_hash,
        };
        let mut summary = concat2("Runtime decision ", decision_debug_text(self.decision));
        summary.append(" for ");
        summary.append(self.operation.as_str());
        let audit = AuditEventInput {
            task_id: self.task_id.clone(),
            event_type: concat2("runtime_decision_", crate::kernel::decision_event_text(self.decision)),
            summary,
            payload_json: self.to_payload(),
        };
        (record, audit)
    }
}

/// What loading a task's stored state gave: the state, no stored state,
/// or a store failure with its message.
#[derive(Debug, Clone)]
pub enum StateLoad {
    Found(TaskState),
    NotFound,
    Failed(String),
}

/// The `Debug` name of a terminal state value.
pub open spec fn value_debug_name(v: TaskStateValue) -> Seq<char> {
    match v {
        TaskStateValue::Created => "Created"@,
        TaskStateValue::Running => "Running"@,
        TaskStateValue::Completed => "Completed"@,
        TaskStateValue::Failed => "Failed"@,
    }
}

fn value_debug_text(v: TaskStateValue) -> (r: &'static str)
    ensures
        r@ == value_debug_name(v),
{
    match v {
        TaskStateValue::Created => "Created",
        TaskStateValue::Running => "Running",
        TaskStateValue::Completed => "Completed",
        TaskStateValue::Failed => "Failed",
    }
}

/// The state verdict and its reasons: a terminal task is denied, a load
/// failure is fatal, anything else allows.
pub open spec fn state_verdict(task_id: Seq<char>, load: StateLoad) -> (RuntimeDecisionValue, Seq<Seq<char>>) {
    match load {
        StateLoad::Found(s) => if terminal_value(s@.value) {
            (
                RuntimeDecisionValue::Deny,
                seq!["task "@ + task_id + " is in terminal state "@ + value_debug_name(s@.value)],
            )
        } else {
            (RuntimeDecisionValue::Allow, Seq::empty())
        },
        StateLoad::NotFound => (RuntimeDecisionValue::Allow, Seq::empty()),
        StateLoad::Failed(m) => (RuntimeDecisionValue::FatalError, seq!["state load failed: "@ + m@]),
    }
}

/// The state a load gives: the stored one, else a new `Created` task.
pub open spec fn current_state(task_id: Seq<char>, load: StateLoad) -> TaskStateView {
    match load {
        StateLoad::Found(s) => s@,
        _ => TaskStateView {
            task_id,
            value: TaskStateValue::Created,
            agent_calls: 0,
            gaps: Seq::empty(),
        },
    }
}

/// The state verdict, its reasons and the state to carry on with.
pub fn evaluate_state(task_id: &str, load: StateLoad) -> (r: (RuntimeDecisionValue, Vec<String>, TaskState))
    ensures
        (r.0, strings_view(r.1@)) == state_verdict(task_id@, load),
        r.2@ == current_state(task_id@, load),
{
    match load {
        StateLoad::Found(state) => {
            let v = state.value();
            if v == TaskStateValue::Completed || v == TaskStateValue::Failed {
                let mut reasons: Vec<String> = Vec::new();
                let mut reason = concat3("task ", task_id, " is in terminal state ");
                reason.append(value_debug_text(v));
                reasons.push(reason);
                proof {
                    assert(strings_view(reasons@) =~= seq![
                        "task "@ + task_id@ + " is in terminal state "@ + value_debug_name(v),
                    ]);
                }
                (RuntimeDecisionValue::Deny, reasons, state)
            } else {
                let reasons: Vec<String> = Vec::new();
                assert(strings_view(reasons@) =~= Seq::<Seq<char>>::empty());
                (RuntimeDecisionValue::Allow, reasons, state)
            }
        },
        StateLoad::NotFound => {
            let reasons: Vec<String> = Vec::new();
            assert(strings_view(reasons@) =~= Seq::<Seq<char>>::empty());
            (RuntimeDecisionValue::Allow, reasons, TaskState::new(task_id))
        },
        StateLoad::Failed(msg) => {
            let mut reasons: Vec<String> = Vec::new();
            reasons.push(concat2("state load failed: ", msg.as_str()));
            proof {
                assert(strings_view(reasons@) =~= seq!["state load failed: "@ + msg@]);
            }
            (RuntimeDecisionValue::FatalError, reasons, TaskState::new(task_id))
        },
    }
}

/// One schema violation as a decision reason.
pub open spec fn schema_reason(e: (Seq<char>, Seq<char>)) -> Seq<char> {
    "schema "@ + e.0 + ": "@ + e.1
}

/// The schema verdict on the operation request and its reasons: a valid
/// request allows; an invalid one is denied with one reason per violation.
pub fn schema_verdict(result: &SchemaValidationResult) -> (r: (RuntimeDecisionValue, Vec<String>))
    ensures
        r.0 == if result.valid {
            RuntimeDecisionValue::Allow
        } else {
            RuntimeDecisionValue::Deny
        },
        strings_view(r.1@) == if result.valid {
            Seq::<Seq<char>>::empty()
        } else {
            errors_view(result.errors@).map_values(|e: (Seq<char>, Seq<char>)| schema_reason(e))
        },
{
    let mut reasons: Vec<String> = Vec::new();
    if result.valid {
        assert(strings_view(reasons@) =~= Seq::<Seq<char>>::empty());
        return (RuntimeDecisionValue::Allow, reasons);
    }
    let ghost views = errors_view(result.errors@);
    let mut i: usize = 0;
    while i < result.errors.len()
        invariant
            i <= result.errors@.len(),
            views == errors_view(result.errors@),
            strings_view(reasons@) == views.subrange(0, i as int).map_values(
                |e: (Seq<char>, Seq<char>)| schema_reason(e),
            ),
        decreases result.errors@.len() - i,
    {
        let e = &result.errors[i];
        let mut reason = concat2("schema ", e.path.as_str());
        reason.append(": ");
        reason.append(e.message.as_str());
        let ghost before = strings_view(reasons@);
        reasons.push(reason);
        proof {
            assert(views[i as int] == (e.path@, e.message@));
            assert(strings_view(reasons@) =~= before.push(schema_reason(views[i as int])));
            assert(views.subrange(0, i + 1).map_values(|e: (Seq<char>, Seq<char>)| schema_reason(e))
                =~= views.subrange(0, i as int).map_values(
                |e: (Seq<char>, Seq<char>)| schema_reason(e),
            ).push(schema_reason(views[i as int])));
        }
        i = i + 1;
    }
    assert(views.subrange(0, result.errors@.len() as int) =~= views);
    (RuntimeDecisionValue::Deny, reasons)
}

/// The decision on `request` before anything is stored: the schema verdict
/// on the request document, the state verdict and the policy's result,
/// merged, with their reasons in that order; and the state to carry on
/// with.
pub fn decide(
    request: &RuntimeOperationRequest,
    schema_result: &SchemaValidationResult,
    load: StateLoad,
    policy_result: PolicyEvaluationResult,
) -> (r: (RuntimeDecision, TaskState))
    ensures
        ({
            let sv = state_verdict(request.task_id@, load);
            let schema_decision = if schema_result.valid {
                RuntimeDecisionValue::Allow
            } else {
                RuntimeDecisionValue::Deny
            };
            let schema_reasons = if schema_result.valid {
                Seq::<Seq<char>>::empty()
            } else {
                errors_view(schema_result.errors@).map_values(
                    |e: (Seq<char>, Seq<char>)| schema_reason(e),
                )
            };
            let er = EngineResults { schema: schema_decision, state: sv.0, policy: policy_result.decision };
            &&& r.0.task_id@ == request.task_id@
            &&& r.0.request_id == request.request_id
            &&& r.0.operation@ == request.operation@
            &&& r.0.engine_results == er
            &&& r.0.decision == merge_spec(er)
            &&& strings_view(r.0.reasons@) == schema_reasons + sv.1 + strings_view(
                policy_result.reasons@,
            )
            &&& r.0.audit_event_id is None
        }),
        r.1@ == current_state(request.task_id@, load),
{
    let (schema_decision, schema_reasons) = schema_verdict(schema_result);
    let (state_decision, state_reasons, current) = evaluate_state(request.task_id.as_str(), load);
    let results = EngineResults {
        schema: schema_decision,
        state: state_decision,
        policy: policy_result.decision,
    };
    let mut reasons = schema_reasons;
    let mut state_reasons = state_reasons;
    let mut policy_reasons = policy_result.reasons;
    let ghost a = strings_view(reasons@);
    let ghost b = strings_view(state_reasons@);
    let ghost c = strings_view(policy_reasons@);
    reasons.append(&mut state_reasons);
    reasons.append(&mut policy_reasons);
    assert(strings_view(reasons@) =~= a + b + c);
    let request_id = match &request.request_id {
        Some(id) => Some(id.clone()),
        None => None,
    };
    let decision = RuntimeDecision {
        task_id: request.task_id.clone(),
        request_id,
        operation: request.operation.clone(),
        decision: merge_decisions(results),
        engine_results: results,
        reasons,
        audit_event_id: None,
    };
    (decision, current)
}

/// The state to store once an operation is allowed: a `Created` task moves
/// to `Running`; any other task is stored as a plain restore of its value
/// and call count.
pub fn running_state_to_persist(task_id: &str, current: TaskState) -> (r: Option<TaskState>)
    ensures
        current@.value == TaskStateValue::Created ==> (r matches Some(s) && s@ == transition_spec(
            current@,
            TaskStateValue::Running,
        ).0),
        current@.value != TaskStateValue::Created ==> (r matches Some(s) && s@ == (TaskStateView {
            task_id: task_id@,
            value: current@.value,
            agent_calls: current@.agent_calls,
            gaps: Seq::empty(),
        })),
{
    if current.value() == TaskStateValue::Created {
        let mut next = current;
        match next.transition_to(TaskStateValue::Running) {
            Ok(()) => Some(next),
            Err(_) => None,
        }
    } else {
        Some(TaskState::restore(task_id, current.value(), current.agent_calls()))
    }
}

/// The request document the schema check reads
/// (`runtime_operation_request_v1`), keys in sorted order: the operation's
/// schema name, the permission's wire name, the request id when given, the
/// resources (the command's argv when given, then every read and write
/// path), the schema version and the task id.
pub open spec fn operation_request_text(
    request: RuntimeOperationRequest,
    command: Option<Seq<Seq<char>>>,
) -> Seq<char> {
    let paths = strings_view(request.resources.read_paths@) + strings_view(
        request.resources.write_paths@,
    );
    "{\"operation\":"@ + json_quote(operation_name_spec(request.operation@))
        + ",\"permission_level\":"@ + json_quote(permission_name(request.permission_level))
        + match request.request_id {
        Some(r) => ",\"request_id\":"@ + json_quote(r@),
        None => Seq::empty(),
    } + ",\"resources\":{"@ + match command {
        Some(argv) => "\"command\":"@ + string_array(argv) + ","@,
        None => Seq::empty(),
    } + "\"paths\":"@ + string_array(paths) + "}"@
        + ",\"schema_version\":\"runtime_operation_request_v1\",\"task_id\":"@ + json_quote(
        request.task_id@,
    ) + "}"@
}

/// Writes the request document; see `operation_request_text`. `command`
/// is the argv of the command the operation runs, if any.
pub fn operation_request_payload(request: &RuntimeOperationRequest, command: &Option<Vec<String>>) -> (r: String)
    ensures
        r@ == operation_request_text(
            *request,
            match command {
                Some(argv) => Some(strings_view(argv@)),
                None => None,
            },
        ),
{
    let mut paths = crate::text::clone_strings(&request.resources.read_paths);
    let mut writes = crate::text::clone_strings(&request.resources.write_paths);
    let ghost a = strings_view(paths@);
    let ghost b = strings_view(writes@);
    paths.append(&mut writes);
    assert(strings_view(paths@) =~= a + b);
    let mut s = owned("{\"operation\":");
    s.append(quote(runtime_operation_name(request.operation.as_str())).as_str());
    s.append(",\"permission_level\":");
    s.append(quote(permission_level_to_str(request.permission_level)).as_str());
    match &request.request_id {
        Some(r) => {
            s.append(",\"request_id\":");
            s.append(quote(r.as_str()).as_str());
        },
        None => {},
    }
    s.append(",\"resources\":{");
    match command {
        Some(argv) => {
            s.append("\"command\":");
            s.append(write_string_array(argv).as_str());
            s.append(",");
        },
        None => {},
    }
    s.append("\"paths\":");
    s.append(write_string_array(&paths).as_str());
    s.append("}");
    s.append(",\"schema_version\":\"runtime_operation_request_v1\",\"task_id\":");
    s.append(quote(request.task_id.as_str()).as_str());
    s.append("}");
    proof {
        assert(s@ =~= operation_request_text(
            *request,
            match command {
                Some(argv) => Some(strings_view(argv@)),
                None => None,
            },
        ));
    }
    s
}

/// The schema validation record and its audit entry for a validation of
/// `expected_schema` on behalf of `task_id`: the errors as a JSON array of
/// `{message, path}` objects, and an event that says whether it passed.
pub fn schema_validation_records(
    task_id: &str,
    request_id: &Option<String>,
    expected_schema: &str,
    result: &SchemaValidationResult,
) -> (r: (SchemaValidationRecord, AuditEventInput))
    ensures
        r.0.task_id@ == task_id@,
        r.0.request_id == *request_id,
        r.0.expected_schema@ == expected_schema@,
        r.0.valid == result.valid,
        r.0.errors_json@ == "["@ + error_objects(errors_view(result.errors@)) + "]"@,
        r.1.task_id@ == task_id@,
        r.1.event_type@ == if result.valid {
            "schema_validation_passed"@
        } else {
            "schema_validation_failed"@
        },
        r.1.summary@ == "Schema validation for "@ + expected_schema@,
        r.1.payload_json@ == validation_payload(
            result.expected_schema@,
            result.valid,
            errors_view(result.errors@),
            task_id@,
            opt_view(*request_id),
        ),
{
    let payload = match request_id {
        Some(r) => result.to_payload(task_id, Some(r.as_str())),
        None => result.to_payload(task_id, None),
    };
    let errors_json = concat3("[", write_error_objects(&result.errors).as_str(), "]");
    let record = SchemaValidationRecord {
        task_id: owned(task_id),
        request_id: match request_id {
            Some(r) => Some(r.clone()),
            None => None,
        },
        expected_schema: owned(expected_schema),
        valid: result.valid,
        errors_json,
    };
    let audit = AuditEventInput {
        task_id: owned(task_id),
        event_type: if result.valid {
            owned("schema_validation_passed")
        } else {
            owned("schema_validation_failed")
        },
        summary: concat2("Schema validation for ", expected_schema),
        payload_json: payload,
    };
    (record, audit)
}

/// The order of the merge, stated on the three verdicts: a policy denial
/// wins; then a fatal error from any side; then a denial from any side;
/// then a required approval; then a retryable error; the merge allows only
/// when all three do.
pub proof fn lemma_merge_order(
    schema: RuntimeDecisionValue,
    state: RuntimeDecisionValue,
    policy: RuntimeDecisionValue,
)
    ensures
        ({
            let m = merge_spec(EngineResults { schema, state, policy });
            let any = |v: RuntimeDecisionValue| schema == v || state == v || policy == v;
            &&& policy == RuntimeDecisionValue::Deny ==> m == RuntimeDecisionValue::Deny
            &&& any(RuntimeDecisionValue::FatalError) && policy != RuntimeDecisionValue::Deny ==> m
                == RuntimeDecisionValue::FatalError
            &&& any(RuntimeDecisionValue::Deny) && !any(RuntimeDecisionValue::FatalError) ==> m
                == RuntimeDecisionValue::Deny
            &&& any(RuntimeDecisionValue::RequireApproval) && !any(RuntimeDecisionValue::Deny)
                && !any(RuntimeDecisionValue::FatalError) ==> m
                == RuntimeDecisionValue::RequireApproval
            &&& any(RuntimeDecisionValue::RetryableError) && !any(RuntimeDecisionValue::Deny)
                && !any(RuntimeDecisionValue::FatalError) && !any(
                RuntimeDecisionValue::RequireApproval,
            ) ==> m == RuntimeDecisionValue::RetryableError
            &&& schema == RuntimeDecisionValue::Allow && state == RuntimeDecisionValue::Allow
                && policy == RuntimeDecisionValue::Allow ==> m == RuntimeDecisionValue::Allow
        }),
{
}

/// The wire names of the permission levels, each level its own name:
/// `L0_READONLY`, `L1_DIFF_REVIEW`, `L2_PATCH_ONLY`, `L3_ISOLATED_WORKTREE`.
/// The diff review is asked for as `call_reasonix_tool`; every other
/// operation under its own name.
pub proof fn lemma_wire_names(a: PermissionLevel, b: PermissionLevel, operation: Seq<char>)
    ensures
        permission_name(PermissionLevel::L0Readonly) == "L0_READONLY"@,
        permission_name(PermissionLevel::L1DiffReview) == "L1_DIFF_REVIEW"@,
        permission_name(PermissionLevel::L2PatchOnly) == "L2_PATCH_ONLY"@,
        permission_name(PermissionLevel::L3IsolatedWorktree) == "L3_ISOLATED_WORKTREE"@,
        permission_name(a) == permission_name(b) ==> a == b,
        operation_name_spec("reasonix.review_diff"@) == "call_reasonix_tool"@,
        operation != "reasonix.review_diff"@ ==> operation_name_spec(operation) == operation,
{
    reveal_strlit("L0_READONLY");
    reveal_strlit("L1_DIFF_REVIEW");
    reveal_strlit("L2_PATCH_ONLY");
    reveal_strlit("L3_ISOLATED_WORKTREE");
    if permission_name(a) == permission_name(b) && a != b {
        assert(permission_name(a)[1] == permission_name(b)[1]);
    }
}

} // verus!
