//! The tool execution pipeline's decisions: validate input, resolve ids,
//! pass the runtime gate, invoke the backend, validate its output and the
//! wrapper, close the lifecycle. The caller performs each step and reports
//! back; this module says what comes next and what text is written.
use vstd::prelude::*;

use crate::json::{json_quote, quote, string_array, write_string_array};
use crate::policy::RuntimeDecisionValue;
use crate::schema::{errors_view, SchemaValidationResult};
use crate::text::{clone_opt, concat2, concat3, has_prefix, join_with, opt_view, owned, strings_view};
use crate::tools::ReviewDiffInput;

verus! {

/// The artifact paths a tool invocation reads and writes.
#[derive(Debug, Clone)]
pub struct ArtifactPaths {
    pub read_paths: Vec<String>,
    pub write_paths: Vec<String>,
}

/// The present items of a list of optional strings, in order.
pub open spec fn present(items: Seq<Option<String>>) -> Seq<Seq<char>>
    decreases items.len(),
{
    if items.len() == 0 {
        Seq::empty()
    } else {
        present(items.drop_last()) + match items.last() {
            Some(s) => seq![s@],
            None => Seq::empty(),
        }
    }
}

impl ArtifactPaths {
    /// Reads `required` and each present optional path, writes nothing.
    pub fn collect_read(required: &str, optional: &Vec<Option<String>>) -> (r: Self)
        ensures
            strings_view(r.read_paths@) == seq![required@] + present(optional@),
            r.write_paths@.len() == 0,
    {
        let mut read: Vec<String> = Vec::new();
        read.push(owned(required));
        let mut i: usize = 0;
        while i < optional.len()
            invariant
                i <= optional.len(),
                strings_view(read@) == seq![required@] + present(optional@.subrange(0, i as int)),
            decreases optional.len() - i,
        {
            proof {
                assert(optional@.subrange(0, i + 1).drop_last() =~= optional@.subrange(0, i as int));
            }
            let ghost before = read@;
            match &optional[i] {
                Some(p) => {
                    let item = owned(p.as_str());
                    read.push(item);
                    proof {
                        crate::text::lemma_strings_view_push(before, item);
                    }
                },
                None => {},
            }
            assert(strings_view(read@) =~= seq![required@] + present(optional@.subrange(0, i + 1)));
            i = i + 1;
        }
        assert(optional@.subrange(0, optional.len() as int) =~= optional@);
        ArtifactPaths { read_paths: read, write_paths: Vec::new() }
    }

    /// The same reads with `write_paths` as the writes.
    pub fn with_write(self, write_paths: Vec<String>) -> (r: Self)
        ensures
            r.read_paths == self.read_paths,
            r.write_paths == write_paths,
    {
        ArtifactPaths { read_paths: self.read_paths, write_paths }
    }
}

/// A validation failure of a backend's output.
#[derive(Debug, Clone)]
pub struct ValidationError {
    pub path: String,
    pub message: String,
}

impl ValidationError {
    pub fn new(path: &str, message: &str) -> (r: Self)
        ensures
            r.path@ == path@,
            r.message@ == message@,
    {
        ValidationError { path: owned(path), message: owned(message) }
    }
}

/// One schema error as text: the message, after its path when it has one.
pub open spec fn error_detail(e: (Seq<char>, Seq<char>)) -> Seq<char> {
    if e.0.len() == 0 {
        e.1
    } else {
        e.0 + ": "@ + e.1
    }
}

/// The failure text of a schema validation.
pub open spec fn schema_failure_text(schema_name: Seq<char>, errors: Seq<(Seq<char>, Seq<char>)>) -> Seq<char> {
    "schema_validation_failed: "@ + schema_name + ": "@ + join_with(
        errors.map_values(|e: (Seq<char>, Seq<char>)| error_detail(e)),
        "; "@,
    )
}

/// Describes the errors of a failed schema validation.
pub fn format_schema_errors(schema_name: &str, result: &SchemaValidationResult) -> (r: String)
    ensures
        r@ == schema_failure_text(schema_name@, errors_view(result.errors@)),
{
    let mut details: Vec<String> = Vec::new();
    let ghost views = errors_view(result.errors@);
    let ghost want = views.map_values(|e: (Seq<char>, Seq<char>)| error_detail(e));
    let mut i: usize = 0;
    while i < result.errors.len()
        invariant
            i <= result.errors.len(),
            views == errors_view(result.errors@),
            want == views.map_values(|e: (Seq<char>, Seq<char>)| error_detail(e)),
            details@.len() == i,
            forall|k: int| 0 <= k < i ==> (#[trigger] details@[k])@ == want[k],
        decreases result.errors.len() - i,
    {
        let e = &result.errors[i];
        let d = if e.path.unicode_len() == 0 {
            owned(e.message.as_str())
        } else {
            concat3(e.path.as_str(), ": ", e.message.as_str())
        };
        proof {
            assert(views[i as int] == (e.path@, e.message@));
        }
        details.push(d);
        i = i + 1;
    }
    assert(strings_view(details@) =~= want);
    let joined = crate::text::join_strings(&details, "; ");
    let mut out = concat3("schema_validation_failed: ", schema_name, ": ");
    out.append(joined.as_str());
    out
}

/// The result file a review writes: named after the request, or `auto`.
pub open spec fn result_path(request_id: Option<Seq<char>>) -> Seq<char> {
    ".agent/results/"@ + match request_id {
        Some(r) => r,
        None => "auto"@,
    } + ".json"@
}

/// The paths a review_diff request touches: it reads the diff and the
/// optional context, test log and build log; it writes its result file.
pub fn review_artifact_paths(input: &ReviewDiffInput) -> (r: ArtifactPaths)
    ensures
        strings_view(r.read_paths@) == seq![input.artifacts.diff_path@] + present(
            seq![
                input.artifacts.context_path,
                input.artifacts.test_log_path,
                input.artifacts.build_log_path,
            ],
        ),
        strings_view(r.write_paths@) == seq![result_path(opt_view(input.request_id))],
{
    let mut optional: Vec<Option<String>> = Vec::new();
    optional.push(clone_opt(&input.artifacts.context_path));
    optional.push(clone_opt(&input.artifacts.test_log_path));
    optional.push(clone_opt(&input.artifacts.build_log_path));
    let paths = ArtifactPaths::collect_read(input.artifacts.diff_path.as_str(), &optional);
    proof {
        let want = seq![
            input.artifacts.context_path,
            input.artifacts.test_log_path,
            input.artifacts.build_log_path,
        ];
        assert(present(optional@) == present(want)) by {
            assert(optional@.subrange(0, 2).drop_last() =~= optional@.subrange(0, 1));
            assert(want.subrange(0, 2).drop_last() =~= want.subrange(0, 1));
            assert(optional@.drop_last() =~= optional@.subrange(0, 2));
            assert(want.drop_last() =~= want.subrange(0, 2));
            assert(optional@.subrange(0, 1).drop_last() =~= Seq::<Option<String>>::empty());
            assert(want.subrange(0, 1).drop_last() =~= Seq::<Option<String>>::empty());
            assert(present(optional@.subrange(0, 1)) == present(want.subrange(0, 1)));
            assert(present(optional@.subrange(0, 2)) == present(want.subrange(0, 2)));
        }
    }
    let name = match &input.request_id {
        Some(r) => r.as_str(),
        None => "auto",
    };
    let mut writes: Vec<String> = Vec::new();
    writes.push(concat3(".agent/results/", name, ".json"));
    assert(strings_view(writes@) =~= seq![result_path(opt_view(input.request_id))]);
    paths.with_write(writes)
}

/// A lower-case hexadecimal digit.
pub open spec fn is_lower_hex(c: char) -> bool {
    ('0' <= c && c <= '9') || ('a' <= c && c <= 'f')
}

/// The hyphenated lower-case text of a version 4 UUID: groups of 8, 4, 4,
/// 4 and 12 hex digits joined by `-`, the version digit `4`, and the
/// variant digit one of `8`, `9`, `a`, `b`.
pub open spec fn is_v4_uuid_text(u: Seq<char>) -> bool {
    &&& u.len() == 36
    &&& forall|i: int|
        0 <= i < 36 ==> if i == 8 || i == 13 || i == 18 || i == 23 {
            u[i] == '-'
        } else {
            is_lower_hex(#[trigger] u[i])
        }
    &&& u[14] == '4'
    &&& (u[19] == '8' || u[19] == '9' || u[19] == 'a' || u[19] == 'b')
}

/// A fresh random UUID from `uuid::Uuid::new_v4`, written by its `Display`
/// impl: hyphenated lower-case hex with the version and variant bits set.
/// Which UUID comes back is left open.
#[verifier::external_body]
fn fresh_uuid() -> (r: String)
    ensures
        is_v4_uuid_text(r@),
{
    uuid::Uuid::new_v4().to_string()
}

/// An id as given, or a fresh one: `prefix` followed by a random UUID.
pub fn resolve_id(given: Option<String>, prefix: &str) -> (r: String)
    ensures
        match given {
            Some(id) => r@ == id@,
            None => has_prefix(r@, prefix@) && is_v4_uuid_text(r@.subrange(prefix@.len() as int, r@.len() as int)),
        },
{
    match given {
        Some(id) => id,
        None => {
            let u = fresh_uuid();
            let r = concat2(prefix, u.as_str());
            assert(r@.subrange(0, prefix@.len() as int) =~= prefix@);
            assert(r@.subrange(prefix@.len() as int, r@.len() as int) =~= u@);
            r
        },
    }
}

/// Whether callers must name their task and request.
#[derive(Debug, Clone, Copy)]
pub struct ExecutionPlan {
    pub require_external_ids: bool,
    pub has_task_id: bool,
    pub has_request_id: bool,
}

/// Where an execution stands.
#[derive(Debug, Clone, Copy, PartialEq, Eq, Structural)]
pub enum ExecStage {
    ValidatingInput,
    Gating,
    AwaitingBackend,
    ValidatingOutput,
    ValidatingWrapper,
    Completing,
    Finished,
}

/// What the caller reports after doing the last action.
#[derive(Debug, Clone, Copy, PartialEq, Eq, Structural)]
pub enum ExecEvent {
    /// The input matched its schema, or not.
    InputChecked(bool),
    /// The runtime gate decided.
    Gated(RuntimeDecisionValue),
    /// The backend returned an output, or failed.
    BackendReturned(bool),
    /// The backend's output passed its validation, or not.
    OutputChecked(bool),
    /// The wrapper matched the output schema, or not.
    WrapperChecked(bool),
    /// The lifecycle was closed.
    Completed,
}

/// Why an operation is recorded as failed.
#[derive(Debug, Clone, Copy, PartialEq, Eq, Structural)]
pub enum FailureCode {
    WorkerUnavailable,
    WorkerSchemaInvalid,
}

pub open spec fn failure_code_name(c: FailureCode) -> Seq<char> {
    match c {
        FailureCode::WorkerUnavailable => "worker_unavailable"@,
        FailureCode::WorkerSchemaInvalid => "worker_schema_invalid"@,
    }
}

impl FailureCode {
    pub fn name(&self) -> (r: &'static str)
        ensures
            r@ == failure_code_name(*self),
    {
        match self {
            FailureCode::WorkerUnavailable => "worker_unavailable",
            FailureCode::WorkerSchemaInvalid => "worker_schema_invalid",
        }
    }
}

/// What the caller does next.
#[derive(Debug, Clone, Copy, PartialEq, Eq, Structural)]
pub enum ExecAction {
    /// Refuse the call: the input does not match its schema.
    RejectInput,
    /// Refuse the call: a task id is required.
    RejectMissingTaskId,
    /// Refuse the call: a request id is required.
    RejectMissingRequestId,
    /// Resolve the ids and ask the runtime gate.
    EvaluateGate,
    /// Record that approval is required and answer so.
    ReportApprovalRequired,
    /// Record the denial and answer with an error.
    ReportDenied,
    /// Call the backend.
    InvokeBackend,
    /// Validate the backend's output.
    ValidateOutput,
    /// Build the wrapper and validate it against the output schema.
    ValidateWrapper,
    /// Record the operation as failed with this code and answer with an error.
    FailOperation(FailureCode),
    /// Close the operation's lifecycle.
    CompleteOperation,
    /// Answer with the wrapper.
    RespondSuccess,
}

/// The events a stage expects.
pub open spec fn exec_event_fits(stage: ExecStage, event: ExecEvent) -> bool {
    match stage {
        ExecStage::ValidatingInput => event is InputChecked,
        ExecStage::Gating => event is Gated,
        ExecStage::AwaitingBackend => event is BackendReturned,
        ExecStage::ValidatingOutput => event is OutputChecked,
        ExecStage::ValidatingWrapper => event is WrapperChecked,
        ExecStage::Completing => event is Completed,
        ExecStage::Finished => false,
    }
}

/// One step of the pipeline.
pub open spec fn exec_step(plan: ExecutionPlan, stage: ExecStage, event: ExecEvent) -> (ExecStage, ExecAction) {
    match (stage, event) {
        (ExecStage::ValidatingInput, ExecEvent::InputChecked(valid)) => if !valid {
            (ExecStage::Finished, ExecAction::RejectInput)
        } else if plan.require_external_ids && !plan.has_task_id {
            (ExecStage::Finished, ExecAction::RejectMissingTaskId)
        } else if plan.require_external_ids && !plan.has_request_id {
            (ExecStage::Finished, ExecAction::RejectMissingRequestId)
        } else {
            (ExecStage::Gating, ExecAction::EvaluateGate)
        },
        (ExecStage::Gating, ExecEvent::Gated(d)) => match d {
            RuntimeDecisionValue::RequireApproval => (ExecStage::Finished, ExecAction::ReportApprovalRequired),
            RuntimeDecisionValue::Allow => (ExecStage::AwaitingBackend, ExecAction::InvokeBackend),
            _ => (ExecStage::Finished, ExecAction::ReportDenied),
        },
        (ExecStage::AwaitingBackend, ExecEvent::BackendReturned(ok)) => if ok {
            (ExecStage::ValidatingOutput, ExecAction::ValidateOutput)
        } else {
            (ExecStage::Finished, ExecAction::FailOperation(FailureCode::WorkerUnavailable))
        },
        (ExecStage::ValidatingOutput, ExecEvent::OutputChecked(ok)) => if ok {
            (ExecStage::ValidatingWrapper, ExecAction::ValidateWrapper)
        } else {
            (ExecStage::Finished, ExecAction::FailOperation(FailureCode::WorkerSchemaInvalid))
        },
        (ExecStage::ValidatingWrapper, ExecEvent::WrapperChecked(ok)) => if ok {
            (ExecStage::Completing, ExecAction::CompleteOperation)
        } else {
            (ExecStage::Finished, ExecAction::FailOperation(FailureCode::WorkerSchemaInvalid))
        },
        (ExecStage::Completing, ExecEvent::Completed) => (ExecStage::Finished, ExecAction::RespondSuccess),
        _ => (ExecStage::Finished, ExecAction::RejectInput),
    }
}

/// One tool execution.
#[derive(Debug, Clone, Copy)]
pub struct Execution {
    pub plan: ExecutionPlan,
    pub stage: ExecStage,
}

impl Execution {
    /// An execution waiting for its input check.
    pub fn new(plan: ExecutionPlan) -> (r: Self)
        ensures
            r.plan == plan,
            r.stage == ExecStage::ValidatingInput,
    {
        Execution { plan, stage: ExecStage::ValidatingInput }
    }

    /// Takes `event` and says what to do next; see `exec_step`.
    pub fn step(&mut self, event: ExecEvent) -> (action: ExecAction)
        requires
            exec_event_fits(old(self).stage, event),
        ensures
            final(self).plan == old(self).plan,
            (final(self).stage, action) == exec_step(old(self).plan, old(self).stage, event),
    {
        let (stage, action) = match (self.stage, event) {
            (ExecStage::ValidatingInput, ExecEvent::InputChecked(valid)) => {
                if !valid {
                    (ExecStage::Finished, ExecAction::RejectInput)
                } else if self.plan.require_external_ids && !self.plan.has_task_id {
                    (ExecStage::Finished, ExecAction::RejectMissingTaskId)
                } else if self.plan.require_external_ids && !self.plan.has_request_id {
                    (ExecStage::Finished, ExecAction::RejectMissingRequestId)
                } else {
                    (ExecStage::Gating, ExecAction::EvaluateGate)
                }
            },
            (ExecStage::Gating, ExecEvent::Gated(d)) => match d {
                RuntimeDecisionValue::RequireApproval => (
                    ExecStage::Finished,
                    ExecAction::ReportApprovalRequired,
                ),
                RuntimeDecisionValue::Allow => (ExecStage::AwaitingBackend, ExecAction::InvokeBackend),
                _ => (ExecStage::Finished, ExecAction::ReportDenied),
            },
            (ExecStage::AwaitingBackend, ExecEvent::BackendReturned(ok)) => {
                if ok {
                    (ExecStage::ValidatingOutput, ExecAction::ValidateOutput)
                } else {
                    (ExecStage::Finished, ExecAction::FailOperation(FailureCode::WorkerUnavailable))
                }
            },
            (ExecStage::ValidatingOutput, ExecEvent::OutputChecked(ok)) => {
                if ok {
                    (ExecStage::ValidatingWrapper, ExecAction::ValidateWrapper)
                } else {
                    (ExecStage::Finished, ExecAction::FailOperation(FailureCode::WorkerSchemaInvalid))
                }
            },
            (ExecStage::ValidatingWrapper, ExecEvent::WrapperChecked(ok)) => {
                if ok {
                    (ExecStage::Completing, ExecAction::CompleteOperation)
                } else {
                    (ExecStage::Finished, ExecAction::FailOperation(FailureCode::WorkerSchemaInvalid))
                }
            },
            (ExecStage::Completing, ExecEvent::Completed) => (
                ExecStage::Finished,
                ExecAction::RespondSuccess,
            ),
            _ => (ExecStage::Finished, ExecAction::RejectInput),
        };
        self.stage = stage;
        action
    }
}

/// The backend is invoked only as the answer to a gate decision that
/// allows the operation.
pub proof fn lemma_backend_only_after_allow(plan: ExecutionPlan, stage: ExecStage, event: ExecEvent)
    requires
        exec_event_fits(stage, event),
        exec_step(plan, stage, event).1 == ExecAction::InvokeBackend,
    ensures
        stage == ExecStage::Gating,
        event == ExecEvent::Gated(RuntimeDecisionValue::Allow),
{
}

/// The lifecycle is closed only after the wrapper matched the output
/// schema, and success is answered only after the lifecycle closed.
pub proof fn lemma_completion_only_after_valid_wrapper(
    plan: ExecutionPlan,
    stage: ExecStage,
    event: ExecEvent,
)
    requires
        exec_event_fits(stage, event),
    ensures
        exec_step(plan, stage, event).1 == ExecAction::CompleteOperation ==> stage
            == ExecStage::ValidatingWrapper && event == ExecEvent::WrapperChecked(true),
        exec_step(plan, stage, event).1 == ExecAction::RespondSuccess ==> stage
            == ExecStage::Completing,
{
}

/// Every run of the pipeline ends: each step moves to a later stage.
pub open spec fn stage_rank(s: ExecStage) -> int {
    match s {
        ExecStage::ValidatingInput => 0,
        ExecStage::Gating => 1,
        ExecStage::AwaitingBackend => 2,
        ExecStage::ValidatingOutput => 3,
        ExecStage::ValidatingWrapper => 4,
        ExecStage::Completing => 5,
        ExecStage::Finished => 6,
    }
}

/// Each step moves the pipeline to a later stage, so it finishes after at
/// most six steps.
pub proof fn lemma_pipeline_progresses(plan: ExecutionPlan, stage: ExecStage, event: ExecEvent)
    requires
        exec_event_fits(stage, event),
    ensures
        stage_rank(exec_step(plan, stage, event).0) > stage_rank(stage),
{
}

/// The message refusing a call without a task id.
pub fn missing_task_id_message() -> (r: &'static str)
    ensures
        r@ == "task_id is required when COAGENT_REQUIRE_EXTERNAL_IDS=true"@,
{
    "task_id is required when COAGENT_REQUIRE_EXTERNAL_IDS=true"
}

/// The message refusing a call without a request id.
pub fn missing_request_id_message() -> (r: &'static str)
    ensures
        r@ == "request_id is required when COAGENT_REQUIRE_EXTERNAL_IDS=true"@,
{
    "request_id is required when COAGENT_REQUIRE_EXTERNAL_IDS=true"
}

/// The audit summary when approval is required for `operation`.
pub fn approval_summary(operation: &str) -> (r: String)
    ensures
        r@ == "Approval required for "@ + operation@,
{
    concat2("Approval required for ", operation)
}

/// The audit payload when approval is required, keys sorted.
pub open spec fn approval_payload_text(task_id: Seq<char>, request_id: Seq<char>, reasons: Seq<Seq<char>>) -> Seq<char> {
    "{\"reasons\":"@ + string_array(reasons) + ",\"request_id\":"@ + json_quote(request_id)
        + ",\"task_id\":"@ + json_quote(task_id) + "}"@
}

/// The answer when approval is required, keys sorted.
pub open spec fn approval_response_text(task_id: Seq<char>, request_id: Seq<char>, reasons: Seq<Seq<char>>) -> Seq<char> {
    "{\"reasons\":"@ + string_array(reasons) + ",\"request_id\":"@ + json_quote(request_id)
        + ",\"status\":\"approval_required\",\"task_id\":"@ + json_quote(task_id) + "}"@
}

/// The audit payload recording that approval is required.
pub fn approval_payload(task_id: &str, request_id: &str, reasons: &Vec<String>) -> (r: String)
    ensures
        r@ == approval_payload_text(task_id@, request_id@, strings_view(reasons@)),
{
    let mut out = owned("{\"reasons\":");
    out.append(write_string_array(reasons).as_str());
    out.append(",\"request_id\":");
    out.append(quote(request_id).as_str());
    out.append(",\"task_id\":");
    out.append(quote(task_id).as_str());
    out.append("}");
    out
}

/// The answer telling the caller that approval is required.
pub fn approval_response(task_id: &str, request_id: &str, reasons: &Vec<String>) -> (r: String)
    ensures
        r@ == approval_response_text(task_id@, request_id@, strings_view(reasons@)),
{
    let mut out = owned("{\"reasons\":");
    out.append(write_string_array(reasons).as_str());
    out.append(",\"request_id\":");
    out.append(quote(request_id).as_str());
    out.append(",\"status\":\"approval_required\",\"task_id\":");
    out.append(quote(task_id).as_str());
    out.append("}");
    out
}

/// How Rust's `Debug` writes a list of strings, as `format!("{:?}")` does.
pub uninterp spec fn debug_list(items: Seq<Seq<char>>) -> Seq<char>;

/// Formats `items` with `{:?}`.
#[verifier::external_body]
fn debug_strings(items: &Vec<String>) -> (r: String)
    ensures
        r@ == debug_list(strings_view(items@)),
{
    format!("{:?}", items)
}

/// The audit summary of a denial.
pub fn denial_summary(reasons: &Vec<String>) -> (r: String)
    ensures
        r@ == "Policy denied: "@ + debug_list(strings_view(reasons@)),
{
    concat2("Policy denied: ", debug_strings(reasons).as_str())
}

/// The error text answering a denial.
pub fn denial_text(reasons: &Vec<String>) -> (r: String)
    ensures
        r@ == "runtime_policy_denied: "@ + debug_list(strings_view(reasons@)),
{
    concat2("runtime_policy_denied: ", debug_strings(reasons).as_str())
}

/// The audit payload of a denial: the reasons as a JSON array.
pub fn denial_payload(reasons: &Vec<String>) -> (r: String)
    ensures
        r@ == string_array(strings_view(reasons@)),
{
    write_string_array(reasons)
}

/// The error text answering an output that failed validation.
pub fn output_invalid_text(e: &ValidationError) -> (r: String)
    ensures
        r@ == "worker_schema_invalid: "@ + e.path@ + ": "@ + e.message@,
{
    let mut out = concat2("worker_schema_invalid: ", e.path.as_str());
    out.append(": ");
    out.append(e.message.as_str());
    out
}

} // verus!
