use coagent::artifact::RealPathProbe;
use coagent::basic_kernel;
use coagent::canonical::{canonical_hash, canonical_json, JsonValue};
use coagent::export::{
    active_task_documents, export_task_document, task_summary_document, ActiveTaskRow,
    AttemptRow, DecisionRow, StepRow,
};
use coagent::json::{write_optional_string, write_string_array};
use coagent::kernel::{
    engine_results, lifecycle_closed_event, step_started_event, DecisionRecorder, RecordAction,
    RecordEvent, RecordStage, RuntimeKernel, StateLoad,
};
use coagent::pipeline::{ExecAction, ExecEvent, ExecStage, Execution, ExecutionPlan, FailureCode};
use coagent::policy::{
    PermissionLevel, ResourceProbes, ResourceSet, RuntimeDecisionValue, RuntimeOperationRequest,
};
use coagent::replay::{check_idempotency, replay_task_state};
use coagent::schema::{SchemaRegistry, SchemaValidationError, SchemaValidationResult};
use coagent::state::{TaskState, TaskStateValue};
use coagent::storage::RuntimeEventRecord;
use coagent::worker::{
    audit_result, check_envelope, error_response, permission_level_param,
    request_id_from_jsonrpc_id, route, success_response, Envelope, WorkerMethod,
};

#[test]
fn runtime_kernel_decision_merge_precedence_matches_blueprint() {
    assert_eq!(
        RuntimeKernel::merge_decisions(engine_results(
            RuntimeDecisionValue::RequireApproval,
            RuntimeDecisionValue::Allow,
        )),
        RuntimeDecisionValue::RequireApproval
    );
    assert_eq!(
        RuntimeKernel::merge_decisions(engine_results(
            RuntimeDecisionValue::Allow,
            RuntimeDecisionValue::RetryableError,
        )),
        RuntimeDecisionValue::RetryableError
    );
    assert_eq!(
        RuntimeKernel::merge_decisions(engine_results(
            RuntimeDecisionValue::FatalError,
            RuntimeDecisionValue::RetryableError,
        )),
        RuntimeDecisionValue::FatalError
    );
    assert_eq!(
        RuntimeKernel::merge_decisions(engine_results(
            RuntimeDecisionValue::Allow,
            RuntimeDecisionValue::Deny,
        )),
        RuntimeDecisionValue::Deny
    );
}

#[test]
fn basic_kernel_decision_merge_precedence_matches_blueprint() {
    assert_eq!(
        basic_kernel::merge_decisions(basic_kernel::engine_results(
            RuntimeDecisionValue::Allow,
            RuntimeDecisionValue::RequireApproval,
            RuntimeDecisionValue::Allow,
        )),
        RuntimeDecisionValue::RequireApproval
    );
    assert_eq!(
        basic_kernel::merge_decisions(basic_kernel::engine_results(
            RuntimeDecisionValue::Allow,
            RuntimeDecisionValue::Allow,
            RuntimeDecisionValue::RetryableError,
        )),
        RuntimeDecisionValue::RetryableError
    );
    assert_eq!(
        basic_kernel::merge_decisions(basic_kernel::engine_results(
            RuntimeDecisionValue::Allow,
            RuntimeDecisionValue::FatalError,
            RuntimeDecisionValue::RetryableError,
        )),
        RuntimeDecisionValue::FatalError
    );
    assert_eq!(
        basic_kernel::merge_decisions(basic_kernel::engine_results(
            RuntimeDecisionValue::FatalError,
            RuntimeDecisionValue::Allow,
            RuntimeDecisionValue::Deny,
        )),
        RuntimeDecisionValue::Deny
    );
}

fn allowed_request(task_id: &str) -> RuntimeOperationRequest {
    RuntimeOperationRequest {
        task_id: task_id.to_string(),
        request_id: Some("REQ-kernel".to_string()),
        operation: "reasonix.review_diff".to_string(),
        permission_level: PermissionLevel::L1DiffReview,
        resources: ResourceSet {
            read_paths: vec![".agent/diffs/current.diff".to_string()],
            write_paths: vec![".agent/results/review.json".to_string()],
            network: false,
        },
    }
}

fn probes() -> ResourceProbes {
    ResourceProbes {
        read: vec![RealPathProbe::Resolved("/repo/.agent/diffs".into())],
        write: vec![RealPathProbe::NothingExists],
    }
}

#[test]
fn kernel_allows_review_diff_for_a_new_task() {
    let kernel = RuntimeKernel::initialize("/repo", Some("/repo".into())).expect("kernel");
    let (decision, state) = kernel.decide(&allowed_request("TASK-kernel"), StateLoad::NotFound, &probes());
    assert_eq!(decision.decision, RuntimeDecisionValue::Allow);
    assert_eq!(decision.engine_results.state, RuntimeDecisionValue::Allow);
    assert_eq!(decision.engine_results.policy, RuntimeDecisionValue::Allow);
    assert!(decision.reasons.is_empty());
    assert_eq!(state.value(), TaskStateValue::Queued);
}

#[test]
fn runtime_kernel_state_denial_beats_policy_allow() {
    let kernel = RuntimeKernel::initialize("/repo", Some("/repo".into())).expect("kernel");
    let done = TaskState::restore("TASK-done", TaskStateValue::Completed, 0);
    let (decision, _) = kernel.decide(&allowed_request("TASK-done"), StateLoad::Found(done), &probes());
    assert_eq!(decision.decision, RuntimeDecisionValue::Deny);
    assert_eq!(decision.engine_results.state, RuntimeDecisionValue::Deny);
    assert_eq!(decision.engine_results.policy, RuntimeDecisionValue::Allow);
    assert_eq!(decision.reasons, vec!["task TASK-done is in terminal state Completed".to_string()]);
}

#[test]
fn unknown_operation_is_denied_by_policy_gate() {
    let kernel = RuntimeKernel::initialize("/repo", Some("/repo".into())).expect("kernel");
    let mut request = allowed_request("TASK-unknown");
    request.operation = "reasonix.unknown".into();
    let (decision, _) = kernel.decide(&request, StateLoad::NotFound, &probes());
    assert_eq!(decision.decision, RuntimeDecisionValue::Deny);
    assert!(decision.reasons.iter().any(|r| r.contains("unknown operation")));
}

#[test]
fn recording_a_decision_follows_the_store() {
    let kernel = RuntimeKernel::initialize("/repo", Some("/repo".into())).expect("kernel");
    let (decision, _) = kernel.decide(&allowed_request("TASK-rec"), StateLoad::NotFound, &probes());
    let mut recorder = DecisionRecorder::new(decision);
    assert_eq!(recorder.step(RecordEvent::StepStarted(Ok(4))), RecordAction::PersistDecision);
    assert_eq!(recorder.step_id, Some(4));
    assert_eq!(recorder.step(RecordEvent::DecisionPersisted(Ok(11))), RecordAction::WritePolicyEvent);
    assert_eq!(recorder.decision.audit_event_id, Some(11));
    assert_eq!(
        recorder.step(RecordEvent::PolicyEventWritten(Ok(()))),
        RecordAction::PersistRunningState
    );
    assert_eq!(recorder.step(RecordEvent::Finished(Ok(()))), RecordAction::Return);
    assert_eq!(recorder.stage, RecordStage::Done);
    assert_eq!(recorder.decision.decision, RuntimeDecisionValue::Allow);
    assert!(recorder
        .decision
        .policy_evaluated_event()
        .contains("\"decision\":\"allow\""));

    let (denied, _) = kernel.decide(
        &RuntimeOperationRequest {
            operation: "reasonix.unknown".into(),
            ..allowed_request("TASK-deny")
        },
        StateLoad::NotFound,
        &probes(),
    );
    let mut recorder = DecisionRecorder::new(denied);
    recorder.step(RecordEvent::StepStarted(Ok(1)));
    recorder.step(RecordEvent::DecisionPersisted(Ok(2)));
    assert_eq!(recorder.step(RecordEvent::PolicyEventWritten(Ok(()))), RecordAction::CloseStep);
    let action = recorder.step(RecordEvent::Finished(Err("disk full".into())));
    assert_eq!(action, RecordAction::Return);
    assert_eq!(recorder.decision.decision, RuntimeDecisionValue::FatalError);
    assert_eq!(recorder.decision.reasons.last().unwrap(), "storage error: disk full");
}

#[test]
fn runtime_event_payloads_are_exact() {
    assert_eq!(
        step_started_event("T", &Some("R".into()), "op"),
        r#"{"operation":"op","request_id":"R","task_id":"T"}"#
    );
    assert_eq!(
        lifecycle_closed_event("T", &None, "op", "completed"),
        r#"{"operation":"op","request_id":null,"state":"completed","task_id":"T"}"#
    );
}

#[test]
fn pipeline_invokes_backend_only_after_allow() {
    let plan = ExecutionPlan {
        require_external_ids: false,
        has_task_id: false,
        has_request_id: false,
    };
    let mut run = Execution::new(plan);
    assert_eq!(run.step(ExecEvent::InputChecked(true)), ExecAction::EvaluateGate);
    assert_eq!(
        run.step(ExecEvent::Gated(RuntimeDecisionValue::Allow)),
        ExecAction::InvokeBackend
    );
    assert_eq!(run.step(ExecEvent::BackendReturned(true)), ExecAction::ValidateOutput);
    assert_eq!(run.step(ExecEvent::OutputChecked(true)), ExecAction::ValidateWrapper);
    assert_eq!(run.step(ExecEvent::WrapperChecked(true)), ExecAction::CompleteOperation);
    assert_eq!(run.step(ExecEvent::Completed), ExecAction::RespondSuccess);
    assert_eq!(run.stage, ExecStage::Finished);

    let mut denied = Execution::new(plan);
    denied.step(ExecEvent::InputChecked(true));
    assert_eq!(
        denied.step(ExecEvent::Gated(RuntimeDecisionValue::Deny)),
        ExecAction::ReportDenied
    );
    let mut approval = Execution::new(plan);
    approval.step(ExecEvent::InputChecked(true));
    assert_eq!(
        approval.step(ExecEvent::Gated(RuntimeDecisionValue::RequireApproval)),
        ExecAction::ReportApprovalRequired
    );
    let mut failing = Execution::new(plan);
    failing.step(ExecEvent::InputChecked(true));
    failing.step(ExecEvent::Gated(RuntimeDecisionValue::Allow));
    assert_eq!(
        failing.step(ExecEvent::BackendReturned(false)),
        ExecAction::FailOperation(FailureCode::WorkerUnavailable)
    );
    assert_eq!(FailureCode::WorkerSchemaInvalid.name(), "worker_schema_invalid");
}

#[test]
fn pipeline_requires_external_ids_when_configured() {
    let strict = ExecutionPlan {
        require_external_ids: true,
        has_task_id: false,
        has_request_id: true,
    };
    let mut run = Execution::new(strict);
    assert_eq!(run.step(ExecEvent::InputChecked(true)), ExecAction::RejectMissingTaskId);
    let mut run = Execution::new(ExecutionPlan {
        has_task_id: true,
        has_request_id: false,
        ..strict
    });
    assert_eq!(run.step(ExecEvent::InputChecked(true)), ExecAction::RejectMissingRequestId);
    let mut run = Execution::new(strict);
    assert_eq!(run.step(ExecEvent::InputChecked(false)), ExecAction::RejectInput);
}

const SCHEMA: &str = r#"{
  "$defs": {
    "review_result_v1": {
      "type": "object",
      "required": ["verdict"],
      "properties": { "verdict": { "enum": ["pass", "needs_fix"] } }
    },
    "runtime_status_v1": { "type": "object" }
  }
}"#;

#[test]
fn schema_registry_validates_against_named_definitions() {
    let registry = SchemaRegistry::load_from_str("inline.json", SCHEMA).expect("registry");
    assert_eq!(registry.schema_path(), "inline.json");
    let ok = registry.validate("review_result_v1", r#"{"verdict":"pass"}"#);
    assert!(ok.valid, "{:?}", ok.errors);
    assert!(ok.errors.is_empty());
    let bad = registry.validate("review_result_v1", r#"{"verdict":"maybe"}"#);
    assert!(!bad.valid);
    assert_eq!(bad.errors[0].path, "/verdict");
    let unknown = registry.validate("unknown_schema_v1", r#"{}"#);
    assert!(!unknown.valid);
    assert!(unknown
        .errors
        .iter()
        .any(|e| e.message.contains("missing $defs/unknown_schema_v1")));
    let garbage = registry.validate("review_result_v1", "{not json");
    assert!(!garbage.valid);
    assert!(garbage.errors[0].message.starts_with("invalid JSON: "));
    let err = SchemaRegistry::load_from_str("broken.json", "{").unwrap_err();
    assert!(err.message().starts_with("invalid schema registry JSON in broken.json: "));
}

#[test]
fn schema_result_payload_is_exact() {
    let result = SchemaValidationResult {
        expected_schema: "review_result_v1".into(),
        valid: false,
        errors: vec![SchemaValidationError {
            path: "/verdict".into(),
            message: "bad".into(),
        }],
    };
    assert_eq!(
        result.to_payload("TASK-1", Some("REQ-1")),
        r#"{"errors":[{"message":"bad","path":"/verdict"}],"expected_schema":"review_result_v1","request_id":"REQ-1","schema_version":"schema_validation_result_v1","task_id":"TASK-1","valid":false}"#
    );
}

#[test]
fn worker_envelopes_and_responses() {
    let parse = check_envelope(&Envelope {
        parsed: false,
        request_shaped: false,
        id: None,
        version: String::new(),
    })
    .unwrap();
    assert_eq!(parse.0, None);
    assert_eq!(parse.1.code, -32700);
    let notification = check_envelope(&Envelope {
        parsed: true,
        request_shaped: true,
        id: None,
        version: "2.0".into(),
    })
    .unwrap();
    assert_eq!(notification.1.code, -32600);
    let old = check_envelope(&Envelope {
        parsed: true,
        request_shaped: true,
        id: Some("7".into()),
        version: "1.0".into(),
    })
    .unwrap();
    assert_eq!(old.0.as_deref(), Some("7"));
    assert!(check_envelope(&Envelope {
        parsed: true,
        request_shaped: true,
        id: Some("7".into()),
        version: "2.0".into(),
    })
    .is_none());
    assert_eq!(route("runtime.shutdown").unwrap(), WorkerMethod::Shutdown);
    assert_eq!(route("runtime.nope").unwrap_err().code, -32601);
    assert_eq!(permission_level_param("L2_PATCH_ONLY").unwrap(), PermissionLevel::L2PatchOnly);
    assert_eq!(permission_level_param("L9").unwrap_err().message, "Invalid params");
    assert_eq!(request_id_from_jsonrpc_id(Some("REQ-1")).as_deref(), Some("REQ-1"));
    assert_eq!(request_id_from_jsonrpc_id(Some("1")), None);
    assert_eq!(
        error_response(None, coagent::worker::parse_error()),
        r#"{"error":{"code":-32700,"message":"Parse error"},"id":null,"jsonrpc":"2.0"}"#
    );
    assert_eq!(
        success_response("3", r#"{"shutdown":true}"#),
        r#"{"id":3,"jsonrpc":"2.0","result":{"shutdown":true}}"#
    );
    assert_eq!(audit_result(5, 2), r#"{"id":5,"task_sequence":2}"#);
}

fn event(step: Option<i64>, seq: i64, kind: &str, payload: &str) -> RuntimeEventRecord {
    RuntimeEventRecord {
        id: seq,
        task_id: "TASK-r".into(),
        request_id: Some("REQ-r".into()),
        step_id: step,
        task_sequence: seq,
        event_type: kind.into(),
        payload_json: payload.into(),
    }
}

#[test]
fn replay_produces_correct_step_counts() {
    let events = vec![
        event(Some(1), 1, "step_started", "{}"),
        event(Some(1), 2, "policy_evaluated", r#"{"decision":"allow"}"#),
        event(Some(1), 3, "lifecycle_closed", r#"{"state":"completed"}"#),
    ];
    let replayed = replay_task_state(&events).unwrap();
    assert_eq!(replayed.steps_started, 1);
    assert_eq!(replayed.policy_decisions, 1);
    assert_eq!(replayed.steps_completed, 1);
    assert_eq!(replayed.last_decision.as_deref(), Some("allow"));
}

#[test]
fn replay_nonexistent_task() {
    assert!(replay_task_state(&vec![]).is_none());
}

#[test]
fn idempotency_detects_events() {
    let events = vec![event(Some(1), 1, "step_started", "{}")];
    assert!(check_idempotency(&events, "step_started"));
    assert!(!check_idempotency(&events, "lifecycle_closed"));
}

fn obj(pairs: Vec<(&str, JsonValue)>) -> JsonValue {
    JsonValue::Object(pairs.into_iter().map(|(k, v)| (k.to_string(), v)).collect())
}

#[test]
fn sorts_object_keys_deterministically() {
    let payload = obj(vec![
        ("z", JsonValue::Number("1".into())),
        ("a", JsonValue::Number("2".into())),
        (
            "middle",
            obj(vec![("b", JsonValue::Bool(true)), ("a", JsonValue::Bool(false))]),
        ),
    ]);
    let canonical = canonical_json(&payload).expect("canonical json");
    assert_eq!(canonical, r#"{"a":2,"middle":{"a":false,"b":true},"z":1}"#);
}

#[test]
fn equivalent_object_key_order_produces_identical_hash() {
    let left = obj(vec![
        ("schema_version", JsonValue::String("review_result_v1".into())),
        ("task_id", JsonValue::String("TASK-canonical".into())),
        ("confidence", JsonValue::Number("0.5".into())),
    ]);
    let right = obj(vec![
        ("confidence", JsonValue::Number("0.5".into())),
        ("task_id", JsonValue::String("TASK-canonical".into())),
        ("schema_version", JsonValue::String("review_result_v1".into())),
    ]);
    assert_eq!(
        canonical_hash(&left).expect("left hash"),
        canonical_hash(&right).expect("right hash")
    );
}

#[test]
fn different_payload_content_produces_different_hash() {
    let left = obj(vec![("task_id", JsonValue::String("TASK-one".into()))]);
    let right = obj(vec![("task_id", JsonValue::String("TASK-two".into()))]);
    assert_ne!(
        canonical_hash(&left).expect("left hash"),
        canonical_hash(&right).expect("right hash")
    );
}

#[test]
fn array_order_is_preserved() {
    let first = obj(vec![(
        "items",
        JsonValue::Array(vec![JsonValue::String("a".into()), JsonValue::String("b".into())]),
    )]);
    let second = obj(vec![(
        "items",
        JsonValue::Array(vec![JsonValue::String("b".into()), JsonValue::String("a".into())]),
    )]);
    assert_ne!(
        canonical_json(&first).expect("first canonical"),
        canonical_json(&second).expect("second canonical")
    );
}

#[test]
fn canonical_hash_is_prefixed_sha256() {
    let hash = canonical_hash(&JsonValue::Null).expect("hash");
    assert_eq!(
        hash,
        "sha256:74234e98afe7498fb5daf1f36ac2d78acc339464f950703b8c019892f982b90b"
    );
}

#[test]
fn export_documents_are_exact() {
    let decisions = vec![DecisionRow {
        decision: "allow".into(),
        reasons_json: "[]".into(),
        operation: "op".into(),
        request_id: None,
    }];
    let steps = vec![StepRow {
        id: 1,
        request_id: Some("R".into()),
        operation: "op".into(),
        state: "completed".into(),
    }];
    let attempts = vec![AttemptRow {
        id: 2,
        request_id: None,
        operation: "op".into(),
        backend_id: "mock".into(),
        attempt_number: 1,
        state: "succeeded".into(),
        error_json: None,
    }];
    let events = vec![event(None, 1, "step_started", "{}")];
    let doc = export_task_document(
        "T",
        TaskStateValue::Running,
        1,
        0,
        &decisions,
        &steps,
        &attempts,
        &events,
    );
    assert_eq!(
        doc,
        r#"{"agent_calls":1,"attempts":[{"attempt_number":1,"backend_id":"mock","error_json":null,"id":2,"operation":"op","request_id":null,"state":"succeeded"}],"decisions":[{"decision":"allow","operation":"op","reasons":"[]","request_id":null}],"events":[{"event_type":"step_started","payload_json":"{}","step_id":null,"task_sequence":1}],"retry_count":0,"schema_version":"coagent_export_v1","state":"running","steps":[{"id":1,"operation":"op","request_id":"R","state":"completed"}],"task_id":"T"}"#
    );
    assert_eq!(
        task_summary_document("T", TaskStateValue::Queued, 0, &vec![]),
        r#"{"agent_calls":0,"decisions":[],"state":"queued","task_id":"T"}"#
    );
    let active = active_task_documents(&vec![ActiveTaskRow {
        task_id: "T".into(),
        state: "running".into(),
        agent_calls: 2,
        step_count: 3,
        last_step_ms: Some(-4),
    }]);
    assert_eq!(
        active,
        vec![r#"{"agent_calls":2,"last_step_ms":-4,"state":"running","step_count":3,"task_id":"T"}"#.to_string()]
    );
}

#[test]
fn quoted_strings_follow_the_escape_rule() {
    assert_eq!(write_optional_string(&Some("plain".into())), "\"plain\"");
    assert_eq!(
        write_optional_string(&Some("a\"b\\c\n\t\r\u{8}\u{c}\u{1}\u{1f} é/".into())),
        "\"a\\\"b\\\\c\\n\\t\\r\\b\\f\\u0001\\u001f é/\""
    );
    assert_eq!(write_string_array(&vec!["x".into(), "y\"".into()]), "[\"x\",\"y\\\"\"]");
    assert_eq!(write_string_array(&vec![]), "[]");
    assert_eq!(write_optional_string(&None), "null");
}
