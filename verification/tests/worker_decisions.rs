//! Decisions of the worker runtime, which checks the request document
//! against its schema before the state and the policy weigh in.
use coagent::artifact::RealPathProbe;
use coagent::basic_kernel::{
    decide, operation_request_payload, running_state_to_persist, schema_validation_records,
    StateLoad,
};
use coagent::basic_state::{TaskState, TaskStateValue};
use coagent::policy::{
    PermissionLevel, PolicyEngine, ResourceProbes, ResourceSet, RuntimeDecisionValue,
    RuntimeOperationRequest, ToolRegistry,
};
use coagent::schema::SchemaRegistry;

const REGISTRY: &str = r#"{
  "$defs": {
    "runtime_operation_request_v1": {
      "type": "object",
      "required": ["schema_version", "task_id", "operation", "permission_level", "resources"],
      "properties": {
        "schema_version": { "const": "runtime_operation_request_v1" },
        "operation": { "enum": ["call_reasonix_tool"] },
        "permission_level": { "enum": ["L0_READONLY", "L1_DIFF_REVIEW", "L2_PATCH_ONLY", "L3_ISOLATED_WORKTREE"] },
        "resources": {
          "type": "object",
          "required": ["paths"],
          "properties": {
            "paths": { "type": "array", "items": { "type": "string" } },
            "command": { "type": "array", "items": { "type": "string" } }
          }
        }
      }
    },
    "runtime_decision_v1": {
      "type": "object",
      "required": ["schema_version", "task_id", "operation", "decision", "engine_results", "reasons"],
      "properties": {
        "schema_version": { "const": "runtime_decision_v1" },
        "decision": { "enum": ["allow", "deny", "require_approval", "retryable_error", "fatal_error"] },
        "engine_results": { "type": "object", "required": ["schema", "state", "policy"] },
        "reasons": { "type": "array", "items": { "type": "string" } },
        "audit_event_id": { "type": "string" }
      }
    },
    "review_result_v1": {
      "type": "object",
      "required": ["schema_version", "verdict"],
      "properties": { "schema_version": { "const": "review_result_v1" } }
    }
  }
}"#;

fn registry() -> SchemaRegistry {
    SchemaRegistry::load_from_str("coasonix-v1.schema.json", REGISTRY).expect("schema registry loads")
}

fn allowed_request(task_id: &str, request_id: &str) -> RuntimeOperationRequest {
    RuntimeOperationRequest {
        task_id: task_id.to_string(),
        request_id: Some(request_id.to_string()),
        operation: "reasonix.review_diff".to_string(),
        permission_level: PermissionLevel::L1DiffReview,
        resources: ResourceSet {
            read_paths: vec![".agent/diffs/current.diff".to_string()],
            write_paths: vec![".agent/results/review.json".to_string()],
            network: false,
        },
    }
}

fn argv() -> Option<Vec<String>> {
    Some(vec!["reasonix".to_string(), "review-diff".to_string()])
}

/// The decision a worker reaches on `request` for a task never seen before.
fn evaluate(request: &RuntimeOperationRequest) -> coagent::basic_kernel::RuntimeDecision {
    let schema_result = registry().validate(
        "runtime_operation_request_v1",
        &operation_request_payload(request, &argv()),
    );
    let engine = PolicyEngine::from_tool_registry("/repo", Some("/repo".into()), ToolRegistry::review_diff())
        .expect("policy engine");
    let probes = ResourceProbes {
        read: request.resources.read_paths.iter().map(|_| RealPathProbe::NothingExists).collect(),
        write: request.resources.write_paths.iter().map(|_| RealPathProbe::NothingExists).collect(),
    };
    let policy = engine.evaluate(request, &probes);
    let (decision, _) = decide(request, &schema_result, StateLoad::NotFound, policy);
    decision
}

#[test]
fn allow_decision_contains_schema_state_policy_results_and_validates() {
    let mut decision = evaluate(&allowed_request("TASK-kernel", "REQ-kernel"));

    assert_eq!(decision.decision, RuntimeDecisionValue::Allow);
    assert_eq!(decision.engine_results.schema, RuntimeDecisionValue::Allow);
    assert_eq!(decision.engine_results.state, RuntimeDecisionValue::Allow);
    assert_eq!(decision.engine_results.policy, RuntimeDecisionValue::Allow);
    assert!(decision.reasons.is_empty());

    decision.audit_event_id = Some(7);
    let validation = registry().validate("runtime_decision_v1", &decision.to_payload());
    assert!(validation.valid, "runtime_decision_v1 errors: {:?}", validation.errors);
    assert_eq!(
        decision.to_payload(),
        r#"{"audit_event_id":"7","decision":"allow","engine_results":{"policy":"allow","schema":"allow","state":"allow"},"operation":"reasonix.review_diff","reasons":[],"request_id":"REQ-kernel","schema_version":"runtime_decision_v1","task_id":"TASK-kernel"}"#
    );
}

#[test]
fn unknown_operation_is_denied_by_schema_gate() {
    let mut request = allowed_request("TASK-unknown-operation", "REQ-unknown-operation");
    request.operation = "reasonix.unknown".to_string();

    let decision = evaluate(&request);

    assert_eq!(decision.decision, RuntimeDecisionValue::Deny);
    assert_eq!(decision.engine_results.schema, RuntimeDecisionValue::Deny);
    assert!(decision.reasons.iter().any(|reason| reason.contains("schema")));
    assert!(decision.reasons[0].starts_with("schema /operation: "));
}

#[test]
fn validate_schema_routes_through_kernel_registry() {
    let result = registry().validate(
        "review_result_v1",
        r#"{"schema_version":"review_result_v1","task_id":"TASK-schema","request_id":"REQ-schema","status":"ok","verdict":"pass","summary":"No findings.","confidence":0.9}"#,
    );
    assert!(result.valid, "{:?}", result.errors);

    let (record, audit) =
        schema_validation_records("TASK-schema", &Some("REQ-schema".into()), "review_result_v1", &result);
    assert!(record.valid);
    assert_eq!(record.errors_json, "[]");
    assert_eq!(audit.event_type, "schema_validation_passed");
    assert_eq!(audit.summary, "Schema validation for review_result_v1");
    assert_eq!(
        audit.payload_json,
        r#"{"errors":[],"expected_schema":"review_result_v1","request_id":"REQ-schema","schema_version":"schema_validation_result_v1","task_id":"TASK-schema","valid":true}"#
    );
}

#[test]
fn operation_request_document_is_exact() {
    assert_eq!(
        operation_request_payload(&allowed_request("TASK-doc", "REQ-doc"), &argv()),
        r#"{"operation":"call_reasonix_tool","permission_level":"L1_DIFF_REVIEW","request_id":"REQ-doc","resources":{"command":["reasonix","review-diff"],"paths":[".agent/diffs/current.diff",".agent/results/review.json"]},"schema_version":"runtime_operation_request_v1","task_id":"TASK-doc"}"#
    );
    let mut bare = allowed_request("TASK-doc", "REQ-doc");
    bare.request_id = None;
    bare.operation = "agent.docs_read".into();
    assert_eq!(
        operation_request_payload(&bare, &None),
        r#"{"operation":"agent.docs_read","permission_level":"L1_DIFF_REVIEW","resources":{"paths":[".agent/diffs/current.diff",".agent/results/review.json"]},"schema_version":"runtime_operation_request_v1","task_id":"TASK-doc"}"#
    );
}

#[test]
fn terminal_and_unreadable_tasks_are_refused_and_new_tasks_start_running() {
    let request = allowed_request("TASK-done", "REQ-done");
    let schema_result = registry().validate(
        "runtime_operation_request_v1",
        &operation_request_payload(&request, &argv()),
    );
    let allow = coagent::policy::PolicyEvaluationResult {
        decision: RuntimeDecisionValue::Allow,
        reasons: vec![],
    };
    let done = TaskState::restore("TASK-done", TaskStateValue::Completed, 0);
    let (decision, _) = decide(&request, &schema_result, StateLoad::Found(done), allow.clone());
    assert_eq!(decision.decision, RuntimeDecisionValue::Deny);
    assert_eq!(decision.reasons, vec!["task TASK-done is in terminal state Completed".to_string()]);

    let (failed, _) = decide(&request, &schema_result, StateLoad::Failed("locked".into()), allow.clone());
    assert_eq!(failed.decision, RuntimeDecisionValue::FatalError);
    assert_eq!(failed.reasons, vec!["state load failed: locked".to_string()]);

    let (fresh, current) = decide(&request, &schema_result, StateLoad::NotFound, allow);
    assert_eq!(fresh.decision, RuntimeDecisionValue::Allow);
    assert_eq!(current.value(), TaskStateValue::Created);
    let stored = running_state_to_persist("TASK-done", current).expect("state to store");
    assert_eq!(stored.value(), TaskStateValue::Running);

    let (record, audit) = fresh.audit_records(Some("sha256:abc".into()));
    assert_eq!(record.command_hash.as_deref(), Some("sha256:abc"));
    assert_eq!(audit.event_type, "runtime_decision_allow");
    assert_eq!(audit.summary, "Runtime decision Allow for reasonix.review_diff");
}

#[test]
fn storage_failure_makes_the_worker_decision_fatal() {
    let decision = evaluate(&allowed_request("TASK-store", "REQ-store"));
    assert_eq!(decision.decision, RuntimeDecisionValue::Allow);
    let reasons = decision.reasons.len();
    let failed = decision.clone().record_storage_error("disk full");
    assert_eq!(failed.decision, RuntimeDecisionValue::FatalError);
    assert_eq!(failed.reasons.len(), reasons + 1);
    assert_eq!(failed.reasons.last().map(String::as_str), Some("storage error: disk full"));
    assert_eq!(failed.engine_results, decision.engine_results);
    assert_eq!(failed.task_id, decision.task_id);
}
