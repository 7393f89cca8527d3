//! The worker's protocol decisions, line by line: what a request line is
//! answered, given what was read of it.
use coagent::artifact::RealPathProbe;
use coagent::kernel::{RuntimeKernel, StateLoad};
use coagent::policy::{
    PermissionLevel, ResourceProbes, ResourceSet, RuntimeOperationRequest,
};
use coagent::worker::{
    audit_result, check_envelope, error_response, initialized_result, invalid_params,
    permission_level_param, request_id_from_jsonrpc_id, route, shutdown_result, success_response,
    Envelope, WorkerMethod,
};

fn request_envelope(id: Option<&str>) -> Envelope {
    Envelope {
        parsed: true,
        request_shaped: true,
        id: id.map(str::to_string),
        version: "2.0".into(),
    }
}

/// The answer to an evaluation request with JSON-RPC id `id`.
fn evaluate(id: &str, network: bool) -> String {
    let kernel = RuntimeKernel::initialize("/repo", Some("/repo".into())).expect("kernel");
    let request = RuntimeOperationRequest {
        task_id: "TASK-worker-evaluate".into(),
        request_id: request_id_from_jsonrpc_id(Some(id)),
        operation: "reasonix.review_diff".into(),
        permission_level: permission_level_param("L1_DIFF_REVIEW").expect("level"),
        resources: ResourceSet {
            read_paths: vec![".agent/diffs/current.diff".into()],
            write_paths: vec![".agent/results/review.json".into()],
            network,
        },
    };
    let probes = ResourceProbes {
        read: vec![RealPathProbe::NothingExists],
        write: vec![RealPathProbe::NothingExists],
    };
    let (decision, _) = kernel.decide(&request, StateLoad::NotFound, &probes);
    success_response(&format!("\"{id}\""), &decision.to_payload())
}

#[test]
fn valid_initialize_succeeds_after_migrations() {
    assert!(check_envelope(&request_envelope(Some("\"REQ-init\""))).is_none());
    assert_eq!(route("runtime.initialize").unwrap(), WorkerMethod::Initialize);
    assert!(RuntimeKernel::initialize("/repo", Some("/repo".into())).is_ok());
    assert_eq!(
        success_response("\"REQ-init\"", initialized_result()),
        r#"{"id":"REQ-init","jsonrpc":"2.0","result":{"initialized":true}}"#
    );
}

#[test]
fn unknown_method_is_rejected() {
    let error = route("runtime.post_v1").unwrap_err();
    assert_eq!(error.code, -32601);
    assert_eq!(
        error_response(Some("\"REQ-unknown\""), error),
        r#"{"error":{"code":-32601,"message":"Method not found"},"id":"REQ-unknown","jsonrpc":"2.0"}"#
    );
}

#[test]
fn notification_is_rejected() {
    let (id, error) = check_envelope(&request_envelope(None)).expect("refused");
    assert_eq!(error.code, -32600);
    assert_eq!(id, None);
    assert!(error_response(None, error).contains(r#""id":null"#));
}

#[test]
fn malformed_json_is_rejected_with_parse_error() {
    let (id, error) = check_envelope(&Envelope {
        parsed: false,
        request_shaped: false,
        id: None,
        version: String::new(),
    })
    .expect("refused");
    assert_eq!(error.code, -32700);
    assert_eq!(id, None);
    assert_eq!(
        error_response(None, error),
        r#"{"error":{"code":-32700,"message":"Parse error"},"id":null,"jsonrpc":"2.0"}"#
    );
}

#[test]
fn invalid_params_are_rejected() {
    let error = permission_level_param("L7_EVERYTHING").unwrap_err();
    assert_eq!(error.code, -32602);
    assert_eq!(error, invalid_params());
    assert_eq!(
        error_response(Some("\"REQ-invalid\""), error),
        r#"{"error":{"code":-32602,"message":"Invalid params"},"id":"REQ-invalid","jsonrpc":"2.0"}"#
    );
}

#[test]
fn evaluate_operation_returns_runtime_decision_v1() {
    let response = evaluate("REQ-evaluate", false);
    assert!(response.starts_with(r#"{"id":"REQ-evaluate","jsonrpc":"2.0","result":{"#));
    assert!(response.contains(r#""schema_version":"runtime_decision_v1""#));
    assert!(response.contains(r#""request_id":"REQ-evaluate""#));
    assert!(response.contains(r#""decision":"allow""#));
    assert!(response.contains(r#""engine_results":{"policy":"allow","state":"allow"}"#));
}

#[test]
fn policy_denial_still_returns_runtime_decision_result() {
    let response = evaluate("REQ-policy-deny", true);
    assert!(!response.contains(r#""error""#));
    assert!(response.contains(r#""schema_version":"runtime_decision_v1""#));
    assert!(response.contains(r#""decision":"deny""#));
    assert!(response.contains(r#""engine_results":{"policy":"deny","state":"allow"}"#));
}

#[test]
fn write_audit_returns_audit_record_after_initialize() {
    assert_eq!(route("runtime.write_audit").unwrap(), WorkerMethod::WriteAudit);
    assert_eq!(
        success_response("\"REQ-write-audit\"", &audit_result(1, 1)),
        r#"{"id":"REQ-write-audit","jsonrpc":"2.0","result":{"id":1,"task_sequence":1}}"#
    );
}

#[test]
fn stdout_contains_json_rpc_frames_only() {
    let (id, error) = check_envelope(&Envelope {
        parsed: false,
        request_shaped: false,
        id: None,
        version: String::new(),
    })
    .expect("refused");
    let frame = error_response(id.as_deref(), error);
    assert!(frame.contains(r#""jsonrpc":"2.0""#));
    assert!(frame.contains(r#""error":"#));
    assert!(!frame.contains('\n'));
}

#[test]
fn worker_shutdown_is_explicit() {
    assert_eq!(route("runtime.shutdown").unwrap(), WorkerMethod::Shutdown);
    assert_eq!(
        success_response("\"REQ-shutdown\"", shutdown_result()),
        r#"{"id":"REQ-shutdown","jsonrpc":"2.0","result":{"shutdown":true}}"#
    );
}

#[test]
fn numeric_ids_give_no_request_id_and_other_versions_are_refused() {
    assert_eq!(request_id_from_jsonrpc_id(Some("7")), None);
    assert_eq!(request_id_from_jsonrpc_id(None), None);
    let (id, error) = check_envelope(&Envelope {
        parsed: true,
        request_shaped: true,
        id: Some("7".into()),
        version: "1.0".into(),
    })
    .expect("refused");
    assert_eq!(id.as_deref(), Some("7"));
    assert_eq!(error.code, -32600);
    assert_eq!(permission_level_param("L0_READONLY").unwrap(), PermissionLevel::L0Readonly);
}
