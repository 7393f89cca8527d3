use coagent::artifact::RealPathProbe;
use coagent::policy::{
    ApprovalPolicy, BackendBinding, PermissionLevel, PolicyEngine, ResourceProbes, ResourceSet,
    RuntimeDecisionValue, RuntimeOperationRequest, ToolCapabilities, ToolDefinition, ToolRegistry,
};

const REPO: &str = "/tmp/coagent-policy-repo";

fn review_diff_engine() -> PolicyEngine {
    PolicyEngine::from_tool_registry(REPO, Some(REPO.to_string()), ToolRegistry::review_diff())
        .expect("policy engine")
}

fn review_diff_request() -> RuntimeOperationRequest {
    RuntimeOperationRequest {
        task_id: "TASK-policy".to_string(),
        request_id: Some("REQ-policy".to_string()),
        operation: "reasonix.review_diff".to_string(),
        permission_level: PermissionLevel::L1DiffReview,
        resources: ResourceSet {
            read_paths: vec![".agent/diffs/current.diff".to_string()],
            write_paths: vec![".agent/results/review.json".to_string()],
            network: false,
        },
    }
}

/// Nothing of the candidates exists on disk, so no path can escape.
fn fresh_probes(request: &RuntimeOperationRequest) -> ResourceProbes {
    ResourceProbes {
        read: request.resources.read_paths.iter().map(|_| RealPathProbe::NothingExists).collect(),
        write: request.resources.write_paths.iter().map(|_| RealPathProbe::NothingExists).collect(),
    }
}

#[test]
fn policy_engine_permission_mismatch_is_denied() {
    let engine = review_diff_engine();
    let mut request = review_diff_request();
    request.permission_level = PermissionLevel::L0Readonly;

    let result = engine.evaluate(&request, &fresh_probes(&request));

    assert_eq!(result.decision, RuntimeDecisionValue::Deny);
    assert!(result.reasons.iter().any(|reason| reason.contains("permission")));
    assert_eq!(
        result.reasons,
        vec!["permission level does not match reasonix.review_diff".to_string()]
    );
}

#[test]
fn policy_engine_network_request_is_denied_by_default() {
    let engine = review_diff_engine();
    let mut request = review_diff_request();
    request.resources.network = true;

    let result = engine.evaluate(&request, &fresh_probes(&request));

    assert_eq!(result.decision, RuntimeDecisionValue::Deny);
    assert!(result.reasons.iter().any(|reason| reason.contains("network")));
}

#[test]
fn denied_path_blocks_operation() {
    let engine = review_diff_engine();
    let mut request = review_diff_request();
    request.resources.read_paths = vec![".agent/secrets/token.txt".to_string()];

    let result = engine.evaluate(&request, &fresh_probes(&request));

    assert_eq!(result.decision, RuntimeDecisionValue::Deny);
    assert!(result.reasons.iter().any(|reason| reason.contains("read path")));
    assert_eq!(result.reasons, vec!["read path denied: DeniedByDenylist".to_string()]);
}

#[test]
fn allowed_review_diff_request_passes() {
    let engine = review_diff_engine();
    let request = review_diff_request();

    let result = engine.evaluate(&request, &fresh_probes(&request));

    assert_eq!(result.decision, RuntimeDecisionValue::Allow);
    assert!(result.reasons.is_empty());
}

#[test]
fn unknown_operation_is_denied() {
    let engine = review_diff_engine();
    let mut request = review_diff_request();
    request.operation = "agent.unknown".to_string();

    let result = engine.evaluate(&request, &fresh_probes(&request));

    assert_eq!(result.decision, RuntimeDecisionValue::Deny);
    assert!(result.reasons.iter().any(|reason| reason.contains("unknown operation")));
    assert_eq!(result.reasons, vec!["unknown operation agent.unknown".to_string()]);
}

#[test]
fn policy_engine_uses_registry_defined_capabilities_per_tool() {
    let registry = ToolRegistry::new().register(ToolDefinition::new(
        "agent.docs_read",
        PermissionLevel::L0Readonly,
        BackendBinding::Mock,
        ApprovalPolicy::Never,
        "docs_read_input_v1",
        "docs_read_result_v1",
        ToolCapabilities {
            read_allow: vec!["docs/**".to_string()],
            write_allow: vec![],
            deny: vec![".git/**".to_string()],
            network: false,
        },
    ));
    let engine =
        PolicyEngine::from_tool_registry(REPO, Some(REPO.to_string()), registry).expect("policy engine");

    let allowed_request = RuntimeOperationRequest {
        task_id: "TASK-docs".to_string(),
        request_id: Some("REQ-docs".to_string()),
        operation: "agent.docs_read".to_string(),
        permission_level: PermissionLevel::L0Readonly,
        resources: ResourceSet {
            read_paths: vec!["docs/coagent/README.md".to_string()],
            write_paths: vec![],
            network: false,
        },
    };
    let allowed = engine.evaluate(&allowed_request, &fresh_probes(&allowed_request));
    assert_eq!(allowed.decision, RuntimeDecisionValue::Allow);

    let denied_request = RuntimeOperationRequest {
        task_id: "TASK-docs".to_string(),
        request_id: Some("REQ-docs-denied".to_string()),
        operation: "agent.docs_read".to_string(),
        permission_level: PermissionLevel::L0Readonly,
        resources: ResourceSet {
            read_paths: vec!["crates/coagent-runtime-core/src/lib.rs".to_string()],
            write_paths: vec![],
            network: false,
        },
    };
    let denied = engine.evaluate(&denied_request, &fresh_probes(&denied_request));
    assert_eq!(denied.decision, RuntimeDecisionValue::Deny);
    assert!(denied.reasons.iter().any(|reason| reason.contains("read path")));
}

#[test]
fn missing_repo_root_is_refused_for_every_registry() {
    assert!(PolicyEngine::from_tool_registry(REPO, None, ToolRegistry::review_diff()).is_err());
}
