use coagent::policy::PermissionLevel;
use coagent::tools::{
    Artifacts, RepoInfo, ReviewDiffInput, ToolSpec, ToolSpecRegistry,
};

#[test]
fn review_diff_spec_has_correct_defaults() {
    let spec = ToolSpec::review_diff();
    assert_eq!(spec.name, "coagent.review_diff");
    assert_eq!(spec.input_schema, "review_diff_input_v1");
    assert_eq!(spec.output_schema, "review_result_v1");
    assert_eq!(spec.permission_level, PermissionLevel::L1DiffReview);
    assert_eq!(spec.required_capability, "code.review.diff");
    assert!(!spec.read_paths.is_empty());
    assert!(!spec.write_paths.is_empty());
}

#[test]
fn tool_spec_registry_register_and_retrieve() {
    let mut registry = ToolSpecRegistry::new();
    registry.register(ToolSpec::review_diff());
    let spec = registry.get("coagent.review_diff").expect("found");
    assert_eq!(spec.version, "1.0.0");
}

#[test]
fn default_registry_contains_review_diff() {
    let registry = ToolSpecRegistry::default_registry();
    let names = registry.list_names();
    assert!(names.contains(&"coagent.review_diff".to_string()));
    assert!(names.contains(&"coagent.runtime_status".to_string()));
    assert_eq!(names.len(), 2);
}

#[test]
fn runtime_status_spec_is_read_only() {
    let spec = ToolSpec::runtime_status();
    assert_eq!(spec.name, "coagent.runtime_status");
    assert_eq!(spec.input_schema, "runtime_status_input_v1");
    assert_eq!(spec.output_schema, "runtime_status_v1");
    assert_eq!(spec.permission_level, PermissionLevel::L0Readonly);
    assert!(spec.read_paths.is_empty());
    assert!(spec.write_paths.is_empty());
    assert_eq!(spec.required_capability, "runtime.status");
}

#[test]
fn registry_lookup_finds_the_first_spec_of_a_name() {
    let mut registry = ToolSpecRegistry::new();
    assert!(registry.get("coagent.review_diff").is_none());
    registry.register(ToolSpec::review_diff());
    let mut shadow = ToolSpec::runtime_status();
    shadow.name = "coagent.review_diff".to_string();
    registry.register(shadow);
    let found = registry.get("coagent.review_diff").expect("found");
    assert_eq!(found.input_schema, "review_diff_input_v1");
    assert_eq!(registry.list_names().len(), 2);
    assert!(registry.get("coagent.unknown").is_none());
}

fn valid_input() -> ReviewDiffInput {
    ReviewDiffInput {
        schema_version: "review_diff_input_v1".into(),
        task_id: Some("TASK-test".into()),
        request_id: Some("REQ-test".into()),
        mode: Some("review_diff".into()),
        goal: "Test review".into(),
        repo: RepoInfo {
            root: "/test".into(),
            base_branch: None,
            working_branch: None,
        },
        artifacts: Artifacts {
            diff_path: "/test/diff".into(),
            context_path: None,
            test_log_path: None,
            build_log_path: None,
        },
        focus: vec![],
        constraints: vec![],
        budget: None,
        permission_level: "L1_DIFF_REVIEW".into(),
        output_schema: "review_result_v1".into(),
    }
}

#[test]
fn valid_input_passes() {
    assert!(valid_input().validate().is_ok());
}

#[test]
fn rejects_wrong_schema_version() {
    let mut input = valid_input();
    input.schema_version = "wrong".into();
    let _ok = input.validate().unwrap();
}

#[test]
fn rejects_empty_goal() {
    let mut input = valid_input();
    input.goal = "".into();
    assert!(input.validate().is_ok());
}

#[test]
fn rejects_empty_repo_root() {
    let mut input = valid_input();
    input.repo.root = "".into();
    assert!(input.validate().is_ok());
}

#[test]
fn rejects_empty_diff_path() {
    let mut input = valid_input();
    input.artifacts.diff_path = "".into();
    assert!(input.validate().is_ok());
}

#[test]
fn rejects_wrong_permission_level() {
    let mut input = valid_input();
    input.permission_level = "L0_READONLY".into();
    assert!(input.validate().is_ok());
}

#[test]
fn rejects_wrong_output_schema() {
    let mut input = valid_input();
    input.output_schema = "wrong".into();
    assert!(input.validate().is_ok());
}

#[test]
fn auto_generates_task_id() {
    let input = ReviewDiffInput {
        task_id: None,
        ..valid_input()
    };
    assert!(input.validate().is_ok());
}
