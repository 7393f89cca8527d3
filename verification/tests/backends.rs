use coagent::backend::{
    AcpBackend, Backend, BackendError, BackendInfo, DefaultBackendSelector, MockBackend,
    BackendRegistry, PreferredBackendSelector, select_startup_backend,
};
use coagent::config::{BackendId, Config, ConfigError};
use coagent::policy::{BackendBinding, ToolRegistry};
use coagent::profile::{model_from_args, AgentProfile, SessionPolicy, TrustLevel};
use coagent::tools::ToolSpec;

#[test]
fn reasonix_profile_has_expected_defaults() {
    let profile = AgentProfile::reasonix(".", "deepseek-v4-flash");
    assert_eq!(profile.backend_id, "reasonix");
    assert!(profile.capabilities.contains(&"code.review.diff".to_string()));
    assert_eq!(profile.trust_level, TrustLevel::ReviewOnly);
    assert_eq!(profile.session_policy, SessionPolicy::PerProjectTask);
}

#[test]
fn backend_can_be_constructed_from_registered_tool_binding() {
    let tool = ToolRegistry::review_diff()
        .get("coagent.review_diff")
        .expect("review_diff tool")
        .clone();
    let backend = Backend::from_tool_binding(&tool, "fake-model", ".");
    assert!(matches!(backend, Backend::Reasonix(_)));
}

#[test]
fn configured_backend_override_takes_precedence_over_tool_binding() {
    let tool = ToolRegistry::review_diff()
        .get("coagent.review_diff")
        .expect("review_diff tool")
        .clone();
    let backend = Backend::from_configured_tool(Some(BackendId::Mock), &tool, "fake-model", ".");
    assert!(matches!(backend, Backend::Mock));
}

#[test]
fn backend_id_mock_is_not_reasonix() {
    assert_ne!(BackendId::Mock, BackendId::Reasonix);
}

#[test]
fn backend_id_clone_copy() {
    let a = BackendId::Mock;
    let b = a;
    assert_eq!(a, b);
}

#[test]
fn reasonix_backend_carries_model_and_directory() {
    let tool = ToolRegistry::review_diff()
        .get("reasonix.review_diff")
        .expect("review_diff tool")
        .clone();
    assert_eq!(tool.backend_binding(), BackendBinding::ReasonixAcp);
    match Backend::from_configured_tool(None, &tool, "model-x", "/repo") {
        Backend::Reasonix(launch) => {
            assert_eq!(launch.model, "model-x");
            assert_eq!(launch.cwd, "/repo");
        }
        Backend::Mock => panic!("expected the reasonix backend"),
    }
    match Backend::from_config(BackendId::Reasonix, "model-y", "/other") {
        Backend::Reasonix(launch) => {
            assert_eq!(launch.model, "model-y");
            assert_eq!(launch.cwd, "/other");
        }
        Backend::Mock => panic!("expected the reasonix backend"),
    }
    assert!(matches!(
        Backend::from_config(BackendId::Mock, "model-y", "/other"),
        Backend::Mock
    ));
}

#[test]
fn invalid_backend_override_is_rejected() {
    let error = Config::from_values(
        Some(".".to_string()),
        Some("definitely-not-a-backend".to_string()),
        None,
    )
    .expect_err("invalid backend must fail closed");
    assert!(matches!(error, ConfigError::InvalidBackend(_)));
    assert!(error.message().contains("definitely-not-a-backend"));
}

#[test]
fn config_reads_backend_names_without_case() {
    let config = Config::from_values(Some("/repo".into()), Some("ReasonIX".into()), None).unwrap();
    assert_eq!(config.backend_override, Some(BackendId::Reasonix));
    assert_eq!(config.reasonix_model, "deepseek-v4-flash");
    assert_eq!(config.repo_root, "/repo");
    let config =
        Config::from_values(Some("/repo".into()), Some("MOCK".into()), Some("m1".into())).unwrap();
    assert_eq!(config.backend_override, Some(BackendId::Mock));
    assert_eq!(config.reasonix_model, "m1");
    let config = Config::from_values(Some("/repo".into()), None, None).unwrap();
    assert_eq!(config.backend_override, None);
}

#[test]
fn config_requires_repo_root() {
    let error = Config::from_values(None, Some("mock".into()), None).unwrap_err();
    assert!(matches!(error, ConfigError::Missing(_)));
    assert_eq!(error.message(), "missing required configuration: COAGENT_REPO_ROOT");
}

#[test]
fn acp_backend_registers_with_id() {
    let profile = AgentProfile::reasonix(".", "deepseek-v4-flash");
    let backend = AcpBackend::new(profile);
    assert_eq!(backend.backend_id(), "reasonix");
    assert!(backend
        .capabilities()
        .tags
        .contains(&"code.review.diff".to_string()));
    assert!(backend.capabilities().supports_streaming);
    assert_eq!(backend.launch.model, "deepseek-v4-flash");
}

#[test]
fn model_is_read_after_the_model_flag() {
    let args = vec!["acp".to_string(), "--model".to_string(), "m-2".to_string()];
    assert_eq!(model_from_args(&args), "m-2");
    let dangling = vec!["acp".to_string(), "--model".to_string()];
    assert_eq!(model_from_args(&dangling), "deepseek-v4-flash");
    let none = vec!["acp".to_string()];
    assert_eq!(model_from_args(&none), "deepseek-v4-flash");
    let backend = AcpBackend::with_model("custom", "/work");
    assert_eq!(backend.launch.model, "custom");
    assert_eq!(backend.launch.cwd, "/work");
}

fn info(id: &str, tags: &[&str]) -> BackendInfo {
    BackendInfo {
        id: id.to_string(),
        tags: tags.iter().map(|t| t.to_string()).collect(),
    }
}

#[test]
fn default_selector_prefers_capability_then_default() {
    let selector = DefaultBackendSelector;
    let available = vec![info("a", &["x"]), info("b", &["code.review.diff"]), info("c", &["code.review.diff"])];
    assert_eq!(selector.select("code.review.diff", "mock", &available), "b");
    assert_eq!(selector.select("runtime.status", "mock", &available), "mock");
}

#[test]
fn preferred_selector_ignores_capabilities() {
    let selector = PreferredBackendSelector {
        preferred_backend: "reasonix".into(),
        fallback_backend: "mock".into(),
    };
    let with = vec![info("mock", &["mock"]), info("reasonix", &[])];
    assert_eq!(selector.select("code.review.diff", "x", &with), "reasonix");
    let without = vec![info("mock", &["code.review.diff"])];
    assert_eq!(selector.select("code.review.diff", "x", &without), "mock");
}

#[test]
fn select_by_tag_falls_back_to_registered_default() {
    let mut registry = BackendRegistry::new();
    registry.register(info("default", &["test"]));
    registry.register(info("other", &["other"]));
    assert_eq!(registry.select_by_tag("test", "default").id, "default");
    assert_eq!(registry.select_by_tag("other", "default").id, "other");
    assert_eq!(registry.select_by_tag("none", "default").id, "default");
    assert!(registry.get("missing").is_none());
}

#[test]
fn backend_trait_registry_register_and_retrieve() {
    let mut registry = BackendRegistry::new();
    registry.register(info("test-1", &["test"]));

    let backend = registry.get("test-1").expect("backend exists");
    assert_eq!(backend.id, "test-1");
    assert_eq!(registry.list_ids(), vec!["test-1".to_string()]);
}

#[test]
fn registry_select_by_tag_finds_matching_backend() {
    let mut registry = BackendRegistry::new();
    registry.register(info("default", &["test"]));
    registry.register(info("default", &["test"]));

    // Both carry the tag; registering the same id twice keeps one backend.
    let selected = registry.select_by_tag("test", "default");
    assert_eq!(selected.id, "default");
    assert_eq!(registry.list_ids(), vec!["default".to_string()]);
}

#[test]
fn registering_an_id_again_replaces_its_backend_in_place() {
    let mut registry = BackendRegistry::new();
    registry.register(info("a", &["x"]));
    registry.register(info("b", &["y"]));
    registry.register(info("a", &["z"]));
    assert_eq!(registry.list_ids(), vec!["a".to_string(), "b".to_string()]);
    assert_eq!(registry.get("a").unwrap().tags, vec!["z".to_string()]);
    assert_eq!(registry.select_by_tag("y", "a").id, "b");
}

#[test]
fn startup_backend_selection_respects_mock_override() {
    let tool_spec = ToolSpec::review_diff();
    let mock = MockBackend::new("mock").info();
    let reasonix = AcpBackend::new(AgentProfile::reasonix(".", "fake-model")).info();
    let selected = select_startup_backend(Some(BackendId::Mock), &tool_spec, &mock, &reasonix);
    assert_eq!(selected, "mock");
}

#[test]
fn startup_backend_selection_respects_reasonix_override() {
    let tool_spec = ToolSpec::review_diff();
    let mock = MockBackend::new("mock").info();
    let reasonix = AcpBackend::new(AgentProfile::reasonix(".", "fake-model")).info();
    let selected = select_startup_backend(Some(BackendId::Reasonix), &tool_spec, &mock, &reasonix);
    assert_eq!(selected, "reasonix");
}

#[test]
fn startup_backend_selection_uses_capability_when_unset() {
    let tool_spec = ToolSpec::review_diff();
    let mock = MockBackend::new("mock").info();
    let reasonix = AcpBackend::new(AgentProfile::reasonix(".", "fake-model")).info();
    let selected = select_startup_backend(None, &tool_spec, &mock, &reasonix);
    assert_eq!(selected, "reasonix");
}

#[test]
fn backend_error_messages() {
    assert_eq!(BackendError::Timeout.message(), "timeout");
    assert_eq!(
        BackendError::Unavailable("down".into()).message(),
        "backend unavailable: down"
    );
    assert_eq!(BackendError::Protocol("bad".into()).message(), "protocol error: bad");
    assert_eq!(
        BackendError::SchemaViolation("x".into()).message(),
        "schema violation: x"
    );
}

#[test]
fn mock_backend_advertises_mock_tag() {
    let backend = MockBackend::new("mock");
    assert_eq!(backend.backend_id(), "mock");
    let caps = backend.capabilities();
    assert_eq!(caps.tags, vec!["mock".to_string()]);
    assert!(!caps.supports_streaming);
    assert_eq!(caps.max_tokens, None);
}
