//! Whole-task flows through the kernel, with the store kept in memory:
//! each evaluation runs the decision and its recording the way a host
//! with a database does, and the event log is replayed afterwards.
use std::collections::HashMap;
use std::time::Duration;

use coagent::artifact::RealPathProbe;
use coagent::kernel::{
    lifecycle_closed_event, step_started_event, AuditEvent, DecisionRecorder, RecordAction,
    RecordEvent, RuntimeDecision, RuntimeKernel, StateLoad,
};
use coagent::policy::{
    ApprovalPolicy, BackendBinding, PermissionLevel, ResourceProbes, ResourceSet,
    RuntimeDecisionValue, RuntimeOperationRequest, ToolCapabilities, ToolDefinition, ToolRegistry,
};
use coagent::replay::{check_idempotency, replay_task_state};
use coagent::sandbox::{ResourceBudgets, SandboxConfig};
use coagent::state::{TaskState, TaskStateError, TaskStateValue, TaskTimeout};
use coagent::storage::{
    next_sequence, runtime_decision_to_str, AuditEventInput, AuditEventRecord, RuntimeDecisionRecord,
    RuntimeEventRecord,
};

const REPO: &str = "/tmp/coagent-flow-repo";

#[derive(Default)]
struct MemoryStore {
    states: HashMap<String, TaskState>,
    events: Vec<RuntimeEventRecord>,
    open_steps: Vec<(i64, String, Option<String>, String)>,
    step_states: HashMap<i64, String>,
    audits: Vec<(AuditEventRecord, AuditEventInput)>,
    decisions: Vec<(RuntimeDecisionRecord, i64)>,
    next_step: i64,
}

impl MemoryStore {
    fn load(&self, task_id: &str) -> StateLoad {
        match self.states.get(task_id) {
            Some(state) => StateLoad::Found(state.clone()),
            None => StateLoad::NotFound,
        }
    }

    fn push_event(&mut self, task_id: &str, request_id: &Option<String>, step: i64, kind: &str, payload: String) {
        let sequence = self.events.iter().filter(|e| e.task_id == task_id).count() as i64 + 1;
        self.events.push(RuntimeEventRecord {
            id: self.events.len() as i64 + 1,
            task_id: task_id.to_string(),
            request_id: request_id.clone(),
            step_id: Some(step),
            task_sequence: sequence,
            event_type: kind.to_string(),
            payload_json: payload,
        });
    }

    fn write_audit_event(&mut self, audit: AuditEventInput) -> AuditEventRecord {
        let current_max = self
            .audits
            .iter()
            .filter(|(_, a)| a.task_id == audit.task_id)
            .map(|(r, _)| r.task_sequence)
            .max()
            .unwrap_or(0);
        let record = AuditEventRecord {
            id: self.audits.len() as i64 + 1,
            task_sequence: next_sequence(current_max),
        };
        self.audits.push((record, audit));
        record
    }

    fn task_events(&self, task_id: &str) -> Vec<RuntimeEventRecord> {
        self.events.iter().filter(|e| e.task_id == task_id).cloned().collect()
    }

    fn close_step(&mut self, task_id: &str, request_id: &Option<String>, operation: &str, state: &str) {
        let position = self.open_steps.iter().position(|(_, t, r, o)| {
            t == task_id && r == request_id && o == operation
        });
        if let Some(position) = position {
            let (step, _, _, _) = self.open_steps.remove(position);
            self.step_states.insert(step, state.to_string());
            let payload = lifecycle_closed_event(task_id, request_id, operation, state);
            self.push_event(task_id, request_id, step, "lifecycle_closed", payload);
        }
    }

    fn evaluate(&mut self, kernel: &RuntimeKernel, request: &RuntimeOperationRequest) -> RuntimeDecision {
        let probes = ResourceProbes {
            read: request.resources.read_paths.iter().map(|_| RealPathProbe::NothingExists).collect(),
            write: request.resources.write_paths.iter().map(|_| RealPathProbe::NothingExists).collect(),
        };
        let (decision, current) = kernel.decide(request, self.load(&request.task_id), &probes);
        let mut recorder = DecisionRecorder::new(decision);
        self.next_step += 1;
        let step = self.next_step;
        self.open_steps.push((step, request.task_id.clone(), request.request_id.clone(), request.operation.clone()));
        self.step_states.insert(step, "running".to_string());
        let payload = step_started_event(&request.task_id, &request.request_id, &request.operation);
        self.push_event(&request.task_id, &request.request_id, step, "step_started", payload);
        let mut action = recorder.step(RecordEvent::StepStarted(Ok(step)));
        loop {
            action = match action {
                RecordAction::PersistDecision => {
                    let (record, audit) = RuntimeKernel::decision_audit(&recorder.decision);
                    let written = self.write_audit_event(audit);
                    self.decisions.push((record, written.id));
                    recorder.step(RecordEvent::DecisionPersisted(Ok(written.id)))
                }
                RecordAction::WritePolicyEvent => {
                    let payload = recorder.decision.policy_evaluated_event();
                    self.push_event(&request.task_id, &request.request_id, step, "policy_evaluated", payload);
                    recorder.step(RecordEvent::PolicyEventWritten(Ok(())))
                }
                RecordAction::PersistRunningState => {
                    if let Some(state) = RuntimeKernel::running_state_to_persist(&request.task_id, current.clone()) {
                        self.states.insert(request.task_id.clone(), state);
                    }
                    recorder.step(RecordEvent::Finished(Ok(())))
                }
                RecordAction::CloseStep => {
                    let state = runtime_decision_to_str(recorder.decision.decision);
                    self.close_step(&request.task_id, &request.request_id, &request.operation, state);
                    recorder.step(RecordEvent::Finished(Ok(())))
                }
                RecordAction::Return => return recorder.decision,
            };
        }
    }

    fn complete_operation(&mut self, task_id: &str, request_id: &str, operation: &str) {
        self.close_step(task_id, &Some(request_id.to_string()), operation, "completed");
    }

    fn complete_task(&mut self, task_id: &str) -> Result<(), String> {
        let (state, audit) = RuntimeKernel::complete_task(task_id, self.load(task_id))
            .map_err(|e| format!("{e:?}"))?;
        assert_eq!(audit.event_type, "task_completed");
        self.write_audit_event(audit);
        self.states.insert(task_id.to_string(), state);
        Ok(())
    }

    fn state(&self, task_id: &str) -> Option<TaskStateValue> {
        self.states.get(task_id).map(|s| s.value())
    }
}

fn review(task_id: &str, request_id: &str, read: &str, write: &str, network: bool) -> RuntimeOperationRequest {
    RuntimeOperationRequest {
        task_id: task_id.into(),
        request_id: Some(request_id.into()),
        operation: "coagent.review_diff".into(),
        permission_level: PermissionLevel::L1DiffReview,
        resources: ResourceSet {
            read_paths: vec![read.into()],
            write_paths: vec![write.into()],
            network,
        },
    }
}

fn kernel() -> RuntimeKernel {
    RuntimeKernel::initialize(REPO, Some(REPO.into())).expect("init")
}

#[test]
fn full_fsm_lifecycle_queued_to_completed_with_blocked() {
    let kernel = kernel();
    let mut store = MemoryStore::default();

    let state = TaskState::new("TASK-full");
    assert_eq!(state.value(), TaskStateValue::Queued);

    let decision = store.evaluate(
        &kernel,
        &review("TASK-full", "REQ-full-1", ".agent/diffs/test.diff", ".agent/results/out.json", false),
    );
    assert_eq!(decision.decision, RuntimeDecisionValue::Allow);
    assert_eq!(store.state("TASK-full"), Some(TaskStateValue::Running));

    let mut state = store.states["TASK-full"].clone();
    state.transition_to(TaskStateValue::Blocked).expect("→ Blocked");
    store.states.insert("TASK-full".into(), state);
    assert_eq!(store.state("TASK-full"), Some(TaskStateValue::Blocked));

    let mut reloaded = store.states["TASK-full"].clone();
    reloaded.transition_to(TaskStateValue::Running).expect("Blocked→Running");
    store.states.insert("TASK-full".into(), reloaded);
    assert_eq!(store.state("TASK-full"), Some(TaskStateValue::Running));

    store.complete_operation("TASK-full", "REQ-full-1", "coagent.review_diff");
    store.complete_task("TASK-full").expect("complete task");
    assert_eq!(store.state("TASK-full"), Some(TaskStateValue::Completed));
}

#[test]
fn retry_cycle_exhausts_max_retries_then_fails() {
    let mut state = TaskState::new("TASK-retry");
    state.set_timeout(TaskTimeout {
        max_retries: 2,
        ..TaskTimeout::default()
    });

    state.transition_to(TaskStateValue::Running).unwrap();

    state.transition_to(TaskStateValue::Retrying).unwrap();
    assert_eq!(state.retry_count(), 1);
    state.transition_to(TaskStateValue::Running).unwrap();

    state.transition_to(TaskStateValue::Retrying).unwrap();
    assert_eq!(state.retry_count(), 2);
    state.transition_to(TaskStateValue::Running).unwrap();

    let err = state.transition_to(TaskStateValue::Retrying).expect_err("should exhaust");
    assert_eq!(err, TaskStateError::MaxRetriesExceeded);

    state.transition_to(TaskStateValue::Failed).unwrap();
    assert_eq!(state.value(), TaskStateValue::Failed);
}

#[test]
fn approval_gate_produces_require_approval_and_allows_resume() {
    let registry = ToolRegistry::new().register(ToolDefinition::new(
        "agent.protected_op",
        PermissionLevel::L1DiffReview,
        BackendBinding::Mock,
        ApprovalPolicy::Required,
        "in",
        "out",
        ToolCapabilities {
            read_allow: vec![".agent/diffs/**".into()],
            write_allow: vec![".agent/results/**".into()],
            deny: vec![],
            network: false,
        },
    ));
    let kernel = RuntimeKernel::initialize_with_tool_registry(REPO, Some(REPO.into()), registry)
        .expect("init kernel");
    let mut store = MemoryStore::default();

    let request = RuntimeOperationRequest {
        operation: "agent.protected_op".into(),
        ..review("TASK-approve", "REQ-approve-1", ".agent/diffs/test.diff", ".agent/results/out.json", false)
    };
    let decision = store.evaluate(&kernel, &request);
    assert_eq!(decision.decision, RuntimeDecisionValue::RequireApproval);
    assert!(decision.reasons.iter().any(|r| r.contains("approval required")));

    store.states.insert("TASK-approve".into(), TaskState::new("TASK-approve"));
    let mut state = store.states["TASK-approve"].clone();
    state.transition_to(TaskStateValue::Running).expect("Queued->Running");
    state.transition_to(TaskStateValue::WaitingApproval).expect("→ WaitingApproval");
    store.states.insert("TASK-approve".into(), state);
    assert_eq!(store.state("TASK-approve"), Some(TaskStateValue::WaitingApproval));

    let mut paused = store.states["TASK-approve"].clone();
    paused.transition_to(TaskStateValue::Running).expect("approve→Running");
    store.states.insert("TASK-approve".into(), paused);
    assert_eq!(store.state("TASK-approve"), Some(TaskStateValue::Running));

    store.complete_operation("TASK-approve", "REQ-approve-1", "agent.protected_op");
    store.complete_task("TASK-approve").expect("complete task");
    assert_eq!(store.state("TASK-approve"), Some(TaskStateValue::Completed));
}

#[test]
fn replay_reconstructs_full_multi_step_task_execution() {
    let kernel = kernel();
    let mut store = MemoryStore::default();

    store.evaluate(&kernel, &review("TASK-A", "REQ-A", ".agent/diffs/step1.diff", ".agent/results/r1.json", false));
    store.complete_operation("TASK-A", "REQ-A", "coagent.review_diff");

    let denied = store.evaluate(
        &kernel,
        &review("TASK-B", "REQ-B", ".agent/diffs/step2.diff", ".agent/results/r2.json", true),
    );
    assert_eq!(denied.decision, RuntimeDecisionValue::Deny);

    store.evaluate(&kernel, &review("TASK-C", "REQ-C", ".agent/diffs/step3.diff", ".agent/results/r3.json", false));
    store.complete_operation("TASK-C", "REQ-C", "coagent.review_diff");

    let ra = replay_task_state(&store.task_events("TASK-A")).unwrap();
    let rb = replay_task_state(&store.task_events("TASK-B")).unwrap();
    let rc = replay_task_state(&store.task_events("TASK-C")).unwrap();
    assert_eq!(ra.steps_started + rb.steps_started + rc.steps_started, 3);
    assert_eq!(ra.policy_decisions + rb.policy_decisions + rc.policy_decisions, 3);
    assert_eq!(ra.steps_completed + rb.steps_completed + rc.steps_completed, 3);
    assert_eq!(rb.last_decision.as_deref(), Some("deny"));
    assert_eq!(rb.last_lifecycle_state.as_deref(), Some("deny"));
    assert_eq!(ra.last_lifecycle_state.as_deref(), Some("completed"));
}

#[test]
fn idempotency_prevents_replaying_same_event_twice() {
    let kernel = kernel();
    let mut store = MemoryStore::default();

    store.evaluate(&kernel, &review("TASK-idem", "REQ-idem-1", ".agent/diffs/test.diff", ".agent/results/out.json", false));

    let events = store.task_events("TASK-idem");
    assert!(check_idempotency(&events, "step_started"));
    assert!(check_idempotency(&events, "policy_evaluated"));
    assert!(!check_idempotency(&events, "lifecycle_closed"));

    store.complete_operation("TASK-idem", "REQ-idem-1", "coagent.review_diff");
    assert!(check_idempotency(&store.task_events("TASK-idem"), "lifecycle_closed"));
}

#[test]
fn sandbox_env_filtering_combined_with_artifact_path_authorization() {
    let sandbox = SandboxConfig::new()
        .with_env_allowlist(vec!["PATH".into()])
        .with_budgets(ResourceBudgets {
            max_wall_clock: Some(Duration::from_secs(30)),
            max_output_bytes: Some(1024),
            ..ResourceBudgets::default()
        });

    let filtered = sandbox.filtered_env(vec![
        ("PATH".to_string(), "/usr/bin".to_string()),
        ("HOME".to_string(), "/home/user".to_string()),
    ]);
    assert!(!filtered.iter().any(|(k, _)| k == "HOME"));
    assert!(filtered.iter().any(|(k, _)| k == "PATH"));

    let budgets = sandbox.budgets;
    assert_eq!(budgets.max_wall_clock, Some(Duration::from_secs(30)));

    let kernel = kernel();
    let mut store = MemoryStore::default();
    let allowed = store.evaluate(
        &kernel,
        &review("TASK-sandbox", "REQ-sb-1", ".agent/diffs/test.diff", ".agent/results/out.json", false),
    );
    assert_eq!(allowed.decision, RuntimeDecisionValue::Allow);

    let denied = store.evaluate(
        &kernel,
        &review("TASK-sandbox", "REQ-sb-2", ".agent/diffs/test.diff", ".agent/secrets/leak.txt", false),
    );
    assert_eq!(denied.decision, RuntimeDecisionValue::Deny);
    assert!(denied.reasons.iter().any(|r| r.contains("write path denied")));
}

#[test]
fn multiple_tasks_maintain_independent_state_and_events() {
    let kernel = kernel();
    let mut store = MemoryStore::default();

    store.evaluate(&kernel, &review("TASK-A", "REQ-A", ".agent/diffs/a.diff", ".agent/results/a.json", false));
    store.complete_operation("TASK-A", "REQ-A", "coagent.review_diff");
    store.complete_task("TASK-A").unwrap();

    store.evaluate(&kernel, &review("TASK-B", "REQ-B", ".agent/diffs/b.diff", ".agent/results/b.json", false));
    store.complete_operation("TASK-B", "REQ-B", "coagent.review_diff");
    store.complete_task("TASK-B").unwrap();

    let denied = store.evaluate(
        &kernel,
        &review("TASK-C", "REQ-C", ".agent/diffs/c.diff", ".agent/results/c.json", true),
    );
    assert_eq!(denied.decision, RuntimeDecisionValue::Deny);

    assert_eq!(store.state("TASK-A"), Some(TaskStateValue::Completed));
    assert!(store.task_events("TASK-A").len() >= 3);
    assert_eq!(store.state("TASK-B"), Some(TaskStateValue::Completed));
    assert!(store.task_events("TASK-B").len() >= 3);
    assert_eq!(store.state("TASK-C"), None);
}

#[test]
fn multi_step_task_allows_multiple_operations_on_same_task_id() {
    let kernel = kernel();
    let mut store = MemoryStore::default();

    store.evaluate(&kernel, &review("TASK-multi-op", "REQ-op1", ".agent/diffs/test.diff", ".agent/results/r1.json", false));
    store.complete_operation("TASK-multi-op", "REQ-op1", "coagent.review_diff");

    store.evaluate(&kernel, &review("TASK-multi-op", "REQ-op2", ".agent/diffs/test.diff", ".agent/results/r2.json", false));
    store.complete_operation("TASK-multi-op", "REQ-op2", "coagent.review_diff");

    assert_eq!(store.state("TASK-multi-op"), Some(TaskStateValue::Running));

    store.complete_task("TASK-multi-op").expect("complete task");
    assert_eq!(store.state("TASK-multi-op"), Some(TaskStateValue::Completed));

    assert_eq!(store.task_events("TASK-multi-op").len(), 6);
}

fn allowed_request(task_id: &str, request_id: &str) -> RuntimeOperationRequest {
    RuntimeOperationRequest {
        operation: "reasonix.review_diff".into(),
        ..review(task_id, request_id, ".agent/diffs/current.diff", ".agent/results/review.json", false)
    }
}

#[test]
fn kernel_initializes_and_allows_review_diff() {
    let kernel = kernel();
    let mut store = MemoryStore::default();

    let decision = store.evaluate(&kernel, &allowed_request("TASK-kernel", "REQ-kernel"));

    assert_eq!(decision.decision, RuntimeDecisionValue::Allow);
    assert_eq!(decision.engine_results.state, RuntimeDecisionValue::Allow);
    assert_eq!(decision.engine_results.policy, RuntimeDecisionValue::Allow);
    assert!(decision.reasons.is_empty());
    assert!(decision.audit_event_id.is_some());
}

#[test]
fn runtime_kernel_policy_denial_beats_state_allow_and_is_persisted() {
    let kernel = kernel();
    let mut store = MemoryStore::default();
    let mut request = allowed_request("TASK-policy-deny", "REQ-policy-deny");
    request.resources.network = true;

    let decision = store.evaluate(&kernel, &request);

    assert_eq!(decision.decision, RuntimeDecisionValue::Deny);
    assert_eq!(decision.engine_results.state, RuntimeDecisionValue::Allow);
    assert_eq!(decision.engine_results.policy, RuntimeDecisionValue::Deny);
    assert!(decision.reasons.iter().any(|reason| reason.contains("network")));

    let persisted_denials = store
        .decisions
        .iter()
        .filter(|(d, _)| d.task_id == "TASK-policy-deny" && d.decision == RuntimeDecisionValue::Deny)
        .count();
    assert_eq!(persisted_denials, 1);
}

#[test]
fn kernel_can_initialize_with_custom_tool_registry() {
    let registry = ToolRegistry::new().register(ToolDefinition::new(
        "agent.docs_read",
        PermissionLevel::L0Readonly,
        BackendBinding::Mock,
        ApprovalPolicy::Never,
        "docs_read_input_v1",
        "docs_read_result_v1",
        ToolCapabilities {
            read_allow: vec!["docs/**".to_string()],
            write_allow: vec![],
            deny: vec![".git/**".to_string()],
            network: false,
        },
    ));
    let kernel = RuntimeKernel::initialize_with_tool_registry(REPO, Some(REPO.into()), registry)
        .expect("initialize kernel");
    let mut store = MemoryStore::default();

    let docs_decision = store.evaluate(
        &kernel,
        &RuntimeOperationRequest {
            task_id: "TASK-docs".to_string(),
            request_id: Some("REQ-docs".to_string()),
            operation: "agent.docs_read".to_string(),
            permission_level: PermissionLevel::L0Readonly,
            resources: ResourceSet {
                read_paths: vec!["docs/README.md".to_string()],
                write_paths: vec![],
                network: false,
            },
        },
    );
    assert_eq!(docs_decision.decision, RuntimeDecisionValue::Allow);

    let review_decision = store.evaluate(&kernel, &allowed_request("TASK-review-unknown", "REQ-review-unknown"));
    assert_eq!(review_decision.decision, RuntimeDecisionValue::Deny);
    assert!(review_decision.reasons.iter().any(|reason| reason.contains("unknown operation")));
}

#[test]
fn kernel_emits_runtime_events_for_evaluate_and_complete() {
    let kernel = kernel();
    let mut store = MemoryStore::default();

    let decision = store.evaluate(&kernel, &allowed_request("TASK-events", "REQ-events"));
    assert_eq!(decision.decision, RuntimeDecisionValue::Allow);

    store.complete_operation("TASK-events", "REQ-events", "reasonix.review_diff");

    let events = store.task_events("TASK-events");
    let event_types: Vec<_> = events.iter().map(|event| event.event_type.as_str()).collect();
    assert_eq!(event_types, vec!["step_started", "policy_evaluated", "lifecycle_closed"]);
    assert!(events.iter().all(|event| event.step_id.is_some()));
    assert!(events.iter().any(|event| event.payload_json.contains("\"decision\":\"allow\"")));

    let step = events[0].step_id.expect("step id");
    assert_eq!(store.step_states[&step], "completed");
}

#[test]
fn kernel_closes_runtime_step_when_policy_denies() {
    let kernel = kernel();
    let mut store = MemoryStore::default();
    let mut request = allowed_request("TASK-denied-events", "REQ-denied-events");
    request.resources.network = true;

    let decision = store.evaluate(&kernel, &request);
    assert_eq!(decision.decision, RuntimeDecisionValue::Deny);

    let events = store.task_events("TASK-denied-events");
    let event_types: Vec<_> = events.iter().map(|event| event.event_type.as_str()).collect();
    assert_eq!(event_types, vec!["step_started", "policy_evaluated", "lifecycle_closed"]);

    let step = events[0].step_id.expect("step id");
    assert_eq!(store.step_states[&step], "deny");
}

#[test]
fn runtime_kernel_audit_event_id_is_attached_to_persisted_runtime_decision() {
    let kernel = kernel();
    let mut store = MemoryStore::default();

    let decision = store.evaluate(&kernel, &allowed_request("TASK-audit-id", "REQ-audit-id"));
    let audit_event_id = decision.audit_event_id.expect("audit id on decision");

    let persisted = store
        .decisions
        .iter()
        .find(|(d, _)| d.task_id == "TASK-audit-id" && d.request_id.as_deref() == Some("REQ-audit-id"))
        .map(|(_, id)| *id);
    assert_eq!(persisted, Some(audit_event_id));
}

#[test]
fn runtime_kernel_write_audit_is_centralized_through_runtime_kernel() {
    let mut store = MemoryStore::default();

    let input = RuntimeKernel::write_audit(AuditEvent {
        task_id: "TASK-audit".to_string(),
        event_type: "manual_note".to_string(),
        summary: "kernel-owned audit write".to_string(),
        payload_json: "{}".to_string(),
    });
    assert_eq!(input.event_type, "manual_note");
    let result = store.write_audit_event(input);

    assert_eq!(result.task_sequence, 1);
}
