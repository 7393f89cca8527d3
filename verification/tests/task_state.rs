use coagent::state::{TaskState, TaskStateError, TaskStateValue, TaskTimeout};

#[test]
fn queued_is_entry_point() {
    let state = TaskState::new("TASK-q");
    assert_eq!(state.value(), TaskStateValue::Queued);
    assert_eq!(state.retry_count(), 0);
    assert!(state.subtasks_resolved());
}

#[test]
fn queued_to_running_allowed() {
    let mut state = TaskState::new("TASK-q");
    state.transition_to(TaskStateValue::Running).unwrap();
    assert_eq!(state.value(), TaskStateValue::Running);
}

#[test]
fn queued_to_completed_illegal() {
    let mut state = TaskState::new("TASK-q");
    let err = state.transition_to(TaskStateValue::Completed).unwrap_err();
    assert_eq!(err, TaskStateError::IllegalTransition);
}

#[test]
fn running_blocked_roundtrip() {
    let mut state = TaskState::new("TASK-q");
    state.transition_to(TaskStateValue::Running).unwrap();
    state.transition_to(TaskStateValue::Blocked).unwrap();
    assert_eq!(state.value(), TaskStateValue::Blocked);
    state.transition_to(TaskStateValue::Running).unwrap();
    assert_eq!(state.value(), TaskStateValue::Running);
}

#[test]
fn retry_count_increments() {
    let mut state = TaskState::new("TASK-q");
    state.transition_to(TaskStateValue::Running).unwrap();
    state.transition_to(TaskStateValue::Retrying).unwrap();
    assert_eq!(state.retry_count(), 1);
    state.transition_to(TaskStateValue::Running).unwrap();
    state.transition_to(TaskStateValue::Retrying).unwrap();
    assert_eq!(state.retry_count(), 2);
}

#[test]
fn max_retries_blocks_retry() {
    let mut state = TaskState::new("TASK-q");
    state.set_timeout(TaskTimeout {
        max_retries: 1,
        ..TaskTimeout::default()
    });
    state.transition_to(TaskStateValue::Running).unwrap();
    state.transition_to(TaskStateValue::Retrying).unwrap();
    state.transition_to(TaskStateValue::Running).unwrap();
    let err = state.transition_to(TaskStateValue::Retrying).unwrap_err();
    assert_eq!(err, TaskStateError::MaxRetriesExceeded);
}

#[test]
fn mod_subtask_dependencies_block_completion() {
    let mut state = TaskState::new("TASK-q");
    state.transition_to(TaskStateValue::Running).unwrap();
    state.add_subtask("T1", TaskStateValue::Completed);
    state.add_subtask("T2", TaskStateValue::Completed);
    let err = state.transition_to(TaskStateValue::Completed).unwrap_err();
    assert!(matches!(err, TaskStateError::SubtaskDependenciesUnresolved(_)));
    state.resolve_subtask("T1");
    state.resolve_subtask("T2");
    state.transition_to(TaskStateValue::Completed).unwrap();
}

#[test]
fn partially_completed_auto_completes() {
    let mut state = TaskState::new("TASK-q");
    state.transition_to(TaskStateValue::Running).unwrap();
    state.add_subtask("T1", TaskStateValue::Completed);
    state.transition_to(TaskStateValue::PartiallyCompleted).unwrap();
    let result = state
        .resolve_subtask_and_progress("T1", TaskStateValue::Completed)
        .unwrap();
    assert_eq!(result, Some(TaskStateValue::Completed));
    assert_eq!(state.value(), TaskStateValue::Completed);
}

#[test]
fn terminal_state_rejects_all() {
    for terminal in &[
        TaskStateValue::Completed,
        TaskStateValue::Failed,
        TaskStateValue::Cancelled,
    ] {
        let mut state = TaskState::restore("TASK-t", *terminal, 0);
        let err = state.transition_to(TaskStateValue::Running).unwrap_err();
        assert_eq!(err, TaskStateError::TerminalState);
    }
}

#[test]
fn backward_compat_restore_works() {
    for value in &[
        TaskStateValue::Queued,
        TaskStateValue::Running,
        TaskStateValue::Blocked,
        TaskStateValue::WaitingApproval,
        TaskStateValue::Retrying,
        TaskStateValue::PartiallyCompleted,
    ] {
        let state = TaskState::restore("TASK-old", *value, 5);
        assert_eq!(state.value(), *value);
        assert_eq!(state.agent_calls(), 5);
    }
}

#[test]
fn is_alive_is_terminal_semantics() {
    assert!(TaskStateValue::Queued.is_alive());
    assert!(!TaskStateValue::Completed.is_alive());
    assert!(!TaskStateValue::Failed.is_alive());
    assert!(!TaskStateValue::Cancelled.is_alive());
}

#[test]
fn all_historical_transitions_still_valid() {
    let mut state = TaskState::new("TASK-hist");
    state.transition_to(TaskStateValue::Running).unwrap();
    state.transition_to(TaskStateValue::Completed).unwrap();
    assert_eq!(state.value(), TaskStateValue::Completed);

    let mut state = TaskState::new("TASK-hist2");
    state.transition_to(TaskStateValue::Running).unwrap();
    state.transition_to(TaskStateValue::Failed).unwrap();
    assert_eq!(state.value(), TaskStateValue::Failed);

    let mut state = TaskState::new("TASK-hist3");
    state.transition_to(TaskStateValue::Cancelled).unwrap();
    assert_eq!(state.value(), TaskStateValue::Cancelled);
}

#[test]
fn state_machine_illegal_state_transition_is_denied() {
    let mut state = TaskState::new("TASK-state");
    let error = state
        .transition_to(TaskStateValue::Completed)
        .expect_err("queued task cannot complete directly");
    assert_eq!(error, TaskStateError::IllegalTransition);
    assert_eq!(state.value(), TaskStateValue::Queued);
}

#[test]
fn state_machine_terminal_state_rejects_mutation() {
    let mut state = TaskState::new("TASK-state");
    state
        .transition_to(TaskStateValue::Running)
        .expect("queued -> running");
    state
        .transition_to(TaskStateValue::Failed)
        .expect("running -> failed");
    let error = state
        .transition_to(TaskStateValue::Running)
        .expect_err("terminal state must not mutate");
    assert_eq!(error, TaskStateError::TerminalState);
    assert_eq!(state.value(), TaskStateValue::Failed);
}

#[test]
fn state_machine_completion_is_blocked_while_required_gaps_exist() {
    let mut state = TaskState::new("TASK-state");
    state.add_required_verification_gap("cargo test --workspace");
    state
        .transition_to(TaskStateValue::Running)
        .expect("queued -> running");
    let error = state
        .transition_to(TaskStateValue::Completed)
        .expect_err("required verification gap blocks completion");
    assert_eq!(error, TaskStateError::RequiredVerificationGaps);
    assert_eq!(state.value(), TaskStateValue::Running);
}

#[test]
fn state_machine_agent_call_count_only_increments_through_runtime_decision() {
    let mut state = TaskState::new("TASK-state");
    state.note_adapter_observed_agent_attempt();
    assert_eq!(state.agent_calls(), 0);
    state.note_runtime_owned_agent_call();
    assert_eq!(state.agent_calls(), 1);
}

#[test]
fn blocked_and_unblocked_allows_completion() {
    let mut state = TaskState::new("TASK-state");
    state.transition_to(TaskStateValue::Running).unwrap();
    state.transition_to(TaskStateValue::Blocked).unwrap();
    assert_eq!(state.value(), TaskStateValue::Blocked);
    state.transition_to(TaskStateValue::Running).unwrap();
    state.transition_to(TaskStateValue::Completed).unwrap();
    assert_eq!(state.value(), TaskStateValue::Completed);
}

#[test]
fn waiting_approval_then_approved_then_complete() {
    let mut state = TaskState::new("TASK-state");
    state.transition_to(TaskStateValue::Running).unwrap();
    state.transition_to(TaskStateValue::WaitingApproval).unwrap();
    state.transition_to(TaskStateValue::Running).unwrap();
    state.transition_to(TaskStateValue::Completed).unwrap();
}

#[test]
fn waiting_approval_can_be_rejected_to_failed() {
    let mut state = TaskState::new("TASK-state");
    state.transition_to(TaskStateValue::Running).unwrap();
    state.transition_to(TaskStateValue::WaitingApproval).unwrap();
    state.transition_to(TaskStateValue::Failed).unwrap();
    assert_eq!(state.value(), TaskStateValue::Failed);
}

#[test]
fn retry_then_succeed() {
    let mut state = TaskState::new("TASK-state");
    state.transition_to(TaskStateValue::Running).unwrap();
    state.transition_to(TaskStateValue::Retrying).unwrap();
    assert_eq!(state.retry_count(), 1);
    state.transition_to(TaskStateValue::Running).unwrap();
    state.transition_to(TaskStateValue::Completed).unwrap();
}

#[test]
fn state_machine_subtask_dependencies_block_completion() {
    let mut state = TaskState::new("TASK-state");
    state.add_subtask("SUB-1", TaskStateValue::Completed);
    state.transition_to(TaskStateValue::Running).unwrap();
    let err = state.transition_to(TaskStateValue::Completed).unwrap_err();
    assert!(matches!(err, TaskStateError::SubtaskDependenciesUnresolved(_)));
}

#[test]
fn partially_completed_then_all_subtasks_done_auto_completes() {
    let mut state = TaskState::new("TASK-state");
    state.add_subtask("SUB-1", TaskStateValue::Completed);
    state.transition_to(TaskStateValue::Running).unwrap();
    state.transition_to(TaskStateValue::PartiallyCompleted).unwrap();
    let result = state
        .resolve_subtask_and_progress("SUB-1", TaskStateValue::Completed)
        .unwrap();
    assert_eq!(result, Some(TaskStateValue::Completed));
}

#[test]
fn subtask_dependency_chain_unlocks_parent_completion() {
    let mut parent = TaskState::new("PARENT");
    parent.transition_to(TaskStateValue::Running).unwrap();
    parent.add_subtask("SUB-A", TaskStateValue::Completed);
    parent.add_subtask("SUB-B", TaskStateValue::Completed);
    parent.add_subtask("SUB-C", TaskStateValue::Completed);
    parent.transition_to(TaskStateValue::PartiallyCompleted).unwrap();
    assert_eq!(parent.value(), TaskStateValue::PartiallyCompleted);

    let r1 = parent
        .resolve_subtask_and_progress("SUB-A", TaskStateValue::Completed)
        .unwrap();
    assert_eq!(r1, None);
    assert_eq!(parent.value(), TaskStateValue::PartiallyCompleted);

    let r2 = parent
        .resolve_subtask_and_progress("SUB-B", TaskStateValue::Completed)
        .unwrap();
    assert_eq!(r2, None);
    assert_eq!(parent.value(), TaskStateValue::PartiallyCompleted);

    let r3 = parent
        .resolve_subtask_and_progress("SUB-C", TaskStateValue::Completed)
        .unwrap();
    assert_eq!(r3, Some(TaskStateValue::Completed));
    assert_eq!(parent.value(), TaskStateValue::Completed);
}

#[test]
fn cancel_propagation_marks_parent_and_allows_cleanup() {
    let mut parent = TaskState::new("PARENT-CANCEL");
    parent.transition_to(TaskStateValue::Running).unwrap();
    parent.add_subtask("SUB-1", TaskStateValue::Completed);
    parent.add_subtask("SUB-2", TaskStateValue::Completed);
    parent
        .transition_to(TaskStateValue::Cancelled)
        .expect("cancel with unresolved subtasks");
    assert_eq!(parent.value(), TaskStateValue::Cancelled);
    assert_eq!(parent.subtasks().len(), 2);
    let err = parent
        .transition_to(TaskStateValue::Running)
        .expect_err("cancelled is terminal");
    assert_eq!(err, TaskStateError::TerminalState);
}
