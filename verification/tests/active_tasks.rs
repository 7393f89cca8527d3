use coagent::export::{active_task_documents, ActiveTaskRow};
use coagent::state::{TaskState, TaskStateValue};
use coagent::storage::task_state_to_str;

/// The rows a store lists: every task that is not in a terminal state.
fn active_rows(tasks: &[(TaskState, i64, Option<i64>)]) -> Vec<ActiveTaskRow> {
    tasks
        .iter()
        .filter(|(state, _, _)| !state.value().is_terminal())
        .map(|(state, steps, last)| ActiveTaskRow {
            task_id: state.task_id().to_string(),
            state: task_state_to_str(state.value()).to_string(),
            agent_calls: state.agent_calls() as i64,
            step_count: *steps,
            last_step_ms: *last,
        })
        .collect()
}

#[test]
fn list_active_tasks_empty_when_no_tasks() {
    let tasks = active_task_documents(&active_rows(&[]));
    assert!(tasks.is_empty());
}

#[test]
fn list_active_tasks_filters_terminal_states() {
    let mut completed = TaskState::new("TASK-done");
    completed.transition_to(TaskStateValue::Running).unwrap();
    completed.transition_to(TaskStateValue::Completed).unwrap();

    let mut running = TaskState::new("TASK-running");
    running.transition_to(TaskStateValue::Running).unwrap();

    let queued = TaskState::new("TASK-queued");

    let tasks = active_task_documents(&active_rows(&[
        (completed, 0, None),
        (running, 0, None),
        (queued, 0, None),
    ]));
    assert!(tasks.iter().any(|t| t.contains("\"task_id\":\"TASK-running\"")));
    assert!(tasks.iter().any(|t| t.contains("\"task_id\":\"TASK-queued\"")));
    assert!(!tasks.iter().any(|t| t.contains("TASK-done")));
    assert_eq!(tasks.len(), 2);
}

#[test]
fn list_active_tasks_includes_step_count() {
    let mut task = TaskState::new("TASK-steps");
    task.transition_to(TaskStateValue::Running).unwrap();

    let tasks = active_task_documents(&active_rows(&[(task, 2, Some(1_700_000_000_000))]));
    assert_eq!(tasks.len(), 1);
    assert_eq!(
        tasks[0],
        r#"{"agent_calls":0,"last_step_ms":1700000000000,"state":"running","step_count":2,"task_id":"TASK-steps"}"#
    );
}
