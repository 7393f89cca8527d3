//! The four-state task lifecycle of the worker runtime:
//! `Created -> Running -> Completed | Failed`.
use vstd::prelude::*;

use crate::text::{owned, str_eq};

verus! {

#[derive(Debug, Clone, Copy, PartialEq, Eq, Structural)]
pub enum TaskStateValue {
    Created,
    Running,
    Completed,
    Failed,
}

/// `Completed` and `Failed`.
pub open spec fn terminal_value(v: TaskStateValue) -> bool {
    v == TaskStateValue::Completed || v == TaskStateValue::Failed
}

/// The only edges: `Created -> Running`, `Running -> Completed`,
/// `Running -> Failed`.
pub open spec fn legal_transition(current: TaskStateValue, next: TaskStateValue) -> bool {
    ||| current == TaskStateValue::Created && next == TaskStateValue::Running
    ||| current == TaskStateValue::Running && next == TaskStateValue::Completed
    ||| current == TaskStateValue::Running && next == TaskStateValue::Failed
}

impl TaskStateValue {
    fn is_terminal(self) -> (r: bool)
        ensures
            r == terminal_value(self),
    {
        match self {
            TaskStateValue::Completed | TaskStateValue::Failed => true,
            _ => false,
        }
    }
}

#[derive(Debug, Clone, Copy, PartialEq, Eq, Structural)]
pub enum TaskStateError {
    IllegalTransition,
    TerminalState,
    RequiredVerificationGaps,
}

/// Everything a task state holds, as mathematical values.
pub struct TaskStateView {
    pub task_id: Seq<char>,
    pub value: TaskStateValue,
    pub agent_calls: u32,
    pub gaps: Seq<Seq<char>>,
}

/// The outcome of asking `s` to move to `next`: terminal states refuse,
/// completion waits for the gaps, then the table decides.
pub open spec fn transition_spec(s: TaskStateView, next: TaskStateValue) -> (
    TaskStateView,
    Result<(), TaskStateError>,
) {
    if terminal_value(s.value) {
        (s, Err(TaskStateError::TerminalState))
    } else if next == TaskStateValue::Completed && s.gaps.len() > 0 {
        (s, Err(TaskStateError::RequiredVerificationGaps))
    } else if !legal_transition(s.value, next) {
        (s, Err(TaskStateError::IllegalTransition))
    } else {
        (TaskStateView { value: next, ..s }, Ok(()))
    }
}

#[derive(Debug, Clone, PartialEq, Eq)]
pub struct TaskState {
    task_id: String,
    value: TaskStateValue,
    agent_calls: u32,
    required_verification_gaps: Vec<String>,
}

impl View for TaskState {
    type V = TaskStateView;

    closed spec fn view(&self) -> TaskStateView {
        TaskStateView {
            task_id: self.task_id@,
            value: self.value,
            agent_calls: self.agent_calls,
            gaps: self.required_verification_gaps@.map_values(|g: String| g@),
        }
    }
}

impl TaskState {
    /// A new `Created` task with no calls and no gaps.
    pub fn new(task_id: &str) -> (s: Self)
        ensures
            s@ == (TaskStateView {
                task_id: task_id@,
                value: TaskStateValue::Created,
                agent_calls: 0,
                gaps: Seq::empty(),
            }),
    {
        Self::restore(task_id, TaskStateValue::Created, 0)
    }

    /// A task rebuilt from a stored value and call count, with no gaps.
    pub fn restore(task_id: &str, value: TaskStateValue, agent_calls: u32) -> (s: Self)
        ensures
            s@ == (TaskStateView { task_id: task_id@, value, agent_calls, gaps: Seq::empty() }),
    {
        let s = TaskState {
            task_id: owned(task_id),
            value,
            agent_calls,
            required_verification_gaps: Vec::new(),
        };
        assert(s@.gaps =~= Seq::<Seq<char>>::empty());
        s
    }

    pub fn task_id(&self) -> (r: &str)
        ensures
            r@ == self@.task_id,
    {
        self.task_id.as_str()
    }

    pub fn value(&self) -> (r: TaskStateValue)
        ensures
            r == self@.value,
    {
        self.value
    }

    pub fn agent_calls(&self) -> (r: u32)
        ensures
            r == self@.agent_calls,
    {
        self.agent_calls
    }

    pub fn add_required_verification_gap(&mut self, gap: &str)
        ensures
            final(self)@ == (TaskStateView { gaps: old(self)@.gaps.push(gap@), ..old(self)@ }),
    {
        self.required_verification_gaps.push(owned(gap));
        assert(self@.gaps =~= old(self)@.gaps.push(gap@));
    }

    /// Asks the task to move to `next`; see `transition_spec`.
    pub fn transition_to(&mut self, next: TaskStateValue) -> (r: Result<(), TaskStateError>)
        ensures
            (final(self)@, r) == transition_spec(old(self)@, next),
    {
        if self.value.is_terminal() {
            return Err(TaskStateError::TerminalState);
        }
        if next == TaskStateValue::Completed && self.required_verification_gaps.len() > 0 {
            return Err(TaskStateError::RequiredVerificationGaps);
        }
        if !is_legal_transition(self.value, next) {
            return Err(TaskStateError::IllegalTransition);
        }
        self.value = next;
        Ok(())
    }

    /// An attempt seen by an adapter is not a runtime-owned call: nothing changes.
    pub fn note_adapter_observed_agent_attempt(&mut self)
        ensures
            final(self)@ == old(self)@,
    {
    }

    /// Counts one agent call owned by the runtime.
    pub fn note_runtime_owned_agent_call(&mut self)
        requires
            old(self)@.agent_calls < u32::MAX,
        ensures
            final(self)@ == (TaskStateView {
                agent_calls: (old(self)@.agent_calls + 1) as u32,
                ..old(self)@
            }),
    {
        self.agent_calls = self.agent_calls + 1;
    }
}

fn is_legal_transition(current: TaskStateValue, next: TaskStateValue) -> (r: bool)
    ensures
        r == legal_transition(current, next),
{
    match (current, next) {
        (TaskStateValue::Created, TaskStateValue::Running)
        | (TaskStateValue::Running, TaskStateValue::Completed)
        | (TaskStateValue::Running, TaskStateValue::Failed) => true,
        _ => false,
    }
}

/// Terminal states absorb every request unchanged.
pub proof fn lemma_terminal_states_absorb(s: TaskStateView, next: TaskStateValue)
    requires
        terminal_value(s.value),
    ensures
        transition_spec(s, next) == (s, Err::<(), TaskStateError>(TaskStateError::TerminalState)),
{
}

/// A request either succeeds along an edge of the table, landing on
/// `next`, or changes nothing; no request alters the identity, the call
/// count or the gaps.
pub proof fn lemma_transition_is_table_step_or_nothing(s: TaskStateView, next: TaskStateValue)
    ensures
        transition_spec(s, next).1 is Ok ==> legal_transition(s.value, next)
            && transition_spec(s, next).0 == (TaskStateView { value: next, ..s }),
        transition_spec(s, next).1 is Err ==> transition_spec(s, next).0 == s,
        transition_spec(s, next).1 is Ok && next == TaskStateValue::Completed ==> s.gaps.len()
            == 0,
{
}

/// The name a state is stored under.
pub open spec fn stored_name(v: TaskStateValue) -> Seq<char> {
    match v {
        TaskStateValue::Created => "created"@,
        TaskStateValue::Running => "running"@,
        TaskStateValue::Completed => "completed"@,
        TaskStateValue::Failed => "failed"@,
    }
}

/// The name `value` is stored under; see `stored_name`.
pub fn state_to_str(value: TaskStateValue) -> (r: &'static str)
    ensures
        r@ == stored_name(value),
{
    match value {
        TaskStateValue::Created => "created",
        TaskStateValue::Running => "running",
        TaskStateValue::Completed => "completed",
        TaskStateValue::Failed => "failed",
    }
}

/// The state stored under `name`, or `None` for a name no state has.
pub fn state_from_str(name: &str) -> (r: Option<TaskStateValue>)
    ensures
        r matches Some(v) ==> stored_name(v) == name@,
        r is None ==> forall|v: TaskStateValue| stored_name(v) != name@,
{
    if str_eq("created", name) {
        Some(TaskStateValue::Created)
    } else if str_eq("running", name) {
        Some(TaskStateValue::Running)
    } else if str_eq("completed", name) {
        Some(TaskStateValue::Completed)
    } else if str_eq("failed", name) {
        Some(TaskStateValue::Failed)
    } else {
        proof {
            assert forall|v: TaskStateValue| stored_name(v) != name@ by {
                match v {
                    TaskStateValue::Created => {},
                    TaskStateValue::Running => {},
                    TaskStateValue::Completed => {},
                    TaskStateValue::Failed => {},
                }
            }
        }
        None
    }
}

/// Stored state names are distinct, so a stored name reads back as the
/// state that was stored.
pub proof fn lemma_stored_names_round_trip(v: TaskStateValue, w: TaskStateValue)
    ensures
        stored_name(v) == stored_name(w) ==> v == w,
{
    reveal_strlit("created");
    reveal_strlit("running");
    reveal_strlit("completed");
    reveal_strlit("failed");
    if stored_name(v) == stored_name(w) && v != w {
        assert(stored_name(v).len() == stored_name(w).len());
        assert(stored_name(v)[0] == stored_name(w)[0]);
    }
}

/// The worker lifecycle, stated in full: a request succeeds exactly for
/// `Created -> Running`, `Running -> Failed`, and `Running -> Completed`
/// with no verification gap left; on success the task takes the requested
/// value and nothing else changes; `Completed` and `Failed` refuse every
/// request as terminal.
pub proof fn lemma_lifecycle_table(s: TaskStateView, next: TaskStateValue)
    ensures
        transition_spec(s, next).1 is Ok <==> (s.value == TaskStateValue::Created && next
            == TaskStateValue::Running || s.value == TaskStateValue::Running && next
            == TaskStateValue::Failed || s.value == TaskStateValue::Running && next
            == TaskStateValue::Completed && s.gaps.len() == 0),
        transition_spec(s, next).1 is Ok ==> transition_spec(s, next).0 == (TaskStateView {
            value: next,
            ..s
        }),
        (s.value == TaskStateValue::Completed || s.value == TaskStateValue::Failed)
            ==> transition_spec(s, next).1 == Err::<(), TaskStateError>(
            TaskStateError::TerminalState,
        ),
{
}

} // verus!
