//! Task lifecycle: a nine-state machine with retry budget, required
//! verification gaps and subtask dependencies, plus per-backend attempts.
//!
//! `Queued` is the entry point. Every non-terminal state may move to
//! `Failed` or `Cancelled`; `Completed`, `Failed` and `Cancelled` are
//! terminal and absorb every further transition request.
use std::time::Duration;
use vstd::prelude::*;

use crate::text::{concat3, owned, str_eq};
use crate::timing::{duration_from_secs, secs};

verus! {

#[derive(Debug, Clone, Copy, PartialEq, Eq, Hash, Structural)]
pub enum TaskStateValue {
    Queued,
    Running,
    Blocked,
    WaitingApproval,
    Retrying,
    PartiallyCompleted,
    Completed,
    Failed,
    Cancelled,
}

/// `Completed`, `Failed` and `Cancelled`.
pub open spec fn terminal_value(v: TaskStateValue) -> bool {
    v == TaskStateValue::Completed || v == TaskStateValue::Failed || v == TaskStateValue::Cancelled
}

/// The transition table. Any non-terminal state may fail or be cancelled;
/// the remaining edges are the ones listed in the first two groups.
pub open spec fn legal_transition(current: TaskStateValue, next: TaskStateValue) -> bool {
    ||| current == TaskStateValue::Queued && next == TaskStateValue::Running
    ||| current == TaskStateValue::Running && (next == TaskStateValue::Completed || next
        == TaskStateValue::Blocked || next == TaskStateValue::WaitingApproval || next
        == TaskStateValue::Retrying || next == TaskStateValue::PartiallyCompleted)
    ||| current == TaskStateValue::Blocked && next == TaskStateValue::Running
    ||| current == TaskStateValue::WaitingApproval && next == TaskStateValue::Running
    ||| current == TaskStateValue::Retrying && next == TaskStateValue::Running
    ||| current == TaskStateValue::PartiallyCompleted && next == TaskStateValue::Completed
    ||| !terminal_value(current) && (next == TaskStateValue::Failed || next
        == TaskStateValue::Cancelled)
}

/// The name of a state value as `Debug` prints it.
pub open spec fn value_name(v: TaskStateValue) -> Seq<char> {
    match v {
        TaskStateValue::Queued => "Queued"@,
        TaskStateValue::Running => "Running"@,
        TaskStateValue::Blocked => "Blocked"@,
        TaskStateValue::WaitingApproval => "WaitingApproval"@,
        TaskStateValue::Retrying => "Retrying"@,
        TaskStateValue::PartiallyCompleted => "PartiallyCompleted"@,
        TaskStateValue::Completed => "Completed"@,
        TaskStateValue::Failed => "Failed"@,
        TaskStateValue::Cancelled => "Cancelled"@,
    }
}

impl TaskStateValue {
    pub fn is_terminal(self) -> (r: bool)
        ensures
            r == terminal_value(self),
    {
        match self {
            TaskStateValue::Completed | TaskStateValue::Failed | TaskStateValue::Cancelled => true,
            _ => false,
        }
    }

    pub fn is_alive(self) -> (r: bool)
        ensures
            r == !terminal_value(self),
    {
        !self.is_terminal()
    }

    /// The name of this value as `Debug` prints it.
    pub fn name(self) -> (r: &'static str)
        ensures
            r@ == value_name(self),
    {
        match self {
            TaskStateValue::Queued => "Queued",
            TaskStateValue::Running => "Running",
            TaskStateValue::Blocked => "Blocked",
            TaskStateValue::WaitingApproval => "WaitingApproval",
            TaskStateValue::Retrying => "Retrying",
            TaskStateValue::PartiallyCompleted => "PartiallyCompleted",
            TaskStateValue::Completed => "Completed",
            TaskStateValue::Failed => "Failed",
            TaskStateValue::Cancelled => "Cancelled",
        }
    }
}

#[derive(Debug, Clone, PartialEq, Eq)]
pub struct SubtaskDependency {
    pub subtask_id: String,
    pub required_state: TaskStateValue,
}

#[derive(Debug, Clone, Copy, PartialEq, Eq)]
pub struct TaskTimeout {
    pub max_duration: Duration,
    pub max_blocked_duration: Duration,
    pub max_approval_duration: Duration,
    pub max_retries: u32,
}

/// One hour overall, ten minutes blocked, thirty minutes awaiting
/// approval, three retries.
pub open spec fn default_timeout() -> TaskTimeout {
    TaskTimeout {
        max_duration: duration_from_secs(3600),
        max_blocked_duration: duration_from_secs(600),
        max_approval_duration: duration_from_secs(1800),
        max_retries: 3,
    }
}

impl Default for TaskTimeout {
    /// One hour overall, ten minutes blocked, thirty minutes awaiting
    /// approval, three retries.
    fn default() -> (t: Self)
        ensures
            t == default_timeout(),
    {
        TaskTimeout {
            max_duration: secs(3600),
            max_blocked_duration: secs(600),
            max_approval_duration: secs(1800),
            max_retries: 3,
        }
    }
}

/// Why a transition request was refused.
#[derive(Debug, Clone, PartialEq, Eq)]
pub enum TaskStateError {
    IllegalTransition,
    TerminalState,
    RequiredVerificationGaps,
    /// One `"<subtask_id>=><required state>"` label per unresolved subtask.
    SubtaskDependenciesUnresolved(Vec<String>),
    MaxRetriesExceeded,
    TimeoutExceeded,
}

/// Mathematical form of `TaskStateError`: labels are character sequences.
pub enum TaskStateErrorView {
    IllegalTransition,
    TerminalState,
    RequiredVerificationGaps,
    SubtaskDependenciesUnresolved(Seq<Seq<char>>),
    MaxRetriesExceeded,
    TimeoutExceeded,
}

impl View for TaskStateError {
    type V = TaskStateErrorView;

    open spec fn view(&self) -> TaskStateErrorView {
        match self {
            TaskStateError::IllegalTransition => TaskStateErrorView::IllegalTransition,
            TaskStateError::TerminalState => TaskStateErrorView::TerminalState,
            TaskStateError::RequiredVerificationGaps => TaskStateErrorView::RequiredVerificationGaps,
            TaskStateError::SubtaskDependenciesUnresolved(labels) => {
                TaskStateErrorView::SubtaskDependenciesUnresolved(
                    labels@.map_values(|l: String| l@),
                )
            },
            TaskStateError::MaxRetriesExceeded => TaskStateErrorView::MaxRetriesExceeded,
            TaskStateError::TimeoutExceeded => TaskStateErrorView::TimeoutExceeded,
        }
    }
}

/// The view of a transition result.
pub open spec fn outcome_view(r: Result<(), TaskStateError>) -> Result<(), TaskStateErrorView> {
    match r {
        Ok(()) => Ok(()),
        Err(e) => Err(e@),
    }
}

/// The label of one unresolved subtask: `"<id>=><required state>"`.
pub open spec fn subtask_label(d: SubtaskDependency) -> Seq<char> {
    d.subtask_id@ + "=>"@ + value_name(d.required_state)
}

/// Everything a task state holds, as mathematical values.
pub struct TaskStateView {
    pub task_id: Seq<char>,
    pub value: TaskStateValue,
    pub agent_calls: u32,
    pub gaps: Seq<Seq<char>>,
    pub subtasks: Seq<SubtaskDependency>,
    pub timeout: TaskTimeout,
    pub retry_count: u32,
    pub cancel_propagation: bool,
}

impl TaskStateView {
    pub open spec fn with_value(self, v: TaskStateValue) -> TaskStateView {
        TaskStateView { value: v, ..self }
    }

    pub open spec fn with_retry_count(self, n: u32) -> TaskStateView {
        TaskStateView { retry_count: n, ..self }
    }

    pub open spec fn with_subtasks(self, s: Seq<SubtaskDependency>) -> TaskStateView {
        TaskStateView { subtasks: s, ..self }
    }

    /// A fresh state at `value` with default timeout and no gaps or subtasks.
    pub open spec fn fresh(
        task_id: Seq<char>,
        value: TaskStateValue,
        agent_calls: u32,
        timeout: TaskTimeout,
    ) -> TaskStateView {
        TaskStateView {
            task_id,
            value,
            agent_calls,
            gaps: Seq::empty(),
            subtasks: Seq::empty(),
            timeout,
            retry_count: 0,
            cancel_propagation: true,
        }
    }
}

/// The outcome of asking state `s` to move to `next`: the new state and
/// the result. Checks run in this order: terminal state, completion
/// prerequisites (gaps, then subtasks), retry budget (which counts the
/// attempt even when the edge itself is then refused), the table.
pub open spec fn transition_spec(s: TaskStateView, next: TaskStateValue) -> (
    TaskStateView,
    Result<(), TaskStateErrorView>,
) {
    if terminal_value(s.value) {
        (s, Err(TaskStateErrorView::TerminalState))
    } else if next == TaskStateValue::Completed && s.gaps.len() > 0 {
        (s, Err(TaskStateErrorView::RequiredVerificationGaps))
    } else if next == TaskStateValue::Completed && s.subtasks.len() > 0 {
        (
            s,
            Err(
                TaskStateErrorView::SubtaskDependenciesUnresolved(
                    s.subtasks.map_values(|d: SubtaskDependency| subtask_label(d)),
                ),
            ),
        )
    } else if next == TaskStateValue::Retrying && s.retry_count >= s.timeout.max_retries {
        (s, Err(TaskStateErrorView::MaxRetriesExceeded))
    } else {
        let counted = if next == TaskStateValue::Retrying {
            s.with_retry_count((s.retry_count + 1) as u32)
        } else {
            s
        };
        if legal_transition(s.value, next) {
            (counted.with_value(next), Ok(()))
        } else {
            (counted, Err(TaskStateErrorView::IllegalTransition))
        }
    }
}

/// Terminal states absorb every request: nothing changes and the answer
/// is `TerminalState`.
pub proof fn lemma_terminal_states_absorb(s: TaskStateView, next: TaskStateValue)
    requires
        terminal_value(s.value),
    ensures
        transition_spec(s, next) == (s, Err::<(), TaskStateErrorView>(
            TaskStateErrorView::TerminalState,
        )),
{
}

/// A request that succeeds follows an edge of the table, starts from a
/// live state and lands on the requested value.
pub proof fn lemma_success_follows_table(s: TaskStateView, next: TaskStateValue)
    requires
        transition_spec(s, next).1 is Ok,
    ensures
        !terminal_value(s.value),
        legal_transition(s.value, next),
        transition_spec(s, next).0.value == next,
{
}

/// A task only completes with no verification gap and no open subtask
/// dependency left.
pub proof fn lemma_completion_requires_no_gaps_or_dependencies(s: TaskStateView)
    requires
        transition_spec(s, TaskStateValue::Completed).1 is Ok,
    ensures
        s.gaps.len() == 0,
        s.subtasks.len() == 0,
{
}

/// The retry count moves only on a `Retrying` request, by one, and never
/// past the budget it started within.
pub proof fn lemma_retry_budget_is_respected(s: TaskStateView, next: TaskStateValue)
    requires
        s.retry_count <= s.timeout.max_retries,
    ensures
        transition_spec(s, next).0.retry_count <= s.timeout.max_retries,
        transition_spec(s, next).0.retry_count == s.retry_count || (next
            == TaskStateValue::Retrying && transition_spec(s, next).0.retry_count
            == s.retry_count + 1),
{
}

/// A refused request leaves the state as it was, except that a refused
/// retry within budget has still been counted.
pub proof fn lemma_refusal_changes_at_most_the_retry_count(
    s: TaskStateView,
    next: TaskStateValue,
)
    requires
        transition_spec(s, next).1 is Err,
    ensures
        transition_spec(s, next).0 == s || (next == TaskStateValue::Retrying
            && transition_spec(s, next).0 == s.with_retry_count((s.retry_count + 1) as u32)),
{
}

/// Transitions never touch the identity, the call count, the gaps, the
/// subtask dependencies, the timeout or the cancel-propagation flag.
pub proof fn lemma_transition_frame(s: TaskStateView, next: TaskStateValue)
    ensures
        transition_spec(s, next).0.task_id == s.task_id,
        transition_spec(s, next).0.agent_calls == s.agent_calls,
        transition_spec(s, next).0.gaps == s.gaps,
        transition_spec(s, next).0.subtasks == s.subtasks,
        transition_spec(s, next).0.timeout == s.timeout,
        transition_spec(s, next).0.cancel_propagation == s.cancel_propagation,
{
}

/// A call on a task state, other than counting a runtime-owned agent call.
pub enum StateCall {
    Transition(TaskStateValue),
    AddSubtask(SubtaskDependency),
    ResolveSubtask(Seq<char>),
    ResolveSubtaskAndProgress(Seq<char>),
    AddGap(Seq<char>),
    SetTimeout(TaskTimeout),
    SetCancelPropagation(bool),
    AdapterObservedAttempt,
}

/// The state after one call, as the method's contract gives it, whether
/// the call succeeded or was refused.
pub open spec fn call_effect(s: TaskStateView, c: StateCall) -> TaskStateView {
    match c {
        StateCall::Transition(next) => transition_spec(s, next).0,
        StateCall::AddSubtask(d) => s.with_subtasks(s.subtasks.push(d)),
        StateCall::ResolveSubtask(id) => s.with_subtasks(without_subtask(s.subtasks, id)),
        StateCall::ResolveSubtaskAndProgress(id) => {
            let resolved = s.with_subtasks(without_subtask(s.subtasks, id));
            if resolved.subtasks.len() == 0 && resolved.value == TaskStateValue::PartiallyCompleted
                && resolved.gaps.len() == 0 {
                resolved.with_value(TaskStateValue::Completed)
            } else {
                resolved
            }
        },
        StateCall::AddGap(g) => TaskStateView { gaps: s.gaps.push(g), ..s },
        StateCall::SetTimeout(t) => TaskStateView { timeout: t, ..s },
        StateCall::SetCancelPropagation(b) => TaskStateView { cancel_propagation: b, ..s },
        StateCall::AdapterObservedAttempt => s,
    }
}

/// The state after a sequence of calls, in order.
pub open spec fn apply_calls(s: TaskStateView, calls: Seq<StateCall>) -> TaskStateView
    decreases calls.len(),
{
    if calls.len() == 0 {
        s
    } else {
        call_effect(apply_calls(s, calls.drop_last()), calls.last())
    }
}

/// The agent-call count changes only through a runtime-owned call: any
/// sequence of other calls, successful or refused, keeps it (and the
/// task's identity).
pub proof fn lemma_agent_calls_only_change_by_runtime_calls(s: TaskStateView, calls: Seq<StateCall>)
    ensures
        apply_calls(s, calls).agent_calls == s.agent_calls,
        apply_calls(s, calls).task_id == s.task_id,
    decreases calls.len(),
{
    if calls.len() > 0 {
        lemma_agent_calls_only_change_by_runtime_calls(s, calls.drop_last());
        match calls.last() {
            StateCall::Transition(next) => {
                lemma_transition_frame(apply_calls(s, calls.drop_last()), next);
            },
            _ => {},
        }
    }
}

/// Every live task can fail and can be cancelled, whatever its gaps,
/// dependencies or retry count.
pub proof fn lemma_live_tasks_can_stop(s: TaskStateView)
    requires
        !terminal_value(s.value),
    ensures
        transition_spec(s, TaskStateValue::Failed) == (s.with_value(TaskStateValue::Failed), Ok::<
            (),
            TaskStateErrorView,
        >(())),
        transition_spec(s, TaskStateValue::Cancelled) == (s.with_value(
            TaskStateValue::Cancelled,
        ), Ok::<(), TaskStateErrorView>(())),
{
}

/// `s` without the dependencies on subtask `id`, order kept.
pub open spec fn without_subtask(s: Seq<SubtaskDependency>, id: Seq<char>) -> Seq<
    SubtaskDependency,
>
    decreases s.len(),
{
    if s.len() == 0 {
        Seq::empty()
    } else {
        let rest = without_subtask(s.drop_last(), id);
        if s.last().subtask_id@ == id {
            rest
        } else {
            rest.push(s.last())
        }
    }
}

/// A task's lifecycle state.
#[derive(Debug, Clone, PartialEq, Eq)]
pub struct TaskState {
    task_id: String,
    value: TaskStateValue,
    agent_calls: u32,
    required_verification_gaps: Vec<String>,
    subtasks: Vec<SubtaskDependency>,
    timeout: TaskTimeout,
    retry_count: u32,
    cancel_propagation: bool,
}

impl View for TaskState {
    type V = TaskStateView;

    closed spec fn view(&self) -> TaskStateView {
        TaskStateView {
            task_id: self.task_id@,
            value: self.value,
            agent_calls: self.agent_calls,
            gaps: self.required_verification_gaps@.map_values(|g: String| g@),
            subtasks: self.subtasks@,
            timeout: self.timeout,
            retry_count: self.retry_count,
            cancel_propagation: self.cancel_propagation,
        }
    }
}

impl TaskState {
    /// A new task, `Queued`, with no calls, gaps or subtasks and the default timeout.
    pub fn new(task_id: &str) -> (s: Self)
        ensures
            s@ == TaskStateView::fresh(task_id@, TaskStateValue::Queued, 0, default_timeout()),
    {
        Self::restore(task_id, TaskStateValue::Queued, 0)
    }

    /// A task rebuilt from a stored value and call count.
    pub fn restore(task_id: &str, value: TaskStateValue, agent_calls: u32) -> (s: Self)
        ensures
            s@ == TaskStateView::fresh(task_id@, value, agent_calls, default_timeout()),
    {
        let s = TaskState {
            task_id: owned(task_id),
            value,
            agent_calls,
            required_verification_gaps: Vec::new(),
            subtasks: Vec::new(),
            timeout: TaskTimeout::default(),
            retry_count: 0,
            cancel_propagation: true,
        };
        assert(s@.gaps =~= Seq::<Seq<char>>::empty());
        s
    }

    /// A task rebuilt with its retry count and subtask dependencies.
    pub fn restore_full(
        task_id: &str,
        value: TaskStateValue,
        agent_calls: u32,
        retry_count: u32,
        subtasks: Vec<SubtaskDependency>,
    ) -> (s: Self)
        ensures
            s@ == (TaskStateView {
                retry_count,
                subtasks: subtasks@,
                ..TaskStateView::fresh(task_id@, value, agent_calls, default_timeout())
            }),
    {
        let s = TaskState {
            task_id: owned(task_id),
            value,
            agent_calls,
            required_verification_gaps: Vec::new(),
            subtasks,
            timeout: TaskTimeout::default(),
            retry_count,
            cancel_propagation: true,
        };
        assert(s@.gaps =~= Seq::<Seq<char>>::empty());
        s
    }

    pub fn task_id(&self) -> (r: &str)
        ensures
            r@ == self@.task_id,
    {
        self.task_id.as_str()
    }

    pub fn value(&self) -> (r: TaskStateValue)
        ensures
            r == self@.value,
    {
        self.value
    }

    pub fn agent_calls(&self) -> (r: u32)
        ensures
            r == self@.agent_calls,
    {
        self.agent_calls
    }

    pub fn retry_count(&self) -> (r: u32)
        ensures
            r == self@.retry_count,
    {
        self.retry_count
    }

    pub fn subtasks(&self) -> (r: &[SubtaskDependency])
        ensures
            r@ == self@.subtasks,
    {
        self.subtasks.as_slice()
    }

    pub fn timeout(&self) -> (r: &TaskTimeout)
        ensures
            *r == self@.timeout,
    {
        &self.timeout
    }

    pub fn cancel_propagation(&self) -> (r: bool)
        ensures
            r == self@.cancel_propagation,
    {
        self.cancel_propagation
    }

    pub fn set_timeout(&mut self, timeout: TaskTimeout)
        ensures
            final(self)@ == (TaskStateView { timeout, ..old(self)@ }),
            final(self)@ == call_effect(old(self)@, StateCall::SetTimeout(timeout)),
    {
        self.timeout = timeout;
    }

    pub fn set_cancel_propagation(&mut self, propagate: bool)
        ensures
            final(self)@ == (TaskStateView { cancel_propagation: propagate, ..old(self)@ }),
            final(self)@ == call_effect(old(self)@, StateCall::SetCancelPropagation(propagate)),
    {
        self.cancel_propagation = propagate;
    }

    pub fn add_required_verification_gap(&mut self, gap: &str)
        ensures
            final(self)@ == (TaskStateView { gaps: old(self)@.gaps.push(gap@), ..old(self)@ }),
            final(self)@ == call_effect(old(self)@, StateCall::AddGap(gap@)),
    {
        self.required_verification_gaps.push(owned(gap));
        assert(self@.gaps =~= old(self)@.gaps.push(gap@));
    }

    pub fn add_subtask(&mut self, subtask_id: &str, required_state: TaskStateValue)
        ensures
            final(self)@ == old(self)@.with_subtasks(final(self)@.subtasks),
            final(self)@.subtasks.len() == old(self)@.subtasks.len() + 1,
            final(self)@.subtasks.drop_last() == old(self)@.subtasks,
            final(self)@.subtasks.last().subtask_id@ == subtask_id@,
            final(self)@.subtasks.last().required_state == required_state,
            final(self)@ == call_effect(old(self)@, StateCall::AddSubtask(final(self)@.subtasks.last())),
    {
        self.subtasks.push(SubtaskDependency { subtask_id: owned(subtask_id), required_state });
        assert(self@.subtasks.drop_last() =~= old(self)@.subtasks);
    }

    /// Drops every dependency on `subtask_id`, keeping the others in order.
    pub fn resolve_subtask(&mut self, subtask_id: &str)
        ensures
            final(self)@ == old(self)@.with_subtasks(
                without_subtask(old(self)@.subtasks, subtask_id@),
            ),
            final(self)@ == call_effect(old(self)@, StateCall::ResolveSubtask(subtask_id@)),
    {
        let mut kept: Vec<SubtaskDependency> = Vec::new();
        let mut i: usize = 0;
        while i < self.subtasks.len()
            invariant
                i <= self.subtasks.len(),
                self@ == old(self)@,
                kept@ == without_subtask(self.subtasks@.subrange(0, i as int), subtask_id@),
            decreases self.subtasks.len() - i,
        {
            let dep = &self.subtasks[i];
            proof {
                assert(self.subtasks@.subrange(0, i + 1).drop_last() =~= self.subtasks@.subrange(
                    0,
                    i as int,
                ));
            }
            if !str_eq(dep.subtask_id.as_str(), subtask_id) {
                kept.push(
                    SubtaskDependency {
                        subtask_id: dep.subtask_id.clone(),
                        required_state: dep.required_state,
                    },
                );
            }
            i = i + 1;
        }
        assert(self.subtasks@.subrange(0, self.subtasks.len() as int) =~= self.subtasks@);
        self.subtasks = kept;
    }

    pub fn subtasks_resolved(&self) -> (r: bool)
        ensures
            r == (self@.subtasks.len() == 0),
    {
        self.subtasks.len() == 0
    }

    /// An attempt seen by an adapter is not a runtime-owned call: nothing changes.
    pub fn note_adapter_observed_agent_attempt(&mut self)
        ensures
            final(self)@ == old(self)@,
            final(self)@ == call_effect(old(self)@, StateCall::AdapterObservedAttempt),
    {
    }

    /// Counts one agent call owned by the runtime.
    pub fn note_runtime_owned_agent_call(&mut self)
        requires
            old(self)@.agent_calls < u32::MAX,
        ensures
            final(self)@ == (TaskStateView {
                agent_calls: (old(self)@.agent_calls + 1) as u32,
                ..old(self)@
            }),
    {
        self.agent_calls = self.agent_calls + 1;
    }

    fn unresolved_labels(&self) -> (r: Vec<String>)
        ensures
            r@.map_values(|l: String| l@) == self@.subtasks.map_values(
                |d: SubtaskDependency| subtask_label(d),
            ),
    {
        let mut labels: Vec<String> = Vec::new();
        let mut i: usize = 0;
        while i < self.subtasks.len()
            invariant
                i <= self.subtasks.len(),
                labels@.len() == i,
                forall|j: int|
                    0 <= j < i ==> #[trigger] labels@[j]@ == subtask_label(self.subtasks@[j]),
            decreases self.subtasks.len() - i,
        {
            let dep = &self.subtasks[i];
            let label = concat3(dep.subtask_id.as_str(), "=>", dep.required_state.name());
            labels.push(label);
            i = i + 1;
        }
        assert(labels@.map_values(|l: String| l@) =~= self@.subtasks.map_values(
            |d: SubtaskDependency| subtask_label(d),
        ));
        labels
    }

    /// Asks the task to move to `next`; see `transition_spec` for the exact
    /// outcome on every input.
    pub fn transition_to(&mut self, next: TaskStateValue) -> (r: Result<(), TaskStateError>)
        ensures
            (final(self)@, outcome_view(r)) == transition_spec(old(self)@, next),
            final(self)@ == call_effect(old(self)@, StateCall::Transition(next)),
    {
        if self.value.is_terminal() {
            return Err(TaskStateError::TerminalState);
        }
        if next == TaskStateValue::Completed {
            if self.required_verification_gaps.len() > 0 {
                return Err(TaskStateError::RequiredVerificationGaps);
            }
            if !self.subtasks_resolved() {
                let unresolved = self.unresolved_labels();
                return Err(TaskStateError::SubtaskDependenciesUnresolved(unresolved));
            }
        }
        if next == TaskStateValue::Retrying {
            if self.retry_count >= self.timeout.max_retries {
                return Err(TaskStateError::MaxRetriesExceeded);
            }
            self.retry_count = self.retry_count + 1;
        }
        if !is_legal_transition(self.value, next) {
            return Err(TaskStateError::IllegalTransition);
        }
        self.value = next;
        Ok(())
    }

    /// Drops the dependency on `subtask_id`; a `PartiallyCompleted` task with
    /// no dependency and no gap left then completes.
    pub fn resolve_subtask_and_progress(
        &mut self,
        subtask_id: &str,
        _subtask_state: TaskStateValue,
    ) -> (r: Result<Option<TaskStateValue>, TaskStateError>)
        ensures
            ({
                let resolved = old(self)@.with_subtasks(
                    without_subtask(old(self)@.subtasks, subtask_id@),
                );
                if resolved.subtasks.len() == 0 && resolved.value
                    == TaskStateValue::PartiallyCompleted && resolved.gaps.len() == 0 {
                    final(self)@ == resolved.with_value(TaskStateValue::Completed) && r == Ok::<
                        Option<TaskStateValue>,
                        TaskStateError,
                    >(Some(TaskStateValue::Completed))
                } else {
                    final(self)@ == resolved && r == Ok::<
                        Option<TaskStateValue>,
                        TaskStateError,
                    >(None)
                }
            }),
            final(self)@ == call_effect(old(self)@, StateCall::ResolveSubtaskAndProgress(subtask_id@)),
    {
        self.resolve_subtask(subtask_id);
        if self.subtasks_resolved() {
            if self.value == TaskStateValue::PartiallyCompleted {
                if self.required_verification_gaps.len() == 0 {
                    let done = self.transition_to(TaskStateValue::Completed);
                    match done {
                        Ok(()) => {},
                        Err(e) => {
                            return Err(e);
                        },
                    }
                    return Ok(Some(TaskStateValue::Completed));
                }
                return Ok(None);
            }
            return Ok(None);
        }
        Ok(None)
    }
}

fn is_legal_transition(current: TaskStateValue, next: TaskStateValue) -> (r: bool)
    ensures
        r == legal_transition(current, next),
{
    match (current, next) {
        (TaskStateValue::Queued, TaskStateValue::Running)
        | (TaskStateValue::Running, TaskStateValue::Completed)
        | (TaskStateValue::Running, TaskStateValue::Blocked)
        | (TaskStateValue::Running, TaskStateValue::WaitingApproval)
        | (TaskStateValue::Running, TaskStateValue::Retrying)
        | (TaskStateValue::Running, TaskStateValue::PartiallyCompleted)
        | (TaskStateValue::Blocked, TaskStateValue::Running)
        | (TaskStateValue::WaitingApproval, TaskStateValue::Running)
        | (TaskStateValue::Retrying, TaskStateValue::Running)
        | (TaskStateValue::PartiallyCompleted, TaskStateValue::Completed) => true,
        (_, TaskStateValue::Failed) | (_, TaskStateValue::Cancelled) => !current.is_terminal(),
        _ => false,
    }
}

/// Per-backend-invocation attempt within an operation.
#[derive(Debug, Clone, Copy, PartialEq, Eq, Structural)]
pub enum AttemptStateValue {
    /// Queued, not yet dispatched.
    Pending,
    /// The backend is executing.
    Running,
    /// Completed successfully.
    Succeeded,
    /// Backend error, timeout or protocol error.
    Failed,
}

impl AttemptStateValue {
    pub fn is_terminal(self) -> (r: bool)
        ensures
            r == (self == AttemptStateValue::Succeeded || self == AttemptStateValue::Failed),
    {
        match self {
            AttemptStateValue::Succeeded | AttemptStateValue::Failed => true,
            _ => false,
        }
    }
}

/// Record of a single backend invocation attempt.
#[derive(Debug, Clone)]
pub struct OperationAttempt {
    pub task_id: String,
    pub request_id: Option<String>,
    pub operation: String,
    pub backend_id: String,
    pub attempt_number: u32,
    pub state: AttemptStateValue,
    pub error: Option<String>,
}

impl OperationAttempt {
    /// A `Pending` attempt with no error.
    pub fn new(
        task_id: &str,
        request_id: Option<String>,
        operation: &str,
        backend_id: &str,
        attempt_number: u32,
    ) -> (a: Self)
        ensures
            a.task_id@ == task_id@,
            a.request_id == request_id,
            a.operation@ == operation@,
            a.backend_id@ == backend_id@,
            a.attempt_number == attempt_number,
            a.state == AttemptStateValue::Pending,
            a.error is None,
    {
        OperationAttempt {
            task_id: owned(task_id),
            request_id,
            operation: owned(operation),
            backend_id: owned(backend_id),
            attempt_number,
            state: AttemptStateValue::Pending,
            error: None,
        }
    }

    pub fn start(&mut self)
        ensures
            *final(self) == (OperationAttempt { state: AttemptStateValue::Running, ..*old(self) }),
    {
        self.state = AttemptStateValue::Running;
    }

    pub fn succeed(&mut self)
        ensures
            *final(self) == (OperationAttempt { state: AttemptStateValue::Succeeded, ..*old(self) }),
    {
        self.state = AttemptStateValue::Succeeded;
    }

    /// Marks the attempt failed and records the error text.
    pub fn fail(&mut self, error: &str)
        ensures
            final(self).state == AttemptStateValue::Failed,
            final(self).error matches Some(e) && e@ == error@,
            final(self).task_id == old(self).task_id,
            final(self).request_id == old(self).request_id,
            final(self).operation == old(self).operation,
            final(self).backend_id == old(self).backend_id,
            final(self).attempt_number == old(self).attempt_number,
    {
        self.state = AttemptStateValue::Failed;
        self.error = Some(owned(error));
    }
}

/// The task lifecycle, stated in full. From a live state a request
/// succeeds exactly along these edges: `Queued -> Running`; `Running` to
/// `Completed`, `Blocked`, `WaitingApproval`, `Retrying` or
/// `PartiallyCompleted`; `Blocked`, `WaitingApproval` and `Retrying` back
/// to `Running`; `PartiallyCompleted -> Completed`; and any live state to
/// `Failed` or `Cancelled`. Completion also needs no verification gap and
/// no open subtask, and a retry a count below the budget. On success the
/// task takes the requested value (a retry also counts itself);
/// `Completed`, `Failed` and `Cancelled` refuse every request.
pub proof fn lemma_lifecycle_table(s: TaskStateView, next: TaskStateValue)
    ensures
        ({
            let live = s.value == TaskStateValue::Queued || s.value == TaskStateValue::Running
                || s.value == TaskStateValue::Blocked || s.value
                == TaskStateValue::WaitingApproval || s.value == TaskStateValue::Retrying
                || s.value == TaskStateValue::PartiallyCompleted;
            let edge = s.value == TaskStateValue::Queued && next == TaskStateValue::Running
                || s.value == TaskStateValue::Running && (next == TaskStateValue::Completed || next
                == TaskStateValue::Blocked || next == TaskStateValue::WaitingApproval || next
                == TaskStateValue::Retrying || next == TaskStateValue::PartiallyCompleted)
                || (s.value == TaskStateValue::Blocked || s.value
                == TaskStateValue::WaitingApproval || s.value == TaskStateValue::Retrying) && next
                == TaskStateValue::Running || s.value == TaskStateValue::PartiallyCompleted && next
                == TaskStateValue::Completed || live && (next == TaskStateValue::Failed || next
                == TaskStateValue::Cancelled);
            &&& transition_spec(s, next).1 is Ok <==> live && edge && (next
                == TaskStateValue::Completed ==> s.gaps.len() == 0 && s.subtasks.len() == 0) && (
            next == TaskStateValue::Retrying ==> s.retry_count < s.timeout.max_retries)
            &&& transition_spec(s, next).1 is Ok ==> transition_spec(s, next).0.value == next
            &&& transition_spec(s, next).1 is Ok && next != TaskStateValue::Retrying
                ==> transition_spec(s, next).0 == s.with_value(next)
            &&& !live ==> transition_spec(s, next) == (s, Err::<(), TaskStateErrorView>(
                TaskStateErrorView::TerminalState,
            ))
        }),
{
}

} // verus!
