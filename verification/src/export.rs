//! The task documents the audit store exports: the full history of one
//! task, its short summary and the list of active tasks, built from the
//! rows the store read. Keys are in sorted order, as the JSON writer emits
//! objects.
use vstd::prelude::*;

use crate::json::{json_quote, optional_string, quote, write_optional_string};
use crate::state::TaskStateValue;
use crate::storage::{state_name, task_state_to_str, RuntimeEventRecord};
use crate::text::{concat2, decimal, decimal_string, join_strings, join_with, nat_digits, opt_view,
    owned, strings_view, u64_string};

verus! {

/// A stored runtime decision.
#[derive(Debug, Clone)]
pub struct DecisionRow {
    pub decision: String,
    pub reasons_json: String,
    pub operation: String,
    pub request_id: Option<String>,
}

/// A stored runtime step.
#[derive(Debug, Clone)]
pub struct StepRow {
    pub id: i64,
    pub request_id: Option<String>,
    pub operation: String,
    pub state: String,
}

/// A stored operation attempt.
#[derive(Debug, Clone)]
pub struct AttemptRow {
    pub id: i64,
    pub request_id: Option<String>,
    pub operation: String,
    pub backend_id: String,
    pub attempt_number: i64,
    pub state: String,
    pub error_json: Option<String>,
}

/// A live task with its step statistics.
#[derive(Debug, Clone)]
pub struct ActiveTaskRow {
    pub task_id: String,
    pub state: String,
    pub agent_calls: i64,
    pub step_count: i64,
    pub last_step_ms: Option<i64>,
}

/// A JSON array of already written items.
pub open spec fn json_array(items: Seq<Seq<char>>) -> Seq<char> {
    "["@ + join_with(items, ","@) + "]"@
}

/// An optional integer, or `null`.
pub open spec fn optional_number(n: Option<i64>) -> Seq<char> {
    match n {
        Some(v) => decimal(v as int),
        None => "null"@,
    }
}

pub open spec fn decision_object(d: DecisionRow) -> Seq<char> {
    "{\"decision\":"@ + json_quote(d.decision@) + ",\"operation\":"@ + json_quote(d.operation@)
        + ",\"reasons\":"@ + json_quote(d.reasons_json@) + ",\"request_id\":"@ + optional_string(
        opt_view(d.request_id),
    ) + "}"@
}

pub open spec fn step_object(s: StepRow) -> Seq<char> {
    "{\"id\":"@ + decimal(s.id as int) + ",\"operation\":"@ + json_quote(s.operation@)
        + ",\"request_id\":"@ + optional_string(opt_view(s.request_id)) + ",\"state\":"@ + json_quote(
        s.state@,
    ) + "}"@
}

pub open spec fn attempt_object(a: AttemptRow) -> Seq<char> {
    "{\"attempt_number\":"@ + decimal(a.attempt_number as int) + ",\"backend_id\":"@ + json_quote(
        a.backend_id@,
    ) + ",\"error_json\":"@ + optional_string(opt_view(a.error_json)) + ",\"id\":"@ + decimal(
        a.id as int,
    ) + ",\"operation\":"@ + json_quote(a.operation@) + ",\"request_id\":"@ + optional_string(
        opt_view(a.request_id),
    ) + ",\"state\":"@ + json_quote(a.state@) + "}"@
}

pub open spec fn event_object(e: RuntimeEventRecord) -> Seq<char> {
    "{\"event_type\":"@ + json_quote(e.event_type@) + ",\"payload_json\":"@ + json_quote(
        e.payload_json@,
    ) + ",\"step_id\":"@ + optional_number(e.step_id) + ",\"task_sequence\":"@ + decimal(
        e.task_sequence as int,
    ) + "}"@
}

pub open spec fn active_task_object(t: ActiveTaskRow) -> Seq<char> {
    "{\"agent_calls\":"@ + decimal(t.agent_calls as int) + ",\"last_step_ms\":"@ + optional_number(
        t.last_step_ms,
    ) + ",\"state\":"@ + json_quote(t.state@) + ",\"step_count\":"@ + decimal(t.step_count as int)
        + ",\"task_id\":"@ + json_quote(t.task_id@) + "}"@
}

/// The export of a task's full history (`coagent_export_v1`).
pub open spec fn export_document(
    task_id: Seq<char>,
    state: TaskStateValue,
    agent_calls: u32,
    retry_count: u32,
    decisions: Seq<DecisionRow>,
    steps: Seq<StepRow>,
    attempts: Seq<AttemptRow>,
    events: Seq<RuntimeEventRecord>,
) -> Seq<char> {
    "{\"agent_calls\":"@ + nat_digits(agent_calls as nat) + ",\"attempts\":"@ + json_array(
        attempts.map_values(|a: AttemptRow| attempt_object(a)),
    ) + ",\"decisions\":"@ + json_array(decisions.map_values(|d: DecisionRow| decision_object(d)))
        + ",\"events\":"@ + json_array(events.map_values(|e: RuntimeEventRecord| event_object(e)))
        + ",\"retry_count\":"@ + nat_digits(retry_count as nat)
        + ",\"schema_version\":\"coagent_export_v1\",\"state\":"@ + json_quote(state_name(state))
        + ",\"steps\":"@ + json_array(steps.map_values(|s: StepRow| step_object(s))) + ",\"task_id\":"@
        + json_quote(task_id) + "}"@
}

/// The short summary of a task with its latest decisions.
pub open spec fn summary_document(
    task_id: Seq<char>,
    state: TaskStateValue,
    agent_calls: u32,
    decisions: Seq<DecisionRow>,
) -> Seq<char> {
    "{\"agent_calls\":"@ + nat_digits(agent_calls as nat) + ",\"decisions\":"@ + json_array(
        decisions.map_values(|d: DecisionRow| summary_decision_object(d)),
    ) + ",\"state\":"@ + json_quote(state_name(state)) + ",\"task_id\":"@ + json_quote(task_id)
        + "}"@
}

/// A decision in a summary: without its request id.
pub open spec fn summary_decision_object(d: DecisionRow) -> Seq<char> {
    "{\"decision\":"@ + json_quote(d.decision@) + ",\"operation\":"@ + json_quote(d.operation@)
        + ",\"reasons\":"@ + json_quote(d.reasons_json@) + "}"@
}

fn write_optional_number(n: Option<i64>) -> (r: String)
    ensures
        r@ == optional_number(n),
{
    match n {
        Some(v) => decimal_string(v),
        None => owned("null"),
    }
}

fn write_decision(d: &DecisionRow) -> (r: String)
    ensures
        r@ == decision_object(*d),
{
    let mut s = concat2("{\"decision\":", quote(d.decision.as_str()).as_str());
    s.append(",\"operation\":");
    s.append(quote(d.operation.as_str()).as_str());
    s.append(",\"reasons\":");
    s.append(quote(d.reasons_json.as_str()).as_str());
    s.append(",\"request_id\":");
    s.append(write_optional_string(&d.request_id).as_str());
    s.append("}");
    s
}

fn write_summary_decision(d: &DecisionRow) -> (r: String)
    ensures
        r@ == summary_decision_object(*d),
{
    let mut s = concat2("{\"decision\":", quote(d.decision.as_str()).as_str());
    s.append(",\"operation\":");
    s.append(quote(d.operation.as_str()).as_str());
    s.append(",\"reasons\":");
    s.append(quote(d.reasons_json.as_str()).as_str());
    s.append("}");
    s
}

fn write_step(st: &StepRow) -> (r: String)
    ensures
        r@ == step_object(*st),
{
    let mut s = concat2("{\"id\":", decimal_string(st.id).as_str());
    s.append(",\"operation\":");
    s.append(quote(st.operation.as_str()).as_str());
    s.append(",\"request_id\":");
    s.append(write_optional_string(&st.request_id).as_str());
    s.append(",\"state\":");
    s.append(quote(st.state.as_str()).as_str());
    s.append("}");
    s
}

fn write_attempt(a: &AttemptRow) -> (r: String)
    ensures
        r@ == attempt_object(*a),
{
    let mut s = concat2("{\"attempt_number\":", decimal_string(a.attempt_number).as_str());
    s.append(",\"backend_id\":");
    s.append(quote(a.backend_id.as_str()).as_str());
    s.append(",\"error_json\":");
    s.append(write_optional_string(&a.error_json).as_str());
    s.append(",\"id\":");
    s.append(decimal_string(a.id).as_str());
    s.append(",\"operation\":");
    s.append(quote(a.operation.as_str()).as_str());
    s.append(",\"request_id\":");
    s.append(write_optional_string(&a.request_id).as_str());
    s.append(",\"state\":");
    s.append(quote(a.state.as_str()).as_str());
    s.append("}");
    s
}

fn write_event(e: &RuntimeEventRecord) -> (r: String)
    ensures
        r@ == event_object(*e),
{
    let mut s = concat2("{\"event_type\":", quote(e.event_type.as_str()).as_str());
    s.append(",\"payload_json\":");
    s.append(quote(e.payload_json.as_str()).as_str());
    s.append(",\"step_id\":");
    s.append(write_optional_number(e.step_id).as_str());
    s.append(",\"task_sequence\":");
    s.append(decimal_string(e.task_sequence).as_str());
    s.append("}");
    s
}

fn write_active_task(t: &ActiveTaskRow) -> (r: String)
    ensures
        r@ == active_task_object(*t),
{
    let mut s = concat2("{\"agent_calls\":", decimal_string(t.agent_calls).as_str());
    s.append(",\"last_step_ms\":");
    s.append(write_optional_number(t.last_step_ms).as_str());
    s.append(",\"state\":");
    s.append(quote(t.state.as_str()).as_str());
    s.append(",\"step_count\":");
    s.append(decimal_string(t.step_count).as_str());
    s.append(",\"task_id\":");
    s.append(quote(t.task_id.as_str()).as_str());
    s.append("}");
    s
}

fn array_text(items: &Vec<String>) -> (r: String)
    ensures
        r@ == json_array(strings_view(items@)),
{
    let joined = join_strings(items, ",");
    let mut s = owned("[");
    s.append(joined.as_str());
    s.append("]");
    s
}

fn decisions_text(rows: &Vec<DecisionRow>) -> (r: String)
    ensures
        r@ == json_array(rows@.map_values(|d: DecisionRow| decision_object(d))),
{
    let mut items: Vec<String> = Vec::new();
    let mut i: usize = 0;
    while i < rows.len()
        invariant
            i <= rows.len(),
            items@.len() == i,
            forall|k: int| 0 <= k < i ==> (#[trigger] items@[k])@ == decision_object(rows@[k]),
        decreases rows.len() - i,
    {
        items.push(write_decision(&rows[i]));
        i = i + 1;
    }
    assert(strings_view(items@) =~= rows@.map_values(|d: DecisionRow| decision_object(d)));
    array_text(&items)
}

fn summary_decisions_text(rows: &Vec<DecisionRow>) -> (r: String)
    ensures
        r@ == json_array(rows@.map_values(|d: DecisionRow| summary_decision_object(d))),
{
    let mut items: Vec<String> = Vec::new();
    let mut i: usize = 0;
    while i < rows.len()
        invariant
            i <= rows.len(),
            items@.len() == i,
            forall|k: int| 0 <= k < i ==> (#[trigger] items@[k])@ == summary_decision_object(rows@[k]),
        decreases rows.len() - i,
    {
        items.push(write_summary_decision(&rows[i]));
        i = i + 1;
    }
    assert(strings_view(items@) =~= rows@.map_values(|d: DecisionRow| summary_decision_object(d)));
    array_text(&items)
}

fn steps_text(rows: &Vec<StepRow>) -> (r: String)
    ensures
        r@ == json_array(rows@.map_values(|s: StepRow| step_object(s))),
{
    let mut items: Vec<String> = Vec::new();
    let mut i: usize = 0;
    while i < rows.len()
        invariant
            i <= rows.len(),
            items@.len() == i,
            forall|k: int| 0 <= k < i ==> (#[trigger] items@[k])@ == step_object(rows@[k]),
        decreases rows.len() - i,
    {
        items.push(write_step(&rows[i]));
        i = i + 1;
    }
    assert(strings_view(items@) =~= rows@.map_values(|s: StepRow| step_object(s)));
    array_text(&items)
}

fn attempts_text(rows: &Vec<AttemptRow>) -> (r: String)
    ensures
        r@ == json_array(rows@.map_values(|a: AttemptRow| attempt_object(a))),
{
    let mut items: Vec<String> = Vec::new();
    let mut i: usize = 0;
    while i < rows.len()
        invariant
            i <= rows.len(),
            items@.len() == i,
            forall|k: int| 0 <= k < i ==> (#[trigger] items@[k])@ == attempt_object(rows@[k]),
        decreases rows.len() - i,
    {
        items.push(write_attempt(&rows[i]));
        i = i + 1;
    }
    assert(strings_view(items@) =~= rows@.map_values(|a: AttemptRow| attempt_object(a)));
    array_text(&items)
}

fn events_text(rows: &Vec<RuntimeEventRecord>) -> (r: String)
    ensures
        r@ == json_array(rows@.map_values(|e: RuntimeEventRecord| event_object(e))),
{
    let mut items: Vec<String> = Vec::new();
    let mut i: usize = 0;
    while i < rows.len()
        invariant
            i <= rows.len(),
            items@.len() == i,
            forall|k: int| 0 <= k < i ==> (#[trigger] items@[k])@ == event_object(rows@[k]),
        decreases rows.len() - i,
    {
        items.push(write_event(&rows[i]));
        i = i + 1;
    }
    assert(strings_view(items@) =~= rows@.map_values(|e: RuntimeEventRecord| event_object(e)));
    array_text(&items)
}

/// The export of a task's full history from the rows the store read.
pub fn export_task_document(
    task_id: &str,
    state: TaskStateValue,
    agent_calls: u32,
    retry_count: u32,
    decisions: &Vec<DecisionRow>,
    steps: &Vec<StepRow>,
    attempts: &Vec<AttemptRow>,
    events: &Vec<RuntimeEventRecord>,
) -> (r: String)
    ensures
        r@ == export_document(
            task_id@,
            state,
            agent_calls,
            retry_count,
            decisions@,
            steps@,
            attempts@,
            events@,
        ),
{
    let mut s = concat2("{\"agent_calls\":", u64_string(agent_calls as u64).as_str());
    s.append(",\"attempts\":");
    s.append(attempts_text(attempts).as_str());
    s.append(",\"decisions\":");
    s.append(decisions_text(decisions).as_str());
    s.append(",\"events\":");
    s.append(events_text(events).as_str());
    s.append(",\"retry_count\":");
    s.append(u64_string(retry_count as u64).as_str());
    s.append(",\"schema_version\":\"coagent_export_v1\",\"state\":");
    s.append(quote(task_state_to_str(state)).as_str());
    s.append(",\"steps\":");
    s.append(steps_text(steps).as_str());
    s.append(",\"task_id\":");
    s.append(quote(task_id).as_str());
    s.append("}");
    s
}

/// The summary of a task from its state and latest decisions.
pub fn task_summary_document(
    task_id: &str,
    state: TaskStateValue,
    agent_calls: u32,
    decisions: &Vec<DecisionRow>,
) -> (r: String)
    ensures
        r@ == summary_document(task_id@, state, agent_calls, decisions@),
{
    let mut s = concat2("{\"agent_calls\":", u64_string(agent_calls as u64).as_str());
    s.append(",\"decisions\":");
    s.append(summary_decisions_text(decisions).as_str());
    s.append(",\"state\":");
    s.append(quote(task_state_to_str(state)).as_str());
    s.append(",\"task_id\":");
    s.append(quote(task_id).as_str());
    s.append("}");
    s
}

/// Each active task as its JSON object, in the order given.
pub fn active_task_documents(rows: &Vec<ActiveTaskRow>) -> (r: Vec<String>)
    ensures
        strings_view(r@) == rows@.map_values(|t: ActiveTaskRow| active_task_object(t)),
{
    let mut items: Vec<String> = Vec::new();
    let mut i: usize = 0;
    while i < rows.len()
        invariant
            i <= rows.len(),
            items@.len() == i,
            forall|k: int| 0 <= k < i ==> (#[trigger] items@[k])@ == active_task_object(rows@[k]),
        decreases rows.len() - i,
    {
        items.push(write_active_task(&rows[i]));
        i = i + 1;
    }
    assert(strings_view(items@) =~= rows@.map_values(|t: ActiveTaskRow| active_task_object(t)));
    items
}

} // verus!
