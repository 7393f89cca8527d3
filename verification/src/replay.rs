//! Event-sourcing replay: rebuilds a task's step counters and last
//! decisions from its runtime event log, skipping replayed duplicates.
use vstd::prelude::*;

use crate::storage::RuntimeEventRecord;
use crate::json::{json_string_field, payload_string_field};
use crate::text::{opt_view, owned, push_char, str_eq};

verus! {

/// State reconstructed from replaying the event log.
#[derive(Debug, Clone, PartialEq, Eq)]
pub struct ReplayedTaskState {
    pub steps_started: u64,
    pub steps_completed: u64,
    pub policy_decisions: u64,
    pub last_decision: Option<String>,
    pub last_lifecycle_state: Option<String>,
}

/// The replay counters as mathematical values.
pub struct ReplayView {
    pub steps_started: nat,
    pub steps_completed: nat,
    pub policy_decisions: nat,
    pub last_decision: Option<Seq<char>>,
    pub last_lifecycle_state: Option<Seq<char>>,
}

impl View for ReplayedTaskState {
    type V = ReplayView;

    open spec fn view(&self) -> ReplayView {
        ReplayView {
            steps_started: self.steps_started as nat,
            steps_completed: self.steps_completed as nat,
            policy_decisions: self.policy_decisions as nat,
            last_decision: opt_view(self.last_decision),
            last_lifecycle_state: opt_view(self.last_lifecycle_state),
        }
    }
}

/// The duplicate-detection key of an event: `task:request:type`, with an
/// empty request id when there is none.
pub open spec fn event_key(e: RuntimeEventRecord) -> Seq<char> {
    e.task_id@ + seq![':'] + match e.request_id {
        Some(r) => r@,
        None => Seq::empty(),
    } + seq![':'] + e.event_type@
}

/// The sequence last recorded under `key`.
pub open spec fn seen_lookup(seen: Seq<(Seq<char>, i64)>, key: Seq<char>) -> Option<i64>
    decreases seen.len(),
{
    if seen.len() == 0 {
        None
    } else if seen.last().0 == key {
        Some(seen.last().1)
    } else {
        seen_lookup(seen.drop_last(), key)
    }
}

/// Records `seq` under `key`: replaces the entry for `key`, or adds one.
pub open spec fn seen_record(seen: Seq<(Seq<char>, i64)>, key: Seq<char>, seq: i64) -> Seq<
    (Seq<char>, i64),
>
    decreases seen.len(),
{
    if seen.len() == 0 {
        seq![(key, seq)]
    } else if seen.last().0 == key {
        seen.drop_last().push((key, seq))
    } else {
        seen_record(seen.drop_last(), key, seq).push(seen.last())
    }
}

pub open spec fn empty_replay() -> ReplayView {
    ReplayView {
        steps_started: 0,
        steps_completed: 0,
        policy_decisions: 0,
        last_decision: None,
        last_lifecycle_state: None,
    }
}

/// The effect of one event that is not a duplicate.
pub open spec fn apply_event(r: ReplayView, e: RuntimeEventRecord) -> ReplayView {
    if e.event_type@ == "step_started"@ {
        ReplayView { steps_started: r.steps_started + 1, ..r }
    } else if e.event_type@ == "policy_evaluated"@ {
        ReplayView {
            policy_decisions: r.policy_decisions + 1,
            last_decision: match json_string_field(e.payload_json@, "decision"@) {
                Some(d) => Some(d),
                None => r.last_decision,
            },
            ..r
        }
    } else if e.event_type@ == "lifecycle_closed"@ {
        ReplayView {
            steps_completed: r.steps_completed + 1,
            last_lifecycle_state: match json_string_field(e.payload_json@, "state"@) {
                Some(s) => Some(s),
                None => r.last_lifecycle_state,
            },
            ..r
        }
    } else {
        r
    }
}

/// Replays the first `n` events: an event whose key was already seen with
/// a sequence at least its own is a duplicate and is skipped; every other
/// event is applied and its sequence recorded under its key.
pub open spec fn replay_prefix(events: Seq<RuntimeEventRecord>, n: int) -> (
    ReplayView,
    Seq<(Seq<char>, i64)>,
)
    decreases n,
{
    if n <= 0 {
        (empty_replay(), Seq::empty())
    } else {
        let (r, seen) = replay_prefix(events, n - 1);
        let e = events[n - 1];
        let key = event_key(e);
        match seen_lookup(seen, key) {
            Some(prev) if e.task_sequence <= prev => (r, seen),
            _ => (apply_event(r, e), seen_record(seen, key, e.task_sequence)),
        }
    }
}

/// The replay of a whole log, `None` for an empty one.
pub open spec fn replay_spec(events: Seq<RuntimeEventRecord>) -> Option<ReplayView> {
    if events.len() == 0 {
        None
    } else {
        Some(replay_prefix(events, events.len() as int).0)
    }
}

fn key_of(e: &RuntimeEventRecord) -> (r: String)
    ensures
        r@ == event_key(*e),
{
    let mut k = owned(e.task_id.as_str());
    push_char(&mut k, ':');
    match &e.request_id {
        Some(r) => k.append(r.as_str()),
        None => {},
    }
    push_char(&mut k, ':');
    k.append(e.event_type.as_str());
    assert(k@ =~= event_key(*e));
    k
}

pub open spec fn seen_view(v: Seq<(String, i64)>) -> Seq<(Seq<char>, i64)> {
    v.map_values(|p: (String, i64)| (p.0@, p.1))
}

fn lookup_seen(seen: &Vec<(String, i64)>, key: &str) -> (r: Option<i64>)
    ensures
        r == seen_lookup(seen_view(seen@), key@),
{
    let mut i: usize = seen.len();
    assert(seen_view(seen@).subrange(0, i as int) =~= seen_view(seen@));
    while i > 0
        invariant
            i <= seen.len(),
            seen_lookup(seen_view(seen@), key@) == seen_lookup(
                seen_view(seen@).subrange(0, i as int),
                key@,
            ),
        decreases i,
    {
        proof {
            assert(seen_view(seen@).subrange(0, i as int).drop_last() =~= seen_view(seen@).subrange(
                0,
                i - 1,
            ));
        }
        if str_eq(seen[i - 1].0.as_str(), key) {
            return Some(seen[i - 1].1);
        }
        i = i - 1;
    }
    None
}

fn record_seen(seen: Vec<(String, i64)>, key: String, seq: i64) -> (r: Vec<(String, i64)>)
    ensures
        seen_view(r@) == seen_record(seen_view(seen@), key@, seq),
    decreases seen@.len(),
{
    let ghost orig = seen@;
    let mut rest_vec = seen;
    match rest_vec.pop() {
        None => {
            let mut r: Vec<(String, i64)> = Vec::new();
            let ghost kv = key@;
            r.push((key, seq));
            assert(seen_view(r@) =~= seq![(kv, seq)]);
            r
        },
        Some(last) => {
            let ghost rest = rest_vec@;
            proof {
                assert(rest == orig.drop_last());
                assert(seen_view(orig).drop_last() =~= seen_view(rest));
                assert(seen_view(orig).last() == (last.0@, last.1));
            }
            if str_eq(last.0.as_str(), key.as_str()) {
                let ghost kv = key@;
                rest_vec.push((key, seq));
                assert(seen_view(rest_vec@) =~= seen_view(rest).push((kv, seq)));
                rest_vec
            } else {
                let ghost lv = (last.0@, last.1);
                let mut r = record_seen(rest_vec, key, seq);
                let ghost before = r@;
                r.push(last);
                assert(seen_view(r@) =~= seen_view(before).push(lv));
                r
            }
        },
    }
}

/// Replays a task's events (in stored order); `None` when there are none.
pub fn replay_task_state(events: &Vec<RuntimeEventRecord>) -> (r: Option<ReplayedTaskState>)
    ensures
        match r {
            Some(s) => replay_spec(events@) == Some(s@),
            None => replay_spec(events@) is None,
        },
{
    if events.len() == 0 {
        return None;
    }
    let mut out = ReplayedTaskState {
        steps_started: 0,
        steps_completed: 0,
        policy_decisions: 0,
        last_decision: None,
        last_lifecycle_state: None,
    };
    let mut seen: Vec<(String, i64)> = Vec::new();
    let mut i: usize = 0;
    while i < events.len()
        invariant
            i <= events.len(),
            out.steps_started <= i,
            out.steps_completed <= i,
            out.policy_decisions <= i,
            (out@, seen_view(seen@)) == replay_prefix(events@, i as int),
        decreases events.len() - i,
    {
        let e = &events[i];
        let key = key_of(e);
        let prev = lookup_seen(&seen, key.as_str());
        let duplicate = match prev {
            Some(p) => e.task_sequence <= p,
            None => false,
        };
        if !duplicate {
            seen = record_seen(seen, key, e.task_sequence);
            if str_eq(e.event_type.as_str(), "step_started") {
                out.steps_started = out.steps_started + 1;
            } else if str_eq(e.event_type.as_str(), "policy_evaluated") {
                out.policy_decisions = out.policy_decisions + 1;
                match payload_string_field(e.payload_json.as_str(), "decision") {
                    Some(d) => {
                        out.last_decision = Some(d);
                    },
                    None => {},
                }
            } else if str_eq(e.event_type.as_str(), "lifecycle_closed") {
                out.steps_completed = out.steps_completed + 1;
                match payload_string_field(e.payload_json.as_str(), "state") {
                    Some(s) => {
                        out.last_lifecycle_state = Some(s);
                    },
                    None => {},
                }
            }
        }
        i = i + 1;
    }
    Some(out)
}

/// Whether any event of the log has type `event_type`.
pub fn check_idempotency(events: &Vec<RuntimeEventRecord>, event_type: &str) -> (r: bool)
    ensures
        r == exists|i: int| 0 <= i < events@.len() && events@[i].event_type@ == event_type@,
{
    let mut i: usize = 0;
    while i < events.len()
        invariant
            i <= events.len(),
            forall|j: int| 0 <= j < i ==> events@[j].event_type@ != event_type@,
        decreases events.len() - i,
    {
        if str_eq(events[i].event_type.as_str(), event_type) {
            return true;
        }
        i = i + 1;
    }
    false
}

/// Replaying an event a second time changes nothing: after an event is
/// applied, the same event again is a duplicate.
pub proof fn lemma_replayed_duplicate_is_skipped(events: Seq<RuntimeEventRecord>, n: int)
    requires
        0 < n,
        n < events.len(),
        events[n] == events[n - 1],
    ensures
        replay_prefix(events, n + 1) == replay_prefix(events, n),
{
    let (r, seen) = replay_prefix(events, n - 1);
    let e = events[n - 1];
    let key = event_key(e);
    lemma_record_then_lookup(seen, key, e.task_sequence);
    match seen_lookup(seen, key) {
        Some(prev) => {
            if e.task_sequence <= prev {
                assert(replay_prefix(events, n) == (r, seen));
            } else {
            }
        },
        None => {},
    }
}

/// After recording `seq` under `key`, the lookup of `key` gives `seq`.
pub proof fn lemma_record_then_lookup(seen: Seq<(Seq<char>, i64)>, key: Seq<char>, seq: i64)
    ensures
        seen_lookup(seen_record(seen, key, seq), key) == Some(seq),
    decreases seen.len(),
{
    if seen.len() > 0 && seen.last().0 != key {
        lemma_record_then_lookup(seen.drop_last(), key, seq);
        let r = seen_record(seen.drop_last(), key, seq).push(seen.last());
        assert(r.drop_last() =~= seen_record(seen.drop_last(), key, seq));
    } else if seen.len() > 0 {
        let r = seen.drop_last().push((key, seq));
        assert(r.last() == (key, seq));
    }
}

/// Recording under one key leaves the lookup of every other key as it was.
proof fn lemma_record_other_key(
    seen: Seq<(Seq<char>, i64)>,
    key: Seq<char>,
    seq: i64,
    other: Seq<char>,
)
    requires
        other != key,
    ensures
        seen_lookup(seen_record(seen, key, seq), other) == seen_lookup(seen, other),
    decreases seen.len(),
{
    if seen.len() > 0 {
        if seen.last().0 == key {
            let r = seen.drop_last().push((key, seq));
            assert(r.drop_last() =~= seen.drop_last());
            assert(r.last() == (key, seq));
            assert(seen_record(seen, key, seq) == r);
            assert(seen_lookup(r, other) == seen_lookup(seen.drop_last(), other));
        } else {
            lemma_record_other_key(seen.drop_last(), key, seq, other);
            let r = seen_record(seen.drop_last(), key, seq).push(seen.last());
            assert(r.drop_last() =~= seen_record(seen.drop_last(), key, seq));
            assert(r.last() == seen.last());
            assert(seen_record(seen, key, seq) == r);
        }
    } else {
        let r = seq![(key, seq)];
        assert(r.drop_last() =~= Seq::<(Seq<char>, i64)>::empty());
        assert(r.last() == (key, seq));
        assert(seen_record(seen, key, seq) == r);
        assert(seen_lookup(r.drop_last(), other) is None);
    }
}

/// Every sequence the replay remembers is that of an event it has read.
proof fn lemma_seen_from_events(events: Seq<RuntimeEventRecord>, n: int, key: Seq<char>)
    requires
        0 <= n <= events.len(),
    ensures
        match seen_lookup(replay_prefix(events, n).1, key) {
            Some(p) => exists|j: int| 0 <= j < n && events[j].task_sequence == p,
            None => true,
        },
    decreases n,
{
    if n > 0 {
        lemma_seen_from_events(events, n - 1, key);
        let (r, seen) = replay_prefix(events, n - 1);
        let e = events[n - 1];
        let ek = event_key(e);
        match seen_lookup(seen, ek) {
            Some(prev) if e.task_sequence <= prev => {},
            _ => {
                if key == ek {
                    lemma_record_then_lookup(seen, ek, e.task_sequence);
                    assert(events[n - 1].task_sequence == e.task_sequence);
                } else {
                    lemma_record_other_key(seen, ek, e.task_sequence, key);
                }
            },
        }
    }
}

/// Replaying the first `k` events of a longer log is replaying them alone.
proof fn lemma_prefix_unaffected(events: Seq<RuntimeEventRecord>, e: RuntimeEventRecord, k: int)
    requires
        0 <= k <= events.len(),
    ensures
        replay_prefix(events.push(e), k) == replay_prefix(events, k),
    decreases k,
{
    if k > 0 {
        lemma_prefix_unaffected(events, e, k - 1);
        assert(events.push(e)[k - 1] == events[k - 1]);
    }
}

/// An event with a later sequence than every event before it is never a
/// duplicate, and it moves the replay by its type alone: `step_started`
/// counts a started step; `policy_evaluated` counts a decision and, when
/// it names a `decision`, makes that the last decision, whatever came
/// before; `lifecycle_closed` counts a completed step and, when it names a
/// `state`, makes that the last lifecycle state; any other type changes
/// nothing. A log of no events replays to nothing at all.
pub proof fn lemma_later_event_updates(events: Seq<RuntimeEventRecord>, e: RuntimeEventRecord)
    requires
        forall|j: int| 0 <= j < events.len() ==> #[trigger] events[j].task_sequence
            < e.task_sequence,
    ensures
        replay_spec(Seq::<RuntimeEventRecord>::empty()) is None,
        replay_spec(events.push(e)) is Some,
        ({
            let before = match replay_spec(events) {
                Some(r) => r,
                None => ReplayView {
                    steps_started: 0,
                    steps_completed: 0,
                    policy_decisions: 0,
                    last_decision: None,
                    last_lifecycle_state: None,
                },
            };
            let after = replay_spec(events.push(e))->0;
            if e.event_type@ == "step_started"@ {
                after == ReplayView { steps_started: before.steps_started + 1, ..before }
            } else if e.event_type@ == "policy_evaluated"@ {
                &&& after.policy_decisions == before.policy_decisions + 1
                &&& after.last_decision == match json_string_field(e.payload_json@, "decision"@) {
                    Some(d) => Some(d),
                    None => before.last_decision,
                }
                &&& after.steps_started == before.steps_started
                &&& after.steps_completed == before.steps_completed
                &&& after.last_lifecycle_state == before.last_lifecycle_state
            } else if e.event_type@ == "lifecycle_closed"@ {
                &&& after.steps_completed == before.steps_completed + 1
                &&& after.last_lifecycle_state == match json_string_field(
                    e.payload_json@,
                    "state"@,
                ) {
                    Some(s) => Some(s),
                    None => before.last_lifecycle_state,
                }
                &&& after.steps_started == before.steps_started
                &&& after.policy_decisions == before.policy_decisions
                &&& after.last_decision == before.last_decision
            } else {
                after == before
            }
        }),
{
    let all = events.push(e);
    let n = events.len() as int;
    lemma_prefix_unaffected(events, e, n);
    assert(all[n] == e);
    let (r, seen) = replay_prefix(events, n);
    lemma_seen_from_events(events, n, event_key(e));
    match seen_lookup(seen, event_key(e)) {
        Some(p) => {
            let j = choose|j: int| 0 <= j < n && events[j].task_sequence == p;
            assert(events[j].task_sequence < e.task_sequence);
        },
        None => {},
    }
    assert(replay_prefix(all, n + 1).0 == apply_event(r, e));
    assert(all.len() == n + 1);
}

} // verus!
