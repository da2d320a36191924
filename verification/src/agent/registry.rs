//! Registry of all agent records, held in a `DashMap` keyed by the agent's
//! UUID value.

use vstd::prelude::*;

use dashmap::DashMap;

use crate::error::{OrcError, OrcResult};
use crate::types::{current_time_millis, AgentId, TaskGroupId};

use super::{state_name, transition_allowed, AgentRecord, AgentState};

verus! {

#[verifier::external_type_specification]
#[verifier::external_body]
#[verifier::reject_recursive_types(K)]
#[verifier::reject_recursive_types(V)]
#[verifier::reject_recursive_types(S)]
pub struct ExDashMap<K, V, S>(DashMap<K, V, S>);

/// The entries held by a `DashMap` of agent records, by key.
pub uninterp spec fn dashmap_entries(m: DashMap<u128, AgentRecord>) -> Map<u128, AgentRecord>;

/// The map with no entries.
pub open spec fn no_entries() -> Map<u128, AgentRecord> {
    Map::empty()
}

/// `DashMap::new`: an empty map.
#[verifier::external_body]
fn map_new() -> (m: DashMap<u128, AgentRecord>)
    ensures
        dashmap_entries(m) == no_entries(),
{
    DashMap::new()
}

/// `DashMap::contains_key`: whether `k` has an entry.
#[verifier::external_body]
fn map_contains(m: &DashMap<u128, AgentRecord>, k: u128) -> (b: bool)
    ensures
        b == dashmap_entries(*m).contains_key(k),
{
    m.contains_key(&k)
}

/// `DashMap::get`, the entry for `k` copied out by `AgentRecord::clone`.
#[verifier::external_body]
fn map_get(m: &DashMap<u128, AgentRecord>, k: u128) -> (r: Option<AgentRecord>)
    ensures
        r == (if dashmap_entries(*m).contains_key(k) {
            Some(dashmap_entries(*m)[k])
        } else {
            None::<AgentRecord>
        }),
{
    m.get(&k).map(|e| e.value().clone())
}

/// `DashMap::insert`: the entry for `k` becomes `v`; the others stay.
#[verifier::external_body]
fn map_insert(m: &mut DashMap<u128, AgentRecord>, k: u128, v: AgentRecord)
    ensures
        dashmap_entries(*final(m)) == dashmap_entries(*old(m)).insert(k, v),
{
    m.insert(k, v);
}

/// `DashMap::remove`: removes the entry for `k` and hands its value back.
#[verifier::external_body]
fn map_remove(m: &mut DashMap<u128, AgentRecord>, k: u128) -> (r: Option<AgentRecord>)
    ensures
        dashmap_entries(*final(m)) == dashmap_entries(*old(m)).remove(k),
        r == (if dashmap_entries(*old(m)).contains_key(k) {
            Some(dashmap_entries(*old(m))[k])
        } else {
            None::<AgentRecord>
        }),
{
    m.remove(&k).map(|(_, v)| v)
}

/// `DashMap::len`: the number of entries.
#[verifier::external_body]
fn map_len(m: &DashMap<u128, AgentRecord>) -> (n: usize)
    ensures
        n == dashmap_entries(*m).len(),
{
    m.len()
}

/// `DashMap::iter`: every entry once, as (key, value copied by
/// `AgentRecord::clone`). The order is that of the map's shards and hashes;
/// nothing is stated of it.
#[verifier::external_body]
fn map_entries(m: &DashMap<u128, AgentRecord>) -> (es: Vec<(u128, AgentRecord)>)
    ensures
        forall|i: int|
            0 <= i < es@.len() ==> dashmap_entries(*m).contains_key(#[trigger] es@[i].0)
                && dashmap_entries(*m)[es@[i].0] == es@[i].1,
        forall|i: int, j: int|
            0 <= i < es@.len() && 0 <= j < es@.len() && i != j ==> #[trigger] es@[i].0
                != #[trigger] es@[j].0,
        forall|k: u128|
            dashmap_entries(*m).contains_key(k) ==> exists|i: int|
                0 <= i < es@.len() && #[trigger] es@[i].0 == k,
{
    m.iter().map(|e| (*e.key(), e.value().clone())).collect()
}

/// `s` lists, once each and in some order, exactly the records of `m` that
/// satisfy `p`.
pub open spec fn lists(
    m: Map<u128, AgentRecord>,
    s: Seq<AgentRecord>,
    p: spec_fn(AgentRecord) -> bool,
) -> bool {
    &&& forall|i: int|
        #![trigger s[i]]
        0 <= i < s.len() ==> m.contains_key(s[i].id.0) && m[s[i].id.0] == s[i] && p(s[i])
    &&& forall|i: int, j: int|
        0 <= i < s.len() && 0 <= j < s.len() && i != j ==> #[trigger] s[i].id != #[trigger] s[j].id
    &&& forall|k: u128|
        #![trigger m[k]]
        m.contains_key(k) && p(m[k]) ==> exists|i: int| 0 <= i < s.len() && #[trigger] s[i].id.0 == k
}

/// The keys of `m` whose records satisfy `p`.
pub open spec fn keys_where(m: Map<u128, AgentRecord>, p: spec_fn(AgentRecord) -> bool) -> Set<u128> {
    m.dom().filter(|k: u128| p(m[k]))
}

/// Whether a record is in state `st`.
pub open spec fn in_state(st: AgentState) -> spec_fn(AgentRecord) -> bool {
    |a: AgentRecord| a.state == st
}

/// The number of records of `m` in state `st`.
pub open spec fn state_count(m: Map<u128, AgentRecord>, st: AgentState) -> nat {
    keys_where(m, in_state(st)).len()
}

/// The number of records of `s` in state `st`.
pub open spec fn seq_state_count(s: Seq<AgentRecord>, st: AgentState) -> nat {
    s.filter(in_state(st)).len()
}

/// Per-state agent counts.
#[derive(Debug, Clone, Copy)]
pub struct StateCounts {
    pub queued: usize,
    pub acquiring: usize,
    pub executing: usize,
    pub reporting: usize,
    pub done: usize,
    pub error: usize,
    pub cancelled: usize,
}

impl StateCounts {
    /// The count for state `s`.
    pub open spec fn count(&self, s: AgentState) -> usize {
        match s {
            AgentState::Queued => self.queued,
            AgentState::Acquiring => self.acquiring,
            AgentState::Executing => self.executing,
            AgentState::Reporting => self.reporting,
            AgentState::Done => self.done,
            AgentState::Error => self.error,
            AgentState::Cancelled => self.cancelled,
        }
    }

    /// The count for state `s`.
    pub fn get(&self, s: AgentState) -> (n: usize)
        ensures
            n == self.count(s),
    {
        match s {
            AgentState::Queued => self.queued,
            AgentState::Acquiring => self.acquiring,
            AgentState::Executing => self.executing,
            AgentState::Reporting => self.reporting,
            AgentState::Done => self.done,
            AgentState::Error => self.error,
            AgentState::Cancelled => self.cancelled,
        }
    }
}

/// Registry of all agent records, keyed by the agent's UUID value.
#[derive(Debug)]
pub struct AgentRegistry {
    agents: DashMap<u128, AgentRecord>,
}

impl View for AgentRegistry {
    type V = Map<u128, AgentRecord>;

    closed spec fn view(&self) -> Map<u128, AgentRecord> {
        dashmap_entries(self.agents)
    }
}

impl AgentRegistry {
    /// The registry is finite and each record is filed under its own ID.
    pub open spec fn wf(&self) -> bool {
        &&& self@.dom().finite()
        &&& forall|k: u128| #[trigger] self@.contains_key(k) ==> self@[k].id.0 == k
    }

    /// Create an empty registry.
    pub fn new() -> (r: Self)
        ensures
            r.wf(),
            r@ == Map::<u128, AgentRecord>::empty(),
    {
        AgentRegistry { agents: map_new() }
    }

    /// Register a new agent. Returns an error, and changes nothing, if the ID already exists.
    pub fn register(&mut self, record: AgentRecord) -> (r: OrcResult<()>)
        requires
            old(self).wf(),
        ensures
            final(self).wf(),
            old(self)@.contains_key(record.id.0) ==> r == Err::<(), OrcError>(
                OrcError::InvalidStateTransition { id: record.id, from: "exists", to: "register" },
            ) && final(self)@ == old(self)@,
            !old(self)@.contains_key(record.id.0) ==> r is Ok && final(self)@ == old(
                self,
            )@.insert(record.id.0, record),
    {
        if map_contains(&self.agents, record.id.0) {
            Err(OrcError::InvalidStateTransition { id: record.id, from: "exists", to: "register" })
        } else {
            let k = record.id.0;
            map_insert(&mut self.agents, k, record);
            Ok(())
        }
    }

    /// Get a snapshot (copy) of an agent record.
    pub fn get(&self, id: &AgentId) -> (r: Option<AgentRecord>)
        ensures
            r == (if self@.contains_key(id.0) {
                Some(self@[id.0])
            } else {
                None::<AgentRecord>
            }),
    {
        map_get(&self.agents, id.0)
    }

    /// Update agent state, stamping the change with the current time. An agent
    /// in a terminal state cannot move to another state: the update is refused
    /// and nothing changes.
    pub fn update_state(&mut self, id: &AgentId, new_state: AgentState) -> (r: OrcResult<()>)
        requires
            old(self).wf(),
        ensures
            final(self).wf(),
            old(self)@.contains_key(id.0) && transition_allowed(old(self)@[id.0].state, new_state) ==> r is Ok
                && exists|t: i64|
                final(self)@ == old(self)@.insert(id.0, old(self)@[id.0].with_state(new_state, t)),
            old(self)@.contains_key(id.0) && !super::state_is_terminal(old(self)@[id.0].state) ==> r is Ok
                && final(self)@.contains_key(id.0) && final(self)@[id.0].state == new_state
                && exists|t: i64| final(self)@ == old(self)@.insert(id.0, old(self)@[id.0].with_state(new_state, t)),
            old(self)@.contains_key(id.0) && !transition_allowed(old(self)@[id.0].state, new_state) ==>
                final(self)@ == old(self)@ && (r matches Err(OrcError::InvalidStateTransition { id: e, from, to }) && e == *id
                && from@ == state_name(old(self)@[id.0].state) && to@ == state_name(new_state)),
            !old(self)@.contains_key(id.0) ==> r == Err::<(), OrcError>(OrcError::AgentNotFound(*id))
                && final(self)@ == old(self)@,
    {
        let now = current_time_millis();
        self.update_state_at(id, new_state, now)
    }

    /// Update agent state, stamping the change with time `now`. An agent in a
    /// terminal state cannot move to another state: the update is refused and
    /// nothing changes.
    pub fn update_state_at(&mut self, id: &AgentId, new_state: AgentState, now: i64) -> (r: OrcResult<()>)
        requires
            old(self).wf(),
        ensures
            final(self).wf(),
            old(self)@.contains_key(id.0) && transition_allowed(old(self)@[id.0].state, new_state) ==> r is Ok
                && final(self)@ == old(self)@.insert(id.0, old(self)@[id.0].with_state(new_state, now)),
            old(self)@.contains_key(id.0) && !super::state_is_terminal(old(self)@[id.0].state) ==> r is Ok
                && final(self)@ == old(self)@.insert(id.0, old(self)@[id.0].with_state(new_state, now))
                && final(self)@[id.0].state == new_state,
            old(self)@.contains_key(id.0) && !transition_allowed(old(self)@[id.0].state, new_state) ==>
                final(self)@ == old(self)@ && (r matches Err(OrcError::InvalidStateTransition { id: e, from, to }) && e == *id
                && from@ == state_name(old(self)@[id.0].state) && to@ == state_name(new_state)),
            !old(self)@.contains_key(id.0) ==> r == Err::<(), OrcError>(OrcError::AgentNotFound(*id))
                && final(self)@ == old(self)@,
    {
        match map_get(&self.agents, id.0) {
            Some(mut rec) => {
                if rec.state.is_terminal() && rec.state != new_state {
                    return Err(
                        OrcError::InvalidStateTransition {
                            id: *id,
                            from: rec.state.as_str(),
                            to: new_state.as_str(),
                        },
                    );
                }
                rec.state = new_state;
                rec.updated_at = now;
                map_insert(&mut self.agents, id.0, rec);
                Ok(())
            },
            None => Err(OrcError::AgentNotFound(*id)),
        }
    }

    /// Set the result (JSON text) on a completed agent, stamped with the current time.
    pub fn set_result(&mut self, id: &AgentId, result: String) -> (r: OrcResult<()>)
        requires
            old(self).wf(),
        ensures
            final(self).wf(),
            old(self)@.contains_key(id.0) ==> r is Ok && exists|t: i64|
                final(self)@ == old(self)@.insert(id.0, old(self)@[id.0].with_result(result, t)),
            !old(self)@.contains_key(id.0) ==> r == Err::<(), OrcError>(OrcError::AgentNotFound(*id))
                && final(self)@ == old(self)@,
    {
        let now = current_time_millis();
        self.set_result_at(id, result, now)
    }

    /// Set the result (JSON text) on a completed agent, stamped with time `now`.
    pub fn set_result_at(&mut self, id: &AgentId, result: String, now: i64) -> (r: OrcResult<()>)
        requires
            old(self).wf(),
        ensures
            final(self).wf(),
            old(self)@.contains_key(id.0) ==> r is Ok && final(self)@ == old(self)@.insert(
                id.0,
                old(self)@[id.0].with_result(result, now),
            ),
            !old(self)@.contains_key(id.0) ==> r == Err::<(), OrcError>(OrcError::AgentNotFound(*id))
                && final(self)@ == old(self)@,
    {
        match map_get(&self.agents, id.0) {
            Some(mut rec) => {
                rec.result = Some(result);
                rec.updated_at = now;
                map_insert(&mut self.agents, id.0, rec);
                Ok(())
            },
            None => Err(OrcError::AgentNotFound(*id)),
        }
    }

    /// Set the error message on a failed agent, stamped with the current time.
    pub fn set_error(&mut self, id: &AgentId, error: String) -> (r: OrcResult<()>)
        requires
            old(self).wf(),
        ensures
            final(self).wf(),
            old(self)@.contains_key(id.0) ==> r is Ok && exists|t: i64|
                final(self)@ == old(self)@.insert(id.0, old(self)@[id.0].with_error(error, t)),
            !old(self)@.contains_key(id.0) ==> r == Err::<(), OrcError>(OrcError::AgentNotFound(*id))
                && final(self)@ == old(self)@,
    {
        let now = current_time_millis();
        self.set_error_at(id, error, now)
    }

    /// Set the error message on a failed agent, stamped with time `now`.
    pub fn set_error_at(&mut self, id: &AgentId, error: String, now: i64) -> (r: OrcResult<()>)
        requires
            old(self).wf(),
        ensures
            final(self).wf(),
            old(self)@.contains_key(id.0) ==> r is Ok && final(self)@ == old(self)@.insert(
                id.0,
                old(self)@[id.0].with_error(error, now),
            ),
            !old(self)@.contains_key(id.0) ==> r == Err::<(), OrcError>(OrcError::AgentNotFound(*id))
                && final(self)@ == old(self)@,
    {
        match map_get(&self.agents, id.0) {
            Some(mut rec) => {
                rec.error = Some(error);
                rec.updated_at = now;
                map_insert(&mut self.agents, id.0, rec);
                Ok(())
            },
            None => Err(OrcError::AgentNotFound(*id)),
        }
    }

    /// Remove an agent from the registry, handing its record back.
    pub fn remove(&mut self, id: &AgentId) -> (r: Option<AgentRecord>)
        requires
            old(self).wf(),
        ensures
            final(self).wf(),
            final(self)@ == old(self)@.remove(id.0),
            r == (if old(self)@.contains_key(id.0) {
                Some(old(self)@[id.0])
            } else {
                None::<AgentRecord>
            }),
    {
        map_remove(&mut self.agents, id.0)
    }

    /// All records that satisfy `p`, in the map's order: those of the given
    /// group and state, where given, not terminal if `live_only`, and last
    /// changed before the given time, where given.
    pub(crate) fn collect_where(&self, p: Ghost<spec_fn(AgentRecord) -> bool>, group: Option<TaskGroupId>, state: Option<AgentState>, live_only: bool, changed_before: Option<i128>) -> (s: Vec<AgentRecord>)
        requires
            self.wf(),
            forall|a: AgentRecord| #[trigger] p@(a) == ((group matches Some(g) ==> a.group == Some(g)) && (state matches Some(st) ==> a.state == st) && (live_only ==> !super::state_is_terminal(a.state)) && (changed_before matches Some(c) ==> (a.updated_at as int) < c)),
        ensures
            lists(self@, s@, p@),
    {
        let es = map_entries(&self.agents);
        let mut out: Vec<AgentRecord> = Vec::new();
        let n = es.len();
        for i in 0..n
            invariant
                n == es@.len(),
                self.wf(),
                forall|a: AgentRecord| #[trigger] p@(a) == ((group matches Some(g) ==> a.group == Some(g)) && (state matches Some(st) ==> a.state == st) && (live_only ==> !super::state_is_terminal(a.state)) && (changed_before matches Some(c) ==> (a.updated_at as int) < c)),
                forall|i: int|
                    0 <= i < es@.len() ==> self@.contains_key(#[trigger] es@[i].0)
                        && self@[es@[i].0] == es@[i].1,
                forall|i: int, j: int|
                    0 <= i < es@.len() && 0 <= j < es@.len() && i != j ==> #[trigger] es@[i].0
                        != #[trigger] es@[j].0,
                forall|k: u128|
                    self@.contains_key(k) ==> exists|i: int|
                        0 <= i < es@.len() && #[trigger] es@[i].0 == k,
                forall|j: int|
                    #![trigger out@[j]]
                    0 <= j < out@.len() ==> exists|q: int| #![trigger es@[q]] 0 <= q < i && es@[q].0 == out@[j].id.0,
                forall|j: int|
                    #![trigger out@[j]]
                    0 <= j < out@.len() ==> self@.contains_key(out@[j].id.0) && self@[out@[j].id.0] == out@[j] && p@(out@[j]),
                forall|a: int, b: int|
                    0 <= a < out@.len() && 0 <= b < out@.len() && a != b ==> #[trigger] out@[a].id != #[trigger] out@[b].id,
                forall|q: int|
                    #![trigger es@[q]]
                    0 <= q < i && p@(es@[q].1) ==> exists|j: int| 0 <= j < out@.len() && #[trigger] out@[j].id.0 == es@[q].0,
        {
            let rec = &es[i].1;
            let keep_group = match group {
                Some(g) => match rec.group {
                    Some(h) => h.0 == g.0,
                    None => false,
                },
                None => true,
            };
            let keep_state = match state {
                Some(st) => rec.state == st,
                None => true,
            };
            let keep_live = !live_only || !rec.state.is_terminal();
            let keep_time = match changed_before {
                Some(c) => (rec.updated_at as i128) < c,
                None => true,
            };
            let ghost before = out@;
            if keep_group && keep_state && keep_live && keep_time {
                proof {
                    assert(p@(es@[i as int].1));
                    assert(self@.contains_key(es@[i as int].0));
                    assert(es@[i as int].1.id.0 == es@[i as int].0);
                    assert forall|j: int| 0 <= j < out@.len() implies out@[j].id != es@[i as int].1.id by {
                        let q = choose|q: int| #![trigger es@[q]] 0 <= q < i && es@[q].0 == out@[j].id.0;
                        assert(es@[q].0 != es@[i as int].0);
                    }
                }
                let ghost old_out = out@;
                out.push(rec.clone());
                proof {
                    assert forall|j: int| #![trigger out@[j]] 0 <= j < out@.len() implies exists|q: int| #![trigger es@[q]] 0 <= q < i + 1 && es@[q].0 == out@[j].id.0 by {
                        if j < old_out.len() {
                            assert(out@[j] == old_out[j]);
                            let q = choose|q: int| #![trigger es@[q]] 0 <= q < i && es@[q].0 == old_out[j].id.0;
                            assert(es@[q].0 == out@[j].id.0);
                        } else {
                            assert(es@[i as int].0 == out@[j].id.0);
                        }
                    }
                }
            }
            proof {
                assert(p@(es@[i as int].1) == (keep_group && keep_state && keep_live && keep_time));
                assert forall|q: int|
                    #![trigger es@[q]]
                    0 <= q < i + 1 && p@(es@[q].1) implies exists|j: int| 0 <= j < out@.len() && #[trigger] out@[j].id.0 == es@[q].0 by {
                    if q < i {
                        let j = choose|j: int| 0 <= j < before.len() && #[trigger] before[j].id.0 == es@[q].0;
                        assert(out@[j] == before[j]);
                    } else {
                        assert(out@[out@.len() - 1].id.0 == es@[q].0);
                    }
                }
            }
        }
        proof {
            assert forall|k: u128| #![trigger self@[k]] self@.contains_key(k) && p@(self@[k]) implies exists|j: int| 0 <= j < out@.len() && #[trigger] out@[j].id.0 == k by {
                let q = choose|q: int| 0 <= q < es@.len() && #[trigger] es@[q].0 == k;
                assert(es@[q].1 == self@[k]);
            }
        }
        out
    }

    /// Get all agents belonging to a task group, once each, in the map's order.
    pub fn get_group(&self, group_id: &TaskGroupId) -> (s: Vec<AgentRecord>)
        requires
            self.wf(),
        ensures
            lists(self@, s@, |a: AgentRecord| a.group == Some(*group_id)),
    {
        let ghost p = |a: AgentRecord| a.group == Some(*group_id);
        self.collect_where(Ghost(p), Some(*group_id), None, false, None)
    }

    /// Get all agents in a specific state, once each, in the map's order.
    pub fn by_state(&self, state: AgentState) -> (s: Vec<AgentRecord>)
        requires
            self.wf(),
        ensures
            lists(self@, s@, |a: AgentRecord| a.state == state),
    {
        let ghost p = |a: AgentRecord| a.state == state;
        self.collect_where(Ghost(p), None, Some(state), false, None)
    }

    /// Snapshot all agent records, once each, in the map's order.
    pub fn snapshot(&self) -> (s: Vec<AgentRecord>)
        requires
            self.wf(),
        ensures
            lists(self@, s@, |a: AgentRecord| true),
    {
        let ghost p = |a: AgentRecord| true;
        self.collect_where(Ghost(p), None, None, false, None)
    }

    /// Count agents grouped by state.
    pub fn count_by_state(&self) -> (c: StateCounts)
        requires
            self.wf(),
        ensures
            forall|st: AgentState| #[trigger] c.count(st) == state_count(self@, st),
    {
        let all = self.snapshot();
        let mut c = StateCounts {
            queued: 0,
            acquiring: 0,
            executing: 0,
            reporting: 0,
            done: 0,
            error: 0,
            cancelled: 0,
        };
        let n = all.len();
        for i in 0..n
            invariant
                n == all@.len(),
                forall|st: AgentState|
                    #[trigger] c.count(st) == seq_state_count(all@.take(i as int), st),
        {
            let st = all[i].state;
            proof {
                assert(all@.take(i + 1).drop_last() =~= all@.take(i as int));
                assert forall|x: AgentState|
                    #[trigger] seq_state_count(all@.take(i + 1), x)
                        == seq_state_count(all@.take(i as int), x)
                        + (if st == x { 1int } else { 0int }) by {
                    reveal(Seq::filter);
                    let u = all@.take(i + 1);
                    assert(u.last() == all@[i as int]);
                    assert(u.drop_last() == all@.take(i as int));
                    assert(u.filter(in_state(x)) == (if in_state(x)(u.last()) {
                        u.drop_last().filter(in_state(x)).push(u.last())
                    } else {
                        u.drop_last().filter(in_state(x))
                    }));
                }
                assert forall|x: AgentState| #[trigger] c.count(x) <= i by {
                    all@.take(i as int).lemma_filter_len(in_state(x));
                }
                assert(c.count(st) <= i);
            }
            let ghost c0 = c;
            match st {
                AgentState::Queued => c.queued = c.queued + 1,
                AgentState::Acquiring => c.acquiring = c.acquiring + 1,
                AgentState::Executing => c.executing = c.executing + 1,
                AgentState::Reporting => c.reporting = c.reporting + 1,
                AgentState::Done => c.done = c.done + 1,
                AgentState::Error => c.error = c.error + 1,
                AgentState::Cancelled => c.cancelled = c.cancelled + 1,
            }
            proof {
                assert forall|x: AgentState| #[trigger] c.count(x) == seq_state_count(all@.take(i + 1), x) by {
                    assert(c0.count(x) == seq_state_count(all@.take(i as int), x));
                    assert(seq_state_count(all@.take(i + 1), x) == seq_state_count(all@.take(i as int), x)
                        + (if st == x { 1int } else { 0int }));
                }
            }
        }
        proof {
            assert(all@.take(n as int) =~= all@);
            assert forall|st: AgentState| #[trigger] c.count(st) == state_count(self@, st) by {
                lemma_listed_keys_len(all@, in_state(st));
                lemma_listing_keys(self@, all@, in_state(st));
            }
        }
        c
    }

    /// Total number of registered agents.
    pub fn len(&self) -> (n: usize)
        ensures
            n == self@.len(),
    {
        map_len(&self.agents)
    }

    /// Whether the registry is empty.
    pub fn is_empty(&self) -> (b: bool)
        requires
            self.wf(),
        ensures
            b == (self@.len() == 0),
            b == (self@.dom() =~= Set::<u128>::empty()),
    {
        let n = map_len(&self.agents);
        proof {
            if self@.len() == 0 {
                self@.dom().lemma_len0_is_empty();
            }
            if self@.dom() =~= Set::<u128>::empty() {
                assert(self@.dom().len() == 0);
            }
        }
        n == 0
    }
}

impl Default for AgentRegistry {
    fn default() -> (r: Self)
        ensures
            r.wf(),
            r@ == no_entries(),
    {
        AgentRegistry::new()
    }
}

/// The keys of the records of `s` that satisfy `p`.
pub open spec fn listed_keys(s: Seq<AgentRecord>, p: spec_fn(AgentRecord) -> bool) -> Set<u128> {
    Set::new(|k: u128| exists|i: int| 0 <= i < s.len() && s[i].id.0 == k && #[trigger] p(s[i]))
}

/// Records with distinct IDs: as many keys as records that satisfy `p`.
proof fn lemma_listed_keys_len(s: Seq<AgentRecord>, p: spec_fn(AgentRecord) -> bool)
    requires
        forall|i: int, j: int|
            0 <= i < s.len() && 0 <= j < s.len() && i != j ==> #[trigger] s[i].id != #[trigger] s[j].id,
    ensures
        listed_keys(s, p).finite(),
        listed_keys(s, p).len() == s.filter(p).len(),
    decreases s.len(),
{
    if s.len() == 0 {
        assert(listed_keys(s, p) =~= Set::<u128>::empty());
    } else {
        let t = s.drop_last();
        lemma_listed_keys_len(t, p);
        let x = s.last();
        reveal(Seq::filter);
        assert(s.filter(p) == (if p(x) { t.filter(p).push(x) } else { t.filter(p) }));
        assert forall|i: int, j: int|
            0 <= i < t.len() && 0 <= j < t.len() && i != j implies #[trigger] t[i].id != #[trigger] t[j].id by {
            assert(t[i] == s[i] && t[j] == s[j]);
        }
        if p(x) {
            assert(listed_keys(s, p) =~= listed_keys(t, p).insert(x.id.0)) by {
                assert forall|k: u128| #[trigger] listed_keys(s, p).contains(k) implies listed_keys(t, p).insert(x.id.0).contains(k) by {
                    let i = choose|i: int| 0 <= i < s.len() && s[i].id.0 == k && #[trigger] p(s[i]);
                    if i < t.len() {
                        assert(t[i] == s[i]);
                    }
                }
                assert forall|k: u128| #[trigger] listed_keys(t, p).contains(k) implies listed_keys(s, p).contains(k) by {
                    let i = choose|i: int| 0 <= i < t.len() && t[i].id.0 == k && #[trigger] p(t[i]);
                    assert(t[i] == s[i]);
                }
                assert(s[s.len() - 1] == x);
            }
            assert(!listed_keys(t, p).contains(x.id.0)) by {
                if listed_keys(t, p).contains(x.id.0) {
                    let i = choose|i: int| 0 <= i < t.len() && t[i].id.0 == x.id.0 && #[trigger] p(t[i]);
                    assert(t[i] == s[i]);
                    assert(s[i].id != s[s.len() - 1].id);
                }
            }
        } else {
            assert(listed_keys(s, p) =~= listed_keys(t, p)) by {
                assert forall|k: u128| #[trigger] listed_keys(s, p).contains(k) implies listed_keys(t, p).contains(k) by {
                    let i = choose|i: int| 0 <= i < s.len() && s[i].id.0 == k && #[trigger] p(s[i]);
                    assert(i != s.len() - 1);
                    assert(t[i] == s[i]);
                }
                assert forall|k: u128| #[trigger] listed_keys(t, p).contains(k) implies listed_keys(s, p).contains(k) by {
                    let i = choose|i: int| 0 <= i < t.len() && t[i].id.0 == k && #[trigger] p(t[i]);
                    assert(t[i] == s[i]);
                }
            }
        }
    }
}

/// A complete listing of a well-formed map names, for each `p`, exactly the
/// keys whose records satisfy `p`.
proof fn lemma_listing_keys(
    m: Map<u128, AgentRecord>,
    s: Seq<AgentRecord>,
    p: spec_fn(AgentRecord) -> bool,
)
    requires
        lists(m, s, |a: AgentRecord| true),
        forall|k: u128| #[trigger] m.contains_key(k) ==> m[k].id.0 == k,
    ensures
        listed_keys(s, p) == keys_where(m, p),
{
    assert forall|k: u128| #[trigger] listed_keys(s, p).contains(k) implies keys_where(m, p).contains(k) by {
        let i = choose|i: int| 0 <= i < s.len() && s[i].id.0 == k && #[trigger] p(s[i]);
        assert(m.contains_key(s[i].id.0) && m[s[i].id.0] == s[i]);
    }
    assert forall|k: u128| #[trigger] keys_where(m, p).contains(k) implies listed_keys(s, p).contains(k) by {
        assert(m.contains_key(k));
        let i = choose|i: int| 0 <= i < s.len() && #[trigger] s[i].id.0 == k;
        assert(m[s[i].id.0] == s[i]);
        assert(p(s[i]));
    }
    assert(listed_keys(s, p) =~= keys_where(m, p));
}

} // verus!

verus! {

/// Every agent is in exactly one state: the per-state counts of a finite
/// registry add up to the number of agents.
pub proof fn lemma_state_counts_sum(m: Map<u128, AgentRecord>)
    requires
        m.dom().finite(),
    ensures
        state_count(m, AgentState::Queued) + state_count(m, AgentState::Acquiring) + state_count(
            m,
            AgentState::Executing,
        ) + state_count(m, AgentState::Reporting) + state_count(m, AgentState::Done) + state_count(
            m,
            AgentState::Error,
        ) + state_count(m, AgentState::Cancelled) == m.len(),
{
    let k1 = keys_where(m, in_state(AgentState::Queued));
    let k2 = keys_where(m, in_state(AgentState::Acquiring));
    let k3 = keys_where(m, in_state(AgentState::Executing));
    let k4 = keys_where(m, in_state(AgentState::Reporting));
    let k5 = keys_where(m, in_state(AgentState::Done));
    let k6 = keys_where(m, in_state(AgentState::Error));
    let k7 = keys_where(m, in_state(AgentState::Cancelled));
    m.dom().lemma_len_filter(|k: u128| in_state(AgentState::Queued)(m[k]));
    m.dom().lemma_len_filter(|k: u128| in_state(AgentState::Acquiring)(m[k]));
    m.dom().lemma_len_filter(|k: u128| in_state(AgentState::Executing)(m[k]));
    m.dom().lemma_len_filter(|k: u128| in_state(AgentState::Reporting)(m[k]));
    m.dom().lemma_len_filter(|k: u128| in_state(AgentState::Done)(m[k]));
    m.dom().lemma_len_filter(|k: u128| in_state(AgentState::Error)(m[k]));
    m.dom().lemma_len_filter(|k: u128| in_state(AgentState::Cancelled)(m[k]));
    let u2 = k1 + k2;
    let u3 = u2 + k3;
    let u4 = u3 + k4;
    let u5 = u4 + k5;
    let u6 = u5 + k6;
    let u7 = u6 + k7;
    assert(k1.disjoint(k2));
    vstd::set_lib::lemma_set_disjoint_lens(k1, k2);
    assert(u2.disjoint(k3));
    vstd::set_lib::lemma_set_disjoint_lens(u2, k3);
    assert(u3.disjoint(k4));
    vstd::set_lib::lemma_set_disjoint_lens(u3, k4);
    assert(u4.disjoint(k5));
    vstd::set_lib::lemma_set_disjoint_lens(u4, k5);
    assert(u5.disjoint(k6));
    vstd::set_lib::lemma_set_disjoint_lens(u5, k6);
    assert(u6.disjoint(k7));
    vstd::set_lib::lemma_set_disjoint_lens(u6, k7);
    assert(u7 =~= m.dom()) by {
        assert forall|k: u128| m.dom().contains(k) implies #[trigger] u7.contains(k) by {
            match m[k].state {
                AgentState::Queued => assert(k1.contains(k)),
                AgentState::Acquiring => assert(k2.contains(k)),
                AgentState::Executing => assert(k3.contains(k)),
                AgentState::Reporting => assert(k4.contains(k)),
                AgentState::Done => assert(k5.contains(k)),
                AgentState::Error => assert(k6.contains(k)),
                AgentState::Cancelled => assert(k7.contains(k)),
            }
        }
    }
}

} // verus!

verus! {

/// Read after register: a record registered under a new ID is what a lookup
/// of that ID gives back, and no other agent changes.
pub proof fn lemma_register_then_get(m: Map<u128, AgentRecord>, rec: AgentRecord, k: u128)
    requires
        !m.contains_key(rec.id.0),
    ensures
        m.insert(rec.id.0, rec).contains_key(rec.id.0),
        m.insert(rec.id.0, rec)[rec.id.0] == rec,
        k != rec.id.0 ==> m.insert(rec.id.0, rec).contains_key(k) == m.contains_key(k),
        k != rec.id.0 && m.contains_key(k) ==> m.insert(rec.id.0, rec)[k] == m[k],
        m.insert(rec.id.0, rec).len() == m.len() + 1 || !m.dom().finite(),
{
    if m.dom().finite() {
        assert(m.insert(rec.id.0, rec).dom() =~= m.dom().insert(rec.id.0));
    }
}

/// After removal, a lookup finds nothing, and the other agents stay.
pub proof fn lemma_remove_then_absent(m: Map<u128, AgentRecord>, id: u128, k: u128)
    ensures
        !m.remove(id).contains_key(id),
        k != id ==> m.remove(id).contains_key(k) == m.contains_key(k),
        k != id && m.contains_key(k) ==> m.remove(id)[k] == m[k],
{
}

/// A state update changes the state and the change time of that agent
/// only: its other fields and every other agent stay.
pub proof fn lemma_update_changes_only_state(
    m: Map<u128, AgentRecord>,
    id: u128,
    st: AgentState,
    t: i64,
    k: u128,
)
    requires
        m.contains_key(id),
    ensures
        ({
            let r = m.insert(id, m[id].with_state(st, t))[id];
            r.state == st && r.updated_at == t && r.id == m[id].id && r.name == m[id].name
                && r.priority == m[id].priority && r.group == m[id].group && r.created_at
                == m[id].created_at && r.result == m[id].result && r.error == m[id].error
        }),
        k != id && m.contains_key(k) ==> m.insert(id, m[id].with_state(st, t))[k] == m[k],
        m.insert(id, m[id].with_state(st, t)).dom() == m.dom(),
{
    assert(m.insert(id, m[id].with_state(st, t)).dom() =~= m.dom());
}

} // verus!
