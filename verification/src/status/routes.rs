//! Request handling of the status server: agent listing with filters,
//! agent lookup by ID, and the health summary.

use vstd::prelude::*;

use crate::agent::registry::{lemma_state_counts_sum, lists, state_count, AgentRegistry, StateCounts};
use crate::agent::{state_name, AgentRecord, AgentState};
use crate::text::str_equals;
use crate::types::{parse_uuid, uuid_parse, AgentId, TaskGroupId};

verus! {

/// Query parameters for agent listing.
#[derive(Debug)]
pub struct AgentQuery {
    /// Filter by state name.
    pub state: Option<String>,
    /// Filter by group ID (UUID string).
    pub group: Option<String>,
}

/// The state a name denotes, if any.
pub open spec fn parse_state_spec(text: Seq<char>) -> Option<AgentState> {
    if text == "queued"@ {
        Some(AgentState::Queued)
    } else if text == "acquiring"@ {
        Some(AgentState::Acquiring)
    } else if text == "executing"@ {
        Some(AgentState::Executing)
    } else if text == "reporting"@ {
        Some(AgentState::Reporting)
    } else if text == "done"@ {
        Some(AgentState::Done)
    } else if text == "error"@ {
        Some(AgentState::Error)
    } else if text == "cancelled"@ {
        Some(AgentState::Cancelled)
    } else {
        None
    }
}

/// Parse a state name to an `AgentState`.
pub fn parse_state(s: &str) -> (r: Option<AgentState>)
    ensures
        r == parse_state_spec(s@),
{
    if str_equals(s, "queued") {
        Some(AgentState::Queued)
    } else if str_equals(s, "acquiring") {
        Some(AgentState::Acquiring)
    } else if str_equals(s, "executing") {
        Some(AgentState::Executing)
    } else if str_equals(s, "reporting") {
        Some(AgentState::Reporting)
    } else if str_equals(s, "done") {
        Some(AgentState::Done)
    } else if str_equals(s, "error") {
        Some(AgentState::Error)
    } else if str_equals(s, "cancelled") {
        Some(AgentState::Cancelled)
    } else {
        None
    }
}

/// Whether a listing query keeps a record: the state filter, where given,
/// names the record's state; the group filter, where given and a valid
/// UUID, is the record's group. A group filter that is no UUID filters nothing.
pub open spec fn query_keeps(q: AgentQuery, a: AgentRecord) -> bool {
    &&& (q.state matches Some(f) ==> state_name(a.state) == f@)
    &&& (q.group matches Some(g) ==> (uuid_parse(g@) matches Some(v) ==> a.group == Some(TaskGroupId(v))))
}

/// Whether record `a` passes a state filter (a state name) and a group filter
/// (a group's UUID value): each, where given, must match.
pub open spec fn filter_keeps(a: AgentRecord, state: Option<String>, group: Option<u128>) -> bool {
    &&& (state matches Some(f) ==> state_name(a.state) == f@)
    &&& (group matches Some(v) ==> a.group == Some(TaskGroupId(v)))
}

/// The records of `agents` whose state has the given name, where one is
/// given, and that belong to the group with the given UUID value, where one
/// is given; in order.
pub fn filter_by(agents: Vec<AgentRecord>, state: &Option<String>, group: Option<u128>) -> (out: Vec<AgentRecord>)
    ensures
        out@ == agents@.filter(|a: AgentRecord| filter_keeps(a, *state, group)),
        forall|i: int| 0 <= i < out@.len() ==> (group matches Some(v) ==> #[trigger] out@[i].group == Some(TaskGroupId(v)))
            && (state matches Some(f) ==> state_name(out@[i].state) == f@),
        forall|i: int| 0 <= i < agents@.len() && (group matches Some(v) ==> #[trigger] agents@[i].group == Some(TaskGroupId(v)))
            && (state matches Some(f) ==> state_name(agents@[i].state) == f@) ==> out@.contains(agents@[i]),
        out@.len() <= agents@.len(),
{
    let ghost keep = |a: AgentRecord| filter_keeps(a, *state, group);
    let mut out: Vec<AgentRecord> = Vec::new();
    let n = agents.len();
    for i in 0..n
        invariant
            n == agents@.len(),
            out@ == agents@.take(i as int).filter(keep),
            keep == (|a: AgentRecord| filter_keeps(a, *state, group)),
    {
        let a = &agents[i];
        let state_ok = match state {
            Some(f) => str_equals(a.state.as_str(), f.as_str()),
            None => true,
        };
        let group_ok = match group {
            Some(v) => match a.group {
                Some(h) => h.0 == v,
                None => false,
            },
            None => true,
        };
        proof {
            reveal(Seq::filter);
            assert(agents@.take(i + 1).drop_last() =~= agents@.take(i as int));
            assert(agents@.take(i + 1).last() == agents@[i as int]);
            assert(keep(agents@[i as int]) == (state_ok && group_ok));
        }
        if state_ok && group_ok {
            out.push(a.clone());
        }
    }
    assert(agents@.take(n as int) =~= agents@);
    proof {
        agents@.lemma_filter_len(keep);
        assert forall|i: int| 0 <= i < out@.len() implies (group matches Some(v) ==> #[trigger] out@[i].group == Some(TaskGroupId(v)))
            && (state matches Some(f) ==> state_name(out@[i].state) == f@) by {
            agents@.lemma_filter_pred(keep, i);
        }
        assert forall|i: int| 0 <= i < agents@.len() && (group matches Some(v) ==> #[trigger] agents@[i].group == Some(TaskGroupId(v)))
            && (state matches Some(f) ==> state_name(agents@[i].state) == f@) implies out@.contains(agents@[i]) by {
            assert(keep(agents@[i]));
            agents@.lemma_filter_contains(keep, i);
        }
    }
    out
}

/// The records of `agents` that a query keeps, in order. A group filter that
/// is no UUID filters nothing.
pub fn filter_agents(agents: Vec<AgentRecord>, query: &AgentQuery) -> (out: Vec<AgentRecord>)
    ensures
        out@ == agents@.filter(|a: AgentRecord| query_keeps(*query, a)),
        forall|i: int| 0 <= i < out@.len() ==> (query.group matches Some(g) ==> (uuid_parse(g@) matches Some(v)
            ==> #[trigger] out@[i].group == Some(TaskGroupId(v)))) && (query.state matches Some(f) ==> state_name(
            out@[i].state) == f@),
{
    let group: Option<u128> = match &query.group {
        Some(g) => parse_uuid(g.as_str()),
        None => None,
    };
    let out = filter_by(agents, &query.state, group);
    assert((|a: AgentRecord| filter_keeps(a, query.state, group)) =~= (|a: AgentRecord| query_keeps(*query, a)));
    out
}

/// Both filters of a listing query apply: a record it keeps has the named
/// state, where a state is named, and belongs to the named group, where the
/// group is a valid UUID, whatever the other filter says.
pub proof fn lemma_query_filters_both_apply(q: AgentQuery, a: AgentRecord, v: u128)
    requires
        query_keeps(q, a),
    ensures
        q.group matches Some(g) && uuid_parse(g@) == Some(v) ==> a.group == Some(TaskGroupId(v)),
        q.state matches Some(f) ==> state_name(a.state) == f@,
{
}

/// Likewise for the filters by state name and group value: a record that
/// passes has the named state, where one is named, and is of the given group,
/// where one is given.
pub proof fn lemma_filters_both_apply(a: AgentRecord, state: Option<String>, group: Option<u128>)
    requires
        filter_keeps(a, state, group),
    ensures
        group matches Some(v) ==> a.group == Some(TaskGroupId(v)),
        state matches Some(f) ==> state_name(a.state) == f@,
{
}

/// `s` lists every record of `m` once.
pub open spec fn lists_all(m: Map<u128, AgentRecord>, s: Seq<AgentRecord>) -> bool {
    lists(m, s, |a: AgentRecord| true)
}

/// The records of `s` that a query keeps, in order.
pub open spec fn query_view(s: Seq<AgentRecord>, q: AgentQuery) -> Seq<AgentRecord> {
    s.filter(|a: AgentRecord| query_keeps(q, a))
}

/// List all agents that a query keeps, from a snapshot of the registry.
pub fn list_agents(registry: &AgentRegistry, query: &AgentQuery) -> (out: Vec<AgentRecord>)
    requires
        registry.wf(),
    ensures
        exists|s: Seq<AgentRecord>| #[trigger] lists_all(registry@, s) && out@ == query_view(s, *query),
{
    let all = registry.snapshot();
    let ghost s = all@;
    let out = filter_agents(all, query);
    assert(lists_all(registry@, s));
    assert(out@ == query_view(s, *query));
    out
}

/// Why an agent lookup failed.
#[derive(Debug, PartialEq, Eq, Structural, Clone, Copy)]
pub enum LookupError {
    /// The ID is no UUID (HTTP 400).
    BadRequest,
    /// No agent has this ID (HTTP 404).
    NotFound,
}

/// Get a specific agent by the text of its ID.
pub fn get_agent(registry: &AgentRegistry, id_text: &str) -> (r: Result<AgentRecord, LookupError>)
    ensures
        uuid_parse(id_text@) is None ==> r == Err::<AgentRecord, LookupError>(LookupError::BadRequest),
        uuid_parse(id_text@) matches Some(v) ==> r == (if registry@.contains_key(v) {
            Ok(registry@[v])
        } else {
            Err(LookupError::NotFound)
        }),
{
    match parse_uuid(id_text) {
        None => Err(LookupError::BadRequest),
        Some(v) => match registry.get(&AgentId::from_uuid(v)) {
            Some(rec) => Ok(rec),
            None => Err(LookupError::NotFound),
        },
    }
}

/// Health of the server and a summary of agent states.
#[derive(Debug)]
pub struct HealthSummary {
    /// Always "ok".
    pub status: &'static str,
    /// Number of registered agents.
    pub agents_total: usize,
    /// Each state that has agents, with how many, in lifecycle order.
    pub agents_by_state: Vec<(AgentState, usize)>,
}

/// `(st, c.count(st))` if that count is not zero, else nothing.
pub open spec fn count_entry(c: StateCounts, st: AgentState) -> Seq<(AgentState, usize)> {
    if c.count(st) > 0 {
        seq![(st, c.count(st))]
    } else {
        Seq::empty()
    }
}

/// The states with a non-zero count, with their counts, in lifecycle order.
pub open spec fn nonzero_counts(c: StateCounts) -> Seq<(AgentState, usize)> {
    count_entry(c, AgentState::Queued) + count_entry(c, AgentState::Acquiring) + count_entry(
        c,
        AgentState::Executing,
    ) + count_entry(c, AgentState::Reporting) + count_entry(c, AgentState::Done) + count_entry(
        c,
        AgentState::Error,
    ) + count_entry(c, AgentState::Cancelled)
}

/// The sum of the counts of a list of (state, count) entries.
pub open spec fn entry_sum(s: Seq<(AgentState, usize)>) -> nat
    decreases s.len(),
{
    if s.len() == 0 {
        0
    } else {
        entry_sum(s.drop_last()) + (s.last().1 as nat)
    }
}

proof fn lemma_entry_sum_concat(a: Seq<(AgentState, usize)>, b: Seq<(AgentState, usize)>)
    ensures
        entry_sum(a + b) == entry_sum(a) + entry_sum(b),
    decreases b.len(),
{
    if b.len() > 0 {
        lemma_entry_sum_concat(a, b.drop_last());
        assert((a + b).drop_last() =~= a + b.drop_last());
    } else {
        assert(a + b =~= a);
    }
}

/// Every entry names a state whose count it gives, and that count is positive.
pub open spec fn entries_valid(s: Seq<(AgentState, usize)>, c: StateCounts) -> bool {
    forall|i: int| 0 <= i < s.len() ==> #[trigger] s[i].1 > 0 && s[i].1 == c.count(s[i].0)
}

proof fn lemma_concat_facts(a: Seq<(AgentState, usize)>, b: Seq<(AgentState, usize)>, c: StateCounts, x: (AgentState, usize))
    ensures
        entries_valid(a, c) && entries_valid(b, c) ==> entries_valid(a + b, c),
        a.contains(x) || b.contains(x) ==> (a + b).contains(x),
        entry_sum(a + b) == entry_sum(a) + entry_sum(b),
{
    lemma_entry_sum_concat(a, b);
    if entries_valid(a, c) && entries_valid(b, c) {
        assert forall|i: int| 0 <= i < (a + b).len() implies #[trigger] (a + b)[i].1 > 0 && (a + b)[i].1 == c.count((a + b)[i].0) by {
            if i < a.len() {
                assert((a + b)[i] == a[i]);
            } else {
                assert((a + b)[i] == b[i - a.len()]);
            }
        }
    }
    if a.contains(x) {
        let i = choose|i: int| 0 <= i < a.len() && a[i] == x;
        assert((a + b)[i] == x);
    } else if b.contains(x) {
        let j = choose|j: int| 0 <= j < b.len() && b[j] == x;
        assert((a + b)[a.len() + j] == x);
    }
}

proof fn lemma_count_entry(c: StateCounts, st: AgentState)
    ensures
        entries_valid(count_entry(c, st), c),
        c.count(st) > 0 ==> count_entry(c, st).contains((st, c.count(st))),
        entry_sum(count_entry(c, st)) == c.count(st),
{
    if c.count(st) > 0 {
        assert(count_entry(c, st)[0] == (st, c.count(st)));
        assert(count_entry(c, st).drop_last() =~= Seq::<(AgentState, usize)>::empty());
        assert(entry_sum(Seq::<(AgentState, usize)>::empty()) == 0);
        assert(entry_sum(count_entry(c, st)) == entry_sum(count_entry(c, st).drop_last()) + count_entry(c, st).last().1);
    } else {
        assert(count_entry(c, st).len() == 0);
    }
}

/// The health summary's entries list each state that has agents once, with
/// its count, and nothing else; their counts add up to all the agents.
pub proof fn lemma_nonzero_counts(c: StateCounts)
    ensures
        forall|st: AgentState| #[trigger] c.count(st) > 0 ==> nonzero_counts(c).contains((st, c.count(st))),
        entries_valid(nonzero_counts(c), c),
        entry_sum(nonzero_counts(c)) == c.count(AgentState::Queued) + c.count(AgentState::Acquiring)
            + c.count(AgentState::Executing) + c.count(AgentState::Reporting) + c.count(AgentState::Done)
            + c.count(AgentState::Error) + c.count(AgentState::Cancelled),
{
    let e1 = count_entry(c, AgentState::Queued);
    let e2 = count_entry(c, AgentState::Acquiring);
    let e3 = count_entry(c, AgentState::Executing);
    let e4 = count_entry(c, AgentState::Reporting);
    let e5 = count_entry(c, AgentState::Done);
    let e6 = count_entry(c, AgentState::Error);
    let e7 = count_entry(c, AgentState::Cancelled);
    lemma_count_entry(c, AgentState::Queued);
    lemma_count_entry(c, AgentState::Acquiring);
    lemma_count_entry(c, AgentState::Executing);
    lemma_count_entry(c, AgentState::Reporting);
    lemma_count_entry(c, AgentState::Done);
    lemma_count_entry(c, AgentState::Error);
    lemma_count_entry(c, AgentState::Cancelled);
    assert forall|st: AgentState| #[trigger] c.count(st) > 0 implies nonzero_counts(c).contains((st, c.count(st))) by {
        let x = (st, c.count(st));
        lemma_count_entry(c, st);
        lemma_concat_facts(e1, e2, c, x);
        lemma_concat_facts(e1 + e2, e3, c, x);
        lemma_concat_facts(e1 + e2 + e3, e4, c, x);
        lemma_concat_facts(e1 + e2 + e3 + e4, e5, c, x);
        lemma_concat_facts(e1 + e2 + e3 + e4 + e5, e6, c, x);
        lemma_concat_facts(e1 + e2 + e3 + e4 + e5 + e6, e7, c, x);
    }
    let x = (AgentState::Queued, 0usize);
    lemma_concat_facts(e1, e2, c, x);
    lemma_concat_facts(e1 + e2, e3, c, x);
    lemma_concat_facts(e1 + e2 + e3, e4, c, x);
    lemma_concat_facts(e1 + e2 + e3 + e4, e5, c, x);
    lemma_concat_facts(e1 + e2 + e3 + e4 + e5, e6, c, x);
    lemma_concat_facts(e1 + e2 + e3 + e4 + e5 + e6, e7, c, x);
}

fn push_count(v: &mut Vec<(AgentState, usize)>, c: &StateCounts, st: AgentState)
    ensures
        final(v)@ == old(v)@ + count_entry(*c, st),
{
    let n = c.get(st);
    if n > 0 {
        v.push((st, n));
    }
    assert(final(v)@ =~= old(v)@ + count_entry(*c, st));
}

/// The health summary of the registry.
pub fn health(registry: &AgentRegistry) -> (h: HealthSummary)
    requires
        registry.wf(),
    ensures
        h.status@ == "ok"@,
        h.agents_total == registry@.len(),
        exists|c: StateCounts| (forall|st: AgentState| #[trigger] c.count(st) == state_count(registry@, st))
            && h.agents_by_state@ == nonzero_counts(c),
        forall|st: AgentState| #[trigger] state_count(registry@, st) > 0 ==> h.agents_by_state@.contains(
            (st, state_count(registry@, st) as usize),
        ),
        forall|i: int| 0 <= i < h.agents_by_state@.len() ==> #[trigger] h.agents_by_state@[i].1 > 0
            && h.agents_by_state@[i].1 == state_count(registry@, h.agents_by_state@[i].0),
        entry_sum(h.agents_by_state@) == h.agents_total,
{
    let counts = registry.count_by_state();
    let total = registry.len();
    let mut by_state: Vec<(AgentState, usize)> = Vec::new();
    push_count(&mut by_state, &counts, AgentState::Queued);
    push_count(&mut by_state, &counts, AgentState::Acquiring);
    push_count(&mut by_state, &counts, AgentState::Executing);
    push_count(&mut by_state, &counts, AgentState::Reporting);
    push_count(&mut by_state, &counts, AgentState::Done);
    push_count(&mut by_state, &counts, AgentState::Error);
    push_count(&mut by_state, &counts, AgentState::Cancelled);
    assert(by_state@ =~= nonzero_counts(counts));
    proof {
        lemma_nonzero_counts(counts);
        lemma_state_counts_sum(registry@);
        assert(counts.count(AgentState::Queued) == state_count(registry@, AgentState::Queued));
        assert(counts.count(AgentState::Acquiring) == state_count(registry@, AgentState::Acquiring));
        assert(counts.count(AgentState::Executing) == state_count(registry@, AgentState::Executing));
        assert(counts.count(AgentState::Reporting) == state_count(registry@, AgentState::Reporting));
        assert(counts.count(AgentState::Done) == state_count(registry@, AgentState::Done));
        assert(counts.count(AgentState::Error) == state_count(registry@, AgentState::Error));
        assert(counts.count(AgentState::Cancelled) == state_count(registry@, AgentState::Cancelled));
    }
    HealthSummary { status: "ok", agents_total: total, agents_by_state: by_state }
}

} // verus!

verus! {

/// The name of every state parses back to that state.
pub proof fn lemma_parse_state_roundtrip(st: AgentState)
    ensures
        parse_state_spec(state_name(st)) == Some(st),
{
    crate::agent::lemma_state_names_distinct(st, AgentState::Queued);
    crate::agent::lemma_state_names_distinct(st, AgentState::Acquiring);
    crate::agent::lemma_state_names_distinct(st, AgentState::Executing);
    crate::agent::lemma_state_names_distinct(st, AgentState::Reporting);
    crate::agent::lemma_state_names_distinct(st, AgentState::Done);
    crate::agent::lemma_state_names_distinct(st, AgentState::Error);
}

} // verus!
