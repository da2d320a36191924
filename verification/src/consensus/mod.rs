//! Consensus evaluation over the results of a group of agents.
//!
//! Agents that finished (`Done`) with a result take part; the most common
//! result wins, ties going to the result that appeared first; a rule then
//! decides whether the agreement suffices.

pub mod rules;

use vstd::prelude::*;

use crate::agent::{clone_opt_string, state_is_terminal, AgentRecord, AgentState};
use crate::error::{OrcError, OrcResult};
use crate::types::{AgentId, TaskGroupId};

use rules::{capped_need, rule_satisfied, ConsensusRule};

verus! {

/// The result an agent contributes: its JSON text if it finished with one.
pub open spec fn outcome(a: AgentRecord) -> Option<Seq<char>> {
    if a.state == AgentState::Done && a.result is Some {
        Some(a.result->0@)
    } else {
        None
    }
}

/// How many agents of `s` contributed the result `v`.
pub open spec fn agree_count(s: Seq<AgentRecord>, v: Seq<char>) -> nat
    decreases s.len(),
{
    if s.len() == 0 {
        0
    } else {
        agree_count(s.drop_last(), v) + (if outcome(s.last()) == Some(v) { 1nat } else { 0nat })
    }
}

/// How many agents of `s` contributed a result.
pub open spec fn participant_count(s: Seq<AgentRecord>) -> nat
    decreases s.len(),
{
    if s.len() == 0 {
        0
    } else {
        participant_count(s.drop_last()) + (if outcome(s.last()) is Some { 1nat } else { 0nat })
    }
}

/// The agreement count of the result contributed by agent `i`.
pub open spec fn support(s: Seq<AgentRecord>, i: int) -> nat {
    agree_count(s, outcome(s[i])->0)
}

/// Agent `i` contributed the winning result: no result has more support,
/// and every result that appeared before it has less.
pub open spec fn is_winner_at(s: Seq<AgentRecord>, i: int) -> bool {
    &&& 0 <= i < s.len()
    &&& outcome(s[i]) is Some
    &&& forall|j: int| 0 <= j < s.len() && outcome(s[j]) is Some ==> #[trigger] support(s, j) <= support(s, i)
    &&& forall|j: int| 0 <= j < i && outcome(s[j]) is Some ==> #[trigger] support(s, j) < support(s, i)
}

/// Whether `id` belongs to an agent that contributed the winning result `w`.
pub open spec fn in_winning_group(s: Seq<AgentRecord>, w: Option<Seq<char>>, id: AgentId) -> bool {
    w is Some && exists|j: int| 0 <= j < s.len() && #[trigger] outcome(s[j]) == w && s[j].id == id
}

/// The IDs of the agents of `prefix`, in order, outside the winning group of `all`.
pub open spec fn dissenters(prefix: Seq<AgentRecord>, all: Seq<AgentRecord>, w: Option<Seq<char>>) -> Seq<AgentId>
    decreases prefix.len(),
{
    if prefix.len() == 0 {
        Seq::empty()
    } else {
        dissenters(prefix.drop_last(), all, w) + (if in_winning_group(all, w, prefix.last().id) {
            Seq::empty()
        } else {
            seq![prefix.last().id]
        })
    }
}

/// Result of a consensus evaluation.
#[derive(Debug)]
pub struct ConsensusResult {
    /// Whether consensus was achieved.
    pub achieved: bool,
    /// The winning value, as JSON text (if any agent contributed a result).
    pub winning_value: Option<String>,
    /// Number of agents that agreed with the winning value.
    pub agreement_count: usize,
    /// Total agents that participated (submitted results).
    pub total_participants: usize,
    /// Agent IDs that dissented (different result or error).
    pub dissenting: Vec<AgentId>,
}

/// The winning value of a result, as characters.
pub open spec fn winning_view(r: ConsensusResult) -> Option<Seq<char>> {
    match r.winning_value {
        Some(w) => Some(w@),
        None => None,
    }
}

/// `r` is the evaluation of `agents` under `rule`.
pub open spec fn is_evaluation(agents: Seq<AgentRecord>, rule: ConsensusRule, r: ConsensusResult) -> bool {
    &&& (r.winning_value is None <==> forall|i: int| 0 <= i < agents.len() ==> #[trigger] outcome(agents[i]) is None)
    &&& (r.winning_value is Some ==> exists|i: int| #[trigger] is_winner_at(agents, i) && outcome(agents[i]) == winning_view(r))
    &&& r.agreement_count == (match winning_view(r) {
        Some(w) => agree_count(agents, w),
        None => 0,
    })
    &&& r.total_participants == participant_count(agents)
    &&& r.dissenting@ == dissenters(agents, agents, winning_view(r))
    &&& r.achieved == rule_satisfied(rule, r.agreement_count as nat, agents.len())
}

proof fn lemma_agree_count_bound(s: Seq<AgentRecord>, v: Seq<char>)
    ensures
        agree_count(s, v) <= s.len(),
    decreases s.len(),
{
    if s.len() > 0 {
        lemma_agree_count_bound(s.drop_last(), v);
    }
}

proof fn lemma_participant_count_bound(s: Seq<AgentRecord>)
    ensures
        participant_count(s) <= s.len(),
    decreases s.len(),
{
    if s.len() > 0 {
        lemma_participant_count_bound(s.drop_last());
    }
}

/// Whether agent `a` contributed a result.
fn participates(a: &AgentRecord) -> (b: bool)
    ensures
        b == outcome(*a) is Some,
{
    a.state == AgentState::Done && a.result.is_some()
}

/// Whether agent `a` contributed the result `v`.
fn contributes(a: &AgentRecord, v: &String) -> (b: bool)
    ensures
        b == (outcome(*a) == Some(v@)),
{
    if a.state == AgentState::Done {
        match &a.result {
            Some(r) => *r == *v,
            None => false,
        }
    } else {
        false
    }
}

/// How many of `agents` contributed the result `v`.
fn count_agreeing(agents: &[AgentRecord], v: &String) -> (c: usize)
    ensures
        c == agree_count(agents@, v@),
{
    let n = agents.len();
    let mut c: usize = 0;
    for i in 0..n
        invariant
            n == agents@.len(),
            c == agree_count(agents@.take(i as int), v@),
    {
        proof {
            lemma_agree_count_bound(agents@.take(i as int), v@);
            assert(agents@.take(i + 1).drop_last() =~= agents@.take(i as int));
        }
        if contributes(&agents[i], v) {
            c = c + 1;
        }
    }
    assert(agents@.take(n as int) =~= agents@);
    c
}

/// How many of `agents` contributed a result.
fn count_participants(agents: &[AgentRecord]) -> (c: usize)
    ensures
        c == participant_count(agents@),
{
    let n = agents.len();
    let mut c: usize = 0;
    for i in 0..n
        invariant
            n == agents@.len(),
            c == participant_count(agents@.take(i as int)),
    {
        proof {
            lemma_participant_count_bound(agents@.take(i as int));
            assert(agents@.take(i + 1).drop_last() =~= agents@.take(i as int));
        }
        if participates(&agents[i]) {
            c = c + 1;
        }
    }
    assert(agents@.take(n as int) =~= agents@);
    c
}

/// Whether `id` belongs to an agent of `agents` that contributed `w`.
fn in_group(agents: &[AgentRecord], w: &String, id: AgentId) -> (b: bool)
    ensures
        b == in_winning_group(agents@, Some(w@), id),
{
    let n = agents.len();
    for j in 0..n
        invariant
            n == agents@.len(),
            forall|k: int| 0 <= k < j ==> !(#[trigger] outcome(agents@[k]) == Some(w@) && agents@[k].id == id),
    {
        if contributes(&agents[j], w) && agents[j].id.0 == id.0 {
            assert(outcome(agents@[j as int]) == Some(w@) && agents@[j as int].id == id);
            return true;
        }
    }
    false
}

/// Engine that evaluates consensus over the records of a group of agents.
pub struct ConsensusEngine {}

/// Outcome of one look at a group while awaiting consensus.
#[derive(Debug)]
pub enum ConsensusPoll {
    /// The wait is over with this result.
    Decided(OrcResult<ConsensusResult>),
    /// Some agents are still running and the deadline has not passed.
    Pending,
}

impl ConsensusEngine {
    /// Create a new consensus engine.
    pub fn new() -> (e: Self) {
        ConsensusEngine {}
    }

    /// Evaluate consensus from a set of agent records.
    pub fn evaluate(&self, agents: &[AgentRecord], rule: &ConsensusRule) -> (r: ConsensusResult)
        ensures
            is_evaluation(agents@, *rule, r),
    {
        let n = agents.len();
        let mut best: Option<usize> = None;
        let mut best_count: usize = 0;
        for i in 0..n
            invariant
                n == agents@.len(),
                best is None ==> forall|j: int| 0 <= j < i ==> #[trigger] outcome(agents@[j]) is None,
                best matches Some(b) ==> {
                    &&& b < i
                    &&& outcome(agents@[b as int]) is Some
                    &&& best_count == support(agents@, b as int)
                    &&& forall|j: int| 0 <= j < i && outcome(agents@[j]) is Some ==> #[trigger] support(agents@, j) <= best_count
                    &&& forall|j: int| 0 <= j < b && outcome(agents@[j]) is Some ==> #[trigger] support(agents@, j) < best_count
                },
        {
            if agents[i].state == AgentState::Done {
                match &agents[i].result {
                    Some(r) => {
                        let c = count_agreeing(agents, r);
                        assert(c == support(agents@, i as int));
                        if best.is_none() || c > best_count {
                            best = Some(i);
                            best_count = c;
                        }
                    },
                    None => {},
                }
            }
        }
        let winning_value = match best {
            Some(b) => clone_opt_string(&agents[b].result),
            None => None,
        };
        let agreement_count = match best {
            Some(_) => best_count,
            None => 0,
        };
        let ghost w = match &winning_value {
            Some(s) => Some(s@),
            None => None::<Seq<char>>,
        };
        proof {
            if let Some(b) = best {
                assert(is_winner_at(agents@, b as int));
            }
        }
        let mut dissenting: Vec<AgentId> = Vec::new();
        for i in 0..n
            invariant
                n == agents@.len(),
                dissenting@ == dissenters(agents@.take(i as int), agents@, w),
                winning_value matches Some(s) ==> w == Some(s@),
                winning_value is None ==> w is None,
        {
            let keep = match &winning_value {
                Some(s) => !in_group(agents, s, agents[i].id),
                None => true,
            };
            proof {
                assert(agents@.take(i + 1).drop_last() =~= agents@.take(i as int));
                assert(agents@.take(i + 1).last() == agents@[i as int]);
            }
            if keep {
                dissenting.push(agents[i].id);
            }
        }
        assert(agents@.take(n as int) =~= agents@);
        let total_participants = count_participants(agents);
        let achieved = rule.is_satisfied(agreement_count, n);
        ConsensusResult { achieved, winning_value, agreement_count, total_participants, dissenting }
    }

    /// One look at a group while awaiting consensus: an empty group is not
    /// found; once every agent is terminal, the evaluation; past the
    /// deadline, the evaluation if it achieved consensus and otherwise a
    /// timeout naming how many agents agreed and how many the rule needs;
    /// else keep waiting.
    pub fn poll(
        &self,
        group_id: &TaskGroupId,
        agents: &[AgentRecord],
        rule: &ConsensusRule,
        deadline_passed: bool,
    ) -> (p: ConsensusPoll)
        ensures
            agents@.len() == 0 ==> p == ConsensusPoll::Decided(Err(OrcError::GroupNotFound(*group_id))),
            agents@.len() > 0 && all_terminal(agents@) ==> (p matches ConsensusPoll::Decided(Ok(r))
                && is_evaluation(agents@, *rule, r)),
            agents@.len() > 0 && !all_terminal(agents@) && deadline_passed ==> (p is Decided),
            agents@.len() > 0 && !all_terminal(agents@) && !deadline_passed ==> (p is Pending),
            agents@.len() > 0 && !all_terminal(agents@) ==> (p matches ConsensusPoll::Decided(Ok(r))
                ==> is_evaluation(agents@, *rule, r) && r.achieved),
            agents@.len() > 0 ==> (p matches ConsensusPoll::Decided(Err(e)) ==> (exists|r: ConsensusResult|
                #[trigger] is_evaluation(agents@, *rule, r)) && (forall|r: ConsensusResult|
                #[trigger] is_evaluation(agents@, *rule, r) ==> !r.achieved && e == (OrcError::ConsensusTimeout {
                achieved: r.agreement_count,
                required: capped_need(*rule, agents@.len()),
            }))),
    {
        if agents.len() == 0 {
            return ConsensusPoll::Decided(Err(OrcError::GroupNotFound(*group_id)));
        }
        let n = agents.len();
        let mut all_done = true;
        for i in 0..n
            invariant
                n == agents@.len(),
                all_done == (forall|j: int| 0 <= j < i ==> #[trigger] state_is_terminal(agents@[j].state)),
        {
            if !agents[i].state.is_terminal() {
                all_done = false;
            }
        }
        if all_done {
            return ConsensusPoll::Decided(Ok(self.evaluate(agents, rule)));
        }
        if deadline_passed {
            let result = self.evaluate(agents, rule);
            if result.achieved {
                return ConsensusPoll::Decided(Ok(result));
            }
            let required = rule.required(n);
            let e = OrcError::ConsensusTimeout { achieved: result.agreement_count, required };
            proof {
                assert forall|r: ConsensusResult| #[trigger] is_evaluation(agents@, *rule, r) implies !r.achieved
                    && e == (OrcError::ConsensusTimeout { achieved: r.agreement_count, required: capped_need(*rule, agents@.len()) }) by {
                    lemma_evaluation_unique(agents@, *rule, r, result);
                }
            }
            return ConsensusPoll::Decided(Err(e));
        }
        ConsensusPoll::Pending
    }
}

/// Every agent of `s` is in a terminal state.
pub open spec fn all_terminal(s: Seq<AgentRecord>) -> bool {
    forall|i: int| 0 <= i < s.len() ==> #[trigger] state_is_terminal(s[i].state)
}

/// At most one agent is the winner: the earliest contributor of the result
/// with the most support.
pub proof fn lemma_winner_unique(s: Seq<AgentRecord>, i: int, k: int)
    requires
        is_winner_at(s, i),
        is_winner_at(s, k),
    ensures
        i == k,
{
    if i < k {
        assert(support(s, i) < support(s, k));
        assert(support(s, k) <= support(s, i));
    } else if k < i {
        assert(support(s, k) < support(s, i));
        assert(support(s, i) <= support(s, k));
    }
}

/// Evaluation is a function of the agents and the rule: any two evaluations
/// agree on every field.
pub proof fn lemma_evaluation_unique(
    agents: Seq<AgentRecord>,
    rule: ConsensusRule,
    r1: ConsensusResult,
    r2: ConsensusResult,
)
    requires
        is_evaluation(agents, rule, r1),
        is_evaluation(agents, rule, r2),
    ensures
        winning_view(r1) == winning_view(r2),
        r1.agreement_count == r2.agreement_count,
        r1.total_participants == r2.total_participants,
        r1.dissenting@ == r2.dissenting@,
        r1.achieved == r2.achieved,
{
    if r1.winning_value is Some {
        let i = choose|i: int| #[trigger] is_winner_at(agents, i) && outcome(agents[i]) == winning_view(r1);
        assert(r2.winning_value is Some) by {
            if r2.winning_value is None {
                assert(outcome(agents[i]) is None);
            }
        }
        let k = choose|k: int| #[trigger] is_winner_at(agents, k) && outcome(agents[k]) == winning_view(r2);
        lemma_winner_unique(agents, i, k);
    } else {
        if r2.winning_value is Some {
            let k = choose|k: int| #[trigger] is_winner_at(agents, k) && outcome(agents[k]) == winning_view(r2);
            assert(outcome(agents[k]) is None);
        }
    }
}

} // verus!

verus! {

/// Agreement on one result never exceeds participation, which never exceeds
/// the number of agents.
pub proof fn lemma_agreement_within_participants(s: Seq<AgentRecord>, v: Seq<char>)
    ensures
        agree_count(s, v) <= participant_count(s),
        participant_count(s) <= s.len(),
    decreases s.len(),
{
    if s.len() > 0 {
        lemma_agreement_within_participants(s.drop_last(), v);
    }
}

} // verus!
