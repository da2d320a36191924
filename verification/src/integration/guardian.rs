//! Guardian decisions: error-rate readings and stuck-agent detection for the
//! sensor, and the responses of the actuator.

use vstd::prelude::*;
use vstd::string::StringExecFns;

use crate::agent::registry::{lemma_state_counts_sum, lists, state_count, AgentRegistry};
use crate::agent::{state_is_terminal, state_name, transition_allowed, AgentRecord, AgentState};
use crate::error::error_message;
use crate::text::string_of;
use crate::types::{agent_label, parse_uuid, push_id_label, uuid_parse, AgentId};

verus! {

/// How long an agent may sit in a non-terminal state without a state change
/// before it counts as stuck: ten minutes, in milliseconds.
pub const STUCK_THRESHOLD_MS: i64 = 600_000;

/// Name of the orchestration sensor.
pub fn sensor_name() -> (s: &'static str)
    ensures
        s@ == "orchestration-sensor"@,
{
    "orchestration-sensor"
}

/// Name of the orchestration actuator.
pub fn actuator_name() -> (s: &'static str)
    ensures
        s@ == "orchestration-actuator"@,
{
    "orchestration-actuator"
}

/// Severity of a threat signal.
#[derive(Debug, Clone, Copy, PartialEq, Eq, Structural)]
pub enum ThreatSeverity {
    /// Worth attention.
    Medium,
    /// Serious.
    High,
    /// Most serious.
    Critical,
}

/// The error counts of the registry: agents in Error and agents in all, if
/// any agent is registered.
pub fn error_rate_reading(registry: &AgentRegistry) -> (r: Option<(usize, usize)>)
    requires
        registry.wf(),
    ensures
        registry@.len() == 0 ==> r is None,
        registry@.len() > 0 ==> r == Some(
            (state_count(registry@, AgentState::Error) as usize, registry@.len() as usize),
        ),
{
    let counts = registry.count_by_state();
    let n = registry.len();
    proof {
        lemma_state_counts_sum(registry@);
        assert(counts.count(AgentState::Queued) == state_count(registry@, AgentState::Queued));
        assert(counts.count(AgentState::Acquiring) == state_count(registry@, AgentState::Acquiring));
        assert(counts.count(AgentState::Executing) == state_count(registry@, AgentState::Executing));
        assert(counts.count(AgentState::Reporting) == state_count(registry@, AgentState::Reporting));
        assert(counts.count(AgentState::Done) == state_count(registry@, AgentState::Done));
        assert(counts.count(AgentState::Error) == state_count(registry@, AgentState::Error));
        assert(counts.count(AgentState::Cancelled) == state_count(registry@, AgentState::Cancelled));
    }
    let total = counts.queued + counts.acquiring + counts.executing + counts.reporting + counts.done
        + counts.error + counts.cancelled;
    if total == 0 {
        return None;
    }
    Some((counts.error, total))
}

/// The severity of an error-rate signal: Critical when more than half of the
/// agents are in Error, else High.
pub fn error_rate_severity(error_count: usize, total: usize) -> (s: ThreatSeverity)
    ensures
        s == (if 2 * error_count > total {
            ThreatSeverity::Critical
        } else {
            ThreatSeverity::High
        }),
{
    if error_count as u128 * 2 > total as u128 {
        ThreatSeverity::Critical
    } else {
        ThreatSeverity::High
    }
}

/// Whether the error rate `error_count / total` exceeds the threshold
/// `numerator / denominator`.
pub fn error_rate_exceeds(error_count: usize, total: usize, numerator: u64, denominator: u64) -> (b: bool)
    ensures
        b == (error_count * denominator > numerator * total),
{
    let e: u128 = error_count as u128;
    let d: u128 = denominator as u128;
    let n: u128 = numerator as u128;
    let t: u128 = total as u128;
    proof {
        crate::consensus::rules::lemma_wide_product(e, d);
        crate::consensus::rules::lemma_wide_product(n, t);
    }
    e * d > n * t
}

/// Whether an agent is stuck at time `now`: it is in a non-terminal state and
/// more than ten minutes have passed since its state last changed.
pub open spec fn is_stuck(a: AgentRecord, now: i64) -> bool {
    !state_is_terminal(a.state) && now - a.updated_at > STUCK_THRESHOLD_MS
}

/// Agents stuck in a non-terminal state at time `now`, each once.
pub fn stuck_agents(registry: &AgentRegistry, now: i64) -> (s: Vec<AgentRecord>)
    requires
        registry.wf(),
    ensures
        lists(registry@, s@, |a: AgentRecord| is_stuck(a, now)),
        forall|i: int| 0 <= i < s@.len() ==> !state_is_terminal(#[trigger] s@[i].state)
            && now - s@[i].updated_at > 600_000 && registry@.contains_key(s@[i].id.0),
        forall|k: u128| #[trigger] registry@.contains_key(k) && !state_is_terminal(registry@[k].state)
            && now - registry@[k].updated_at > 600_000 ==> exists|i: int| 0 <= i < s@.len() && #[trigger] s@[i].id.0 == k,
{
    let cutoff: i128 = now as i128 - STUCK_THRESHOLD_MS as i128;
    let ghost p = |a: AgentRecord| is_stuck(a, now);
    let s = registry.collect_where(Ghost(p), None, None, true, Some(cutoff));
    proof {
        assert forall|i: int| 0 <= i < s@.len() implies !state_is_terminal(#[trigger] s@[i].state)
            && now - s@[i].updated_at > 600_000 && registry@.contains_key(s@[i].id.0) by {
            assert(p(s@[i]));
        }
        assert forall|k: u128| #[trigger] registry@.contains_key(k) && !state_is_terminal(registry@[k].state)
            && now - registry@[k].updated_at > 600_000 implies exists|i: int| 0 <= i < s@.len() && #[trigger] s@[i].id.0 == k by {
            assert(p(registry@[k]));
        }
    }
    s
}

/// Only running agents can be stuck: an agent that finished (Done, Error or
/// Cancelled) is never reported, however long ago it last changed, and a
/// running one is reported exactly when more than ten minutes have passed.
pub proof fn lemma_finished_agents_are_not_stuck(a: AgentRecord, now: i64)
    ensures
        a.state == AgentState::Done || a.state == AgentState::Error || a.state == AgentState::Cancelled
            ==> !is_stuck(a, now),
        a.state == AgentState::Queued || a.state == AgentState::Acquiring || a.state == AgentState::Executing
            || a.state == AgentState::Reporting ==> (is_stuck(a, now) <==> now - a.updated_at > 600_000),
{
}

/// An action the guardian asks the actuator to take.
#[derive(Debug)]
pub enum GuardianAction {
    /// Raise an alert with this message.
    Alert {
        /// The alert message.
        message: String,
    },
    /// Block a target: for orchestration, the text of an agent's UUID.
    Block {
        /// The agent to stop.
        target: String,
    },
    /// Any other action (rate limiting, escalation, ...).
    Other,
}

/// The result of an actuator action.
#[derive(Debug)]
pub struct ActuationReport {
    /// Whether the action succeeded.
    pub success: bool,
    /// What happened.
    pub message: String,
}

/// Whether the actuator handles an action: alerts and blocks only.
pub fn can_execute(action: &GuardianAction) -> (b: bool)
    ensures
        b == (action is Alert || action is Block),
{
    match action {
        GuardianAction::Alert { .. } => true,
        GuardianAction::Block { .. } => true,
        GuardianAction::Other => false,
    }
}

/// What blocking the agent named by `target`, read as the UUID value
/// `parsed` (`None` where it is no UUID), does to registry `old`, giving
/// `new` and report `r`.
pub open spec fn blocked(
    old: Map<u128, AgentRecord>,
    new: Map<u128, AgentRecord>,
    parsed: Option<u128>,
    target: Seq<char>,
    r: ActuationReport,
) -> bool {
    match parsed {
        None => !r.success && r.message@ == "invalid agent id: "@ + target && new == old,
        Some(v) => if old.contains_key(v) && transition_allowed(old[v].state, AgentState::Cancelled) {
            r.success && r.message@ == "cancelled agent "@ + agent_label(AgentId(v)) && exists|t: i64|
                new == old.insert(v, old[v].with_state(AgentState::Cancelled, t))
        } else if old.contains_key(v) {
            !r.success && r.message@ == "failed to cancel agent: "@ + "invalid state transition for agent "@
                + agent_label(AgentId(v)) + ": cannot move from "@ + state_name(old[v].state)
                + " to "@ + "cancelled"@ && new == old
        } else {
            !r.success && r.message@ == "failed to cancel agent: "@ + error_message(
                crate::error::OrcError::AgentNotFound(AgentId(v)),
            ) && new == old
        },
    }
}

/// Block the agent named by `target`, whose UUID value is `parsed` (`None`
/// where the target is no UUID): cancel it and report.
pub fn block_agent(registry: &mut AgentRegistry, parsed: Option<u128>, target: &str) -> (r: ActuationReport)
    requires
        old(registry).wf(),
    ensures
        final(registry).wf(),
        blocked(old(registry)@, final(registry)@, parsed, target@, r),
{
    match parsed {
        Some(v) => {
            let agent_id = AgentId::from_uuid(v);
            match registry.update_state(&agent_id, AgentState::Cancelled) {
                Ok(()) => {
                    let mut m = string_of("cancelled agent ");
                    push_id_label(&mut m, "agent-", v);
                    ActuationReport { success: true, message: m }
                },
                Err(e) => {
                    let mut m = string_of("failed to cancel agent: ");
                    let em = e.message();
                    m.append(em.as_str());
                    proof {
                        if old(registry)@.contains_key(v) {
                            assert(m@ =~= "failed to cancel agent: "@ + "invalid state transition for agent "@
                                + agent_label(AgentId(v)) + ": cannot move from "@
                                + state_name(old(registry)@[v].state) + " to "@ + "cancelled"@);
                        }
                    }
                    ActuationReport { success: false, message: m }
                },
            }
        },
        None => {
            let mut m = string_of("invalid agent id: ");
            m.append(target);
            ActuationReport { success: false, message: m }
        },
    }
}

/// Respond to an action.
///
/// - An alert is logged: success, "alert logged: " and the message.
/// - A block names an agent by its UUID: the agent is marked Cancelled and the
///   report says "cancelled agent " and its label; an unknown agent, or one
///   that already finished, gives "failed to cancel agent: " and the error; a
///   target that is no UUID gives "invalid agent id: " and the target. Only
///   the cancellation succeeds.
/// - Any other action is unsupported.
pub fn actuate(registry: &mut AgentRegistry, action: &GuardianAction) -> (r: ActuationReport)
    requires
        old(registry).wf(),
    ensures
        final(registry).wf(),
        action matches GuardianAction::Alert { message } ==> r.success && r.message@ == "alert logged: "@
            + message@ && final(registry)@ == old(registry)@,
        action matches GuardianAction::Block { target } ==> blocked(old(registry)@, final(registry)@, uuid_parse(target@), target@, r),
        action is Other ==> !r.success && r.message@ == "unsupported action for orchestration actuator"@
            && final(registry)@ == old(registry)@,
{
    match action {
        GuardianAction::Alert { message } => {
            let mut m = string_of("alert logged: ");
            m.append(message.as_str());
            ActuationReport { success: true, message: m }
        },
        GuardianAction::Block { target } => block_agent(registry, parse_uuid(target.as_str()), target.as_str()),
        GuardianAction::Other => ActuationReport {
            success: false,
            message: string_of("unsupported action for orchestration actuator"),
        },
    }
}

/// Undo an action: nothing to undo for orchestration; reported as success.
pub fn revert(action: &GuardianAction) -> (r: ActuationReport)
    ensures
        r.success,
        r.message@ == "revert not implemented for orchestration actuator"@,
{
    ActuationReport { success: true, message: string_of("revert not implemented for orchestration actuator") }
}

} // verus!
