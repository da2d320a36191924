//! Agent lifecycle states and the record of an agent's lifecycle.

pub mod context;
pub mod registry;
pub mod supervisor;

use vstd::prelude::*;

use crate::types::{current_time_millis, AgentId, Priority, TaskGroupId};

verus! {

/// Agent lifecycle state machine.
///
/// ```text
/// Queued → Acquiring → Executing → Reporting → Done
///                                             → Error
///                                  → Cancelled
/// ```
#[derive(Debug, Clone, Copy, PartialEq, Eq, Structural, Hash)]
pub enum AgentState {
    /// Waiting in queue for execution slot.
    Queued,
    /// Acquiring concurrency permit and context.
    Acquiring,
    /// Task is actively executing.
    Executing,
    /// Task completed, reporting results.
    Reporting,
    /// Successfully completed.
    Done,
    /// Failed with error.
    Error,
    /// Cancelled by supervisor or user.
    Cancelled,
}

/// Terminal states: no further transitions.
pub open spec fn state_is_terminal(s: AgentState) -> bool {
    s == AgentState::Done || s == AgentState::Error || s == AgentState::Cancelled
}

/// Whether the lifecycle allows an agent in state `from` to move to `to`: a
/// terminal state has no further transitions (staying in it is no transition).
pub open spec fn transition_allowed(from: AgentState, to: AgentState) -> bool {
    !state_is_terminal(from) || from == to
}

/// The state of an agent in state `from` after it is asked to move to `to`.
pub open spec fn settle(from: AgentState, to: AgentState) -> AgentState {
    if transition_allowed(from, to) {
        to
    } else {
        from
    }
}

/// Terminal states are final: whatever an agent in one is asked to move to,
/// it stays where it is.
pub proof fn lemma_terminal_is_final(from: AgentState, to: AgentState)
    requires
        state_is_terminal(from),
    ensures
        settle(from, to) == from,
        state_is_terminal(settle(from, to)),
{
}

/// From a state that is not terminal the lifecycle allows every move, to
/// Done and Error in particular: an agent still running can always finish.
pub proof fn lemma_running_agent_can_finish(from: AgentState, to: AgentState)
    requires
        !state_is_terminal(from),
    ensures
        transition_allowed(from, to),
        settle(from, to) == to,
        transition_allowed(from, AgentState::Done),
        transition_allowed(from, AgentState::Error),
        transition_allowed(from, AgentState::Cancelled),
{
}

/// Lower-case name of a state.
pub open spec fn state_name(s: AgentState) -> Seq<char> {
    match s {
        AgentState::Queued => "queued"@,
        AgentState::Acquiring => "acquiring"@,
        AgentState::Executing => "executing"@,
        AgentState::Reporting => "reporting"@,
        AgentState::Done => "done"@,
        AgentState::Error => "error"@,
        AgentState::Cancelled => "cancelled"@,
    }
}

impl AgentState {
    /// Whether this state is terminal (no further transitions).
    pub fn is_terminal(self) -> (t: bool)
        ensures
            t == state_is_terminal(self),
    {
        match self {
            AgentState::Done | AgentState::Error | AgentState::Cancelled => true,
            _ => false,
        }
    }

    /// Human-readable state name.
    pub fn as_str(self) -> (s: &'static str)
        ensures
            s@ == state_name(self),
    {
        match self {
            AgentState::Queued => "queued",
            AgentState::Acquiring => "acquiring",
            AgentState::Executing => "executing",
            AgentState::Reporting => "reporting",
            AgentState::Done => "done",
            AgentState::Error => "error",
            AgentState::Cancelled => "cancelled",
        }
    }
}

/// Distinct states have distinct names.
pub proof fn lemma_state_names_distinct(a: AgentState, b: AgentState)
    ensures
        (state_name(a) == state_name(b)) <==> (a == b),
{
    reveal_strlit("queued");
    reveal_strlit("acquiring");
    reveal_strlit("executing");
    reveal_strlit("reporting");
    reveal_strlit("done");
    reveal_strlit("error");
    reveal_strlit("cancelled");
    if a != b {
        assert(state_name(a)[0] != state_name(b)[0] || state_name(a).len() != state_name(b).len()
            || state_name(a)[1] != state_name(b)[1]);
    }
}

/// Record of an agent's full lifecycle.
///
/// Times are milliseconds since the Unix epoch; the result is the JSON text
/// of the value the agent produced.
#[derive(Debug)]
pub struct AgentRecord {
    /// Unique agent identifier.
    pub id: AgentId,
    /// Human-readable task name.
    pub name: String,
    /// Current lifecycle state.
    pub state: AgentState,
    /// Task priority.
    pub priority: Priority,
    /// Optional group membership.
    pub group: Option<TaskGroupId>,
    /// When the agent was created.
    pub created_at: i64,
    /// When the state last changed.
    pub updated_at: i64,
    /// Serialized result, as JSON text (populated on Done).
    pub result: Option<String>,
    /// Error message (populated on Error).
    pub error: Option<String>,
}

pub(crate) fn clone_opt_string(o: &Option<String>) -> (r: Option<String>)
    ensures
        r == *o,
{
    match o {
        Some(s) => Some(s.clone()),
        None => None,
    }
}

impl Clone for AgentRecord {
    fn clone(&self) -> (r: Self)
        ensures
            r == *self,
    {
        AgentRecord {
            id: self.id,
            name: self.name.clone(),
            state: self.state,
            priority: self.priority,
            group: self.group,
            created_at: self.created_at,
            updated_at: self.updated_at,
            result: clone_opt_string(&self.result),
            error: clone_opt_string(&self.error),
        }
    }
}

impl AgentRecord {
    /// Create a new agent record in Queued state, stamped with the current time.
    pub fn new(id: AgentId, name: String, priority: Priority, group: Option<TaskGroupId>) -> (r:
        Self)
        ensures
            exists|t: i64| r == Self::spec_new(id, name, priority, group, t),
    {
        Self::new_at(id, name, priority, group, current_time_millis())
    }

    /// This record in state `s`, last changed at time `t`.
    pub open spec fn with_state(self, s: AgentState, t: i64) -> AgentRecord {
        AgentRecord { state: s, updated_at: t, ..self }
    }

    /// This record after it is asked to move to state `s` at time `t`: moved
    /// where the lifecycle allows it, else unchanged.
    pub open spec fn moved_to(self, s: AgentState, t: i64) -> AgentRecord {
        if transition_allowed(self.state, s) {
            self.with_state(s, t)
        } else {
            self
        }
    }

    /// This record with result `r` (JSON text), last changed at time `t`.
    pub open spec fn with_result(self, r: String, t: i64) -> AgentRecord {
        AgentRecord { result: Some(r), updated_at: t, ..self }
    }

    /// This record with error message `e`, last changed at time `t`.
    pub open spec fn with_error(self, e: String, t: i64) -> AgentRecord {
        AgentRecord { error: Some(e), updated_at: t, ..self }
    }

    /// A new record in Queued state created at time `now`.
    pub open spec fn spec_new(
        id: AgentId,
        name: String,
        priority: Priority,
        group: Option<TaskGroupId>,
        now: i64,
    ) -> AgentRecord {
        AgentRecord {
            id,
            name,
            state: AgentState::Queued,
            priority,
            group,
            created_at: now,
            updated_at: now,
            result: None,
            error: None,
        }
    }

    /// Create a new agent record in Queued state created at time `now`.
    pub fn new_at(
        id: AgentId,
        name: String,
        priority: Priority,
        group: Option<TaskGroupId>,
        now: i64,
    ) -> (r: Self)
        ensures
            r == Self::spec_new(id, name, priority, group, now),
    {
        AgentRecord {
            id,
            name,
            state: AgentState::Queued,
            priority,
            group,
            created_at: now,
            updated_at: now,
            result: None,
            error: None,
        }
    }
}

} // verus!
