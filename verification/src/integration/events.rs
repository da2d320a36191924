//! Orchestration events for an event bus.

use vstd::prelude::*;

use crate::agent::AgentState;
use crate::types::{AgentId, Priority, TaskGroupId};

verus! {

/// Events emitted by the orchestration system. Timestamps are milliseconds
/// since the Unix epoch; results are JSON text.
#[derive(Debug)]
pub enum OrcEvent {
    /// An agent was spawned and registered.
    AgentSpawned {
        /// Agent identifier.
        id: AgentId,
        /// Task name.
        name: String,
        /// Task priority.
        priority: Priority,
        /// Optional group membership.
        group: Option<TaskGroupId>,
        /// When the agent was created.
        timestamp: i64,
    },
    /// An agent's state changed.
    AgentStateChanged {
        /// Agent identifier.
        id: AgentId,
        /// Previous state.
        from: AgentState,
        /// New state.
        to: AgentState,
        /// When the transition occurred.
        timestamp: i64,
    },
    /// An agent completed successfully.
    AgentCompleted {
        /// Agent identifier.
        id: AgentId,
        /// Serialized result.
        result: String,
        /// When it completed.
        timestamp: i64,
    },
    /// An agent failed.
    AgentFailed {
        /// Agent identifier.
        id: AgentId,
        /// Error message.
        error: String,
        /// When it failed.
        timestamp: i64,
    },
    /// An agent was cancelled.
    AgentCancelled {
        /// Agent identifier.
        id: AgentId,
        /// When it was cancelled.
        timestamp: i64,
    },
    /// Consensus was reached (or failed) for a group.
    ConsensusResult {
        /// Group identifier.
        group: TaskGroupId,
        /// Whether consensus was achieved.
        achieved: bool,
        /// Number of agreeing agents.
        agreement_count: usize,
        /// Total agents in the group.
        total: usize,
        /// When the consensus was evaluated.
        timestamp: i64,
    },
    /// Queue saturation warning.
    QueueSaturation {
        /// Current queue length.
        current: usize,
        /// Maximum capacity.
        capacity: usize,
        /// When detected.
        timestamp: i64,
    },
}

/// The routing name of an event.
pub open spec fn event_type_name(e: OrcEvent) -> Seq<char> {
    match e {
        OrcEvent::AgentSpawned { .. } => "orc.agent.spawned"@,
        OrcEvent::AgentStateChanged { .. } => "orc.agent.state_changed"@,
        OrcEvent::AgentCompleted { .. } => "orc.agent.completed"@,
        OrcEvent::AgentFailed { .. } => "orc.agent.failed"@,
        OrcEvent::AgentCancelled { .. } => "orc.agent.cancelled"@,
        OrcEvent::ConsensusResult { .. } => "orc.consensus.result"@,
        OrcEvent::QueueSaturation { .. } => "orc.queue.saturation"@,
    }
}

/// The time an event carries.
pub open spec fn event_time(e: OrcEvent) -> i64 {
    match e {
        OrcEvent::AgentSpawned { timestamp, .. } => timestamp,
        OrcEvent::AgentStateChanged { timestamp, .. } => timestamp,
        OrcEvent::AgentCompleted { timestamp, .. } => timestamp,
        OrcEvent::AgentFailed { timestamp, .. } => timestamp,
        OrcEvent::AgentCancelled { timestamp, .. } => timestamp,
        OrcEvent::ConsensusResult { timestamp, .. } => timestamp,
        OrcEvent::QueueSaturation { timestamp, .. } => timestamp,
    }
}

impl OrcEvent {
    /// Get the event type name for routing/filtering.
    pub fn event_type(&self) -> (s: &'static str)
        ensures
            s@ == event_type_name(*self),
    {
        match self {
            OrcEvent::AgentSpawned { .. } => "orc.agent.spawned",
            OrcEvent::AgentStateChanged { .. } => "orc.agent.state_changed",
            OrcEvent::AgentCompleted { .. } => "orc.agent.completed",
            OrcEvent::AgentFailed { .. } => "orc.agent.failed",
            OrcEvent::AgentCancelled { .. } => "orc.agent.cancelled",
            OrcEvent::ConsensusResult { .. } => "orc.consensus.result",
            OrcEvent::QueueSaturation { .. } => "orc.queue.saturation",
        }
    }

    /// Get the timestamp of this event.
    pub fn timestamp(&self) -> (t: i64)
        ensures
            t == event_time(*self),
    {
        match self {
            OrcEvent::AgentSpawned { timestamp, .. } => *timestamp,
            OrcEvent::AgentStateChanged { timestamp, .. } => *timestamp,
            OrcEvent::AgentCompleted { timestamp, .. } => *timestamp,
            OrcEvent::AgentFailed { timestamp, .. } => *timestamp,
            OrcEvent::AgentCancelled { timestamp, .. } => *timestamp,
            OrcEvent::ConsensusResult { timestamp, .. } => *timestamp,
            OrcEvent::QueueSaturation { timestamp, .. } => *timestamp,
        }
    }
}

} // verus!
