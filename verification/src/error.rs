//! Orchestration error type and its messages.

use vstd::prelude::*;
use vstd::string::StringExecFns;

use crate::text::{decimal, push_decimal, string_of};
use crate::types::{agent_label, group_label, push_id_label, AgentId, TaskGroupId};

verus! {

/// Unified error type for the orchestration crate.
#[derive(Debug)]
pub enum OrcError {
    /// Agent not found in registry.
    AgentNotFound(AgentId),
    /// Task group not found.
    GroupNotFound(TaskGroupId),
    /// Agent is in an invalid state for the requested operation.
    InvalidStateTransition {
        /// The agent ID.
        id: AgentId,
        /// Current state name.
        from: &'static str,
        /// Attempted target state name.
        to: &'static str,
    },
    /// Work queue is full (backpressure).
    QueueFull {
        /// Maximum queue capacity.
        capacity: usize,
    },
    /// Work queue is closed and no longer accepting items.
    QueueClosed,
    /// Agent execution timed out.
    Timeout(AgentId),
    /// Agent task returned an error during execution.
    ExecutionFailed {
        /// The agent ID.
        id: AgentId,
        /// Failure reason.
        reason: String,
    },
    /// Consensus could not be reached within the deadline.
    ConsensusTimeout {
        /// How many agents agreed.
        achieved: usize,
        /// How many were required.
        required: usize,
    },
    /// Could not bind the status server to any port in the range.
    NoAvailablePort {
        /// Range start (inclusive).
        start: u16,
        /// Range end (inclusive).
        end: u16,
    },
    /// IO error (filesystem, network), with the message of the underlying error.
    Io(String),
    /// Serialization error, with the message of the underlying error.
    Serialization(String),
    /// Concurrency limit reached.
    ConcurrencyLimit {
        /// Maximum allowed concurrent agents.
        max: usize,
    },
    /// Context directory creation failed.
    ContextCreation {
        /// The agent ID.
        id: AgentId,
        /// Failure reason.
        reason: String,
    },
}

/// Convenience result alias.
pub type OrcResult<T> = Result<T, OrcError>;

/// The human-readable message of an error.
pub open spec fn error_message(e: OrcError) -> Seq<char> {
    match e {
        OrcError::AgentNotFound(id) => "agent not found: "@ + agent_label(id),
        OrcError::GroupNotFound(g) => "task group not found: "@ + group_label(g),
        OrcError::InvalidStateTransition { id, from, to } =>
            "invalid state transition for agent "@ + agent_label(id) + ": cannot move from "@
                + from@ + " to "@ + to@,
        OrcError::QueueFull { capacity } =>
            "queue full: capacity "@ + decimal(capacity as nat) + ", tried to enqueue item"@,
        OrcError::QueueClosed => "queue closed"@,
        OrcError::Timeout(id) => "agent "@ + agent_label(id) + " timed out"@,
        OrcError::ExecutionFailed { id, reason } =>
            "agent "@ + agent_label(id) + " execution failed: "@ + reason@,
        OrcError::ConsensusTimeout { achieved, required } =>
            "consensus timeout: "@ + decimal(achieved as nat) + "/"@ + decimal(required as nat)
                + " agents agreed"@,
        OrcError::NoAvailablePort { start, end } =>
            "no available port in range "@ + decimal(start as nat) + "..="@ + decimal(end as nat),
        OrcError::Io(m) => "io error: "@ + m@,
        OrcError::Serialization(m) => "serialization error: "@ + m@,
        OrcError::ConcurrencyLimit { max } =>
            "concurrency limit reached: max "@ + decimal(max as nat) + " agents"@,
        OrcError::ContextCreation { id, reason } =>
            "context creation failed for agent "@ + agent_label(id) + ": "@ + reason@,
    }
}

impl OrcError {
    /// The human-readable message of this error.
    pub fn message(&self) -> (m: String)
        ensures
            m@ == error_message(*self),
    {
        let mut s = string_of("");
        match self {
            OrcError::AgentNotFound(id) => {
                s.append("agent not found: ");
                push_id_label(&mut s, "agent-", id.0);
            },
            OrcError::GroupNotFound(g) => {
                s.append("task group not found: ");
                push_id_label(&mut s, "group-", g.0);
            },
            OrcError::InvalidStateTransition { id, from, to } => {
                s.append("invalid state transition for agent ");
                push_id_label(&mut s, "agent-", id.0);
                s.append(": cannot move from ");
                s.append(from);
                s.append(" to ");
                s.append(to);
            },
            OrcError::QueueFull { capacity } => {
                s.append("queue full: capacity ");
                push_decimal(&mut s, *capacity as u64);
                s.append(", tried to enqueue item");
            },
            OrcError::QueueClosed => {
                s.append("queue closed");
            },
            OrcError::Timeout(id) => {
                s.append("agent ");
                push_id_label(&mut s, "agent-", id.0);
                s.append(" timed out");
            },
            OrcError::ExecutionFailed { id, reason } => {
                s.append("agent ");
                push_id_label(&mut s, "agent-", id.0);
                s.append(" execution failed: ");
                s.append(reason.as_str());
            },
            OrcError::ConsensusTimeout { achieved, required } => {
                s.append("consensus timeout: ");
                push_decimal(&mut s, *achieved as u64);
                s.append("/");
                push_decimal(&mut s, *required as u64);
                s.append(" agents agreed");
            },
            OrcError::NoAvailablePort { start, end } => {
                s.append("no available port in range ");
                push_decimal(&mut s, *start as u64);
                s.append("..=");
                push_decimal(&mut s, *end as u64);
            },
            OrcError::Io(m) => {
                s.append("io error: ");
                s.append(m.as_str());
            },
            OrcError::Serialization(m) => {
                s.append("serialization error: ");
                s.append(m.as_str());
            },
            OrcError::ConcurrencyLimit { max } => {
                s.append("concurrency limit reached: max ");
                push_decimal(&mut s, *max as u64);
                s.append(" agents");
            },
            OrcError::ContextCreation { id, reason } => {
                s.append("context creation failed for agent ");
                push_id_label(&mut s, "agent-", id.0);
                s.append(": ");
                s.append(reason.as_str());
            },
        }
        proof {
            reveal_strlit("");
        }
        assert(s@ =~= error_message(*self));
        s
    }
}

} // verus!
