use orchestration::error::OrcError;
use orchestration::types::{AgentId, TaskGroupId};

#[test]
fn error_messages() {
    let id = AgentId::from_uuid(0xdeadbeef_u128 << 96);
    let g = TaskGroupId(0x0000_0001_u128 << 96);
    let cases = vec![
        (OrcError::AgentNotFound(id), "agent not found: agent-deadbeef".to_string()),
        (OrcError::GroupNotFound(g), "task group not found: group-00000001".to_string()),
        (
            OrcError::InvalidStateTransition { id, from: "exists", to: "register" },
            "invalid state transition for agent agent-deadbeef: cannot move from exists to register".to_string(),
        ),
        (OrcError::QueueFull { capacity: 16 }, "queue full: capacity 16, tried to enqueue item".to_string()),
        (OrcError::QueueClosed, "queue closed".to_string()),
        (OrcError::Timeout(id), "agent agent-deadbeef timed out".to_string()),
        (
            OrcError::ExecutionFailed { id, reason: "x".to_string() },
            "agent agent-deadbeef execution failed: x".to_string(),
        ),
        (
            OrcError::ConsensusTimeout { achieved: 2, required: 10 },
            "consensus timeout: 2/10 agents agreed".to_string(),
        ),
        (
            OrcError::NoAvailablePort { start: 3100, end: 3199 },
            "no available port in range 3100..=3199".to_string(),
        ),
        (OrcError::Io("denied".to_string()), "io error: denied".to_string()),
        (OrcError::Serialization("eof".to_string()), "serialization error: eof".to_string()),
        (OrcError::ConcurrencyLimit { max: 8 }, "concurrency limit reached: max 8 agents".to_string()),
        (
            OrcError::ContextCreation { id, reason: "r".to_string() },
            "context creation failed for agent agent-deadbeef: r".to_string(),
        ),
    ];
    for (e, m) in cases {
        assert_eq!(e.message(), m);
    }
}
