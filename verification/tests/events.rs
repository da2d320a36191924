use orchestration::agent::AgentState;
use orchestration::integration::events::OrcEvent;
use orchestration::types::{AgentId, Priority, TaskGroupId};

#[test]
fn event_type_names() {
    let evt = OrcEvent::AgentSpawned {
        id: AgentId::new(),
        name: "test".to_string(),
        priority: Priority::Normal,
        group: None,
        timestamp: 1_700_000_000_000,
    };
    assert_eq!(evt.event_type(), "orc.agent.spawned");
}

#[test]
fn event_timestamp_extraction() {
    let now = 1_700_000_123_456i64;
    let evt = OrcEvent::QueueSaturation { current: 90, capacity: 100, timestamp: now };
    assert_eq!(evt.timestamp(), now);
}

#[test]
fn every_event_type_name() {
    let id = AgentId::from_uuid(1);
    let cases = vec![
        (OrcEvent::AgentStateChanged { id, from: AgentState::Queued, to: AgentState::Done, timestamp: 1 }, "orc.agent.state_changed", 1),
        (OrcEvent::AgentCompleted { id, result: "1".to_string(), timestamp: 2 }, "orc.agent.completed", 2),
        (OrcEvent::AgentFailed { id, error: "boom".to_string(), timestamp: 3 }, "orc.agent.failed", 3),
        (OrcEvent::AgentCancelled { id, timestamp: 4 }, "orc.agent.cancelled", 4),
        (
            OrcEvent::ConsensusResult { group: TaskGroupId(2), achieved: true, agreement_count: 2, total: 3, timestamp: 5 },
            "orc.consensus.result",
            5,
        ),
        (OrcEvent::QueueSaturation { current: 1, capacity: 2, timestamp: 6 }, "orc.queue.saturation", 6),
    ];
    for (evt, name, t) in cases {
        assert_eq!(evt.event_type(), name);
        assert_eq!(evt.timestamp(), t);
    }
}
