use orchestration::agent::{AgentRecord, AgentState};
use orchestration::agent::context::hash_id;
use orchestration::types::{AgentId, Priority, TaskGroupId};

#[test]
fn agent_state_terminal() {
    assert!(!AgentState::Queued.is_terminal());
    assert!(!AgentState::Acquiring.is_terminal());
    assert!(!AgentState::Executing.is_terminal());
    assert!(!AgentState::Reporting.is_terminal());
    assert!(AgentState::Done.is_terminal());
    assert!(AgentState::Error.is_terminal());
    assert!(AgentState::Cancelled.is_terminal());
}

#[test]
fn agent_record_defaults_to_queued() {
    let record = AgentRecord::new(AgentId::new(), "test-task".to_string(), Priority::Normal, None);
    assert_eq!(record.state, AgentState::Queued);
    assert!(record.result.is_none());
    assert!(record.error.is_none());
}

#[test]
fn agent_state_display() {
    assert_eq!(AgentState::Executing.as_str().to_string(), "executing");
    assert_eq!(AgentState::Done.as_str().to_string(), "done");
}

#[test]
fn agent_record_new_at_stamps_both_times() {
    let g = TaskGroupId::new();
    let r = AgentRecord::new_at(AgentId::from_uuid(7), "x".to_string(), Priority::High, Some(g), 1234);
    assert_eq!(r.created_at, 1234);
    assert_eq!(r.updated_at, 1234);
    assert_eq!(r.group, Some(g));
    assert_eq!(r.priority, Priority::High);
    let c = r.clone();
    assert_eq!(c.name, "x");
    assert_eq!(c.id, r.id);
}

#[test]
fn deterministic_path() {
    let id = AgentId::from_uuid(0);
    let hash1 = hash_id(&id);
    let hash2 = hash_id(&id);
    assert_eq!(hash1, hash2);
    assert_eq!(hash1.len(), 64); // SHA-256 hex = 64 chars
}

#[test]
fn different_agents_get_different_paths() {
    let a = AgentId::new();
    let b = AgentId::new();
    let hash_a = hash_id(&a);
    let hash_b = hash_id(&b);
    assert_ne!(hash_a, hash_b);
}

#[test]
fn context_dir_name_is_sha256_of_uuid_bytes() {
    // SHA-256 of sixteen zero bytes.
    assert_eq!(
        hash_id(&AgentId::from_uuid(0)),
        "374708fff7719dd5979ec875d56cd2286f6d3cf7ec317a3b25632aab28ec37bb"
    );
}

#[test]
fn context_dir_name_hashes_big_endian_bytes() {
    assert_eq!(
        hash_id(&AgentId::from_uuid(0x1234)),
        "b09d42ee64f125a8973acf2e2c8ab80b858d22ff664330df333777d54b523102"
    );
}
