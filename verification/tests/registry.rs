use orchestration::agent::registry::AgentRegistry;
use orchestration::agent::{AgentRecord, AgentState};
use orchestration::error::OrcError;
use orchestration::types::{AgentId, Priority, TaskGroupId};

fn make_record(name: &str, group: Option<TaskGroupId>) -> AgentRecord {
    AgentRecord::new(AgentId::new(), name.to_string(), Priority::Normal, group)
}

fn score_json() -> String {
    let mut m = serde_json::Map::new();
    m.insert("score".to_string(), serde_json::Value::from(42));
    serde_json::Value::Object(m).to_string()
}

#[test]
fn register_and_get() {
    let mut reg = AgentRegistry::new();
    let record = make_record("test", None);
    let id = record.id;

    reg.register(record).ok();
    let fetched = reg.get(&id);
    assert!(fetched.is_some());
    assert_eq!(fetched.map(|r| r.name), Some("test".to_string()));
}

#[test]
fn update_state() {
    let mut reg = AgentRegistry::new();
    let record = make_record("task-a", None);
    let id = record.id;
    reg.register(record).ok();

    reg.update_state(&id, AgentState::Executing).ok();
    let fetched = reg.get(&id);
    assert_eq!(fetched.map(|r| r.state), Some(AgentState::Executing));
}

#[test]
fn set_result_and_error() {
    let mut reg = AgentRegistry::new();
    let record = make_record("task-b", None);
    let id = record.id;
    reg.register(record).ok();

    reg.set_result(&id, score_json()).ok();
    let fetched = reg.get(&id);
    assert!(fetched.is_some());
    let parsed = fetched
        .and_then(|r| r.result)
        .and_then(|s| serde_json::from_str::<serde_json::Value>(&s).ok());
    let mut m = serde_json::Map::new();
    m.insert("score".to_string(), serde_json::Value::from(42));
    assert_eq!(parsed, Some(serde_json::Value::Object(m)));
}

#[test]
fn remove_agent() {
    let mut reg = AgentRegistry::new();
    let record = make_record("task-c", None);
    let id = record.id;
    reg.register(record).ok();

    let removed = reg.remove(&id);
    assert!(removed.is_some());
    assert!(reg.get(&id).is_none());
    assert!(reg.is_empty());
}

#[test]
fn group_filtering() {
    let mut reg = AgentRegistry::new();
    let group = TaskGroupId::new();
    let r1 = make_record("in-group", Some(group));
    let r2 = make_record("no-group", None);
    reg.register(r1).ok();
    reg.register(r2).ok();

    let group_agents = reg.get_group(&group);
    assert_eq!(group_agents.len(), 1);
    assert_eq!(group_agents[0].name, "in-group");
}

#[test]
fn by_state_filtering() {
    let mut reg = AgentRegistry::new();
    let r1 = make_record("a", None);
    let r2 = make_record("b", None);
    let id2 = r2.id;
    reg.register(r1).ok();
    reg.register(r2).ok();

    reg.update_state(&id2, AgentState::Done).ok();

    let queued = reg.by_state(AgentState::Queued);
    let done = reg.by_state(AgentState::Done);
    assert_eq!(queued.len(), 1);
    assert_eq!(done.len(), 1);
}

#[test]
fn snapshot_returns_all() {
    let mut reg = AgentRegistry::new();
    for i in 0..5 {
        reg.register(make_record(&format!("task-{i}"), None)).ok();
    }
    assert_eq!(reg.snapshot().len(), 5);
    assert_eq!(reg.len(), 5);
}

#[test]
fn count_by_state_aggregation() {
    let mut reg = AgentRegistry::new();
    let r1 = make_record("a", None);
    let r2 = make_record("b", None);
    let r3 = make_record("c", None);
    let id2 = r2.id;
    let id3 = r3.id;
    reg.register(r1).ok();
    reg.register(r2).ok();
    reg.register(r3).ok();

    reg.update_state(&id2, AgentState::Done).ok();
    reg.update_state(&id3, AgentState::Done).ok();

    let counts = reg.count_by_state();
    assert_eq!(counts.get(AgentState::Queued), 1);
    assert_eq!(counts.get(AgentState::Done), 2);
}

#[test]
fn not_found_error() {
    let mut reg = AgentRegistry::new();
    let fake_id = AgentId::new();
    let result = reg.update_state(&fake_id, AgentState::Done);
    assert!(result.is_err());
}

#[test]
fn register_twice_is_refused_and_keeps_the_first() {
    let mut reg = AgentRegistry::new();
    let id = AgentId::from_uuid(99);
    reg.register(AgentRecord::new_at(id, "first".to_string(), Priority::Low, None, 1)).ok();
    let second = reg.register(AgentRecord::new_at(id, "second".to_string(), Priority::High, None, 2));
    match second {
        Err(OrcError::InvalidStateTransition { id: e, from, to }) => {
            assert_eq!(e, id);
            assert_eq!(from, "exists");
            assert_eq!(to, "register");
        }
        other => panic!("unexpected {other:?}"),
    }
    assert_eq!(reg.get(&id).map(|r| r.name), Some("first".to_string()));
    assert_eq!(reg.len(), 1);
}

#[test]
fn updates_stamp_time_and_keep_other_fields() {
    let mut reg = AgentRegistry::new();
    let id = AgentId::from_uuid(5);
    reg.register(AgentRecord::new_at(id, "t".to_string(), Priority::High, None, 10)).ok();
    reg.update_state_at(&id, AgentState::Executing, 20).ok();
    reg.set_error_at(&id, "boom".to_string(), 30).ok();
    let r = reg.get(&id).unwrap();
    assert_eq!(r.state, AgentState::Executing);
    assert_eq!(r.error.as_deref(), Some("boom"));
    assert_eq!(r.created_at, 10);
    assert_eq!(r.updated_at, 30);
    assert_eq!(r.priority, Priority::High);
    assert_eq!(r.name, "t");
}

#[test]
fn missing_agent_errors_name_the_agent() {
    let mut reg = AgentRegistry::new();
    let id = AgentId::from_uuid(77);
    match reg.set_result(&id, "1".to_string()) {
        Err(OrcError::AgentNotFound(e)) => assert_eq!(e, id),
        other => panic!("unexpected {other:?}"),
    }
    assert!(reg.set_error(&id, "x".to_string()).is_err());
    assert!(reg.remove(&id).is_none());
}

#[test]
fn counts_add_up_to_len() {
    let mut reg = AgentRegistry::new();
    let states = [
        AgentState::Queued,
        AgentState::Error,
        AgentState::Error,
        AgentState::Done,
        AgentState::Cancelled,
        AgentState::Executing,
    ];
    for (i, st) in states.iter().enumerate() {
        let id = AgentId::from_uuid(i as u128 + 1);
        reg.register(AgentRecord::new_at(id, "a".to_string(), Priority::Normal, None, 0)).ok();
        reg.update_state_at(&id, *st, 1).ok();
    }
    let c = reg.count_by_state();
    let all = [
        AgentState::Queued,
        AgentState::Acquiring,
        AgentState::Executing,
        AgentState::Reporting,
        AgentState::Done,
        AgentState::Error,
        AgentState::Cancelled,
    ];
    let sum: usize = all.iter().map(|s| c.get(*s)).sum();
    assert_eq!(sum, reg.len());
    assert_eq!(c.get(AgentState::Error), 2);
    assert_eq!(c.get(AgentState::Acquiring), 0);
}

#[test]
fn terminal_state_is_final() {
    let mut reg = AgentRegistry::new();
    let id = AgentId::from_uuid(7);
    reg.register(AgentRecord::new_at(id, "t".to_string(), Priority::Low, None, 1)).ok();
    assert!(reg.update_state_at(&id, AgentState::Done, 2).is_ok());
    match reg.update_state_at(&id, AgentState::Queued, 3) {
        Err(OrcError::InvalidStateTransition { id: e, from, to }) => {
            assert_eq!(e, id);
            assert_eq!(from, "done");
            assert_eq!(to, "queued");
        }
        other => panic!("unexpected {other:?}"),
    }
    assert!(matches!(reg.update_state(&id, AgentState::Cancelled), Err(OrcError::InvalidStateTransition { .. })));
    let rec = reg.get(&id).unwrap();
    assert_eq!(rec.state, AgentState::Done);
    assert_eq!(rec.updated_at, 2);
    assert!(reg.update_state_at(&id, AgentState::Done, 4).is_ok());
    assert_eq!(reg.get(&id).unwrap().updated_at, 4);
}
