use orchestration::agent::registry::AgentRegistry;
use orchestration::agent::{AgentRecord, AgentState};
use orchestration::error::OrcError;
use orchestration::status::routes::{
    filter_agents, filter_by, get_agent, health, list_agents, parse_state, AgentQuery, LookupError,
};
use orchestration::status::{first_port, next_port, PortSearch, StatusServer};
use orchestration::types::{AgentId, Priority, TaskGroupId};

fn setup_registry() -> (AgentRegistry, AgentId, AgentId) {
    let mut reg = AgentRegistry::new();
    let r1 = AgentRecord::new(AgentId::new(), "task-a".to_string(), Priority::Normal, None);
    let r2 = AgentRecord::new(AgentId::new(), "task-b".to_string(), Priority::High, None);
    let id1 = r1.id;
    let id2 = r2.id;
    reg.register(r1).ok();
    reg.register(r2).ok();
    reg.update_state(&id2, AgentState::Done).ok();
    (reg, id1, id2)
}

#[test]
fn base_url_and_port() {
    let s = StatusServer::listening_on(3105);
    assert_eq!(s.port(), 3105);
    assert_eq!(s.base_url(), "http://127.0.0.1:3105");
    assert_eq!(StatusServer::listening_on(0).base_url(), "http://127.0.0.1:0");
    assert_eq!(StatusServer::listening_on(65535).base_url(), "http://127.0.0.1:65535");
}

#[test]
fn port_search_steps() {
    assert!(matches!(first_port(3100, 3199), PortSearch::Try(3100)));
    assert!(matches!(next_port(3100, 3199, 3100, true), PortSearch::Found(3100)));
    assert!(matches!(next_port(3100, 3199, 3100, false), PortSearch::Try(3101)));
    match next_port(3100, 3199, 3199, false) {
        PortSearch::Exhausted(OrcError::NoAvailablePort { start, end }) => {
            assert_eq!((start, end), (3100, 3199));
        }
        other => panic!("unexpected {other:?}"),
    }
    assert!(matches!(first_port(5, 4), PortSearch::Exhausted(_)));
}

#[test]
fn parse_state_names() {
    for st in [
        AgentState::Queued,
        AgentState::Acquiring,
        AgentState::Executing,
        AgentState::Reporting,
        AgentState::Done,
        AgentState::Error,
        AgentState::Cancelled,
    ] {
        assert_eq!(parse_state(st.as_str()), Some(st));
    }
    assert_eq!(parse_state("DONE"), None);
    assert_eq!(parse_state(""), None);
}

#[test]
fn list_with_filters() {
    let (reg, id1, id2) = setup_registry();
    let all = list_agents(&reg, &AgentQuery { state: None, group: None });
    assert_eq!(all.len(), 2);
    let done = list_agents(&reg, &AgentQuery { state: Some("done".to_string()), group: None });
    assert_eq!(done.len(), 1);
    assert_eq!(done[0].id, id2);
    let queued = list_agents(&reg, &AgentQuery { state: Some("queued".to_string()), group: None });
    assert_eq!(queued[0].id, id1);
    let none = list_agents(&reg, &AgentQuery { state: Some("bogus".to_string()), group: None });
    assert!(none.is_empty());
}

#[test]
fn group_filter_ignores_invalid_uuid() {
    let g = TaskGroupId::new();
    let a = AgentRecord::new_at(AgentId::from_uuid(1), "a".to_string(), Priority::Low, Some(g), 0);
    let b = AgentRecord::new_at(AgentId::from_uuid(2), "b".to_string(), Priority::Low, None, 0);
    let agents = vec![a, b];
    let gtext = uuid::Uuid::from_u128(g.0).to_string();
    let kept = filter_agents(agents.clone(), &AgentQuery { state: None, group: Some(gtext) });
    assert_eq!(kept.len(), 1);
    assert_eq!(kept[0].name, "a");
    let kept = filter_agents(agents, &AgentQuery { state: None, group: Some("zzz".to_string()) });
    assert_eq!(kept.len(), 2);
}

#[test]
fn get_agent_lookup() {
    let (reg, id1, _) = setup_registry();
    let text = uuid::Uuid::from_u128(id1.0).to_string();
    assert_eq!(get_agent(&reg, &text).map(|r| r.name), Ok("task-a".to_string()));
    assert!(matches!(get_agent(&reg, "nope"), Err(LookupError::BadRequest)));
    let other = uuid::Uuid::from_u128(12345).to_string();
    assert!(matches!(get_agent(&reg, &other), Err(LookupError::NotFound)));
}

#[test]
fn health_summary() {
    let (reg, _, _) = setup_registry();
    let h = health(&reg);
    assert_eq!(h.status, "ok");
    assert_eq!(h.agents_total, 2);
    assert_eq!(h.agents_by_state, vec![(AgentState::Queued, 1), (AgentState::Done, 1)]);
}

#[test]
fn filter_by_state_name_and_group_value() {
    let g = TaskGroupId(0x11);
    let mut a = AgentRecord::new_at(AgentId::from_uuid(1), "a".to_string(), Priority::Low, Some(g), 0);
    a.state = AgentState::Done;
    let b = AgentRecord::new_at(AgentId::from_uuid(2), "b".to_string(), Priority::Low, Some(g), 0);
    let c = AgentRecord::new_at(AgentId::from_uuid(3), "c".to_string(), Priority::Low, None, 0);
    let all = vec![a.clone(), b.clone(), c.clone()];
    let ids = |v: Vec<AgentRecord>| v.iter().map(|r| r.id.0).collect::<Vec<_>>();
    assert_eq!(ids(filter_by(all.clone(), &None, None)), vec![1, 2, 3]);
    assert_eq!(ids(filter_by(all.clone(), &Some("queued".to_string()), None)), vec![2, 3]);
    assert_eq!(ids(filter_by(all.clone(), &None, Some(0x11))), vec![1, 2]);
    assert_eq!(ids(filter_by(all.clone(), &Some("done".to_string()), Some(0x11))), vec![1]);
    assert_eq!(ids(filter_by(all.clone(), &Some("Done".to_string()), None)), Vec::<u128>::new());
    assert_eq!(ids(filter_by(all, &None, Some(0x12))), Vec::<u128>::new());
}
