use orchestration::types::{AgentId, Priority, TaskGroupId};

#[test]
fn agent_id_display_truncates() {
    let id = AgentId::new();
    let display = id.to_display();
    assert!(display.starts_with("agent-"));
    assert_eq!(display.len(), 14); // "agent-" + 8 hex chars
}

#[test]
fn task_group_id_display_truncates() {
    let id = TaskGroupId::new();
    let display = id.to_display();
    assert!(display.starts_with("group-"));
    assert_eq!(display.len(), 14);
}

#[test]
fn priority_ordering() {
    assert!(Priority::Critical > Priority::High);
    assert!(Priority::High > Priority::Normal);
    assert!(Priority::Normal > Priority::Low);
}

#[test]
fn priority_default_is_normal() {
    assert_eq!(Priority::default(), Priority::Normal);
}

#[test]
fn agent_id_equality() {
    let uuid = uuid::Uuid::new_v4().as_u128();
    let a = AgentId::from_uuid(uuid);
    let b = AgentId::from_uuid(uuid);
    assert_eq!(a, b);
}

#[test]
fn agent_id_display_shows_first_uuid_digits() {
    let id = AgentId::from_uuid(0x1234_abcd_0000_4000_8000_0000_0000_00ffu128);
    assert_eq!(id.to_display(), "agent-1234abcd");
    let g = TaskGroupId(0x00ff_0001_0000_4000_8000_0000_0000_0000u128);
    assert_eq!(g.to_display(), "group-00ff0001");
    assert_eq!(AgentId::from_uuid(0).to_display(), "agent-00000000");
}

#[test]
fn display_matches_uuid_text_prefix() {
    let v = uuid::Uuid::new_v4();
    let id = AgentId::from_uuid(v.as_u128());
    assert_eq!(id.to_display(), format!("agent-{}", &v.to_string()[..8]));
}

#[test]
fn priority_weights_and_names() {
    assert_eq!(Priority::Low.weight(), 0);
    assert_eq!(Priority::Normal.weight(), 1);
    assert_eq!(Priority::High.weight(), 2);
    assert_eq!(Priority::Critical.weight(), 3);
    assert_eq!(Priority::Low.as_str(), "low");
    assert_eq!(Priority::Critical.as_str(), "critical");
}

#[test]
fn new_ids_are_distinct() {
    assert_ne!(AgentId::new(), AgentId::new());
    assert_ne!(TaskGroupId::new(), TaskGroupId::new());
}

#[test]
fn new_ids_are_version_4_uuids() {
    for _ in 0..16 {
        let a = AgentId::new().0;
        assert_eq!((a >> 76) & 0xf, 4);
        assert_eq!((a >> 62) & 0x3, 2);
        let g = TaskGroupId::new().0;
        assert_eq!((g >> 76) & 0xf, 4);
        assert_eq!((g >> 62) & 0x3, 2);
    }
}

#[test]
fn priority_compares_by_weight() {
    let all = [Priority::Low, Priority::Normal, Priority::High, Priority::Critical];
    for a in all {
        for b in all {
            assert_eq!(a.partial_cmp(&b), Some(a.weight().cmp(&b.weight())));
            assert_eq!(a.cmp(&b), a.weight().cmp(&b.weight()));
        }
    }
    assert_eq!(Priority::Critical.partial_cmp(&Priority::Low), Some(std::cmp::Ordering::Greater));
    assert_eq!(Priority::Low.max(Priority::High), Priority::High);
}
