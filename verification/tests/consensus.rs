use orchestration::agent::{AgentRecord, AgentState};
use orchestration::consensus::rules::ConsensusRule;
use orchestration::consensus::{ConsensusEngine, ConsensusPoll};
use orchestration::error::OrcError;
use orchestration::types::{AgentId, Priority, TaskGroupId};

fn json_str(s: &str) -> String {
    serde_json::Value::from(s).to_string()
}

fn json_num(n: i64) -> String {
    serde_json::Value::from(n).to_string()
}

fn done_agent(group: &TaskGroupId, result: String) -> AgentRecord {
    let mut r = AgentRecord::new(AgentId::new(), "test".to_string(), Priority::Normal, Some(*group));
    r.state = AgentState::Done;
    r.result = Some(result);
    r
}

fn error_agent(group: &TaskGroupId) -> AgentRecord {
    let mut r = AgentRecord::new(AgentId::new(), "test".to_string(), Priority::Normal, Some(*group));
    r.state = AgentState::Error;
    r.error = Some("failed".to_string());
    r
}

fn quorum(fraction_numerator: u64, fraction_denominator: u64) -> ConsensusRule {
    ConsensusRule::Quorum { numerator: fraction_numerator, denominator: fraction_denominator }
}

#[test]
fn unanimous_all_agree() {
    let engine = ConsensusEngine::new();
    let gid = TaskGroupId::new();

    let agents = vec![
        done_agent(&gid, json_str("yes")),
        done_agent(&gid, json_str("yes")),
        done_agent(&gid, json_str("yes")),
    ];

    let result = engine.evaluate(&agents, &ConsensusRule::Unanimous);
    assert!(result.achieved);
    assert_eq!(result.agreement_count, 3);
    assert_eq!(result.winning_value, Some(json_str("yes")));
}

#[test]
fn unanimous_one_dissents() {
    let engine = ConsensusEngine::new();
    let gid = TaskGroupId::new();

    let agents = vec![
        done_agent(&gid, json_str("yes")),
        done_agent(&gid, json_str("yes")),
        done_agent(&gid, json_str("no")),
    ];

    let result = engine.evaluate(&agents, &ConsensusRule::Unanimous);
    assert!(!result.achieved);
}

#[test]
fn majority_achieved() {
    let engine = ConsensusEngine::new();
    let gid = TaskGroupId::new();

    let agents = vec![
        done_agent(&gid, json_num(42)),
        done_agent(&gid, json_num(42)),
        done_agent(&gid, json_num(99)),
    ];

    let result = engine.evaluate(&agents, &ConsensusRule::Majority);
    assert!(result.achieved);
    assert_eq!(result.agreement_count, 2);
}

#[test]
fn any_rule() {
    let engine = ConsensusEngine::new();
    let gid = TaskGroupId::new();

    let agents = vec![done_agent(&gid, json_str("a")), error_agent(&gid), error_agent(&gid)];

    let result = engine.evaluate(&agents, &ConsensusRule::Any);
    assert!(result.achieved);
}

#[test]
fn min_agree_rule() {
    let engine = ConsensusEngine::new();
    let gid = TaskGroupId::new();

    let agents = vec![
        done_agent(&gid, json_str("x")),
        done_agent(&gid, json_str("x")),
        done_agent(&gid, json_str("y")),
        done_agent(&gid, json_str("z")),
    ];

    let result = engine.evaluate(&agents, &ConsensusRule::MinAgree(2));
    assert!(result.achieved);

    let result = engine.evaluate(&agents, &ConsensusRule::MinAgree(3));
    assert!(!result.achieved);
}

#[test]
fn quorum_rule() {
    let engine = ConsensusEngine::new();
    let gid = TaskGroupId::new();

    let agents = vec![
        done_agent(&gid, json_str("v")),
        done_agent(&gid, json_str("v")),
        done_agent(&gid, json_str("v")),
        done_agent(&gid, json_str("other")),
        error_agent(&gid),
    ];

    // 3/5 = 60% agree, need 60%
    let result = engine.evaluate(&agents, &quorum(6, 10));
    assert!(result.achieved);

    // 3/5 = 60% agree, need 70%
    let result = engine.evaluate(&agents, &quorum(7, 10));
    assert!(!result.achieved);
}

#[test]
fn tie_goes_to_first_seen_value_and_dissenters_listed() {
    let engine = ConsensusEngine::new();
    let gid = TaskGroupId::new();
    let a = done_agent(&gid, json_str("b"));
    let b = done_agent(&gid, json_str("a"));
    let c = done_agent(&gid, json_str("a"));
    let d = done_agent(&gid, json_str("b"));
    let e = error_agent(&gid);
    let ids = [a.id, b.id, c.id, d.id, e.id];
    let agents = vec![a, b, c, d, e];
    let result = engine.evaluate(&agents, &ConsensusRule::Majority);
    assert_eq!(result.winning_value, Some(json_str("b")));
    assert_eq!(result.agreement_count, 2);
    assert_eq!(result.total_participants, 4);
    assert_eq!(result.dissenting, vec![ids[1], ids[2], ids[4]]);
    assert!(!result.achieved);
}

#[test]
fn no_participants_means_no_winner() {
    let engine = ConsensusEngine::new();
    let gid = TaskGroupId::new();
    let mut running = AgentRecord::new(AgentId::new(), "r".to_string(), Priority::Low, Some(gid));
    running.state = AgentState::Executing;
    let agents = vec![error_agent(&gid), running];
    let result = engine.evaluate(&agents, &ConsensusRule::Any);
    assert_eq!(result.winning_value, None);
    assert_eq!(result.agreement_count, 0);
    assert_eq!(result.total_participants, 0);
    assert_eq!(result.dissenting.len(), 2);
    assert!(!result.achieved);
}

#[test]
fn done_without_result_does_not_participate() {
    let engine = ConsensusEngine::new();
    let gid = TaskGroupId::new();
    let mut empty = AgentRecord::new(AgentId::new(), "e".to_string(), Priority::Low, Some(gid));
    empty.state = AgentState::Done;
    let agents = vec![empty, done_agent(&gid, json_num(1))];
    let result = engine.evaluate(&agents, &ConsensusRule::Unanimous);
    assert_eq!(result.total_participants, 1);
    assert_eq!(result.agreement_count, 1);
    assert!(!result.achieved);
}

#[test]
fn poll_decides_by_group_state_and_deadline() {
    let engine = ConsensusEngine::new();
    let gid = TaskGroupId::new();
    match engine.poll(&gid, &[], &ConsensusRule::Any, false) {
        ConsensusPoll::Decided(Err(OrcError::GroupNotFound(g))) => assert_eq!(g, gid),
        other => panic!("unexpected {other:?}"),
    }
    let mut running = AgentRecord::new(AgentId::new(), "r".to_string(), Priority::Low, Some(gid));
    running.state = AgentState::Executing;
    let agents = vec![done_agent(&gid, json_str("x")), running];
    assert!(matches!(engine.poll(&gid, &agents, &ConsensusRule::Unanimous, false), ConsensusPoll::Pending));
    match engine.poll(&gid, &agents, &ConsensusRule::Unanimous, true) {
        ConsensusPoll::Decided(Err(OrcError::ConsensusTimeout { achieved, required })) => {
            assert_eq!(achieved, 1);
            assert_eq!(required, 2);
        }
        other => panic!("unexpected {other:?}"),
    }
    let mut late = AgentRecord::new(AgentId::new(), "l".to_string(), Priority::Low, Some(gid));
    late.state = AgentState::Executing;
    let four = vec![done_agent(&gid, json_str("x")), done_agent(&gid, json_str("y")), done_agent(&gid, json_str("x")), late];
    match engine.poll(&gid, &four, &ConsensusRule::MinAgree(3), true) {
        ConsensusPoll::Decided(Err(OrcError::ConsensusTimeout { achieved, required })) => {
            assert_eq!(achieved, 2);
            assert_eq!(required, 3);
        }
        other => panic!("unexpected {other:?}"),
    }
    match engine.poll(&gid, &four, &quorum(7, 10), true) {
        ConsensusPoll::Decided(Err(OrcError::ConsensusTimeout { achieved, required })) => {
            assert_eq!(achieved, 2);
            assert_eq!(required, 3);
        }
        other => panic!("unexpected {other:?}"),
    }
    match engine.poll(&gid, &agents, &ConsensusRule::Any, true) {
        ConsensusPoll::Decided(Ok(r)) => assert!(r.achieved),
        other => panic!("unexpected {other:?}"),
    }
    let finished = vec![done_agent(&gid, json_str("x")), error_agent(&gid)];
    match engine.poll(&gid, &finished, &ConsensusRule::Unanimous, false) {
        ConsensusPoll::Decided(Ok(r)) => assert!(!r.achieved),
        other => panic!("unexpected {other:?}"),
    }
}

#[test]
fn evaluation_is_deterministic() {
    let engine = ConsensusEngine::new();
    let gid = TaskGroupId::new();
    let agents = vec![
        done_agent(&gid, json_num(1)),
        done_agent(&gid, json_num(2)),
        error_agent(&gid),
        done_agent(&gid, json_num(2)),
    ];
    let r1 = engine.evaluate(&agents, &ConsensusRule::Majority);
    let r2 = engine.evaluate(&agents, &ConsensusRule::Majority);
    assert_eq!(r1.winning_value, r2.winning_value);
    assert_eq!(r1.winning_value, Some(json_num(2)));
    assert_eq!(r1.agreement_count, r2.agreement_count);
    assert_eq!(r1.dissenting, r2.dissenting);
    assert_eq!(r1.dissenting, vec![agents[0].id, agents[2].id]);
    assert!(!r1.achieved);
    assert!(r1.agreement_count <= r1.total_participants && r1.total_participants <= agents.len());
}

#[test]
fn required_agreement_per_rule() {
    assert_eq!(ConsensusRule::MinAgree(3).required(4), 3);
    assert_eq!(ConsensusRule::Majority.required(4), 3);
    assert_eq!(ConsensusRule::Majority.required(5), 3);
    assert_eq!(ConsensusRule::Unanimous.required(4), 4);
    assert_eq!(ConsensusRule::Any.required(4), 1);
    assert_eq!(quorum(6, 10).required(5), 3);
    assert_eq!(quorum(1, 5).required(5), 1);
    assert_eq!(quorum(7, 10).required(4), 3);
    assert_eq!(quorum(1, 0).required(4), 5);
    assert_eq!(quorum(1, 0).required(usize::MAX), usize::MAX);
    for total in 1..8usize {
        for rule in [ConsensusRule::MinAgree(2), ConsensusRule::Majority, ConsensusRule::Unanimous, ConsensusRule::Any, quorum(2, 3)] {
            let need = rule.required(total);
            for a in 0..=total {
                assert_eq!(rule.is_satisfied(a, total), a >= need);
            }
        }
    }
}
