use orchestration::consensus::rules::ConsensusRule;

#[test]
fn min_agree() {
    assert!(ConsensusRule::MinAgree(2).is_satisfied(2, 5));
    assert!(ConsensusRule::MinAgree(2).is_satisfied(3, 5));
    assert!(!ConsensusRule::MinAgree(2).is_satisfied(1, 5));
}

#[test]
fn majority() {
    assert!(ConsensusRule::Majority.is_satisfied(3, 5));
    assert!(ConsensusRule::Majority.is_satisfied(2, 3));
    assert!(!ConsensusRule::Majority.is_satisfied(2, 5));
    assert!(!ConsensusRule::Majority.is_satisfied(1, 2));
}

#[test]
fn unanimous() {
    assert!(ConsensusRule::Unanimous.is_satisfied(5, 5));
    assert!(!ConsensusRule::Unanimous.is_satisfied(4, 5));
}

#[test]
fn any() {
    assert!(ConsensusRule::Any.is_satisfied(1, 10));
    assert!(!ConsensusRule::Any.is_satisfied(0, 10));
}

#[test]
fn quorum() {
    // 60% of 5 = 3 needed
    let q = ConsensusRule::Quorum { numerator: 6, denominator: 10 };
    assert!(q.is_satisfied(3, 5));
    assert!(!q.is_satisfied(2, 5));
}

#[test]
fn zero_total_never_satisfied() {
    assert!(!ConsensusRule::Any.is_satisfied(0, 0));
    assert!(!ConsensusRule::Majority.is_satisfied(0, 0));
    assert!(!ConsensusRule::Unanimous.is_satisfied(0, 0));
}

#[test]
fn quorum_rounds_up_and_rejects_zero_denominator() {
    // 70% of 5 = 3.5, rounded up to 4.
    let q = ConsensusRule::Quorum { numerator: 7, denominator: 10 };
    assert!(!q.is_satisfied(3, 5));
    assert!(q.is_satisfied(4, 5));
    assert!(!ConsensusRule::Quorum { numerator: 0, denominator: 0 }.is_satisfied(5, 5));
    assert!(ConsensusRule::Quorum { numerator: 0, denominator: 1 }.is_satisfied(0, 5));
    let big = ConsensusRule::Quorum { numerator: u64::MAX, denominator: u64::MAX };
    assert!(big.is_satisfied(usize::MAX, usize::MAX));
    assert!(!big.is_satisfied(usize::MAX - 1, usize::MAX));
}

#[test]
fn stricter_rules_imply_weaker_ones() {
    for total in 1..8usize {
        for agree in 0..=total {
            if ConsensusRule::Unanimous.is_satisfied(agree, total) {
                assert!(ConsensusRule::Majority.is_satisfied(agree, total));
            }
            if ConsensusRule::Majority.is_satisfied(agree, total) {
                assert!(ConsensusRule::Any.is_satisfied(agree, total));
            }
        }
    }
}

#[test]
fn more_agreement_never_loses_a_rule() {
    let rules = [
        ConsensusRule::MinAgree(3),
        ConsensusRule::Majority,
        ConsensusRule::Unanimous,
        ConsensusRule::Any,
        ConsensusRule::Quorum { numerator: 2, denominator: 3 },
    ];
    for rule in rules.iter() {
        for total in 0..7usize {
            for a in 0..=total {
                for b in a..=total {
                    if rule.is_satisfied(a, total) {
                        assert!(rule.is_satisfied(b, total));
                    }
                }
            }
        }
    }
}
