//! Consensus rule definitions.

use vstd::prelude::*;

verus! {

/// Rule for evaluating whether consensus has been achieved.
#[derive(Debug, Clone, Copy)]
pub enum ConsensusRule {
    /// At least N agents must agree on the same value.
    MinAgree(usize),
    /// More than half of all agents must agree.
    Majority,
    /// All agents must agree on the same value.
    Unanimous,
    /// At least one agent must produce a result.
    Any,
    /// A fraction `numerator / denominator` (between 0 and 1) of all agents must
    /// agree: at least the fraction of the total, rounded up. A zero
    /// denominator names no fraction and is never satisfied.
    Quorum {
        /// Numerator of the fraction.
        numerator: u64,
        /// Denominator of the fraction.
        denominator: u64,
    },
}

/// Whether `rule` holds when `agreement` of `total` agents agree.
pub open spec fn rule_satisfied(rule: ConsensusRule, agreement: nat, total: nat) -> bool {
    if total == 0 {
        false
    } else {
        match rule {
            ConsensusRule::MinAgree(n) => agreement >= n,
            ConsensusRule::Majority => agreement > total / 2,
            ConsensusRule::Unanimous => agreement == total,
            ConsensusRule::Any => agreement >= 1,
            ConsensusRule::Quorum { numerator, denominator } => denominator > 0 && agreement
                * denominator >= numerator * total,
        }
    }
}

/// How many agreeing agents `rule` needs out of `total`: the least agreement
/// that satisfies it (more than `total` where none does).
pub open spec fn rule_need(rule: ConsensusRule, total: nat) -> nat {
    match rule {
        ConsensusRule::MinAgree(n) => n as nat,
        ConsensusRule::Majority => total / 2 + 1,
        ConsensusRule::Unanimous => total,
        ConsensusRule::Any => 1,
        ConsensusRule::Quorum { numerator, denominator } => if denominator > 0 {
            ((numerator * total + denominator - 1) / (denominator as int)) as nat
        } else {
            total + 1
        },
    }
}

/// `rule_need`, as a machine count: at most `usize::MAX`.
pub open spec fn capped_need(rule: ConsensusRule, total: nat) -> usize {
    if rule_need(rule, total) <= usize::MAX {
        rule_need(rule, total) as usize
    } else {
        usize::MAX
    }
}

impl ConsensusRule {
    /// Check if the rule is satisfied given agreement count and total agents.
    pub fn is_satisfied(&self, agreement_count: usize, total: usize) -> (b: bool)
        ensures
            b == rule_satisfied(*self, agreement_count as nat, total as nat),
            total == 0 ==> !b,
            *self matches ConsensusRule::MinAgree(n) ==> (b <==> total > 0 && agreement_count >= n),
            *self is Majority ==> (b <==> total > 0 && 2 * agreement_count > total),
            *self is Unanimous ==> (b <==> total > 0 && agreement_count == total),
            *self is Any ==> (b <==> total > 0 && agreement_count >= 1),
            *self matches ConsensusRule::Quorum { numerator, denominator } ==> (b <==> total > 0
                && denominator > 0 && agreement_count * denominator >= numerator * total),
    {
        if total == 0 {
            return false;
        }
        match self {
            ConsensusRule::MinAgree(n) => agreement_count >= *n,
            ConsensusRule::Majority => agreement_count > total / 2,
            ConsensusRule::Unanimous => agreement_count == total,
            ConsensusRule::Any => agreement_count >= 1,
            ConsensusRule::Quorum { numerator, denominator } => {
                if *denominator == 0 {
                    false
                } else {
                    let a: u128 = agreement_count as u128;
                    let d: u128 = *denominator as u128;
                    let n: u128 = *numerator as u128;
                    let t: u128 = total as u128;
                    proof {
                        lemma_wide_product(a, d);
                        lemma_wide_product(n, t);
                    }
                    a * d >= n * t
                }
            },
        }
    }
}

impl ConsensusRule {
    /// How many agreeing agents the rule needs out of `total` (at most
    /// `usize::MAX`).
    pub fn required(&self, total: usize) -> (n: usize)
        ensures
            n == capped_need(*self, total as nat),
            *self matches ConsensusRule::MinAgree(k) ==> n == k,
            *self is Majority ==> n == total / 2 + 1,
            *self is Unanimous ==> n == total,
            *self is Any ==> n == 1,
            *self matches ConsensusRule::Quorum { numerator, denominator } ==> (denominator > 0 && numerator
                <= denominator ==> n * denominator >= numerator * total && (n == 0 || (n - 1)
                * denominator < numerator * total)),
    {
        match self {
            ConsensusRule::MinAgree(n) => *n,
            ConsensusRule::Majority => total / 2 + 1,
            ConsensusRule::Unanimous => total,
            ConsensusRule::Any => 1,
            ConsensusRule::Quorum { numerator, denominator } => {
                if *denominator == 0 {
                    if total == usize::MAX {
                        usize::MAX
                    } else {
                        total + 1
                    }
                } else {
                    let d: u128 = *denominator as u128;
                    let n: u128 = *numerator as u128;
                    let t: u128 = total as u128;
                    proof {
                        lemma_wide_product(n, t);
                    }
                    let q: u128 = (n * t + (d - 1)) / d;
                    proof {
                        let x = n * t;
                        assert(q == (x + d - 1) / (d as int));
                        lemma_quorum_is_ceiling(q as int, t as int, n as int, d as int);
                        if q > 0 {
                            lemma_quorum_is_ceiling(q as int - 1, t as int, n as int, d as int);
                        }
                        if n <= d {
                            assert(n * t <= d * t) by (nonlinear_arith)
                                requires n <= d;
                            assert(t * d == d * t) by (nonlinear_arith);
                            lemma_quorum_is_ceiling(t as int, t as int, n as int, d as int);
                        }
                    }
                    if q > usize::MAX as u128 {
                        usize::MAX
                    } else {
                        q as usize
                    }
                }
            },
        }
    }
}

/// Two values below 2^64 multiply without overflowing 128 bits.
pub(crate) proof fn lemma_wide_product(a: u128, b: u128)
    requires
        a <= 0xffff_ffff_ffff_ffff,
        b <= 0xffff_ffff_ffff_ffff,
    ensures
        a * b <= 0xffff_ffff_ffff_fffe_0000_0000_0000_0001,
{
    assert(a * b <= 0xffff_ffff_ffff_ffff * 0xffff_ffff_ffff_ffff) by (nonlinear_arith)
        requires
            a <= 0xffff_ffff_ffff_ffff,
            b <= 0xffff_ffff_ffff_ffff,
    ;
}

/// The quorum rule asks for at least the fraction of the total rounded up:
/// `agreement * d >= n * total` exactly when `agreement` reaches
/// `ceil(n * total / d)`.
pub proof fn lemma_quorum_is_ceiling(agreement: int, total: int, n: int, d: int)
    requires
        d > 0,
        agreement >= 0,
        total >= 0,
        n >= 0,
    ensures
        (agreement * d >= n * total) <==> (agreement >= (n * total + d - 1) / d),
{
    let x = n * total;
    let q = (x + d - 1) / d;
    let r = (x + d - 1) % d;
    vstd::arithmetic::div_mod::lemma_fundamental_div_mod(x + d - 1, d);
    assert(x + d - 1 == d * q + r);
    vstd::arithmetic::div_mod::lemma_mod_bound(x + d - 1, d);
    assert(0 <= r < d);
    if agreement * d >= x {
        if agreement < q {
            assert((agreement + 1) * d <= q * d) by (nonlinear_arith)
                requires agreement + 1 <= q, d > 0;
            assert((agreement + 1) * d == agreement * d + d) by (nonlinear_arith);
            assert(q * d == d * q) by (nonlinear_arith);
        }
    }
    if agreement >= q {
        assert(agreement * d >= q * d) by (nonlinear_arith)
            requires agreement >= q, d > 0;
        assert(q * d == d * q) by (nonlinear_arith);
    }
}

} // verus!

verus! {

/// A rule holds exactly when the agreement reaches what it needs: for any
/// agreement within a non-empty group, `rule_satisfied` is `agreement >=
/// rule_need`.
pub proof fn lemma_need_is_threshold(rule: ConsensusRule, agreement: nat, total: nat)
    requires
        0 < total,
        agreement <= total,
    ensures
        rule_satisfied(rule, agreement, total) <==> agreement >= rule_need(rule, total),
{
    if let ConsensusRule::Quorum { numerator, denominator } = rule {
        if denominator > 0 {
            lemma_quorum_is_ceiling(agreement as int, total as int, numerator as int, denominator as int);
        }
    }
}

/// "At least n agents must agree": `MinAgree(n)` holds only where n or more
/// agree, and always needs exactly n, whatever the group size (a group
/// smaller than n can never reach it).
pub proof fn lemma_min_agree_means_at_least_n(n: usize, agreement: nat, total: nat)
    ensures
        rule_satisfied(ConsensusRule::MinAgree(n), agreement, total) ==> agreement >= n,
        rule_satisfied(ConsensusRule::MinAgree(n), agreement, total) <==> (total > 0 && agreement >= n),
        rule_need(ConsensusRule::MinAgree(n), total) == n,
        total < n ==> !rule_satisfied(ConsensusRule::MinAgree(n), total, total),
{
}

/// What each fixed rule asks, in plain arithmetic: a majority is more than
/// half, unanimity is everyone, "any" is one agent; each needs a non-empty
/// group.
pub proof fn lemma_rules_in_arithmetic(agreement: nat, total: nat)
    ensures
        rule_satisfied(ConsensusRule::Majority, agreement, total) <==> (total > 0 && 2 * agreement > total),
        rule_satisfied(ConsensusRule::Unanimous, agreement, total) <==> (total > 0 && agreement == total),
        rule_satisfied(ConsensusRule::Any, agreement, total) <==> (total > 0 && agreement >= 1),
        rule_need(ConsensusRule::Majority, total) > total / 2,
        2 * (rule_need(ConsensusRule::Majority, total) - 1) <= total,
        rule_need(ConsensusRule::Unanimous, total) == total,
        rule_need(ConsensusRule::Any, total) == 1,
{
}

/// With no agents, no rule is satisfied.
pub proof fn lemma_zero_total_never_satisfied(rule: ConsensusRule, agreement: nat)
    ensures
        !rule_satisfied(rule, agreement, 0),
{
}

/// More agreement never loses a rule that less agreement satisfied.
pub proof fn lemma_satisfaction_monotone(rule: ConsensusRule, a: nat, b: nat, total: nat)
    requires
        rule_satisfied(rule, a, total),
        a <= b,
        b <= total,
    ensures
        rule_satisfied(rule, b, total),
{
    if let ConsensusRule::Quorum { numerator, denominator } = rule {
        assert(b * denominator >= a * denominator) by (nonlinear_arith)
            requires a <= b;
    }
}

/// Among the fixed rules, unanimity is the strictest and "any" the weakest:
/// a unanimous group has a majority, and a majority has at least one result.
pub proof fn lemma_unanimous_majority_any(agreement: nat, total: nat)
    ensures
        rule_satisfied(ConsensusRule::Unanimous, agreement, total) ==> rule_satisfied(
            ConsensusRule::Majority,
            agreement,
            total,
        ),
        rule_satisfied(ConsensusRule::Majority, agreement, total) ==> rule_satisfied(
            ConsensusRule::Any,
            agreement,
            total,
        ),
{
}

} // verus!
