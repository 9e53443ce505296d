//! Conditions that the execution of a proposal waits for.

use vstd::prelude::*;

use crate::env::{Env, EnvModel};
use crate::errors::VaultError;
use crate::oracle::find_price;
use crate::primitives::Address;
use crate::proposals::Outcome;
use crate::types::{
    Condition, ConditionLogic, Observation, Proposal, ProposalModel, VaultPriceData,
};
use crate::VaultDAO;

verus! {

/// Whether conditions are satisfied together.
pub open spec fn combined(logic: ConditionLogic, results: Seq<bool>) -> bool {
    match logic {
        ConditionLogic::And => forall|i: int| 0 <= i < results.len() ==> #[trigger] results[i],
        ConditionLogic::Or => exists|i: int| 0 <= i < results.len() && #[trigger] results[i],
    }
}

impl EnvModel {
    /// What asking for a price within a condition leaves behind: the price, or none where it
    /// cannot be had. A price that is too old fails the condition as a whole.
    pub open spec fn condition_price(self, asset: Address, answer: Option<VaultPriceData>) -> Outcome<
        Option<i128>,
    > {
        let (after, price) = self.asset_price(asset, answer);
        (
            after,
            match price {
                Ok(price) => Ok(Some(price)),
                Err(error) => if error == VaultError::ConditionsNotMet {
                    Err(VaultError::ConditionsNotMet)
                } else {
                    Ok(None)
                },
            },
        )
    }

    /// What testing a condition leaves behind, given what the outside says about it.
    pub open spec fn condition_met(self, condition: Condition, seen: Observation) -> Outcome<bool> {
        match condition {
            Condition::BalanceAbove(least) => (self, Ok(seen.balance > least)),
            Condition::DateAfter(ledger) => (self, Ok(self.now() > ledger)),
            Condition::DateBefore(ledger) => (self, Ok(self.now() < ledger)),
            Condition::PriceAbove(asset, bound) => {
                let (after, price) = self.condition_price(asset, seen.price);
                (
                    after,
                    match price {
                        Ok(Some(price)) => Ok(price >= bound),
                        Ok(None) => Ok(false),
                        Err(error) => Err(error),
                    },
                )
            },
            Condition::PriceBelow(asset, bound) => {
                let (after, price) = self.condition_price(asset, seen.price);
                (
                    after,
                    match price {
                        Ok(Some(price)) => Ok(price <= bound),
                        Ok(None) => Ok(false),
                        Err(error) => Err(error),
                    },
                )
            },
        }
    }

    /// What testing several conditions leaves behind, given what the outside says about each.
    pub open spec fn conditions_met(self, conditions: Seq<Condition>, seen: Seq<Observation>) -> Outcome<
        Seq<bool>,
    >
        decreases conditions.len(),
    {
        if conditions.len() == 0 {
            (self, Ok(Seq::empty()))
        } else {
            let (before, earlier) = self.conditions_met(conditions.drop_last(), seen);
            match earlier {
                Err(error) => (before, Err(error)),
                Ok(results) => {
                    let (after, result) = before.condition_met(
                        conditions.last(),
                        seen[conditions.len() - 1],
                    );
                    match result {
                        Err(error) => (after, Err(error)),
                        Ok(result) => (after, Ok(results.push(result))),
                    }
                },
            }
        }
    }

    /// What evaluating the conditions of a proposal leaves behind.
    pub open spec fn evaluate(self, proposal: ProposalModel, seen: Seq<Observation>) -> Outcome<()> {
        let (after, results) = self.conditions_met(proposal.conditions, seen);
        (
            after,
            match results {
                Err(error) => Err(error),
                Ok(results) => if combined(proposal.condition_logic, results) {
                    Ok(())
                } else {
                    Err(VaultError::ProposalNotApproved)
                },
            },
        )
    }
}

/// Conditions that fail as a whole early on fail as a whole.
proof fn lemma_conditions_fail(
    env: EnvModel,
    conditions: Seq<Condition>,
    seen: Seq<Observation>,
    n: int,
)
    requires
        0 <= n <= conditions.len(),
        env.conditions_met(conditions.take(n), seen).1 is Err,
    ensures
        env.conditions_met(conditions, seen) == env.conditions_met(conditions.take(n), seen),
    decreases conditions.len() - n,
{
    if n == conditions.len() {
        assert(conditions.take(n) =~= conditions);
    } else {
        assert(conditions.take(n + 1).drop_last() =~= conditions.take(n));
        lemma_conditions_fail(env, conditions, seen, n + 1);
    }
}

/// Testing conditions publishes at most something, and changes nothing that is stored.
pub proof fn lemma_conditions_frame(env: EnvModel, conditions: Seq<Condition>, seen: Seq<Observation>)
    ensures
        env.conditions_met(conditions, seen).0 == (EnvModel {
            actions: env.conditions_met(conditions, seen).0.actions,
            ..env
        }),
    decreases conditions.len(),
{
    if conditions.len() > 0 {
        lemma_conditions_frame(env, conditions.drop_last(), seen);
    }
}

/// What testing conditions says depends on the ledger and the oracle alone.
pub(crate) proof fn lemma_conditions_same(
    a: EnvModel,
    b: EnvModel,
    conditions: Seq<Condition>,
    seen: Seq<Observation>,
)
    requires
        a.ledger == b.ledger,
        a.links == b.links,
    ensures
        a.conditions_met(conditions, seen).1 == b.conditions_met(conditions, seen).1,
    decreases conditions.len(),
{
    if conditions.len() > 0 {
        let rest = conditions.drop_last();
        lemma_conditions_same(a, b, rest, seen);
        lemma_conditions_frame(a, rest, seen);
        lemma_conditions_frame(b, rest, seen);
    }
}

/// The price that a condition asks for.
fn condition_price(env: &Env, answer: Option<VaultPriceData>) -> (r: Result<
    Option<i128>,
    VaultError,
>)
    ensures
        forall|asset: Address| r == (#[trigger] env@.condition_price(asset, answer)).1,
{
    match find_price(env, answer) {
        Ok(price) => Ok(Some(price)),
        Err(error) => if error == VaultError::ConditionsNotMet {
            Err(VaultError::ConditionsNotMet)
        } else {
            Ok(None)
        },
    }
}

/// Whether a condition holds, given what the outside says about it.
fn condition_holds(env: &Env, condition: Condition, seen: Observation) -> (r: Result<
    bool,
    VaultError,
>)
    ensures
        r == env@.condition_met(condition, seen).1,
{
    let current_ledger: u64 = env.now();
    match condition {
        Condition::BalanceAbove(least) => Ok(seen.balance > least),
        Condition::DateAfter(ledger) => Ok(current_ledger > ledger),
        Condition::DateBefore(ledger) => Ok(current_ledger < ledger),
        Condition::PriceAbove(_, bound) => match condition_price(env, seen.price) {
            Ok(Some(price)) => Ok(price >= bound),
            Ok(None) => Ok(false),
            Err(error) => Err(error),
        },
        Condition::PriceBelow(_, bound) => match condition_price(env, seen.price) {
            Ok(Some(price)) => Ok(price <= bound),
            Ok(None) => Ok(false),
            Err(error) => Err(error),
        },
    }
}

/// Tests a condition, given what the outside says about it.
fn condition_met(env: &mut Env, condition: Condition, seen: Observation) -> (r: Result<
    bool,
    VaultError,
>)
    ensures
        (final(env)@, r) == old(env)@.condition_met(condition, seen),
{
    match condition {
        Condition::PriceAbove(asset, _) | Condition::PriceBelow(asset, _) => {
            let _ = VaultDAO::get_asset_price(env, asset, seen.price);
        },
        _ => {},
    }
    condition_holds(env, condition, seen)
}

/// Whether the conditions of a proposal are met, given what the outside says about each.
pub(crate) fn conditions_hold(
    env: &Env,
    proposal: &Proposal,
    observations: &Vec<Observation>,
) -> (r: bool)
    requires
        observations@.len() >= proposal.conditions@.len(),
    ensures
        r == (env@.evaluate(proposal@, observations@).1 is Ok),
{
    let conditions = &proposal.conditions;
    let mut results: Vec<bool> = Vec::new();
    let mut i: usize = 0;
    while i < conditions.len()
        invariant
            i <= conditions.len() <= observations.len(),
            env@.conditions_met(conditions@.take(i as int), observations@).1 == Ok::<
                Seq<bool>,
                VaultError,
            >(results@),
            conditions@ == proposal@.conditions,
        decreases conditions.len() - i,
    {
        proof {
            assert(conditions@.take(i + 1).drop_last() =~= conditions@.take(i as int));
            assert(conditions@.take(i + 1).last() == conditions@[i as int]);
            lemma_conditions_frame(env@, conditions@.take(i as int), observations@);
        }
        match condition_holds(env, conditions[i], observations[i]) {
            Ok(satisfied) => results.push(satisfied),
            Err(_) => {
                proof {
                    lemma_conditions_fail(env@, conditions@, observations@, i + 1);
                }
                return false;
            },
        }
        i += 1;
    }
    assert(conditions@.take(conditions@.len() as int) =~= conditions@);
    combine(proposal.condition_logic, &results)
}

/// Whether conditions are satisfied together.
fn combine(logic: ConditionLogic, results: &Vec<bool>) -> (r: bool)
    ensures
        r == combined(logic, results@),
{
    let stop = match logic {
        ConditionLogic::And => false,
        ConditionLogic::Or => true,
    };
    let mut i: usize = 0;
    while i < results.len()
        invariant
            i <= results.len(),
            stop == (logic == ConditionLogic::Or),
            forall|j: int| 0 <= j < i ==> #[trigger] results@[j] == !stop,
        decreases results.len() - i,
    {
        if results[i] == stop {
            assert(results@[i as int] == stop);
            return stop;
        }
        i += 1;
    }
    !stop
}

impl VaultDAO {
    /// Evaluates the conditions of a proposal, given what the outside says about each.
    pub fn evaluate_conditions(env: &mut Env, proposal: &Proposal, observations: &Vec<Observation>) -> (r:
        Result<(), VaultError>)
        requires
            observations@.len() >= proposal.conditions@.len(),
        ensures
            (final(env)@, r) == old(env)@.evaluate(proposal@, observations@),
    {
        let conditions = &proposal.conditions;
        let mut results: Vec<bool> = Vec::new();
        let mut i: usize = 0;
        while i < conditions.len()
            invariant
                i <= conditions.len() <= observations.len(),
                old(env)@.conditions_met(conditions@.take(i as int), observations@) == (
                    env@,
                    Ok::<Seq<bool>, VaultError>(results@),
                ),
                conditions@ == proposal@.conditions,
            decreases conditions.len() - i,
        {
            proof {
                assert(conditions@.take(i + 1).drop_last() =~= conditions@.take(i as int));
                assert(conditions@.take(i + 1).last() == conditions@[i as int]);
            }
            match condition_met(env, conditions[i], observations[i]) {
                Ok(satisfied) => results.push(satisfied),
                Err(error) => {
                    proof {
                        lemma_conditions_fail(old(env)@, conditions@, observations@, i + 1);
                    }
                    return Err(error);
                },
            }
            i += 1;
        }
        assert(conditions@.take(conditions@.len() as int) =~= conditions@);
        if combine(proposal.condition_logic, &results) {
            Ok(())
        } else {
            Err(VaultError::ProposalNotApproved)
        }
    }
}

} // verus!
