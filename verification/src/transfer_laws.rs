//! What holds of executions: what they demand, what they pay to whom, and what they cost.

use vstd::prelude::*;

use crate::books::{kept, least, ledger_of, moved, movements};
use crate::decision_laws::{approvals_suffice, percentages_valid, votes_suffice};
use crate::env::{Action, EnvModel};
use crate::errors::VaultError;
use crate::primitives::{Address, VolumeKey};
use crate::types::{
    Condition, ConditionLogic, ConfigModel, ExecutionAnswersModel, FeeTier, Observation,
    ProposalModel, ProposalStatus, StakeRecord, VotingStrategy,
};

verus! {

broadcast use crate::books::lemma_movements_push;

/// Whether the answer of the oracle for a condition is too old.
pub open spec fn is_stale(env: EnvModel, condition: Condition, seen: Observation) -> bool {
    &&& condition is PriceAbove || condition is PriceBelow
    &&& env.links.oracle_config is Some
    &&& seen.price is Some
    &&& ledger_of(env) - seen.price->0.timestamp > env.links.oracle_config->0.max_staleness
}

/// Whether a condition holds, given what the outside says about it.
pub open spec fn holds(env: EnvModel, condition: Condition, seen: Observation) -> bool {
    let priced = env.links.oracle_config is Some && seen.price is Some;
    match condition {
        Condition::BalanceAbove(least) => seen.balance > least,
        Condition::DateAfter(ledger) => ledger_of(env) > ledger,
        Condition::DateBefore(ledger) => ledger_of(env) < ledger,
        Condition::PriceAbove(_, bound) => priced && seen.price->0.price >= bound,
        Condition::PriceBelow(_, bound) => priced && seen.price->0.price <= bound,
    }
}

/// Whether the conditions of a proposal let it be executed: no price is too old, and all of them
/// hold, or one of them where one is enough.
pub open spec fn conditions_allow(
    env: EnvModel,
    conditions: Seq<Condition>,
    logic: ConditionLogic,
    seen: Seq<Observation>,
) -> bool {
    &&& forall|i: int|
        0 <= i < conditions.len() ==> !is_stale(env, #[trigger] conditions[i], seen[i])
    &&& logic == ConditionLogic::And ==> forall|i: int|
        0 <= i < conditions.len() ==> holds(env, #[trigger] conditions[i], seen[i])
    &&& logic == ConditionLogic::Or ==> exists|i: int|
        0 <= i < conditions.len() && holds(env, #[trigger] conditions[i], seen[i])
}

/// One condition at a time.
proof fn lemma_conditions_tested(env: EnvModel, conditions: Seq<Condition>, seen: Seq<Observation>)
    ensures
        movements(env.conditions_met(conditions, seen).0.actions) == movements(env.actions),
        match env.conditions_met(conditions, seen).1 {
            Ok(results) => {
                &&& results.len() == conditions.len()
                &&& forall|i: int|
                    0 <= i < conditions.len() ==> !is_stale(env, #[trigger] conditions[i], seen[i])
                &&& forall|i: int|
                    0 <= i < conditions.len() ==> #[trigger] results[i] == holds(
                        env,
                        conditions[i],
                        seen[i],
                    )
            },
            Err(_) => exists|i: int|
                0 <= i < conditions.len() && is_stale(env, #[trigger] conditions[i], seen[i]),
        },
    decreases conditions.len(),
{
    if conditions.len() > 0 {
        let rest = conditions.drop_last();
        let last = conditions.len() - 1;
        lemma_conditions_tested(env, rest, seen);
        crate::conditions::lemma_conditions_frame(env, rest, seen);
        assert forall|i: int| 0 <= i < rest.len() implies rest[i] == conditions[i] by {}
        assert(conditions[last] == conditions.last());
        match env.conditions_met(rest, seen).1 {
            Ok(before) => {
                match env.conditions_met(conditions, seen).1 {
                    Ok(results) => {
                        assert(!is_stale(env, conditions[last], seen[last]));
                        assert forall|i: int| 0 <= i < conditions.len() implies !is_stale(
                            env,
                            #[trigger] conditions[i],
                            seen[i],
                        ) by {
                            if i < last {
                                assert(!is_stale(env, rest[i], seen[i]));
                            }
                        }
                        assert forall|i: int| 0 <= i < conditions.len() implies #[trigger] results[i]
                            == holds(env, conditions[i], seen[i]) by {
                            if i < last {
                                assert(results[i] == before[i]);
                            }
                        }
                    },
                    Err(_) => {
                        assert(is_stale(env, conditions[last], seen[last]));
                    },
                }
            },
            Err(_) => {
                let i = choose|i: int|
                    0 <= i < rest.len() && is_stale(env, #[trigger] rest[i], seen[i]);
                assert(is_stale(env, conditions[i], seen[i]));
            },
        }
    }
}

/// The conditions of a proposal are met exactly when no price that they ask for is too old, and
/// all of them hold, or one of them where one is enough. A stale price fails them as a whole;
/// testing them moves nothing and changes nothing that is stored.
pub proof fn law_conditions_are_tested(
    env: EnvModel,
    proposal: ProposalModel,
    seen: Seq<Observation>,
)
    ensures
        ({
            let (after, r) = env.evaluate(proposal, seen);
            let stale = exists|i: int|
                0 <= i < proposal.conditions.len() && is_stale(
                    env,
                    #[trigger] proposal.conditions[i],
                    seen[i],
                );
            &&& r is Ok <==> conditions_allow(
                env,
                proposal.conditions,
                proposal.condition_logic,
                seen,
            )
            &&& stale ==> r == Err::<(), _>(VaultError::ConditionsNotMet)
            &&& r is Err && !stale ==> r == Err::<(), _>(VaultError::ProposalNotApproved)
            &&& after == (EnvModel { actions: after.actions, ..env })
            &&& moved(env, after, seq![])
        }),
{
    let conditions = proposal.conditions;
    lemma_conditions_tested(env, conditions, seen);
    lemma_stale_error(env, conditions, seen);
    crate::conditions::lemma_conditions_frame(env, conditions, seen);
    if let Ok(results) = env.conditions_met(conditions, seen).1 {
        if proposal.condition_logic == ConditionLogic::Or {
            if crate::conditions::combined(proposal.condition_logic, results) {
                let i = choose|i: int| 0 <= i < results.len() && #[trigger] results[i];
                assert(holds(env, conditions[i], seen[i]));
            }
            if conditions_allow(env, conditions, proposal.condition_logic, seen) {
                let i = choose|i: int|
                    0 <= i < conditions.len() && holds(env, #[trigger] conditions[i], seen[i]);
                assert(results[i]);
            }
        } else {
            if crate::conditions::combined(proposal.condition_logic, results) {
                assert forall|i: int| 0 <= i < conditions.len() implies holds(
                    env,
                    #[trigger] conditions[i],
                    seen[i],
                ) by {
                    assert(results[i]);
                }
            }
            if conditions_allow(env, conditions, proposal.condition_logic, seen) {
                assert forall|i: int| 0 <= i < results.len() implies #[trigger] results[i] by {
                    assert(holds(env, conditions[i], seen[i]));
                }
            }
        }
    }
}

/// Conditions that fail as a whole fail for a stale price.
proof fn lemma_stale_error(env: EnvModel, conditions: Seq<Condition>, seen: Seq<Observation>)
    ensures
        env.conditions_met(conditions, seen).1 matches Err(error) ==> error
            == VaultError::ConditionsNotMet,
    decreases conditions.len(),
{
    if conditions.len() > 0 {
        lemma_stale_error(env, conditions.drop_last(), seen);
    }
}

/// Whether a tier of fees is the one that a volume has reached: it and all before it are reached,
/// and the next one is not.
pub open spec fn tier_reached(tiers: Seq<FeeTier>, volume: int, i: int) -> bool {
    &&& 0 <= i < tiers.len()
    &&& forall|j: int| 0 <= j <= i ==> (#[trigger] tiers[j]).min_volume <= volume
    &&& i + 1 < tiers.len() ==> tiers[i + 1].min_volume > volume
}

/// The rate of a tier that is reached counts, whatever the rate below.
proof fn lemma_tier_reached(base: u32, tiers: Seq<FeeTier>, volume: i128, i: int)
    requires
        tier_reached(tiers, volume as int, i),
    ensures
        crate::fees::tier_fee(base, tiers, volume) == tiers[i].fee_bps,
    decreases tiers.len(),
{
    let rest = tiers.skip(1);
    assert(tiers[0].min_volume <= volume);
    if i == 0 {
        reveal_with_fuel(crate::fees::tier_fee, 2);
        if rest.len() > 0 {
            assert(rest[0] == tiers[1]);
        }
    } else {
        assert forall|j: int| 0 <= j <= i - 1 implies (#[trigger] rest[j]).min_volume <= volume by {
            assert(rest[j] == tiers[j + 1]);
        }
        if i < rest.len() {
            assert(rest[i] == tiers[i + 1]);
        }
        assert(rest[i - 1] == tiers[i]);
        lemma_tier_reached(tiers[0].fee_bps, rest, volume, i - 1);
    }
}

/// The fee for moving an amount is a share of the amount, rounded down: that of the tier that the
/// volume of the user has reached, or the base rate. From a score on, a percentage of the fee is
/// taken off. There is none where fees are not in use, and it is never more than the amount.
pub proof fn law_fees_follow_volume_and_score(
    env: EnvModel,
    user: Address,
    token: Address,
    amount: i128,
    i: int,
)
    requires
        amount >= 0,
        env.treasury.fee_structure matches Some(fees) ==> fees.base_fee_bps <= 10_000
            && fees.reputation_discount_percentage <= 100 && forall|j: int|
            0 <= j < fees.tiers.len() ==> (#[trigger] fees.tiers[j]).fee_bps <= 10_000,
        amount * 10_000 <= i128::MAX,
    ensures
        ({
            let fee = env.fee(user, token, amount);
            let fees = env.treasury.fee_structure->0;
            let volume = kept(env.treasury.user_volume, VolumeKey { user, token });
            let in_use = env.treasury.fee_structure is Some && fees.enabled;
            let trusted = score_of(env, user) >= fees.reputation_discount_threshold;
            &&& !in_use ==> fee.final_fee == 0 && fee.base_fee == 0 && fee.discount == 0
            &&& in_use && (fees.tiers.len() == 0 || fees.tiers[0].min_volume > volume)
                ==> fee.fee_bps == fees.base_fee_bps
            &&& in_use && tier_reached(fees.tiers, volume, i) ==> fee.fee_bps
                == fees.tiers[i].fee_bps
            &&& in_use ==> {
                &&& fee.base_fee == amount * fee.fee_bps / 10_000
                &&& fee.reputation_discount_applied == trusted
                &&& fee.discount == if trusted {
                    fee.base_fee * fees.reputation_discount_percentage / 100
                } else {
                    0
                }
                &&& fee.final_fee == fee.base_fee - fee.discount
            }
            &&& 0 <= fee.final_fee <= fee.base_fee
            &&& fee.base_fee <= amount
        }),
{
    if env.treasury.fee_structure is Some && env.treasury.fee_structure->0.enabled {
        let fees = env.treasury.fee_structure->0;
        let volume = env.user_volume(user, token);
        let rate = env.fee_rate(user, token) as int;
        lemma_rate_bound(fees.base_fee_bps, fees.tiers, volume);
        if tier_reached(fees.tiers, volume as int, i) {
            lemma_tier_reached(fees.base_fee_bps, fees.tiers, volume, i);
        }
        assert(0 <= amount * rate <= amount * 10_000) by (nonlinear_arith)
            requires
                amount >= 0,
                0 <= rate <= 10_000,
        ;
        let base = env.base_fee(user, token, amount);
        let pct = fees.reputation_discount_percentage as int;
        assert(0 <= base * pct <= base * 100) by (nonlinear_arith)
            requires
                base >= 0,
                0 <= pct <= 100,
        ;
    }
}

/// The score of an address, that of a newcomer where nothing was recorded.
pub open spec fn score_of(env: EnvModel, addr: Address) -> int {
    if env.members.reputation.contains_key(addr) {
        env.members.reputation[addr].score as int
    } else {
        500
    }
}

/// Rates within bounds lead to a rate within them.
proof fn lemma_rate_bound(base: u32, tiers: Seq<FeeTier>, volume: i128)
    requires
        base <= 10_000,
        forall|j: int| 0 <= j < tiers.len() ==> (#[trigger] tiers[j]).fee_bps <= 10_000,
    ensures
        crate::fees::tier_fee(base, tiers, volume) <= 10_000,
    decreases tiers.len(),
{
    if tiers.len() > 0 {
        assert(tiers[0].fee_bps <= 10_000);
        assert forall|j: int| 0 <= j < tiers.skip(1).len() implies (
        #[trigger] tiers.skip(1)[j]).fee_bps <= 10_000 by {
            assert(tiers.skip(1)[j] == tiers[j + 1]);
        }
        lemma_rate_bound(tiers[0].fee_bps, tiers.skip(1), volume);
    }
}

/// What executing a proposal costs: the base cost, and one unit for the transfer, for each
/// condition, for an insurance and for an operation on an exchange, up to the largest number.
pub open spec fn cost_of(env: EnvModel, proposal: ProposalModel) -> int {
    let units = 1 + proposal.conditions.len() + (if proposal.insurance_amount > 0 {
        1int
    } else {
        0
    }) + (if proposal.is_swap {
        1int
    } else {
        0
    });
    let gas = env.treasury.gas_config;
    least(
        gas.base_cost + least(
            gas.condition_cost * least(units, u32::MAX as int),
            u64::MAX as int,
        ),
        u64::MAX as int,
    )
}

/// The estimated cost of a proposal grows with what its execution has to do.
pub proof fn law_costs_count_the_steps(env: EnvModel, proposal: ProposalModel)
    ensures
        env.execution_fee(proposal).total_fee == cost_of(env, proposal),
{
    let units = crate::costs::operation_count(proposal);
    let each = env.treasury.gas_config.condition_cost;
    assert(each * units >= 0) by (nonlinear_arith)
        requires
            each >= 0,
            units >= 0,
    ;
}

/// The insurance of a proposal going back to its proposer, where there is one.
pub open spec fn insurance_back(proposal: ProposalModel) -> Seq<Action> {
    if proposal.insurance_amount > 0 {
        seq![
            Action::Transfer {
                token: proposal.token,
                to: proposal.proposer,
                amount: proposal.insurance_amount,
            },
        ]
    } else {
        seq![]
    }
}

/// Whether the stake of a proposal was recorded, and neither returned nor slashed.
pub open spec fn stake_open(env: EnvModel, id: u64) -> bool {
    let records = env.treasury.stake_records;
    records.contains_key(id) && !records[id].refunded && !records[id].slashed
}

/// The stake of a proposal going back to its proposer, where there is one to go back.
pub open spec fn stake_back(env: EnvModel, proposal: ProposalModel) -> Seq<Action> {
    if proposal.stake_amount > 0 && stake_open(env, proposal.id) {
        seq![
            Action::Transfer {
                token: proposal.token,
                to: proposal.proposer,
                amount: proposal.stake_amount,
            },
        ]
    } else {
        seq![]
    }
}

/// What is to go to the treasury of the fees.
pub open spec fn fee_paid(env: EnvModel, token: Address, fee: i128) -> Seq<Action> {
    if fee != 0 {
        seq![Action::Transfer { token, to: env.treasury.fee_structure->0.treasury, amount: fee }]
    } else {
        seq![]
    }
}

/// What is to be transferred is the amount of a proposal less the fee, where the vault holds the
/// amount, the insurance and the fee. The insurance is no part of it.
pub proof fn law_transfers_are_the_amount_less_the_fee(
    proposal: ProposalModel,
    fee: i128,
    balance: i128,
)
    requires
        proposal.amount >= 0,
        fee >= 0,
    ensures
        ({
            let r = crate::execution::due(proposal, fee, balance);
            let enough = balance >= proposal.amount + proposal.insurance_amount + fee;
            &&& r is Ok <==> enough
            &&& r is Ok ==> r->Ok_0 + fee == proposal.amount
            &&& r is Err ==> r == Err::<i128, _>(VaultError::InsufficientBalance)
        }),
{
}

/// Calling hooks moves nothing.
proof fn lemma_hooks_move_nothing(env: EnvModel, hooks: Seq<Address>, id: u64, is_pre: bool)
    ensures
        movements(env.call_hooks(hooks, id, is_pre).actions) == movements(env.actions),
    decreases hooks.len(),
{
    if hooks.len() > 0 {
        lemma_hooks_move_nothing(env, hooks.drop_last(), id, is_pre);
    }
}

/// Rewards move nothing.
pub(crate) proof fn lemma_rewards_move_nothing(env: EnvModel, approvers: Seq<Address>)
    ensures
        movements(env.reward_approvers(approvers).actions) == movements(env.actions),
    decreases approvers.len(),
{
    if approvers.len() > 0 {
        lemma_rewards_move_nothing(env, approvers.drop_last());
    }
}

/// Counting an execution moves nothing.
pub(crate) proof fn lemma_counted_moves_nothing(env: EnvModel, proposal: ProposalModel)
    ensures
        movements(env.count_executed(proposal).actions) == movements(env.actions),
        env.count_executed(proposal).treasury.stake_records == env.treasury.stake_records,
        env.count_executed(proposal).treasury.fees_collected == env.treasury.fees_collected,
        env.count_executed(proposal).treasury.daily_spent == env.treasury.daily_spent,
        env.count_executed(proposal).treasury.weekly_spent == env.treasury.weekly_spent,
{
    let rewarded = env.reward_proposer(proposal.proposer);
    lemma_rewards_move_nothing(rewarded, proposal.approvals);
    crate::execution::lemma_rewards_frame(rewarded, proposal.approvals);
    assert(movements(rewarded.actions) == movements(env.actions));
}

/// The start of an execution moves nothing, and leaves what is paid from as it was.
pub(crate) proof fn lemma_start_moves_nothing(env: EnvModel, executor: Address, id: u64)
    requires
        env.start_execution(executor, id).1 is Ok,
    ensures
        ({
            let started = env.start_execution(executor, id).0;
            &&& movements(started.actions) == movements(env.actions)
            &&& started.treasury == env.treasury
            &&& started.links == env.links
            &&& started.ledger == env.ledger
            &&& started.members == env.decay_reputation(executor).members
        }),
{
    let known = env.decay_reputation(executor);
    let config = env.access.config->0;
    let proposal = env.proposal(id)->Ok_0;
    assert(movements(known.actions) == movements(env.actions));
    crate::execution::lemma_hooks_frame(known, config.pre_execution_hooks, proposal.id, true);
    lemma_hooks_move_nothing(known, config.pre_execution_hooks, proposal.id, true);
}

/// What charging pays.
proof fn lemma_charge_moves(env: EnvModel, proposal: ProposalModel, seen: Seq<Observation>)
    ensures
        ({
            let (after, r) = env.charge(proposal, seen);
            let allowed = (proposal.conditions.len() == 0 || conditions_allow(
                env,
                proposal.conditions,
                proposal.condition_logic,
                seen,
            )) && (proposal.gas_limit == 0 || cost_of(env, proposal) <= proposal.gas_limit);
            let fee = env.fee(proposal.proposer, proposal.token, proposal.amount).final_fee;
            &&& r is Ok <==> allowed
            &&& r is Ok ==> r == Ok::<i128, VaultError>(fee)
            &&& r is Ok ==> movements(after.actions) =~= movements(env.actions) + fee_paid(
                env,
                proposal.token,
                fee,
            )
            &&& r is Err ==> movements(after.actions) == movements(env.actions)
            &&& after.treasury.stake_records == env.treasury.stake_records
            &&& after.treasury.daily_spent == env.treasury.daily_spent
            &&& after.treasury.weekly_spent == env.treasury.weekly_spent
            &&& r is Ok && env.fees_collected(proposal.token) + fee <= i128::MAX ==> kept(
                after.treasury.fees_collected,
                proposal.token,
            ) == kept(env.treasury.fees_collected, proposal.token) + fee
            &&& after.ledger == env.ledger
        }),
{
    law_conditions_are_tested(env, proposal, seen);
    law_costs_count_the_steps(env, proposal);
}

/// What settling a transfer that went through pays.
proof fn lemma_settle_moves(env: EnvModel, proposal: ProposalModel, amount: i128)
    ensures
        ({
            let after = env.settle_transfer(proposal, amount, true).0;
            &&& movements(after.actions) =~= movements(env.actions) + seq![
                Action::TriedTransfer {
                    token: proposal.token,
                    to: proposal.recipient,
                    amount,
                    done: true,
                },
            ] + insurance_back(proposal) + stake_back(env, proposal)
            &&& after.treasury.fees_collected == env.treasury.fees_collected
            &&& after.treasury.daily_spent == env.treasury.daily_spent
            &&& after.treasury.weekly_spent == env.treasury.weekly_spent
            &&& env.treasury.stake_records.contains_key(proposal.id)
                && env.treasury.stake_records[proposal.id].proposal_id == proposal.id ==> (
            after.treasury.stake_records == if proposal.stake_amount > 0 && stake_open(
                env,
                proposal.id,
            ) {
                env.treasury.stake_records.insert(
                    proposal.id,
                    StakeRecord {
                        refunded: true,
                        released_at: env.ledger.sequence as u64,
                        ..env.treasury.stake_records[proposal.id]
                    },
                )
            } else {
                env.treasury.stake_records
            })
        }),
{
}

/// Completing an execution moves nothing.
proof fn lemma_complete_moves_nothing(
    env: EnvModel,
    config: ConfigModel,
    executor: Address,
    proposal: ProposalModel,
)
    ensures
        ({
            let after = env.complete_execution(config, executor, proposal);
            &&& movements(after.actions) == movements(env.actions)
            &&& after.treasury.stake_records == env.treasury.stake_records
            &&& after.treasury.fees_collected == env.treasury.fees_collected
            &&& after.treasury.daily_spent == env.treasury.daily_spent
            &&& after.treasury.weekly_spent == env.treasury.weekly_spent
        }),
{
    let executed = ProposalModel { status: ProposalStatus::Executed, ..proposal };
    crate::execution::lemma_hooks_frame(env, config.post_execution_hooks, proposal.id, false);
    lemma_hooks_move_nothing(env, config.post_execution_hooks, proposal.id, false);
    let announced = env.call_hooks(
        config.post_execution_hooks,
        proposal.id,
        false,
    ).with_proposal(executed).act(Action::ExtendInstanceTtl).announce_execution(
        executor,
        executed,
    );
    assert(movements(announced.actions) == movements(env.actions));
    lemma_counted_moves_nothing(announced, executed);
}

/// A proposal is executed in a call when it was not before and is afterwards.
pub open spec fn was_executed(before: EnvModel, after: EnvModel, id: u64) -> bool {
    &&& before.proposals.records.contains_key(id)
    &&& before.proposals.records[id].status != ProposalStatus::Executed
    &&& after.proposals.records[id].status == ProposalStatus::Executed
}

/// An execution pays the recipient the amount of the proposal less the fee, once; the fee to the
/// treasury of the fees; and gives the proposer the insurance and the stake back. It moves
/// nothing else. The fee is counted, the stake is marked as returned, and what was reserved of
/// the day and the week stays reserved.
pub proof fn law_executions_pay_the_recipient(
    env: EnvModel,
    executor: Address,
    id: u64,
    answers: ExecutionAnswersModel,
)
    requires
        env.proposals.records.contains_key(id),
        env.proposals.records[id].id == id,
        env.proposals.records[id].amount >= 0,
        was_executed(env, env.execute(executor, id, answers).0, id),
    ensures
        ({
            let proposal = env.proposals.records[id];
            let after = env.execute(executor, id, answers).0;
            let fee = env.decay_reputation(executor).fee(
                proposal.proposer,
                proposal.token,
                proposal.amount,
            ).final_fee;
            let transfer = Action::TriedTransfer {
                token: proposal.token,
                to: proposal.recipient,
                amount: (proposal.amount - fee) as i128,
                done: true,
            };
            &&& fee >= 0
            &&& env.treasury.fee_structure is None || !env.treasury.fee_structure->0.enabled
                ==> fee == 0
            &&& moved(
                env,
                after,
                fee_paid(env, proposal.token, fee) + seq![transfer] + insurance_back(proposal)
                    + stake_back(env, proposal),
            )
            &&& kept(env.treasury.fees_collected, proposal.token) + fee <= i128::MAX ==> kept(
                after.treasury.fees_collected,
                proposal.token,
            ) == kept(env.treasury.fees_collected, proposal.token) + fee
            &&& after.treasury.daily_spent == env.treasury.daily_spent
            &&& after.treasury.weekly_spent == env.treasury.weekly_spent
            &&& proposal.stake_amount > 0 && stake_open(env, id)
                && env.treasury.stake_records[id].proposal_id == id
                ==> after.treasury.stake_records[id].refunded
            &&& after.proposals.records == env.proposals.records.insert(
                id,
                ProposalModel {
                    status: ProposalStatus::Executed,
                    gas_used: cost_of(env, proposal) as u64,
                    attachments: after.proposals.records[id].attachments,
                    ..proposal
                },
            )
        }),
{
    lemma_executed(env, executor, id, answers);
    lemma_execution_moves(env, executor, id, answers);
    lemma_execution_records(env, executor, id, answers);
}

/// What an execution that went through does to the funds.
proof fn lemma_execution_moves(
    env: EnvModel,
    executor: Address,
    id: u64,
    answers: ExecutionAnswersModel,
)
    requires
        env.proposals.records.contains_key(id),
        env.proposals.records[id].id == id,
        env.proposals.records[id].amount >= 0,
        env.executes(executor, id, answers),
    ensures
        ({
            let proposal = env.proposals.records[id];
            let after = env.execute(executor, id, answers).0;
            let fee = env.decay_reputation(executor).fee(
                proposal.proposer,
                proposal.token,
                proposal.amount,
            ).final_fee;
            let transfer = Action::TriedTransfer {
                token: proposal.token,
                to: proposal.recipient,
                amount: (proposal.amount - fee) as i128,
                done: true,
            };
            &&& moved(
                env,
                after,
                fee_paid(env, proposal.token, fee) + seq![transfer] + insurance_back(proposal)
                    + stake_back(env, proposal),
            )
            &&& kept(env.treasury.fees_collected, proposal.token) + fee <= i128::MAX ==> kept(
                after.treasury.fees_collected,
                proposal.token,
            ) == kept(env.treasury.fees_collected, proposal.token) + fee
            &&& after.treasury.daily_spent == env.treasury.daily_spent
            &&& after.treasury.weekly_spent == env.treasury.weekly_spent
            &&& proposal.stake_amount > 0 && stake_open(env, id)
                && env.treasury.stake_records[id].proposal_id == id
                ==> after.treasury.stake_records[id].refunded
        }),
{
    let proposal = env.proposal(id)->Ok_0;
    let config = env.access.config->0;
    let (started, _) = env.start_execution(executor, id);
    lemma_start_moves_nothing(env, executor, id);
    lemma_charge_moves(started, proposal, answers.observations);
    let (charged, fee) = started.charge(proposal, answers.observations);
    let amount = crate::execution::due(proposal, fee->Ok_0, answers.balance)->Ok_0;
    lemma_settle_moves(charged, proposal, amount);
    let (tried, executed) = started.try_execute(proposal, answers);
    assert(tried == charged.settle_transfer(proposal, amount, true).0);
    assert(started.fee(proposal.proposer, proposal.token, proposal.amount)
        == env.decay_reputation(executor).fee(
        proposal.proposer,
        proposal.token,
        proposal.amount,
    ));
    lemma_complete_moves_nothing(tried, config, executor, executed->Ok_0);
    let after = env.execute(executor, id, answers).0;
    assert(after == tried.complete_execution(config, executor, executed->Ok_0)) by {
        reveal(EnvModel::finish_execution);
    }
    assert(fee->Ok_0 >= 0);
    assert(amount == proposal.amount - fee->Ok_0);
}

/// What an execution that went through does to the proposals.
proof fn lemma_execution_records(
    env: EnvModel,
    executor: Address,
    id: u64,
    answers: ExecutionAnswersModel,
)
    requires
        env.proposals.records.contains_key(id),
        env.proposals.records[id].id == id,
        env.executes(executor, id, answers),
    ensures
        ({
            let proposal = env.proposals.records[id];
            let records = env.execute(executor, id, answers).0.proposals.records;
            records == env.proposals.records.insert(
                id,
                ProposalModel {
                    status: ProposalStatus::Executed,
                    gas_used: cost_of(env, proposal) as u64,
                    attachments: records[id].attachments,
                    ..proposal
                },
            )
        }),
{
    reveal(EnvModel::finish_execution);
    let proposal = env.proposal(id)->Ok_0;
    let config = env.access.config->0;
    let known = env.decay_reputation(executor);
    let (started, _) = env.start_execution(executor, id);
    lemma_start_moves_nothing(env, executor, id);
    crate::execution_laws::lemma_prepare_frame(known, config, proposal);
    let (tried, executed) = started.try_execute(proposal, answers);
    crate::execution_laws::lemma_try_frame(started, proposal, answers);
    crate::execution_laws::lemma_complete_frame(tried, config, executor, executed->Ok_0);
    law_costs_count_the_steps(started, proposal);
    assert(cost_of(started, proposal) == cost_of(env, env.proposals.records[id]));
}

/// A call that executes a proposal is an execution that went through.
pub(crate) proof fn lemma_executed(
    env: EnvModel,
    executor: Address,
    id: u64,
    answers: ExecutionAnswersModel,
)
    requires
        env.proposals.records.contains_key(id),
        env.proposals.records[id].id == id,
    ensures
        was_executed(env, env.execute(executor, id, answers).0, id) <==> env.executes(
            executor,
            id,
            answers,
        ),
{
    if env.executes(executor, id, answers) {
        crate::execution_laws::law_executed_proposals_are_marked(env, executor, id, answers);
    } else {
        crate::execution_laws::law_failed_executions_restore_the_proposal(
            env,
            executor,
            id,
            answers,
        );
    }
}

/// What others a proposal depends on were executed.
pub open spec fn dependencies_done(records: Map<u64, ProposalModel>, ids: Seq<u64>) -> bool {
    forall|i: int|
        0 <= i < ids.len() ==> records.contains_key(#[trigger] ids[i]) && records[ids[i]].status
            == ProposalStatus::Executed
}

/// A proposal waits for each of those that it depends on.
proof fn lemma_dependencies(records: Map<u64, ProposalModel>, ids: Seq<u64>)
    ensures
        crate::execution::unexecuted(records, ids) is None <==> dependencies_done(records, ids),
    decreases ids.len(),
{
    if ids.len() > 0 {
        let rest = ids.drop_last();
        lemma_dependencies(records, rest);
        assert(ids[ids.len() - 1] == ids.last());
        assert forall|i: int| 0 <= i < rest.len() implies rest[i] == ids[i] by {}
        if dependencies_done(records, ids) {
            assert forall|i: int| 0 <= i < rest.len() implies records.contains_key(
                #[trigger] rest[i],
            ) && records[rest[i]].status == ProposalStatus::Executed by {
                assert(records.contains_key(ids[i]));
            }
        }
        if crate::execution::unexecuted(records, ids) is None {
            assert forall|i: int| 0 <= i < ids.len() implies records.contains_key(
                #[trigger] ids[i],
            ) && records[ids[i]].status == ProposalStatus::Executed by {
                if i < rest.len() {
                    assert(records.contains_key(rest[i]));
                }
            }
        }
    }
}

/// Whether another try of a proposal that failed before is not held back: it has tries left, and
/// its wait is over.
pub open spec fn may_try(env: EnvModel, id: u64) -> bool {
    let retries = env.proposals.retries;
    let rules = env.access.config->0.retry_config;
    retries.contains_key(id) && retries[id].retry_count > 0 ==> {
        &&& rules.enabled ==> retries[id].retry_count < rules.max_retries
        &&& ledger_of(env) >= retries[id].next_retry_ledger
    }
}

/// A proposal is executed exactly when it is approved and has not expired, its timelock has
/// passed, all that it depends on were executed, its approvals and votes are enough, it need not
/// wait for another try, its conditions are met, its cost is within its limit, the vault holds
/// the amount, the insurance and the fee, and the transfer goes through.
pub proof fn law_executions_meet_their_demands(
    env: EnvModel,
    executor: Address,
    id: u64,
    answers: ExecutionAnswersModel,
)
    requires
        env.access.config is Some,
        env.access.voting_strategy != VotingStrategy::Quadratic,
        percentages_valid(env.access.config->0),
        env.proposals.records.contains_key(id),
        env.proposals.records[id].id == id,
    ensures
        ({
            let proposal = env.proposals.records[id];
            let config = env.access.config->0;
            let after = env.execute(executor, id, answers).0;
            let fee = env.decay_reputation(executor).fee(
                proposal.proposer,
                proposal.token,
                proposal.amount,
            ).final_fee;
            was_executed(env, after, id) <==> {
                &&& proposal.status == ProposalStatus::Approved
                &&& ledger_of(env) <= proposal.expires_at
                &&& proposal.unlock_ledger == 0 || ledger_of(env) >= proposal.unlock_ledger
                &&& dependencies_done(env.proposals.records, proposal.depends_on)
                &&& approvals_suffice(env, config, proposal, proposal.approvals.len())
                &&& votes_suffice(
                    config,
                    proposal.approvals.len() + proposal.abstentions.len(),
                )
                &&& may_try(env, id)
                &&& proposal.conditions.len() == 0 || conditions_allow(
                    env,
                    proposal.conditions,
                    proposal.condition_logic,
                    answers.observations,
                )
                &&& proposal.gas_limit == 0 || cost_of(env, proposal) <= proposal.gas_limit
                &&& answers.balance >= proposal.amount + proposal.insurance_amount + fee
                &&& answers.transferred
            }
        }),
        ({
            let proposal = env.proposals.records[id];
            let r = env.execute(executor, id, answers).1;
            &&& was_executed(env, env.execute(executor, id, answers).0, id) ==> r is Ok
            &&& proposal.status == ProposalStatus::Executed ==> r == Err::<(), _>(
                VaultError::ProposalAlreadyExecuted,
            )
            &&& proposal.status == ProposalStatus::Cancelled ==> r == Err::<(), _>(
                VaultError::ProposalAlreadyCancelled,
            )
            &&& proposal.status == ProposalStatus::Pending || proposal.status
                == ProposalStatus::Rejected || proposal.status == ProposalStatus::Vetoed
                || proposal.status == ProposalStatus::Scheduled ==> r == Err::<(), _>(
                VaultError::ProposalNotApproved,
            )
            &&& proposal.status == ProposalStatus::Approved && ledger_of(env)
                > proposal.expires_at ==> r == Err::<(), _>(VaultError::ProposalExpired)
            &&& proposal.status == ProposalStatus::Approved && ledger_of(env)
                <= proposal.expires_at && 0 < proposal.unlock_ledger && ledger_of(env)
                < proposal.unlock_ledger ==> r == Err::<(), _>(VaultError::TimelockNotExpired)
        }),
{
    lemma_executed(env, executor, id, answers);
    let proposal = env.proposal(id)->Ok_0;
    let config = env.access.config->0;
    let known = env.decay_reputation(executor);
    let (started, begun) = env.start_execution(executor, id);
    lemma_dependencies(env.proposals.records, proposal.depends_on);
    crate::decision_laws::law_thresholds_count_approvals(known, config, proposal);
    crate::decision_laws::law_quorums_count_votes(
        config,
        proposal.approvals.len() + proposal.abstentions.len(),
    );
    assert(known.proposals == env.proposals);
    if begun is Ok {
        lemma_start_moves_nothing(env, executor, id);
        lemma_charge_moves(started, proposal, answers.observations);
        assert(started.fee(proposal.proposer, proposal.token, proposal.amount) == known.fee(
            proposal.proposer,
            proposal.token,
            proposal.amount,
        ));
        assert(cost_of(started, proposal) == cost_of(env, proposal));
        assert(conditions_allow(
            started,
            proposal.conditions,
            proposal.condition_logic,
            answers.observations,
        ) == conditions_allow(
            env,
            proposal.conditions,
            proposal.condition_logic,
            answers.observations,
        )) by {
            assert forall|c: Condition, o: Observation| #[trigger]
                holds(started, c, o) == holds(env, c, o) && is_stale(started, c, o) == is_stale(
                    env,
                    c,
                    o,
                ) by {}
            assert forall|c: Condition, o: Observation| #[trigger]
                is_stale(started, c, o) == is_stale(env, c, o) by {}
        }
    }
    if env.executes(executor, id, answers) {
        crate::execution_laws::law_executed_proposals_are_marked(env, executor, id, answers);
    }
}

} // verus!
