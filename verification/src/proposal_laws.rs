//! What holds of proposals from their making to their end: limits, what is locked and given back,
//! and who may change what.

use vstd::prelude::*;

use crate::books::{
    is_admin, is_treasurer, kept, least, ledger_of, listed, may_receive, most, moved, movements,
    spent_this_week, spent_today,
};
use crate::env::{Action, EnvModel};
use crate::errors::VaultError;
use crate::primitives::{Address, Symbol};
use crate::transfer_laws::{insurance_back, stake_back, stake_open};
use crate::types::{
    ConfigModel, Priority, ProposalModel, ProposalStatus, StakeRecord, TransferRequestModel,
};

verus! {

broadcast use crate::books::lemma_movements_push;

/// How many of some times lie inside a window before a time.
pub open spec fn inside_window(times: Seq<u64>, now: u64, window: u64) -> nat
    decreases times.len(),
{
    if times.len() == 0 {
        0
    } else {
        inside_window(times.drop_last(), now, window) + if times.last() > most(now - window, 0) {
            1nat
        } else {
            0nat
        }
    }
}

/// Times that are kept are those inside the window.
proof fn lemma_inside_window(times: Seq<u64>, now: u64, window: u64, keep: spec_fn(u64) -> bool)
    requires
        forall|t: u64| #[trigger] keep(t) <==> t > most(now - window, 0),
    ensures
        times.filter(keep).len() == inside_window(times, now, window),
    decreases times.len(),
{
    reveal(Seq::filter);
    if times.len() > 0 {
        lemma_inside_window(times.drop_last(), now, window, keep);
    }
}

/// An address may propose once more exactly when it proposed fewer times than the limit within
/// the window that ends now. A proposal that is counted is remembered with its time.
pub proof fn law_velocity_counts_the_window(
    env: EnvModel,
    addr: Address,
    limit: crate::types::VelocityConfig,
)
    ensures
        ({
            let now = env.ledger.timestamp;
            let count = inside_window(listed(env.treasury.velocity, addr), now, limit.window);
            let after = env.count_velocity(addr, limit).treasury.velocity;
            &&& env.velocity_allows(addr, limit) <==> count < limit.limit
            &&& count < limit.limit && limit.window > 0 && now > 0 ==> inside_window(
                listed(after, addr),
                now,
                limit.window,
            ) == count + 1
            &&& count >= limit.limit ==> after == env.treasury.velocity
        }),
{
    let now = env.ledger.timestamp;
    let times = listed(env.treasury.velocity, addr);
    let keep = |ts: u64| ts > crate::math::clamp_u64(env.ledger.timestamp - limit.window);
    lemma_inside_window(times, now, limit.window, keep);
    assert(env.recent_proposals(addr, limit.window) == times.filter(keep));
    let recent = times.filter(keep);
    assert forall|i: int| 0 <= i < recent.len() implies recent[i] > most(
        now - limit.window,
        0,
    ) by {
        times.lemma_filter_pred(keep, i);
    }
    lemma_all_inside(recent, now, limit.window);
    assert(recent.push(now).drop_last() =~= recent);
}

/// Where all times lie inside the window, all of them count.
proof fn lemma_all_inside(times: Seq<u64>, now: u64, window: u64)
    requires
        forall|i: int| 0 <= i < times.len() ==> #[trigger] times[i] > most(now - window, 0),
    ensures
        inside_window(times, now, window) == times.len(),
    decreases times.len(),
{
    if times.len() > 0 {
        let rest = times.drop_last();
        assert forall|i: int| 0 <= i < rest.len() implies #[trigger] rest[i] > most(
            now - window,
            0,
        ) by {
            assert(rest[i] == times[i]);
        }
        lemma_all_inside(rest, now, window);
        assert(times[times.len() - 1] == times.last());
    }
}

/// What a proposer with a score may propose at once: the limit, or two or three times as much.
pub open spec fn most_at_once(limit: i128, score: int) -> int {
    if score >= 900 {
        3 * limit
    } else if score >= 800 {
        2 * limit
    } else {
        limit as int
    }
}

/// What may be spent in a period: the limit, and half as much again with a good score.
pub open spec fn allowance(limit: i128, score: int) -> int {
    if score >= 750 {
        least(limit * 3 / 2, i128::MAX as int)
    } else {
        limit as int
    }
}

/// The insurance that an amount needs at least: a share of it, half with a good score.
pub open spec fn least_insurance(env: EnvModel, amount: i128, score: int) -> int {
    let rules = env.treasury.insurance_config;
    if rules.enabled && amount >= rules.min_amount {
        let full = amount * rules.min_insurance_bps / 10_000;
        if score >= 750 {
            full / 2
        } else {
            full
        }
    } else {
        i128::MIN as int
    }
}

/// The stake that an amount needs: a share of it up to the largest stake, with a discount from a
/// score on.
pub open spec fn stake_due(env: EnvModel, amount: i128, score: int) -> int {
    let rules = env.treasury.staking_config;
    if rules.enabled && amount >= rules.min_amount {
        let share = least(amount * rules.base_stake_bps / 10_000, rules.max_stake_amount as int);
        if score >= rules.reputation_discount_threshold {
            share - share * rules.reputation_discount_percentage / 100
        } else {
            share
        }
    } else {
        0
    }
}

/// What is collected from a proposer.
pub open spec fn collected(token: Address, from: Address, amount: int) -> Seq<Action> {
    if amount > 0 {
        seq![Action::TransferToVault { token, from, amount: amount as i128 }]
    } else {
        seq![]
    }
}

/// The ledger from which on an amount may be paid.
pub open spec fn payable_from(env: EnvModel, config: ConfigModel, amount: i128) -> int {
    if amount >= config.timelock_threshold {
        ledger_of(env) + config.timelock_delay
    } else {
        0
    }
}

/// What creating a proposal moves and stores.
proof fn lemma_created(env: EnvModel, proposal: ProposalModel)
    ensures
        ({
            let after = env.create_proposal(proposal);
            &&& after.ledger == env.ledger
            &&& movements(after.actions) == movements(env.actions)
            &&& after.proposals.records == env.proposals.records.insert(proposal.id, proposal)
            &&& after.proposals.next_id == env.proposals.next_id
            &&& listed(after.proposals.queues, proposal.priority.spec_code()) == listed(
                env.proposals.queues,
                proposal.priority.spec_code(),
            ).push(proposal.id)
            &&& after.treasury.daily_spent == env.treasury.daily_spent
            &&& after.treasury.weekly_spent == env.treasury.weekly_spent
            &&& after.treasury.stake_records == if proposal.stake_amount > 0 {
                env.treasury.stake_records.insert(
                    proposal.id,
                    StakeRecord {
                        proposal_id: proposal.id,
                        staker: proposal.proposer,
                        token: proposal.token,
                        amount: proposal.stake_amount,
                        locked_at: env.ledger.sequence as u64,
                        refunded: false,
                        slashed: false,
                        slashed_amount: 0,
                        released_at: 0,
                    },
                )
            } else {
                env.treasury.stake_records
            }
        }),
{
    reveal(EnvModel::create_proposal);
}

/// What is stored of a new proposal.
pub open spec fn stored_as(
    env: EnvModel,
    request: TransferRequestModel,
    insurance: int,
    stake: int,
    record: ProposalModel,
) -> bool {
    let config = env.access.config->0;
    &&& record.id == env.proposals.next_id
    &&& record.proposer == request.proposer
    &&& record.recipient == request.recipient
    &&& record.token == request.token
    &&& record.amount == request.amount
    &&& record.memo == request.memo
    &&& record.priority == request.priority
    &&& record.conditions == request.conditions
    &&& record.condition_logic == request.condition_logic
    &&& record.depends_on == request.depends_on
    &&& record.execution_time == request.execution_time
    &&& record.status == ProposalStatus::Pending
    &&& record.approvals.len() == 0
    &&& record.abstentions.len() == 0
    &&& record.snapshot_signers == config.signers
    &&& record.created_at == ledger_of(env)
    &&& record.snapshot_ledger == ledger_of(env)
    &&& record.expires_at == ledger_of(env) + 120_960
    &&& record.unlock_ledger == payable_from(env, config, request.amount)
    &&& record.voting_deadline == if config.default_voting_deadline > 0 {
        ledger_of(env) + config.default_voting_deadline
    } else {
        0
    }
    &&& record.insurance_amount == insurance
    &&& record.stake_amount == stake
    &&& record.gas_used == 0
    &&& record.gas_limit == if env.treasury.gas_config.enabled {
        env.treasury.gas_config.default_gas_limit
    } else {
        0
    }
    &&& !record.is_swap
    &&& record.tags.len() == 0
}

/// What proposing does once the limits allow it.
proof fn lemma_funded(
    env: EnvModel,
    config: ConfigModel,
    request: TransferRequestModel,
    insurance: i128,
    stake: i128,
)
    requires
        env.access.config == Some(config),
        env.proposals.next_id < u64::MAX,
        config.delays_fit(request.amount, env.now()),
    ensures
        ({
            let (after, r) = env.propose_funded(config, request, insurance, stake);
            let id = env.proposals.next_id;
            let in_time = request.execution_time matches Some(time) ==> time > ledger_of(env)
                && time >= payable_from(env, config, request.amount);
            let sound = crate::dependencies::dependencies_refusal(
                env.proposals.records,
                id,
                request.depends_on,
            ) is None;
            &&& r is Ok <==> in_time && sound
            &&& !in_time ==> r == Err::<u64, _>(VaultError::TimelockNotExpired)
            &&& r is Ok ==> {
                let record = after.proposals.records[id];
                &&& r == Ok::<u64, VaultError>(id)
                &&& after.ledger == env.ledger
                &&& movements(after.actions) =~= movements(env.actions) + collected(
                    request.token,
                    request.proposer,
                    insurance as int,
                ) + collected(request.token, request.proposer, stake as int)
                &&& after.proposals.records == env.proposals.records.insert(id, record)
                &&& after.proposals.next_id == id + 1
                &&& stored_as(env, request, insurance as int, stake as int, record)
                &&& listed(after.proposals.queues, request.priority.spec_code()) == listed(
                    env.proposals.queues,
                    request.priority.spec_code(),
                ).push(id)
                &&& after.treasury.daily_spent == env.treasury.daily_spent.insert(
                    env.ledger.timestamp / 86_400,
                    (spent_today(env) + request.amount) as i128,
                )
                &&& after.treasury.weekly_spent == env.treasury.weekly_spent.insert(
                    env.ledger.timestamp / 604_800,
                    (spent_this_week(env) + request.amount) as i128,
                )
                &&& stake > 0 ==> stake_open(after, id) && after.treasury.stake_records[id].amount
                    == stake && after.treasury.stake_records[id].staker == request.proposer
            }
            &&& r is Err ==> after.proposals.records == env.proposals.records
        }),
{
    reveal(EnvModel::propose_funded);
    let unlock = crate::proposals::unlock_ledger(config, request.amount, env.now());
    let numbered = env.collect(request.token, request.proposer, insurance).collect(
        request.token,
        request.proposer,
        stake,
    ).reserve_spending(request.amount).bump_proposal_id();
    let terms = crate::proposals::ProposalTerms {
        id: env.proposals.next_id,
        insurance,
        stake,
        unlock_ledger: unlock,
        expires_at: (env.now() + crate::constants::PROPOSAL_EXPIRY_LEDGERS) as u64,
    };
    lemma_created(numbered, numbered.new_proposal(config, request, terms));
}

/// A transfer is proposed exactly where its proposer is a treasurer or an admin and may propose
/// once more, the lists allow the recipient, the amount is positive and within the limit of a
/// proposal, the day and the week have room for it, the insurance is enough, an execution ledger
/// lies ahead and after the timelock, and its dependencies are sound. The insurance and the stake
/// are collected from the proposer, the amount is reserved of the day and the week, and the
/// proposal is stored as it was asked for, pending, without votes, and queued.
pub proof fn law_proposals_lock_and_reserve(env: EnvModel, request: TransferRequestModel)
    requires
        env.access.config is Some,
        env.propose_fits(request.proposer, request.amount, request.insurance_amount),
        env.access.config->0.daily_limit >= 0,
        env.access.config->0.weekly_limit >= 0,
        env.treasury.staking_config.max_stake_amount >= 0,
        env.treasury.staking_config.reputation_discount_percentage <= 100,
    ensures
        ({
            let config = env.access.config->0;
            let (after, r) = env.propose(request);
            let id = env.proposals.next_id;
            let amount = request.amount;
            let score = env.current_reputation(request.proposer).score as int;
            let entitled = is_treasurer(env, request.proposer);
            let received = may_receive(env, request.recipient);
            let seldom = inside_window(
                listed(env.treasury.velocity, request.proposer),
                env.ledger.timestamp,
                config.velocity_limit.window,
            ) < config.velocity_limit.limit;
            let small = amount <= most_at_once(config.spending_limit, score);
            let day_fits = spent_today(env) + amount <= allowance(config.daily_limit, score);
            let week_fits = spent_this_week(env) + amount <= allowance(
                config.weekly_limit,
                score,
            );
            let insured = request.insurance_amount >= least_insurance(env, amount, score);
            let insurance = most(request.insurance_amount as int, 0);
            let stake = stake_due(env, amount, score);
            &&& r is Ok <==> {
                &&& entitled && received && seldom && amount > 0
                &&& small && day_fits && week_fits && insured
                &&& request.execution_time matches Some(time) ==> time > ledger_of(env) && time
                    >= payable_from(env, config, amount)
                &&& crate::dependencies::dependencies_refusal(
                    env.proposals.records,
                    id,
                    request.depends_on,
                ) is None
            }
            &&& r is Err ==> after.proposals.records == env.proposals.records
            &&& !entitled ==> r == Err::<u64, _>(VaultError::InsufficientRole)
            &&& entitled && received && !seldom ==> r == Err::<u64, _>(
                VaultError::VelocityLimitExceeded,
            )
            &&& entitled && received && seldom ==> {
                &&& amount <= 0 ==> r == Err::<u64, _>(VaultError::InvalidAmount)
                &&& amount > 0 && !small ==> r == Err::<u64, _>(VaultError::ExceedsProposalLimit)
                &&& amount > 0 && small && !day_fits ==> r == Err::<u64, _>(
                    VaultError::ExceedsDailyLimit,
                )
                &&& amount > 0 && small && day_fits && !week_fits ==> r == Err::<u64, _>(
                    VaultError::ExceedsWeeklyLimit,
                )
                &&& amount > 0 && small && day_fits && week_fits && !insured ==> r == Err::<
                    u64,
                    _,
                >(VaultError::InsuranceInsufficient)
            }
            &&& r is Ok ==> {
                let record = after.proposals.records[id];
                &&& r == Ok::<u64, VaultError>(id)
                &&& moved(
                    env,
                    after,
                    collected(request.token, request.proposer, insurance) + collected(
                        request.token,
                        request.proposer,
                        stake,
                    ),
                )
                &&& spent_today(after) == spent_today(env) + amount
                &&& spent_this_week(after) == spent_this_week(env) + amount
                &&& after.proposals.records == env.proposals.records.insert(id, record)
                &&& after.proposals.next_id == id + 1
                &&& stored_as(env, request, insurance, stake, record)
                &&& listed(after.proposals.queues, request.priority.spec_code()) == listed(
                    env.proposals.queues,
                    request.priority.spec_code(),
                ).push(id)
                &&& stake > 0 ==> stake_open(after, id) && after.treasury.stake_records[id].amount
                    == stake
            }
        }),
{
    let config = env.access.config->0;
    let amount = request.amount;
    let rep = env.current_reputation(request.proposer);
    let counted = env.count_velocity(request.proposer, config.velocity_limit);
    let known = counted.with_reputation(request.proposer, rep);
    law_velocity_counts_the_window(env, request.proposer, config.velocity_limit);
    if amount > 0 && env.spending_refusal(config, rep.score, amount) is None {
        lemma_insurance(env, amount, rep.score, request.insurance_amount);
        if let Ok(insurance) = env.settled_insurance(amount, rep.score, request.insurance_amount) {
            lemma_stake(env, amount, rep.score);
            lemma_funded(
                known,
                config,
                request,
                insurance,
                env.required_stake(amount, rep.score),
            );
        }
    }
}

/// What insurance is accepted.
pub(crate) proof fn lemma_insurance(env: EnvModel, amount: i128, score: u32, offered: i128)
    requires
        amount > 0,
    ensures
        ({
            let settled = env.settled_insurance(amount, score, offered);
            &&& settled is Ok <==> offered >= least_insurance(env, amount, score as int)
            &&& settled is Ok ==> settled == Ok::<i128, VaultError>(
                most(offered as int, 0) as i128,
            )
            &&& settled is Err ==> settled == Err::<i128, _>(VaultError::InsuranceInsufficient)
        }),
{
    let bps = env.treasury.insurance_config.min_insurance_bps as int;
    assert(amount * bps >= 0) by (nonlinear_arith)
        requires
            amount > 0,
            bps >= 0,
    ;
}

/// What stake is asked for.
proof fn lemma_stake(env: EnvModel, amount: i128, score: u32)
    requires
        amount > 0,
        env.stake_fits(amount, score),
        env.treasury.staking_config.max_stake_amount >= 0,
        env.treasury.staking_config.reputation_discount_percentage <= 100,
    ensures
        env.required_stake(amount, score) == stake_due(env, amount, score as int),
{
    let rules = env.treasury.staking_config;
    let bps = rules.base_stake_bps as int;
    assert(amount * bps >= 0) by (nonlinear_arith)
        requires
            amount > 0,
            bps >= 0,
    ;
    let share = least(amount * bps / 10_000, rules.max_stake_amount as int);
    let pct = rules.reputation_discount_percentage as int;
    assert(0 <= share * pct <= share * 100) by (nonlinear_arith)
        requires
            share >= 0,
            0 <= pct <= 100,
    ;
}

/// What a rejection takes of an amount, where it takes a percentage.
pub open spec fn slashed(amount: i128, percentage: u32) -> int {
    amount * percentage / 100
}

/// A payment to the proposer of a proposal.
pub open spec fn paid_to_proposer(proposal: ProposalModel, amount: int) -> Seq<Action> {
    if amount > 0 {
        seq![
            Action::Transfer {
                token: proposal.token,
                to: proposal.proposer,
                amount: amount as i128,
            },
        ]
    } else {
        seq![]
    }
}

/// A rejection takes the configured percentage of the insurance and of the stake into their pools
/// and gives the proposer the rest, where they are in use; and all of it otherwise. A stake that
/// was returned or slashed before is left alone.
pub proof fn law_rejections_slash_insurance_and_stake(env: EnvModel, proposal: ProposalModel)
    requires
        env.slash_fits(proposal),
        env.treasury.insurance_config.slash_percentage <= 100,
        env.treasury.staking_config.slash_percentage <= 100,
        proposal.stake_amount >= 0,
        env.treasury.stake_records.contains_key(proposal.id)
            ==> env.treasury.stake_records[proposal.id].proposal_id == proposal.id,
    ensures
        ({
            let after = env.slash_insurance(proposal).slash_stake(proposal);
            let lost = if env.treasury.insurance_config.enabled && proposal.insurance_amount > 0 {
                slashed(
                    proposal.insurance_amount,
                    env.treasury.insurance_config.slash_percentage,
                )
            } else {
                0
            };
            let staked = proposal.stake_amount > 0 && stake_open(env, proposal.id);
            let forfeited = if staked && env.treasury.staking_config.enabled {
                slashed(proposal.stake_amount, env.treasury.staking_config.slash_percentage)
            } else {
                0
            };
            &&& moved(
                env,
                after,
                paid_to_proposer(proposal, proposal.insurance_amount - lost) + paid_to_proposer(
                    proposal,
                    if staked {
                        proposal.stake_amount - forfeited
                    } else {
                        0
                    },
                ),
            )
            &&& 0 <= lost && 0 <= forfeited <= proposal.stake_amount
            &&& proposal.insurance_amount > 0 ==> lost <= proposal.insurance_amount
            &&& kept(after.treasury.insurance_pool, proposal.token) == kept(
                env.treasury.insurance_pool,
                proposal.token,
            ) + lost
            &&& kept(after.treasury.stake_pool, proposal.token) == kept(
                env.treasury.stake_pool,
                proposal.token,
            ) + forfeited
            &&& staked ==> after.treasury.stake_records == env.treasury.stake_records.insert(
                proposal.id,
                StakeRecord {
                    slashed: forfeited > 0,
                    slashed_amount: forfeited as i128,
                    released_at: env.ledger.sequence as u64,
                    ..env.treasury.stake_records[proposal.id]
                },
            )
            &&& !staked ==> after.treasury.stake_records == env.treasury.stake_records
            &&& after.proposals == env.proposals
            &&& after.treasury.daily_spent == env.treasury.daily_spent
            &&& after.treasury.weekly_spent == env.treasury.weekly_spent
        }),
{
    let a = proposal.insurance_amount;
    let p = env.treasury.insurance_config.slash_percentage as int;
    let b = proposal.stake_amount;
    let q = env.treasury.staking_config.slash_percentage as int;
    if a > 0 {
        assert(0 <= a * p <= a * 100) by (nonlinear_arith)
            requires
                a > 0,
                0 <= p <= 100,
        ;
    }
    assert(0 <= b * q <= b * 100) by (nonlinear_arith)
        requires
            b >= 0,
            0 <= q <= 100,
    ;
    let insured = env.slash_insurance(proposal);
    assert(insured.treasury.stake_records == env.treasury.stake_records);
    assert(insured.treasury.staking_config == env.treasury.staking_config);
    assert(insured.treasury.stake_pool == env.treasury.stake_pool);
    assert(movements(insured.actions) =~= movements(env.actions) + paid_to_proposer(
        proposal,
        if env.treasury.insurance_config.enabled && a > 0 {
            a - slashed(a, env.treasury.insurance_config.slash_percentage)
        } else {
            a as int
        },
    ));
}

/// Whether what was reserved of the day and the week was given back, down to zero.
pub open spec fn reservation_freed(before: EnvModel, after: EnvModel, amount: i128) -> bool {
    &&& spent_today(after) == most(spent_today(before) - amount, 0)
    &&& spent_this_week(after) == most(spent_this_week(before) - amount, 0)
}

/// A proposal leaves a queue in which all others stay, in their order.
pub open spec fn left_queue(before: Seq<u64>, after: Seq<u64>, id: u64) -> bool {
    after =~= before.filter(|x: u64| x != id)
}

/// Taking an item out of a list keeps the others.
proof fn lemma_left_queue(list: Seq<u64>, id: u64)
    ensures
        left_queue(list, crate::primitives::without(list, id), id),
    decreases list.len(),
{
    reveal(Seq::filter);
    if list.len() > 0 {
        lemma_left_queue(list.drop_last(), id);
    }
}

/// A pending proposal is cancelled by its proposer, which gives back what it reserved, all of its
/// insurance and its stake; or rejected by an admin, which slashes insurance and stake and gives
/// nothing back of what it reserved. Nobody else may. It leaves its queue, and no other proposal
/// changes.
pub proof fn law_cancelling_gives_back_and_rejecting_slashes(
    env: EnvModel,
    caller: Address,
    id: u64,
    reason: Symbol,
)
    requires
        env.proposals.records.contains_key(id),
        env.proposals.records[id].id == id,
        env.proposals.records[id].amount >= 0,
    ensures
        ({
            let before = env.proposals.records[id];
            let (after, r) = env.cancel(caller, id, reason);
            let own = caller == before.proposer;
            let pending = before.status == ProposalStatus::Pending;
            let code = before.priority.spec_code();
            &&& r is Ok <==> pending && (own || is_admin(env, caller))
            &&& r is Err ==> after == env
            &&& before.status == ProposalStatus::Cancelled ==> r == Err::<(), _>(
                VaultError::ProposalAlreadyCancelled,
            )
            &&& !pending && before.status != ProposalStatus::Cancelled ==> r == Err::<(), _>(
                VaultError::ProposalNotPending,
            )
            &&& pending && !own && !is_admin(env, caller) ==> r == Err::<(), _>(
                VaultError::Unauthorized,
            )
            &&& r is Ok ==> {
                let record = after.proposals.records[id];
                &&& after.proposals.records == env.proposals.records.insert(id, record)
                &&& record == (ProposalModel {
                    status: if own {
                        ProposalStatus::Cancelled
                    } else {
                        ProposalStatus::Rejected
                    },
                    attachments: record.attachments,
                    ..before
                })
                &&& left_queue(
                    listed(env.proposals.queues, code),
                    listed(after.proposals.queues, code),
                    id,
                )
                &&& own ==> {
                    &&& reservation_freed(env, after, before.amount)
                    &&& moved(env, after, insurance_back(before) + stake_back(env, before))
                    &&& after.proposals.cancellations.contains_key(id)
                    &&& after.proposals.cancellations[id].cancelled_by == caller
                    &&& after.proposals.cancellations[id].reason == reason
                    &&& after.proposals.cancellations[id].refunded_amount == before.amount
                    &&& after.proposals.cancellation_history
                        == env.proposals.cancellation_history.push(id)
                }
                &&& !own ==> {
                    &&& after.treasury.daily_spent == env.treasury.daily_spent
                    &&& after.treasury.weekly_spent == env.treasury.weekly_spent
                    &&& movements(after.actions) == movements(
                        env.slash_insurance(before).slash_stake(before).actions,
                    )
                    &&& after.treasury.insurance_pool == env.slash_insurance(
                        before,
                    ).treasury.insurance_pool
                    &&& after.treasury.stake_pool == env.slash_stake(before).treasury.stake_pool
                }
            }
        }),
{
    let before = env.proposal(id)->Ok_0;
    let stored = env.proposals.records[id];
    lemma_left_queue(listed(env.proposals.queues, before.priority.spec_code()), id);
    if before.status == ProposalStatus::Pending {
        if caller == before.proposer {
            lemma_cancelled(env, caller, before, reason);
        } else {
            lemma_rejected(env, caller, before);
            lemma_slash_same(env, before, stored);
        }
    }
}

/// What slashing does depends on what is locked for a proposal, not on its attachments.
proof fn lemma_slash_same(env: EnvModel, a: ProposalModel, b: ProposalModel)
    requires
        a == (ProposalModel { attachments: a.attachments, ..b }),
    ensures
        env.slash_insurance(a) == env.slash_insurance(b),
        env.slash_stake(a) == env.slash_stake(b),
        env.slash_insurance(a).slash_stake(a) == env.slash_insurance(b).slash_stake(b),
{
}

/// What a cancellation by the proposer does.
proof fn lemma_cancelled(env: EnvModel, caller: Address, proposal: ProposalModel, reason: Symbol)
    requires
        proposal.amount >= 0,
    ensures
        ({
            let after = env.cancelled(caller, proposal, reason);
            let changed = ProposalModel { status: ProposalStatus::Cancelled, ..proposal };
            let code = proposal.priority.spec_code();
            &&& reservation_freed(env, after, proposal.amount)
            &&& moved(env, after, insurance_back(proposal) + stake_back(env, proposal))
            &&& after.proposals.records == env.proposals.records.insert(proposal.id, changed)
            &&& listed(after.proposals.queues, code) == crate::primitives::without(
                listed(env.proposals.queues, code),
                proposal.id,
            )
            &&& after.proposals.cancellations.contains_key(proposal.id)
            &&& after.proposals.cancellations[proposal.id].cancelled_by == caller
            &&& after.proposals.cancellations[proposal.id].reason == reason
            &&& after.proposals.cancellations[proposal.id].refunded_amount == proposal.amount
            &&& after.proposals.cancellation_history == env.proposals.cancellation_history.push(
                proposal.id,
            )
        }),
{
    reveal(EnvModel::cancelled);
}

/// What a rejection by an admin does.
proof fn lemma_rejected(env: EnvModel, caller: Address, proposal: ProposalModel)
    ensures
        ({
            let after = env.rejected(caller, proposal);
            let changed = ProposalModel { status: ProposalStatus::Rejected, ..proposal };
            let slashed = env.slash_insurance(proposal).slash_stake(proposal);
            let code = proposal.priority.spec_code();
            &&& after.proposals.records == env.proposals.records.insert(proposal.id, changed)
            &&& listed(after.proposals.queues, code) == crate::primitives::without(
                listed(env.proposals.queues, code),
                proposal.id,
            )
            &&& movements(after.actions) == movements(slashed.actions)
            &&& after.treasury.daily_spent == env.treasury.daily_spent
            &&& after.treasury.weekly_spent == env.treasury.weekly_spent
            &&& after.treasury.insurance_pool == env.slash_insurance(
                proposal,
            ).treasury.insurance_pool
            &&& after.treasury.stake_pool == env.slash_stake(proposal).treasury.stake_pool
        }),
{
    reveal(EnvModel::rejected);
    let changed = ProposalModel { status: ProposalStatus::Rejected, ..proposal };
    let marked = env.with_proposal(changed).queue_remove(
        proposal.priority.spec_code(),
        proposal.id,
    ).reputation_on_rejection(proposal.proposer);
    assert(movements(marked.actions) == movements(env.actions));
    assert(movements(marked.slash_insurance(changed).actions) == movements(
        env.slash_insurance(proposal).actions,
    ));
    assert(marked.slash_insurance(changed).treasury == env.slash_insurance(proposal).treasury);
}

/// A veto stops a proposal that is pending or approved, whoever made it, where its caller may
/// veto: what it reserved is given back, and its insurance and its stake go back in full. It
/// leaves its queue. A proposal that was vetoed stays so, and any other refuses a veto.
pub proof fn law_vetoes_stop_proposals(env: EnvModel, caller: Address, id: u64)
    requires
        env.access.config is Some,
        env.proposals.records.contains_key(id),
        env.proposals.records[id].id == id,
        env.proposals.records[id].amount >= 0,
    ensures
        ({
            let before = env.proposals.records[id];
            let (after, r) = env.veto(caller, id);
            let entitled = env.access.config->0.veto_addresses.contains(caller);
            let open = before.status == ProposalStatus::Pending || before.status
                == ProposalStatus::Approved;
            let code = before.priority.spec_code();
            &&& r is Ok <==> entitled && (open || before.status == ProposalStatus::Vetoed)
            &&& !(entitled && open) ==> after == env
            &&& !entitled ==> r == Err::<(), _>(VaultError::Unauthorized)
            &&& entitled && before.status == ProposalStatus::Executed ==> r == Err::<(), _>(
                VaultError::ProposalAlreadyExecuted,
            )
            &&& entitled && open ==> {
                let record = after.proposals.records[id];
                &&& after.proposals.records == env.proposals.records.insert(id, record)
                &&& record == (ProposalModel {
                    status: ProposalStatus::Vetoed,
                    attachments: record.attachments,
                    ..before
                })
                &&& reservation_freed(env, after, before.amount)
                &&& moved(env, after, insurance_back(before) + stake_back(env, before))
                &&& left_queue(
                    listed(env.proposals.queues, code),
                    listed(after.proposals.queues, code),
                    id,
                )
            }
        }),
{
    let before = env.proposal(id)->Ok_0;
    lemma_left_queue(listed(env.proposals.queues, before.priority.spec_code()), id);
}

/// The proposer of a pending proposal amends it, within the limit of a proposal. What is reserved
/// follows the amount: more of it where there is room in the day and the week, less of it
/// otherwise. Votes and timelock start over; everything else about it stays, and no funds move.
pub proof fn law_amendments_follow_the_amount(
    env: EnvModel,
    caller: Address,
    id: u64,
    recipient: Address,
    amount: i128,
    memo: Symbol,
)
    requires
        env.access.config is Some,
        env.proposals.records.contains_key(id),
        env.proposals.records[id].id == id,
        env.proposals.records[id].amount >= 0,
    ensures
        ({
            let before = env.proposals.records[id];
            let config = env.access.config->0;
            let (after, r) = env.amend(caller, id, recipient, amount, memo);
            let own = caller == before.proposer;
            let pending = before.status == ProposalStatus::Pending;
            let sized = 0 < amount <= config.spending_limit;
            let more = amount - before.amount;
            let day_fits = spent_today(env) + more <= config.daily_limit;
            let week_fits = spent_this_week(env) + more <= config.weekly_limit;
            &&& r is Ok <==> own && pending && sized && (more > 0 ==> day_fits && week_fits)
            &&& r is Err ==> after == env
            &&& moved(env, after, seq![])
            &&& !own ==> r == Err::<(), _>(VaultError::Unauthorized)
            &&& own && !pending ==> r == Err::<(), _>(VaultError::ProposalNotPending)
            &&& own && pending && amount <= 0 ==> r == Err::<(), _>(VaultError::InvalidAmount)
            &&& own && pending && amount > config.spending_limit && amount > 0 ==> r == Err::<
                (),
                _,
            >(VaultError::ExceedsProposalLimit)
            &&& own && pending && sized && more > 0 && !day_fits ==> r == Err::<(), _>(
                VaultError::ExceedsDailyLimit,
            )
            &&& own && pending && sized && more > 0 && day_fits && !week_fits ==> r == Err::<
                (),
                _,
            >(VaultError::ExceedsWeeklyLimit)
            &&& r is Ok ==> {
                let record = after.proposals.records[id];
                &&& after.proposals.records == env.proposals.records.insert(id, record)
                &&& record.approvals.len() == 0
                &&& record.abstentions.len() == 0
                &&& record == (ProposalModel {
                    recipient,
                    amount,
                    memo,
                    approvals: record.approvals,
                    abstentions: record.abstentions,
                    unlock_ledger: 0,
                    attachments: record.attachments,
                    ..before
                })
                &&& more > 0 ==> spent_today(after) == spent_today(env) + more
                    && spent_this_week(after) == spent_this_week(env) + more
                &&& more < 0 ==> spent_today(after) == most(spent_today(env) + more, 0)
                    && spent_this_week(after) == most(spent_this_week(env) + more, 0)
                &&& more == 0 ==> after.treasury == env.treasury
                &&& after.proposals.queues == env.proposals.queues
            }
        }),
{
}

/// A pending proposal moves from its queue to the end of that of its new priority, by an admin or
/// its proposer; nothing else about it changes.
pub proof fn law_priorities_move_between_queues(
    env: EnvModel,
    caller: Address,
    id: u64,
    priority: Priority,
)
    requires
        env.proposals.records.contains_key(id),
        env.proposals.records[id].id == id,
    ensures
        ({
            let before = env.proposals.records[id];
            let (after, r) = env.reprioritize(caller, id, priority);
            let entitled = caller == before.proposer || is_admin(env, caller);
            let pending = before.status == ProposalStatus::Pending;
            let from = before.priority.spec_code();
            let to = priority.spec_code();
            &&& r is Ok <==> entitled && pending
            &&& r is Err ==> after == env
            &&& !entitled ==> r == Err::<(), _>(VaultError::Unauthorized)
            &&& entitled && !pending ==> r == Err::<(), _>(VaultError::ProposalNotPending)
            &&& moved(env, after, seq![])
            &&& r is Ok ==> {
                let record = after.proposals.records[id];
                &&& after.proposals.records == env.proposals.records.insert(id, record)
                &&& record == (ProposalModel {
                    priority,
                    attachments: record.attachments,
                    ..before
                })
                &&& from != to ==> left_queue(
                    listed(env.proposals.queues, from),
                    listed(after.proposals.queues, from),
                    id,
                ) && listed(after.proposals.queues, to) == listed(env.proposals.queues, to).push(id)
                &&& from == to ==> listed(after.proposals.queues, to).last() == id && left_queue(
                    listed(env.proposals.queues, to),
                    listed(after.proposals.queues, to).drop_last(),
                    id,
                )
            }
        }),
{
    let before = env.proposal(id)->Ok_0;
    let code = before.priority.spec_code();
    lemma_left_queue(listed(env.proposals.queues, code), id);
    let left = crate::primitives::without(listed(env.proposals.queues, code), id);
    assert(left.push(id).drop_last() =~= left);
}

/// A scheduled proposal is executed from its ledger on, with as many approvals as the threshold.
/// Its recipient gets the amount, and its proposer the insurance. Where the transfer fails nothing
/// is stored. A signer or the proposer cancels it, which moves nothing.
pub proof fn law_scheduled_proposals_pay_when_due(
    env: EnvModel,
    caller: Address,
    id: u64,
    transferred: bool,
    insurance_returned: bool,
)
    requires
        env.access.config is Some,
        env.proposals.records.contains_key(id),
        env.proposals.records[id].id == id,
    ensures
        ({
            let before = env.proposals.records[id];
            let config = env.access.config->0;
            let (after, r) = env.execute_scheduled(caller, id, transferred, insurance_returned);
            let due = before.status == ProposalStatus::Scheduled && before.execution_time is Some
                && ledger_of(env) >= before.execution_time->0;
            let approved = before.approvals.len() >= config.threshold;
            let insurance = if before.insurance_amount > 0 && transferred {
                seq![
                    Action::TriedTransfer {
                        token: before.token,
                        to: before.proposer,
                        amount: before.insurance_amount,
                        done: insurance_returned,
                    },
                ]
            } else {
                seq![]
            };
            &&& r is Ok <==> due && approved && transferred
            &&& !due ==> r == Err::<(), _>(VaultError::TimelockNotExpired) && after == env
            &&& due && !approved ==> r == Err::<(), _>(VaultError::ProposalNotApproved) && after
                == env
            &&& due && approved && !transferred ==> r == Err::<(), _>(
                VaultError::InsufficientBalance,
            ) && after.proposals.records[id].status == ProposalStatus::Scheduled
            &&& due && approved ==> moved(
                env,
                after,
                seq![
                    Action::TriedTransfer {
                        token: before.token,
                        to: before.recipient,
                        amount: before.amount,
                        done: transferred,
                    },
                ] + insurance,
            )
            &&& r is Ok ==> {
                let record = after.proposals.records[id];
                &&& after.proposals.records == env.proposals.records.insert(id, record)
                &&& record == (ProposalModel {
                    status: ProposalStatus::Executed,
                    attachments: record.attachments,
                    ..before
                })
            }
        }),
        ({
            let before = env.proposals.records[id];
            let config = env.access.config->0;
            let (after, r) = env.cancel_scheduled(caller, id);
            let entitled = config.signers.contains(caller) || caller == before.proposer;
            &&& r is Ok <==> entitled && before.status == ProposalStatus::Scheduled
            &&& r is Err ==> after == env
            &&& !entitled ==> r == Err::<(), _>(VaultError::Unauthorized)
            &&& moved(env, after, seq![])
            &&& r is Ok ==> {
                let record = after.proposals.records[id];
                &&& after.proposals.records == env.proposals.records.insert(id, record)
                &&& record == (ProposalModel {
                    status: ProposalStatus::Cancelled,
                    attachments: record.attachments,
                    ..before
                })
            }
        }),
{
}

} // verus!
