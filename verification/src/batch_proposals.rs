//! Several proposals made at once.

use vstd::prelude::*;

use crate::constants::MAX_BATCH_SIZE;
use crate::costs::new_gas_limit;
use crate::env::{Action, Env, EnvModel, Event};
use crate::errors::VaultError;
use crate::math::{divide, sat_add, sum_exceeds};
use crate::primitives::{copy_list, Address, Symbol, Texts, BATCH_HALF};
use crate::proposals::{
    announce_proposal, calculate_expiration_ledger, collect, file_proposal, new_unlock_ledger,
    new_voting_deadline, settle_insurance, Outcome, ProposalTerms,
};
use crate::storage;
use crate::table::Table;
use crate::types::{
    BatchStatus, Condition, ConditionLogic, Config, ConfigModel, Priority, Proposal, ProposalBatch,
    ProposalBatchModel, ProposalModel, ProposalStatus, Role, TransferDetails, TransferRequestModel,
};
use crate::VaultDAO;

verus! {

/// The positive amounts of several transfers together.
pub open spec fn batch_total(transfers: Seq<TransferDetails>) -> int
    decreases transfers.len(),
{
    if transfers.len() == 0 {
        0
    } else {
        batch_total(transfers.drop_last()) + crate::math::max_int(
            transfers.last().amount as int,
            0,
        )
    }
}

/// Why several transfers are refused on account of the amount of one, if they are: the first
/// amount that is not positive or above the limit decides.
pub open spec fn amounts_refusal(transfers: Seq<TransferDetails>, limit: i128) -> Option<VaultError>
    decreases transfers.len(),
{
    if transfers.len() == 0 {
        None
    } else {
        match amounts_refusal(transfers.drop_last(), limit) {
            Some(error) => Some(error),
            None => if transfers.last().amount <= 0 {
                Some(VaultError::InvalidAmount)
            } else if transfers.last().amount > limit {
                Some(VaultError::ExceedsProposalLimit)
            } else {
                None
            },
        }
    }
}

/// Whether there are ledgers at which timelocks, voting deadlines and lifetimes of several new
/// proposals end.
pub open spec fn batch_delays_fit(
    config: ConfigModel,
    transfers: Seq<TransferDetails>,
    priority: Priority,
    now: u64,
) -> bool {
    transfers.len() > 0 ==> {
        &&& config.deadline_fits(now)
        &&& crate::proposals::expiration_ledger(config, priority, now) <= u64::MAX
        &&& forall|i: int|
            0 <= i < transfers.len() ==> config.unlock_fits((#[trigger] transfers[i]).amount, now)
    }
}

/// A request for one of several transfers: the transfer itself, and what all have in common. All
/// are marked by the same memo, `batch`.
pub open spec fn batch_request(
    common: TransferRequestModel,
    transfer: TransferDetails,
) -> TransferRequestModel {
    TransferRequestModel {
        recipient: transfer.recipient,
        token: transfer.token,
        amount: transfer.amount,
        memo: Symbol::spec_short(BATCH_HALF),
        ..common
    }
}

/// What each of several proposals gets of the insurance that is collected for all: equal shares,
/// and the last one also what cannot be shared equally.
pub open spec fn insurance_shares(insurance: i128, count: nat) -> Seq<i128> {
    let share = insurance as int / count as int;
    Seq::new(
        count,
        |i: int|
            if i == count - 1 {
                (insurance - (count - 1) * share) as i128
            } else {
                share as i128
            },
    )
}

/// Identifiers in a row.
pub open spec fn ids_from(first: u64, count: nat) -> Seq<u64> {
    Seq::new(count, |i: int| (first + i) as u64)
}

impl EnvModel {
    /// One of several proposals.
    pub open spec fn batch_proposal(
        self,
        config: ConfigModel,
        common: TransferRequestModel,
        transfer: TransferDetails,
        insurance: i128,
    ) -> ProposalModel {
        self.new_proposal(
            config,
            batch_request(common, transfer),
            ProposalTerms {
                id: self.proposals.next_id,
                insurance,
                stake: 0,
                unlock_ledger: crate::proposals::unlock_ledger(
                    config,
                    transfer.amount,
                    self.now(),
                ),
                expires_at: crate::proposals::expiration_ledger(
                    config,
                    common.priority,
                    self.now(),
                ) as u64,
            },
        )
    }

    /// The state after one of several proposals was filed.
    pub open spec fn file_one(
        self,
        config: ConfigModel,
        common: TransferRequestModel,
        transfer: TransferDetails,
        insurance: i128,
    ) -> EnvModel {
        let proposal = self.batch_proposal(config, common, transfer, insurance);
        self.bump_proposal_id().file_proposal(proposal).announce_proposal(proposal)
    }

    /// The state after several proposals were filed, in order, each with its share of the
    /// insurance.
    pub open spec fn file_each(
        self,
        config: ConfigModel,
        common: TransferRequestModel,
        transfers: Seq<TransferDetails>,
        shares: Seq<i128>,
    ) -> EnvModel
        decreases transfers.len(),
    {
        if transfers.len() == 0 {
            self
        } else {
            self.file_each(config, common, transfers.drop_last(), shares).file_one(
                config,
                common,
                transfers.last(),
                shares[transfers.len() - 1],
            )
        }
    }

    /// The state after a batch of proposals was recorded.
    pub open spec fn record_batch(self, creator: Address, proposal_ids: Seq<u64>) -> EnvModel {
        self.bump_next_proposal_batch_id().with_proposal_batch(
            ProposalBatchModel {
                id: self.programs.next_proposal_batch_id,
                proposal_ids,
                creator,
                status: BatchStatus::Pending,
                created_at: self.now(),
                executed_count: 0,
                failed_count: 0,
            },
        )
    }

    /// The state after several proposals were made. The insurance is collected in the first
    /// token and shared.
    #[verifier::opaque]
    pub open spec fn create_batch(
        self,
        config: ConfigModel,
        common: TransferRequestModel,
        transfers: Seq<TransferDetails>,
        insurance: i128,
    ) -> EnvModel {
        let ids = ids_from(self.proposals.next_id, transfers.len());
        let collected = if transfers.len() > 0 {
            self.collect(transfers[0].token, common.proposer, insurance)
        } else {
            self
        };
        let filed = collected.reserve_spending(batch_total(transfers) as i128).file_each(
            config,
            common,
            transfers,
            insurance_shares(insurance, transfers.len()),
        ).act(Action::ExtendInstanceTtl);
        let announced = if insurance > 0 {
            filed.publish(
                Event::InsuranceLocked {
                    proposal_id: ids[0],
                    proposer: common.proposer,
                    amount: insurance,
                    token: transfers[0].token,
                },
            )
        } else {
            filed
        };
        announced.reputation_on_propose(common.proposer).record_batch(common.proposer, ids)
    }

    /// Whether several transfers stay within the limits of the day and the week.
    pub open spec fn batch_allowed(self, config: ConfigModel, transfers: Seq<TransferDetails>) -> 
        bool {
        let total = batch_total(transfers);
        &&& self.daily_spent(self.day_number()) + total <= config.daily_limit
        &&& self.weekly_spent(self.week_number()) + total <= config.weekly_limit
    }

    /// Whether proposing several transfers, where the limits allow it, stays within the limits
    /// of integers.
    pub open spec fn batch_propose_fits(
        self,
        proposer: Address,
        transfers: Seq<TransferDetails>,
        priority: Priority,
        offered: i128,
    ) -> bool {
        let total = batch_total(transfers);
        &&& self.has_room()
        &&& self.reputation(proposer).proposals_created < u32::MAX
        &&& self.config() matches Ok(config) ==> (transfers.len() <= MAX_BATCH_SIZE
            && amounts_refusal(transfers, config.spending_limit) is None ==> {
            &&& total <= i128::MAX
            &&& self.batch_allowed(config, transfers) ==> {
                &&& self.insurance_fits(total as i128)
                &&& self.settled_insurance(
                    total as i128,
                    self.reputation(proposer).score,
                    offered,
                ) is Ok ==> {
                    &&& transfers.len() == 0 ==> offered <= 0
                    &&& batch_delays_fit(config, transfers, priority, self.now())
                }
            }
        })
    }

    /// What proposing several transfers leaves behind.
    pub open spec fn batch_propose(
        self,
        common: TransferRequestModel,
        transfers: Seq<TransferDetails>,
    ) -> Outcome<Seq<u64>> {
        if transfers.len() > MAX_BATCH_SIZE {
            (self, Err(VaultError::BatchTooLarge))
        } else {
            match self.config() {
                Err(error) => (self, Err(error)),
                Ok(config) => if !self.may_propose(common.proposer) {
                    (self, Err(VaultError::InsufficientRole))
                } else if !self.velocity_allows(common.proposer, config.velocity_limit) {
                    (self, Err(VaultError::VelocityLimitExceeded))
                } else {
                    let counted = self.count_velocity(common.proposer, config.velocity_limit);
                    let total = batch_total(transfers);
                    if let Some(error) = amounts_refusal(transfers, config.spending_limit) {
                        (counted, Err(error))
                    } else if self.daily_spent(self.day_number()) + total > config.daily_limit {
                        (counted, Err(VaultError::ExceedsDailyLimit))
                    } else if self.weekly_spent(self.week_number()) + total
                        > config.weekly_limit {
                        (counted, Err(VaultError::ExceedsWeeklyLimit))
                    } else {
                        match self.settled_insurance(
                            total as i128,
                            self.reputation(common.proposer).score,
                            common.insurance_amount,
                        ) {
                            Err(error) => (counted, Err(error)),
                            Ok(insurance) => (
                                counted.create_batch(config, common, transfers, insurance),
                                Ok(ids_from(self.proposals.next_id, transfers.len())),
                            ),
                        }
                    }
                },
            }
        }
    }
}

/// A sum of positive amounts does not shrink with more of them.
pub(crate) proof fn lemma_batch_total_grows(transfers: Seq<TransferDetails>, n: int)
    requires
        0 <= n <= transfers.len(),
    ensures
        0 <= batch_total(transfers.take(n)) <= batch_total(transfers),
    decreases transfers.len(), n,
{
    if n < transfers.len() {
        lemma_batch_total_grows(transfers.drop_last(), n);
        assert(transfers.drop_last().take(n) =~= transfers.take(n));
    } else {
        assert(transfers.take(n) =~= transfers);
        if n > 0 {
            lemma_batch_total_grows(transfers.drop_last(), n - 1);
        }
    }
}

/// A refusal on account of the first amounts is a refusal on account of all.
proof fn lemma_amounts_refusal(transfers: Seq<TransferDetails>, limit: i128, n: int)
    requires
        0 <= n <= transfers.len(),
    ensures
        amounts_refusal(transfers.take(n), limit) is Some ==> amounts_refusal(transfers, limit)
            == amounts_refusal(transfers.take(n), limit),
    decreases transfers.len() - n,
{
    if n == transfers.len() {
        assert(transfers.take(n) =~= transfers);
    } else {
        lemma_amounts_refusal(transfers, limit, n + 1);
        assert(transfers.take(n + 1).drop_last() =~= transfers.take(n));
    }
}

/// Adds up the amounts of several transfers, up to the largest amount, unless one is refused.
pub(crate) fn check_amounts(transfers: &Vec<TransferDetails>, limit: i128) -> (r: Result<i128, VaultError>)
    ensures
        match amounts_refusal(transfers@, limit) {
            Some(error) => r == Err::<i128, VaultError>(error),
            None => r == Ok::<i128, VaultError>(
                crate::math::clamp_i128(batch_total(transfers@)),
            ),
        },
        0 <= batch_total(transfers@),
{
    let mut total: i128 = 0;
    let mut i: usize = 0;
    while i < transfers.len()
        invariant
            i <= transfers.len(),
            total == crate::math::clamp_i128(batch_total(transfers@.take(i as int))),
            amounts_refusal(transfers@.take(i as int), limit) is None,
        decreases transfers.len() - i,
    {
        proof {
            assert(transfers@.take(i + 1).drop_last() =~= transfers@.take(i as int));
            lemma_amounts_refusal(transfers@, limit, i + 1);
            lemma_batch_total_grows(transfers@, i + 1);
            lemma_batch_total_grows(transfers@, i as int);
        }
        let amount: i128 = transfers[i].amount;
        if amount <= 0 {
            return Err(VaultError::InvalidAmount);
        }
        if amount > limit {
            return Err(VaultError::ExceedsProposalLimit);
        }
        total = sat_add(total, amount);
        i += 1;
    }
    proof {
        assert(transfers@.take(transfers@.len() as int) =~= transfers@);
        lemma_batch_total_grows(transfers@, transfers@.len() as int);
    }
    Ok(total)
}

/// Equal shares of an amount do not exceed it.
pub(crate) proof fn lemma_shares_fit(insurance: int, count: int)
    requires
        insurance >= 0,
        count > 0,
    ensures
        0 <= insurance / count,
        0 <= count * (insurance / count) <= insurance,
{
    vstd::arithmetic::div_mod::lemma_fundamental_div_mod(insurance, count);
    vstd::arithmetic::div_mod::lemma_mod_bound(insurance, count);
    assert(0 <= insurance / count) by (nonlinear_arith)
        requires
            insurance >= 0,
            count > 0,
    ;
    assert(0 <= count * (insurance / count)) by (nonlinear_arith)
        requires
            0 <= insurance / count,
            count > 0,
    ;
}

/// Shares that were given out are some of all shares.
pub(crate) proof fn lemma_share_left(share: int, i: int, count: int)
    requires
        0 <= share,
        0 <= i < count,
    ensures
        0 <= i * share <= count * share,
        (i + 1) * share == i * share + share,
        (i + 1) * share <= count * share,
        i == count - 1 ==> (count - 1) * share == i * share,
{
    assert(0 <= i * share <= count * share) by (nonlinear_arith)
        requires
            0 <= share,
            0 <= i < count,
    ;
    assert((i + 1) * share == i * share + share) by (nonlinear_arith);
    assert((i + 1) * share <= count * share) by (nonlinear_arith)
        requires
            0 <= share,
            i + 1 <= count,
    ;
}

/// The insurance that is collected is not negative.
pub(crate) proof fn lemma_insurance_settled(env: EnvModel, amount: i128, score: u32, offered: i128)
    requires
        amount >= 0,
        env.settled_insurance(amount, score, offered) is Ok,
    ensures
        env.settled_insurance(amount, score, offered)->Ok_0 >= 0,
        env.settled_insurance(amount, score, offered)->Ok_0 == crate::math::max_int(
            offered as int,
            0,
        ),
{
    let bps = env.insurance_config().min_insurance_bps as int;
    assert(amount * bps >= 0) by (nonlinear_arith)
        requires
            amount >= 0,
            bps >= 0,
    ;
}

/// Files one of several proposals.
fn file_one(
    env: &mut Env,
    config: &Config,
    proposer: Address,
    transfer: &TransferDetails,
    priority: Priority,
    conditions: &Vec<Condition>,
    condition_logic: ConditionLogic,
    insurance: i128,
    Ghost(common): Ghost<TransferRequestModel>,
) -> (r: u64)
    requires
        config@.delays_fit(transfer.amount, old(env)@.now()),
        crate::proposals::expiration_ledger(config@, priority, old(env)@.now()) <= u64::MAX,
        old(env)@.proposals.next_id < u64::MAX,
        common.proposer == proposer,
        common.priority == priority,
        common.conditions == conditions@,
        common.condition_logic == condition_logic,
        common.depends_on == Seq::<u64>::empty(),
        common.execution_time is None,
    ensures
        r == old(env)@.proposals.next_id,
        final(env)@ == old(env)@.file_one(config@, common, *transfer, insurance),
        final(env)@.proposals.next_id == r + 1,
{
    let current_ledger: u64 = env.now();
    let proposal_id: u64 = storage::increment_proposal_id(env);
    let proposal = Proposal {
        id: proposal_id,
        proposer,
        recipient: transfer.recipient,
        token: transfer.token,
        amount: transfer.amount,
        memo: Symbol::short(BATCH_HALF),
        metadata: Table::new(),
        tags: Vec::new(),
        approvals: Vec::new(),
        abstentions: Vec::new(),
        attachments: Texts::new(),
        status: ProposalStatus::Pending,
        priority,
        conditions: copy_list(conditions),
        condition_logic,
        created_at: current_ledger,
        expires_at: calculate_expiration_ledger(config, &priority, current_ledger),
        unlock_ledger: new_unlock_ledger(config, transfer.amount, current_ledger),
        execution_time: None,
        insurance_amount: insurance,
        stake_amount: 0,
        gas_limit: new_gas_limit(env),
        gas_used: 0,
        snapshot_ledger: current_ledger,
        snapshot_signers: copy_list(&config.signers),
        depends_on: Vec::new(),
        is_swap: false,
        voting_deadline: new_voting_deadline(config, current_ledger),
    };
    assert(proposal@ == old(env)@.batch_proposal(config@, common, *transfer, insurance));
    file_proposal(env, &proposal);
    announce_proposal(env, &proposal);
    proposal_id
}

/// Files several proposals and records them as a batch.
fn create_batch(
    env: &mut Env,
    config: &Config,
    proposer: Address,
    transfers: &Vec<TransferDetails>,
    priority: Priority,
    conditions: &Vec<Condition>,
    condition_logic: ConditionLogic,
    insurance: i128,
    total: i128,
    Ghost(common): Ghost<TransferRequestModel>,
) -> (r: Vec<u64>)
    requires
        batch_delays_fit(config@, transfers@, priority, old(env)@.now()),
        old(env)@.has_room(),
        transfers@.len() <= MAX_BATCH_SIZE,
        0 <= insurance,
        transfers@.len() == 0 ==> insurance == 0,
        total == batch_total(transfers@),
        crate::math::fits_i128(old(env)@.daily_spent(old(env)@.day_number()) + total),
        crate::math::fits_i128(old(env)@.weekly_spent(old(env)@.week_number()) + total),
        old(env)@.reputation(proposer).proposals_created < u32::MAX,
        common.proposer == proposer,
        common.priority == priority,
        common.conditions == conditions@,
        common.condition_logic == condition_logic,
        common.depends_on == Seq::<u64>::empty(),
        common.execution_time is None,
    ensures
        r@ == ids_from(old(env)@.proposals.next_id, transfers@.len()),
        final(env)@ == old(env)@.create_batch(config@, common, transfers@, insurance),
{
    proof {
        reveal(EnvModel::create_batch);
    }
    if transfers.len() > 0 {
        collect(env, &transfers[0].token, &proposer, insurance);
    }
    let today: u64 = storage::get_day_number(env);
    let week: u64 = storage::get_week_number(env);
    storage::add_daily_spent(env, today, total);
    storage::add_weekly_spent(env, week, total);
    let share: i128 = if transfers.len() > 0 {
        divide(insurance, transfers.len() as i128)
    } else {
        0
    };
    let mut left: i128 = insurance;
    let ghost count = transfers@.len() as int;
    proof {
        if count > 0 {
            lemma_shares_fit(insurance as int, count);
        }
    }
    let ghost reserved = env@;
    let mut ids: Vec<u64> = Vec::new();
    let mut i: usize = 0;
    while i < transfers.len()
        invariant
            i <= transfers.len() <= MAX_BATCH_SIZE,
            batch_delays_fit(config@, transfers@, priority, env@.now()),
            reserved.has_room(),
            common.proposer == proposer,
            common.priority == priority,
            common.conditions == conditions@,
            common.condition_logic == condition_logic,
            common.depends_on == Seq::<u64>::empty(),
            common.execution_time is None,
            count == transfers@.len(),
            count > 0 ==> share == insurance as int / count,
            0 <= share,
            count > 0 ==> 0 <= count * share <= insurance,
            i < count ==> left == insurance - i * share,
            env@ == reserved.file_each(
                config@,
                common,
                transfers@.take(i as int),
                insurance_shares(insurance, transfers@.len()),
            ),
            env@.proposals.next_id == reserved.proposals.next_id + i,
            env@.members == reserved.members,
            env@.programs == reserved.programs,
            env@.ledger == reserved.ledger,
            ids@ =~= ids_from(reserved.proposals.next_id, i as nat),
        decreases transfers.len() - i,
    {
        assert(transfers@.take(i + 1).drop_last() =~= transfers@.take(i as int));
        proof {
            lemma_share_left(share as int, i as int, count);
        }
        let own: i128 = if i + 1 == transfers.len() {
            left
        } else {
            share
        };
        let id: u64 = file_one(
            env,
            config,
            proposer,
            &transfers[i],
            priority,
            conditions,
            condition_logic,
            own,
            Ghost(common),
        );
        ids.push(id);
        if i + 1 < transfers.len() {
            left = left - share;
        }
        i += 1;
    }
    assert(transfers@.take(transfers@.len() as int) =~= transfers@);
    storage::extend_instance_ttl(env);
    if insurance > 0 {
        env.publish(
            Event::InsuranceLocked {
                proposal_id: ids[0],
                proposer,
                amount: insurance,
                token: transfers[0].token,
            },
        );
    }
    VaultDAO::update_reputation_on_propose(env, &proposer);
    let created_at: u64 = env.now();
    let batch_id: u64 = storage::increment_proposal_batch_id(env);
    let batch = ProposalBatch {
        id: batch_id,
        proposal_ids: copy_list(&ids),
        creator: proposer,
        status: BatchStatus::Pending,
        created_at,
        executed_count: 0,
        failed_count: 0,
    };
    storage::set_proposal_batch(env, &batch);
    ids
}

impl VaultDAO {
    /// Proposes several transfers, possibly of different tokens, and records them as a batch.
    ///
    /// Limits hold for the sum of the amounts. The insurance is collected in the first token
    /// and shared among the proposals, all of which have the memo `batch`.
    pub fn batch_propose_transfers(
        env: &mut Env,
        proposer: Address,
        transfers: Vec<TransferDetails>,
        priority: Priority,
        conditions: Vec<Condition>,
        condition_logic: ConditionLogic,
        insurance_amount: i128,
    ) -> (r: Result<Vec<u64>, VaultError>)
        requires
            old(env)@.authorized(proposer),
            old(env)@.batch_propose_fits(proposer, transfers@, priority, insurance_amount),
        ensures
            (final(env)@, crate::errors::res_view(r)) == old(env)@.batch_propose(
                (TransferRequestModel {
                    proposer,
                    recipient: proposer,
                    token: proposer,
                    amount: 0,
                    memo: Symbol::empty(),
                    priority,
                    conditions: conditions@,
                    condition_logic,
                    insurance_amount,
                    depends_on: Seq::empty(),
                    execution_time: None,
                }),
                transfers@,
            ),
    {
        let ghost common = TransferRequestModel {
            proposer,
            recipient: proposer,
            token: proposer,
            amount: 0,
            memo: Symbol::empty(),
            priority,
            conditions: conditions@,
            condition_logic,
            insurance_amount,
            depends_on: Seq::empty(),
            execution_time: None,
        };
        if transfers.len() > MAX_BATCH_SIZE as usize {
            return Err(VaultError::BatchTooLarge);
        }
        let config = storage::get_config(env)?;
        let role = storage::get_role(env, &proposer);
        if role != Role::Treasurer && role != Role::Admin {
            return Err(VaultError::InsufficientRole);
        }
        if !storage::check_and_update_velocity(env, &proposer, &config.velocity_limit) {
            return Err(VaultError::VelocityLimitExceeded);
        }
        let total: i128 = check_amounts(&transfers, config.spending_limit)?;
        let spent_today: i128 = storage::get_daily_spent(env, storage::get_day_number(env));
        if sum_exceeds(spent_today, total, config.daily_limit) {
            return Err(VaultError::ExceedsDailyLimit);
        }
        let spent_week: i128 = storage::get_weekly_spent(env, storage::get_week_number(env));
        if sum_exceeds(spent_week, total, config.weekly_limit) {
            return Err(VaultError::ExceedsWeeklyLimit);
        }
        let score: u32 = storage::get_reputation(env, &proposer).score;
        let insurance: i128 = settle_insurance(env, total, score, insurance_amount)?;
        proof {
            lemma_insurance_settled(env@, total, score, insurance_amount);
        }
        Ok(
            create_batch(
                env,
                &config,
                proposer,
                &transfers,
                priority,
                &conditions,
                condition_logic,
                insurance,
                total,
                Ghost(common),
            ),
        )
    }
}

} // verus!
