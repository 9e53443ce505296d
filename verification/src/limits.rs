//! Tests of the conditions under which a call stays within the limits of its integers.

use vstd::prelude::*;

use crate::batch_proposals::{check_amounts, lemma_batch_total_grows};
use crate::batches::MAX_BATCH_OPS;
use crate::bridge::{total_of_assets, MAX_CROSS_VAULT_ACTIONS};
use crate::constants::{MAX_BATCH_SIZE, MIN_RECURRING_INTERVAL, PROPOSAL_EXPIRY_LEDGERS};
use crate::conditions::conditions_hold;
use crate::cross_vault::total_of_actions;
use crate::dex::{venue_of, SWAP_PRICE_IMPACT_BPS};
use crate::env::{Env, EnvModel};
use crate::errors::VaultError;
use crate::escrow::{check_milestones, shares_make_up_the_whole};
use crate::execution::check_execution;
use crate::fees::find_fee_rate;
use crate::locks::get_active_lock;
use crate::math::{divide, reduce, sat_mul_u64, sum_exceeds};
use crate::primitives::{list_contains, Address};
use crate::proposals::{check_spending, settle_insurance};
use crate::reputation::current_reputation;
use crate::storage;
use crate::streams::elapsed_seconds;
use crate::templates::check_plain_spending;
use crate::types::{
    Config, CrossChainAsset, DexConfig, ExecutionAnswers, Milestone, Observation, Priority, Proposal, ProposalModel, ProposalStatus,
    RecoveryStatus, Role, SubscriptionStatus, SwapProposal, TemplateOverrides, TransferDetails,
    VaultAction,
};
use crate::voting::{add_votes, find_ballot, find_counted, Vote};
use crate::VaultDAO;

verus! {

/// Whether a product fits an `i128`.
fn product_fits(a: i128, b: i128) -> (r: bool)
    ensures
        r == crate::math::fits_i128(a * b),
{
    a.checked_mul(b).is_some()
}

/// Whether a sum fits an `i128`.
fn sum_fits(a: i128, b: i128) -> (r: bool)
    ensures
        r == crate::math::fits_i128(a + b),
{
    a.checked_add(b).is_some()
}

/// Whether a difference fits an `i128`.
fn difference_fits(a: i128, b: i128) -> (r: bool)
    ensures
        r == crate::math::fits_i128(a - b),
{
    a.checked_sub(b).is_some()
}

/// Whether several transfers have a total that fits an `i128`.
fn total_fits(transfers: &Vec<TransferDetails>) -> (r: bool)
    ensures
        r == (crate::batch_proposals::batch_total(transfers@) <= i128::MAX),
{
    let mut total: i128 = 0;
    let mut i: usize = 0;
    while i < transfers.len()
        invariant
            i <= transfers.len(),
            0 <= total,
            total == crate::batch_proposals::batch_total(transfers@.take(i as int)),
        decreases transfers.len() - i,
    {
        assert(transfers@.take(i + 1).drop_last() =~= transfers@.take(i as int));
        if transfers[i].amount > 0 {
            match total.checked_add(transfers[i].amount) {
                Some(sum) => {
                    total = sum;
                },
                None => {
                    proof {
                        lemma_batch_total_grows(transfers@, i + 1);
                    }
                    return false;
                },
            }
        }
        i += 1;
    }
    assert(transfers@.take(transfers@.len() as int) =~= transfers@);
    true
}

/// Whether there is a ledger at which the lifetime of a proposal ends.
fn lifetime_fits(config: &Config, priority: Priority, now: u64) -> (r: bool)
    ensures
        r == (crate::proposals::expiration_ledger(config@, priority, now) <= u64::MAX),
{
    let configured: u64 = if config.default_voting_deadline >= PROPOSAL_EXPIRY_LEDGERS {
        config.default_voting_deadline
    } else {
        PROPOSAL_EXPIRY_LEDGERS
    };
    let lifetime: u64 = if priority == Priority::Low {
        sat_mul_u64(configured, 2)
    } else {
        configured
    };
    lifetime <= u64::MAX - now
}

/// Whether there are ledgers at which timelocks, voting deadlines and lifetimes of several new
/// proposals end.
fn find_batch_delays_fit(
    config: &Config,
    transfers: &Vec<TransferDetails>,
    priority: Priority,
    now: u64,
) -> (r: bool)
    ensures
        r == crate::batch_proposals::batch_delays_fit(config@, transfers@, priority, now),
{
    let mut i: usize = 0;
    while i < transfers.len()
        invariant
            i <= transfers.len(),
            forall|j: int|
                0 <= j < i ==> config@.unlock_fits((#[trigger] transfers@[j]).amount, now),
        decreases transfers.len() - i,
    {
        if !config.unlock_fits(transfers[i].amount, now) {
            return false;
        }
        i += 1;
    }
    transfers.len() == 0 || (config.deadline_fits(now) && lifetime_fits(config, priority, now))
}

/// Whether the yield of an operation, where the rules allow it, can be computed.
fn operation_fits(rules: &DexConfig, operation: &SwapProposal) -> (r: bool)
    ensures
        r == crate::dex::swap_fits(rules@, *operation),
{
    match operation {
        SwapProposal::Swap(dex, _, _, amount_in, _) => product_fits(*amount_in, 99)
            || SWAP_PRICE_IMPACT_BPS > rules.max_price_impact_bps || !list_contains(
            &rules.enabled_dexs,
            dex,
        ),
        _ => true,
    }
}

impl EnvModel {
    /// Whether the amount of a proposal can be changed to another.
    pub open spec fn amend_fits(self, proposal_id: u64, new_amount: i128) -> bool {
        self.proposal(proposal_id) matches Ok(proposal) ==> (new_amount > 0 ==> {
            &&& crate::math::fits_i128(new_amount - proposal.amount)
            &&& crate::math::fits_i128(proposal.amount - new_amount)
        })
    }

    /// Whether a recurring payment, where there is one, can be made once more.
    pub open spec fn recurring_fits(self, payment_id: u64) -> bool {
        self.recurring(payment_id) matches Ok(payment) ==> (payment.is_active && self.now()
            >= payment.next_payment_ledger ==> {
            &&& payment.amount > 0
            &&& payment.next_payment_ledger + payment.interval <= u64::MAX
            &&& payment.payment_count < u32::MAX
        })
    }

    /// Whether a template, where there is one, can be changed once more.
    pub open spec fn template_fits(self, template_id: u64) -> bool {
        self.template(template_id) matches Ok(template) ==> template.version < u32::MAX
    }
}

/// What the start of an execution leaves as it was.
proof fn lemma_start_frame(env: EnvModel, executor: Address, proposal_id: u64)
    requires
        env.proposal(proposal_id) is Ok,
    ensures
        ({
            let proposal = env.proposal(proposal_id)->Ok_0;
            let known = env.decay_reputation(executor);
            let (started, outcome) = env.start_execution(executor, proposal_id);
            &&& known.execution_refusal(proposal) == env.execution_refusal(proposal)
            &&& outcome is Ok ==> {
                &&& started.ledger == env.ledger
                &&& started.treasury == env.treasury
                &&& started.links == env.links
                &&& started.members == known.members
            }
        }),
{
    let proposal = env.proposal(proposal_id)->Ok_0;
    let known = env.decay_reputation(executor);
    let config = env.access.config->0;
    crate::voting::lemma_weighed_frame(env, known, config, proposal);
    crate::execution::lemma_hooks_frame(known, config.pre_execution_hooks, proposal.id, true);
}

impl Env {
    /// Whether an address may propose.
    fn may_propose(&self, addr: Address) -> (r: bool)
        ensures
            r == self@.may_propose(addr),
    {
        let role = storage::get_role(self, &addr);
        role == Role::Treasurer || role == Role::Admin
    }

    /// Whether the insurance that an amount needs can be computed.
    fn insurance_fits(&self, amount: i128) -> (r: bool)
        ensures
            r == self@.insurance_fits(amount),
    {
        let rules = storage::get_insurance_config(self);
        !(rules.enabled && amount >= rules.min_amount) || product_fits(
            amount,
            rules.min_insurance_bps as i128,
        )
    }

    /// Whether the stake that an amount needs can be computed.
    fn stake_fits(&self, amount: i128, score: u32) -> (r: bool)
        ensures
            r == self@.stake_fits(amount, score),
    {
        let rules = storage::get_staking_config(self);
        if !rules.enabled || amount < rules.min_amount {
            return true;
        }
        match amount.checked_mul(rules.base_stake_bps as i128) {
            Some(product) => {
                let share: i128 = divide(product, 10_000);
                let capped: i128 = if share <= rules.max_stake_amount {
                    share
                } else {
                    rules.max_stake_amount
                };
                score < rules.reputation_discount_threshold || product_fits(
                    capped,
                    rules.reputation_discount_percentage as i128,
                )
            },
            None => false,
        }
    }

    /// Whether proposing a transfer, where the limits allow it, stays within the limits of
    /// integers.
    pub fn propose_fits(&self, proposer: Address, amount: i128, offered: i128) -> (r: bool)
        ensures
            r == self@.propose_fits(proposer, amount, offered),
    {
        if !self.has_room() || storage::get_reputation(self, &proposer).proposals_created
            == u32::MAX {
            return false;
        }
        let score: u32 = current_reputation(self, &proposer).score;
        let config = match storage::get_config(self) {
            Ok(config) => config,
            Err(_) => {
                return true;
            },
        };
        if amount <= 0 || check_spending(self, &config, score, amount).is_err() {
            return true;
        }
        self.insurance_fits(amount) && (settle_insurance(self, amount, score, offered).is_err()
            || (self.stake_fits(amount, score) && config.delays_fit(amount, self.now())))
    }

    /// Whether proposing several transfers, where the limits allow it, stays within the limits
    /// of integers.
    pub fn batch_propose_fits(
        &self,
        proposer: Address,
        transfers: &Vec<TransferDetails>,
        priority: Priority,
        offered: i128,
    ) -> (r: bool)
        ensures
            r == self@.batch_propose_fits(proposer, transfers@, priority, offered),
    {
        let rep = storage::get_reputation(self, &proposer);
        if !self.has_room() || rep.proposals_created == u32::MAX {
            return false;
        }
        let config = match storage::get_config(self) {
            Ok(config) => config,
            Err(_) => {
                return true;
            },
        };
        if transfers.len() > MAX_BATCH_SIZE as usize {
            return true;
        }
        let total: i128 = match check_amounts(transfers, config.spending_limit) {
            Ok(total) => total,
            Err(_) => {
                return true;
            },
        };
        if !total_fits(transfers) {
            return false;
        }
        let today: i128 = storage::get_daily_spent(self, storage::get_day_number(self));
        let week: i128 = storage::get_weekly_spent(self, storage::get_week_number(self));
        if sum_exceeds(today, total, config.daily_limit) || sum_exceeds(
            week,
            total,
            config.weekly_limit,
        ) {
            return true;
        }
        self.insurance_fits(total) && (settle_insurance(self, total, rep.score, offered).is_err()
            || ((transfers.len() > 0 || offered <= 0) && find_batch_delays_fit(
            &config,
            transfers,
            priority,
            self.now(),
        )))
    }

    /// Whether slashing the insurance of a proposal stays within the limits of integers.
    fn insurance_slash_fits(&self, proposal: &Proposal) -> (r: bool)
        ensures
            r == self@.insurance_slash_fits(proposal@),
    {
        let rules = storage::get_insurance_config(self);
        if !rules.enabled || proposal.insurance_amount <= 0 {
            return true;
        }
        match proposal.insurance_amount.checked_mul(rules.slash_percentage as i128) {
            Some(product) => sum_fits(
                storage::get_insurance_pool(self, &proposal.token),
                divide(product, 100),
            ),
            None => false,
        }
    }

    /// Whether slashing the stake of a proposal stays within the limits of integers.
    fn stake_slash_fits(&self, proposal: &Proposal) -> (r: bool)
        ensures
            r == self@.stake_slash_fits(proposal@),
    {
        let rules = storage::get_staking_config(self);
        if !rules.enabled || proposal.stake_amount == 0 {
            return true;
        }
        match proposal.stake_amount.checked_mul(rules.slash_percentage as i128) {
            Some(product) => sum_fits(
                storage::get_stake_pool(self, &proposal.token),
                divide(product, 100),
            ),
            None => false,
        }
    }

    /// Whether slashing a proposal stays within the limits of integers.
    fn slash_fits(&self, proposal: &Proposal) -> (r: bool)
        ensures
            r == self@.slash_fits(proposal@),
    {
        self.insurance_slash_fits(proposal) && self.stake_slash_fits(proposal)
    }

    /// Whether what new votes on a pending proposal lead to stays within the limits of integers.
    fn outcome_fits(&self, config: &Config, proposal: &Proposal) -> (r: bool)
        requires
            proposal.status == ProposalStatus::Pending,
        ensures
            r == self@.outcome_fits(config@, proposal@),
    {
        let now: u64 = self.now();
        if proposal.expires_at > 0 && now > proposal.expires_at {
            return true;
        }
        if proposal.voting_deadline > 0 && now > proposal.voting_deadline {
            return self.slash_fits(proposal);
        }
        let cast: u128 = proposal.approvals.len() as u128 + proposal.abstentions.len() as u128;
        let needed: u32 = VaultDAO::effective_quorum(config);
        config.unlock_fits(proposal.amount, now) || proposal.execution_time.is_some() || cast
            < needed as u128 || !VaultDAO::is_threshold_reached(self, config, proposal)
    }

    /// Whether a vote of a signer on a proposal, where it counts, stays within the limits of
    /// integers.
    pub fn vote_fits(&self, signer: Address, proposal_id: u64, vote: Vote) -> (r: bool)
        ensures
            r == self@.vote_fits(signer, proposal_id, vote),
    {
        self.has_room() && match (storage::get_config(self), storage::get_proposal(
            self,
            proposal_id,
        )) {
            (Ok(config), Ok(proposal)) => {
                let mut proposal = proposal;
                let voters = find_counted(&proposal, &find_ballot(self, &signer, vote));
                if list_contains(&config.signers, &signer) && list_contains(
                    &proposal.snapshot_signers,
                    &signer,
                ) && proposal.status == ProposalStatus::Pending && voters.len() > 0 {
                    add_votes(&mut proposal, vote, &voters);
                    self.outcome_fits(&config, &proposal)
                } else {
                    true
                }
            },
            _ => true,
        }
    }

    /// Whether cancelling a proposal stays within the limits of integers.
    pub fn cancel_fits(&self, canceller: Address, proposal_id: u64) -> (r: bool)
        ensures
            r == self@.cancel_fits(canceller, proposal_id),
    {
        self.has_room() && match storage::get_proposal(self, proposal_id) {
            Ok(proposal) => {
                let rejects = proposal.status == ProposalStatus::Pending && canceller
                    != proposal.proposer && storage::get_role(self, &canceller) == Role::Admin;
                !rejects || (self.slash_fits(&proposal) && storage::get_reputation(
                    self,
                    &proposal.proposer,
                ).proposals_rejected < u32::MAX)
            },
            Err(_) => true,
        }
    }

    /// Whether the amount of a proposal can be changed to another.
    pub fn amend_fits(&self, proposal_id: u64, new_amount: i128) -> (r: bool)
        ensures
            r == self@.amend_fits(proposal_id, new_amount),
    {
        match storage::get_proposal(self, proposal_id) {
            Ok(proposal) => new_amount <= 0 || (difference_fits(new_amount, proposal.amount)
                && difference_fits(proposal.amount, new_amount)),
            Err(_) => true,
        }
    }

    /// Whether a fee can be computed.
    pub fn fee_fits(&self, user: Address, token: Address, amount: i128) -> (r: bool)
        ensures
            r == self@.fee_fits(user, token, amount),
    {
        let fees = storage::get_fee_structure(self);
        if !fees.enabled {
            return true;
        }
        let rate: u32 = find_fee_rate(self, &user, &token);
        let trusted = storage::get_reputation(self, &user).score
            >= fees.reputation_discount_threshold;
        match amount.checked_mul(rate as i128) {
            Some(product) => !trusted || product_fits(
                divide(product, 10_000),
                fees.reputation_discount_percentage as i128,
            ),
            None => false,
        }
    }

    /// The fee of a user with a score, in a state with the same ledger and treasury, where it can be
    /// computed and collected.
    fn fee_to_collect(
        &self,
        user: &Address,
        token: &Address,
        amount: i128,
        score: u32,
        Ghost(state): Ghost<EnvModel>,
    ) -> (r: Option<i128>)
        requires
            state.ledger == self@.ledger,
            state.treasury == self@.treasury,
            state.reputation(*user).score == score,
        ensures
            match r {
                Some(fee) => state.fee_collection_fits(*user, *token, amount) && fee == state.fee(
                    *user,
                    *token,
                    amount,
                ).final_fee,
                None => !state.fee_collection_fits(*user, *token, amount),
            },
    {
        let fees = storage::get_fee_structure(self);
        assert(fees@ == state.fee_structure());
        if !fees.enabled {
            return Some(0);
        }
        let rate: u32 = find_fee_rate(self, user, token);
        assert(rate == state.fee_rate(*user, *token));
        let base: i128 = match amount.checked_mul(rate as i128) {
            Some(product) => divide(product, 10_000),
            None => {
                return None;
            },
        };
        let mut discount: i128 = 0;
        if score >= fees.reputation_discount_threshold {
            match base.checked_mul(fees.reputation_discount_percentage as i128) {
                Some(product) => {
                    discount = divide(product, 100);
                },
                None => {
                    return None;
                },
            }
        }
        let fee: i128 = reduce(base, discount);
        if fee == 0 || (sum_fits(storage::get_fees_collected(self, token), fee) && sum_fits(
            storage::get_user_volume(self, user, token),
            amount,
        )) {
            Some(fee)
        } else {
            None
        }
    }

    /// What the vault has to hold for a proposal whose proposer has a score, in a state with the
    /// same ledger, treasury and links, or that it need not hold anything because the proposal
    /// is not charged; none where that leaves the limits of integers.
    fn payment(
        &self,
        proposal: &Proposal,
        observations: &Vec<Observation>,
        score: u32,
        Ghost(state): Ghost<EnvModel>,
    ) -> (r: Option<Option<i128>>)
        requires
            observations@.len() >= proposal.conditions@.len(),
            state.ledger == self@.ledger,
            state.treasury == self@.treasury,
            state.links == self@.links,
            state.reputation(proposal.proposer).score == score,
        ensures
            match r {
                Some(total) => {
                    &&& state.payment_fits(proposal@, observations@)
                    &&& match state.charge(proposal@, observations@).1 {
                        Ok(fee) => total is Some && total->0 == proposal.amount
                            + proposal.insurance_amount + fee,
                        Err(_) => total is None,
                    }
                },
                None => !state.payment_fits(proposal@, observations@),
            },
    {
        proof {
            crate::conditions::lemma_conditions_same(
                self@,
                state,
                proposal@.conditions,
                observations@,
            );
        }
        let cost: u64 = VaultDAO::calculate_execution_fee(self, proposal).total_fee;
        assert(cost == state.execution_fee(proposal@).total_fee);
        if (proposal.conditions.len() > 0 && !conditions_hold(self, proposal, observations)) || (
        proposal.gas_limit > 0 && cost > proposal.gas_limit) {
            return Some(None);
        }
        match self.fee_to_collect(
            &proposal.proposer,
            &proposal.token,
            proposal.amount,
            score,
            Ghost(state),
        ) {
            Some(fee) => match proposal.amount.checked_add(proposal.insurance_amount) {
                Some(sum) => match sum.checked_add(fee) {
                    Some(total) => Some(Some(total)),
                    None => None,
                },
                None => None,
            },
            None => None,
        }
    }

    /// Whether charging a proposal, where its conditions are met and its cost is within its
    /// limit, and summing up what the vault has to hold stay within the limits of integers.
    pub fn payment_fits(&self, proposal: &Proposal, observations: &Vec<Observation>) -> (r: bool)
        requires
            observations@.len() >= proposal.conditions@.len(),
        ensures
            r == self@.payment_fits(proposal@, observations@),
    {
        let score: u32 = storage::get_reputation(self, &proposal.proposer).score;
        self.payment(proposal, observations, score, Ghost(self@)).is_some()
    }

    /// Whether the execution of a proposal can be counted.
    fn completion_fits(&self, proposal: &Proposal) -> (r: bool)
        ensures
            r == self@.completion_fits(proposal@),
    {
        self.has_room() && storage::get_reputation(self, &proposal.proposer).proposals_executed
            < u32::MAX
    }

    /// Whether the outcome of an execution can be counted.
    pub fn finish_fits(
        &self,
        config: &Config,
        proposal: &Proposal,
        outcome: &Result<(), VaultError>,
    ) -> (r: bool)
        ensures
            r == self@.finish_fits(config@, proposal@, *outcome),
    {
        match outcome {
            Ok(()) => self.completion_fits(proposal),
            Err(error) => {
                let retried: u32 = match storage::get_retry_state(self, proposal.id) {
                    Some(state) => state.retry_count,
                    None => 0,
                };
                retried < u32::MAX || !config.retry_config.enabled
                    || !VaultDAO::is_retryable_error(error)
            },
        }
    }

    /// Whether executing a proposal, as far as it comes, stays within the limits of integers.
    pub fn execute_fits(
        &self,
        executor: Address,
        proposal_id: u64,
        answers: &ExecutionAnswers,
    ) -> (r: bool)
        requires
            self@.proposal(proposal_id) matches Ok(proposal) ==> answers.observations@.len()
                >= proposal.conditions.len(),
        ensures
            r == self@.execute_fits(executor, proposal_id, answers@),
    {
        let proposal = match storage::get_proposal(self, proposal_id) {
            Ok(proposal) => proposal,
            Err(_) => {
                return true;
            },
        };
        proof {
            lemma_start_frame(self@, executor, proposal_id);
        }
        if proposal.status != ProposalStatus::Approved || self.now() > proposal.expires_at
            || check_execution(self, &proposal).is_err() {
            return true;
        }
        let score: u32 = if executor == proposal.proposer {
            current_reputation(self, &executor).score
        } else {
            storage::get_reputation(self, &proposal.proposer).score
        };
        let ghost started = self@.start_execution(executor, proposal_id).0;
        match self.payment(&proposal, &answers.observations, score, Ghost(started)) {
            Some(Some(total)) => answers.balance < total || !answers.transferred
                || self.completion_fits(&proposal),
            Some(None) => true,
            None => false,
        }
    }

    /// Whether every proposal is stored under its own identifier.
    pub fn records_keyed(&self) -> (r: bool)
        ensures
            r == self@.records_keyed(),
    {
        let keys = self.proposals.records.keys();
        let mut i: usize = 0;
        while i < keys.len()
            invariant
                i <= keys.len(),
                forall|k: u64| #[trigger]
                    keys@.contains(k) <==> self.proposals.records@.contains_key(k),
                forall|j: int|
                    0 <= j < i ==> self.proposals.records@[#[trigger] keys@[j]].id == keys@[j],
            decreases keys.len() - i,
        {
            let key: u64 = keys[i];
            assert(keys@.contains(key));
            match self.proposals.records.get(&key) {
                Some(record) => {
                    if record.id != key {
                        return false;
                    }
                },
                None => {},
            }
            i += 1;
        }
        assert forall|id: u64| #[trigger]
            self@.proposals.records.contains_key(
                id,
            ) implies self@.proposals.records[id].id == id by {
            assert(keys@.contains(id));
        }
        true
    }

    /// Whether executing several proposals, no more than a batch holds, stays within the limits
    /// of integers.
    pub fn batch_execute_fits(&self, ids: &Vec<u64>) -> (r: bool)
        ensures
            r == self@.batch_execute_fits(ids@),
    {
        if VaultDAO::begin_batch(self, ids).is_err() {
            return true;
        }
        let mut i: usize = 0;
        while i < ids.len()
            invariant
                i <= ids.len(),
                self@.batch_config(ids@) is Ok,
                forall|j: int|
                    0 <= j < i ==> (self@.proposal(#[trigger] ids@[j]) matches Ok(proposal)
                        ==> self@.batch_item_fits(proposal, ids@.len())),
            decreases ids.len() - i,
        {
            match storage::get_proposal(self, ids[i]) {
                Ok(proposal) => {
                    let executed: u32 = storage::get_reputation(
                        self,
                        &proposal.proposer,
                    ).proposals_executed;
                    let counted = ids.len() <= u32::MAX as usize && executed <= u32::MAX
                        - ids.len() as u32;
                    if proposal.status == ProposalStatus::Approved && (!counted || !sum_fits(
                        proposal.amount,
                        proposal.stake_amount,
                    )) {
                        assert(self@.proposal(ids@[i as int]) == Ok::<
                            ProposalModel,
                            crate::errors::VaultError,
                        >(proposal@));
                        return false;
                    }
                },
                Err(_) => {},
            }
            i += 1;
        }
        true
    }

    /// Whether a batch, where there is one, can have been created.
    pub fn batch_fits(&self, batch_id: u64) -> (r: bool)
        ensures
            r == self@.batch_fits(batch_id),
    {
        let batch = match storage::get_batch(self, batch_id) {
            Ok(batch) => batch,
            Err(_) => {
                return true;
            },
        };
        let mut i: usize = 0;
        while i < batch.operations.len()
            invariant
                i <= batch.operations.len(),
                crate::errors::res_view(
                    Ok::<crate::types::BatchTransaction, crate::errors::VaultError>(batch),
                ) == self@.batch(batch_id),
                forall|j: int| 0 <= j < i ==> (#[trigger] batch.operations@[j]).amount > 0,
            decreases batch.operations.len() - i,
        {
            if batch.operations[i].amount <= 0 {
                assert(batch@.operations[i as int].amount <= 0);
                return false;
            }
            i += 1;
        }
        batch.operations.len() <= MAX_BATCH_OPS
    }

    /// Whether an escrow, where there is one, is valid.
    pub fn escrow_fits(&self, escrow_id: u64) -> (r: bool)
        ensures
            r == self@.escrow_fits(escrow_id),
    {
        match storage::get_escrow(self, escrow_id) {
            Ok(escrow) => 0 <= escrow.released_amount && escrow.released_amount
                <= escrow.total_amount && shares_make_up_the_whole(&escrow.milestones),
            Err(_) => true,
        }
    }

    /// Whether a stream is valid and can be settled at present.
    pub fn stream_fits(&self, stream_id: u64) -> (r: bool)
        ensures
            r == self@.stream_fits(stream_id),
    {
        match storage::get_streaming_payment(self, stream_id) {
            Ok(stream) => stream.rate > 0 && 0 <= stream.claimed_amount && stream.claimed_amount
                <= stream.total_amount && elapsed_seconds(
                &stream,
                self.ledger.timestamp,
            ) <= u64::MAX - stream.accumulated_seconds,
            Err(_) => true,
        }
    }

    /// Whether a recurring payment that is due can be made once more.
    pub fn recurring_fits(&self, payment_id: u64) -> (r: bool)
        ensures
            r == self@.recurring_fits(payment_id),
    {
        match storage::get_recurring_payment(self, payment_id) {
            Ok(payment) => !payment.is_active || self.now() < payment.next_payment_ledger || (
            payment.amount > 0 && payment.interval <= u64::MAX - payment.next_payment_ledger
                && payment.payment_count < u32::MAX),
            Err(_) => true,
        }
    }

    /// Whether there is a ledger at which a new recurring payment, where it is allowed, is due.
    pub fn schedule_fits(
        &self,
        proposer: Address,
        recipient: Address,
        amount: i128,
        interval: u64,
    ) -> (r: bool)
        ensures
            r == self@.schedule_fits(proposer, recipient, amount, interval),
    {
        self.has_room() && (interval <= u64::MAX - self.now() || !self.may_propose(proposer)
            || amount <= 0 || VaultDAO::validate_recipient(self, &recipient).is_err() || interval
            < MIN_RECURRING_INTERVAL)
    }

    /// Whether there is a time at which a new stream, where it is allowed, ends.
    pub fn stream_creation_fits(
        &self,
        sender: Address,
        recipient: Address,
        rate: i128,
        total_amount: i128,
        duration_secs: u64,
    ) -> (r: bool)
        ensures
            r == self@.stream_creation_fits(sender, recipient, rate, total_amount, duration_secs),
    {
        self.has_room() && (duration_secs <= u64::MAX - self.ledger.timestamp
            || !self.may_propose(sender) || rate <= 0 || total_amount <= 0
            || VaultDAO::validate_recipient(self, &recipient).is_err())
    }

    /// Whether there is a ledger at which a new escrow, where it is allowed, expires.
    pub fn escrow_creation_fits(
        &self,
        amount: i128,
        milestones: &Vec<Milestone>,
        duration: u64,
    ) -> (r: bool)
        ensures
            r == self@.escrow_creation_fits(amount, milestones@, duration),
    {
        self.has_room() && (duration <= u64::MAX - self.now() || amount <= 0 || !check_milestones(
            milestones,
        ))
    }

    /// Whether there is a ledger at which a new subscription, where it is allowed, is renewed.
    pub fn subscription_fits(&self, amount: i128, interval: u64) -> (r: bool)
        ensures
            r == self@.subscription_fits(amount, interval),
    {
        self.has_room() && (interval <= u64::MAX - self.now() || amount <= 0
            || !storage::is_initialized(self))
    }

    /// Whether a subscription that is due can be renewed without exceeding the largest counters.
    pub fn renewal_fits(&self, caller: Address, id: u64) -> (r: bool)
        ensures
            r == self@.renewal_fits(caller, id),
    {
        match storage::get_subscription(self, id) {
            Ok(sub) => {
                let due = sub.status == SubscriptionStatus::Active && self.now()
                    >= sub.next_renewal_ledger && (sub.auto_renew || caller == sub.subscriber);
                !due || (sub.total_payments < u32::MAX && sub.interval_ledgers <= u64::MAX
                    - self.now())
            },
            Err(_) => true,
        }
    }

    /// Whether there is a ledger at which a new lock, where it is allowed, ends.
    pub fn lock_fits(&self, owner: Address, amount: i128, duration: u64) -> (r: bool)
        ensures
            r == self@.lock_fits(owner, amount, duration),
    {
        let rules = storage::get_time_weighted_config(self);
        let locked = match storage::get_token_lock(self, &owner) {
            Some(lock) => lock.is_active,
            None => false,
        };
        duration <= u64::MAX - self.now() || locked || !rules.enabled || amount <= 0 || duration
            < rules.min_lock_duration || duration > rules.max_lock_duration
    }

    /// Whether there is a ledger at which a lock, once extended, ends.
    pub fn extension_fits(&self, owner: Address, additional: u64) -> (r: bool)
        ensures
            r == self@.extension_fits(owner, additional),
    {
        match get_active_lock(self, &owner) {
            Ok(lock) => {
                let remaining: u64 = lock.unlock_at.saturating_sub(self.now());
                match remaining.checked_add(additional) {
                    Some(duration) => duration
                        > storage::get_time_weighted_config(self).max_lock_duration || duration
                        <= u64::MAX - self.now(),
                    None => false,
                }
            },
            Err(_) => true,
        }
    }

    /// Whether the penalty of a lock can be computed and pooled.
    pub fn penalty_fits(&self, owner: Address) -> (r: bool)
        ensures
            r == self@.penalty_fits(owner),
    {
        match get_active_lock(self, &owner) {
            Ok(lock) => {
                if self.now() >= lock.unlock_at {
                    return true;
                }
                let rules = storage::get_time_weighted_config(self);
                match lock.amount.checked_mul(rules.early_unlock_penalty_bps as i128) {
                    Some(product) => lock.amount > 0 && sum_fits(
                        storage::get_insurance_pool(self, &lock.token),
                        divide(product, 10_000),
                    ),
                    None => false,
                }
            },
            Err(_) => true,
        }
    }

    /// Whether the operation of a proposal, where it may be executed, can be computed and
    /// counted for the proposer.
    pub fn swap_execution_fits(&self, proposal_id: u64) -> (r: bool)
        ensures
            r == self@.swap_execution_fits(proposal_id),
    {
        match (
            storage::get_proposal(self, proposal_id),
            storage::get_dex_config(self),
            storage::get_swap_proposal(self, proposal_id),
        ) {
            (Ok(proposal), Some(rules), Some(operation)) => {
                let now: u64 = self.now();
                if !proposal.is_swap || proposal.status != ProposalStatus::Approved || now
                    > proposal.expires_at || (proposal.unlock_ledger > 0 && now
                    < proposal.unlock_ledger) {
                    return true;
                }
                operation_fits(&rules, &operation) && (storage::get_reputation(
                    self,
                    &proposal.proposer,
                ).proposals_executed < u32::MAX || VaultDAO::perform_swap(
                    self,
                    &rules,
                    &operation,
                ).is_err())
            },
            _ => true,
        }
    }

    /// Whether proposing an operation, where it is allowed, stays within the limits of
    /// integers.
    pub fn swap_proposal_fits(
        &self,
        proposer: Address,
        operation: SwapProposal,
        priority: Priority,
    ) -> (r: bool)
        ensures
            r == self@.swap_proposal_fits(proposer, operation, priority),
    {
        if !self.has_room() {
            return false;
        }
        let config = match storage::get_config(self) {
            Ok(config) => config,
            Err(_) => {
                return true;
            },
        };
        let listed = match storage::get_dex_config(self) {
            Some(rules) => list_contains(&rules.enabled_dexs, &venue_of(&operation)),
            None => false,
        };
        !listed || !self.may_propose(proposer) || (storage::get_reputation(
            self,
            &proposer,
        ).proposals_created < u32::MAX && lifetime_fits(&config, priority, self.now())
            && config.deadline_fits(self.now()))
    }

    /// Whether proposing actions towards other vaults, where it is allowed, stays within the
    /// limits of integers.
    pub fn cross_vault_fits(&self, proposer: Address, actions: &Vec<VaultAction>) -> (r: bool)
        ensures
            r == self@.cross_vault_fits(proposer, actions@),
    {
        self.has_room() && match (storage::get_config(self), total_of_actions(actions)) {
            (Ok(config), Some(total)) => actions.len() == 0 || !self.may_propose(proposer)
                || config.delays_fit(total, self.now()),
            _ => true,
        }
    }

    /// Whether proposing a transfer over the bridge, where it is allowed, stays within the
    /// limits of integers.
    pub fn bridge_transfer_fits(&self, proposer: Address, assets: &Vec<CrossChainAsset>) -> (r: bool)
        ensures
            r == self@.bridge_transfer_fits(proposer, assets@),
    {
        let enabled = match storage::get_bridge_config(self) {
            Some(bridge) => bridge.enabled,
            None => false,
        };
        self.has_room() && match (storage::get_config(self), total_of_assets(assets)) {
            (Ok(config), Some(total)) => !enabled || assets.len() == 0 || assets.len()
                > MAX_CROSS_VAULT_ACTIONS || !self.may_propose(proposer) || config.delays_fit(
                total,
                self.now(),
            ),
            _ => true,
        }
    }

    /// Whether proposing from a template, where the limits allow it, stays within the limits of
    /// integers.
    pub fn template_proposal_fits(&self, template_id: u64, overrides: TemplateOverrides) -> (r: bool)
        ensures
            r == self@.template_proposal_fits(template_id, overrides),
    {
        self.has_room() && match (storage::get_template(self, template_id), storage::get_config(
            self,
        )) {
            (Ok(template), Ok(config)) => {
                let amount: i128 = if overrides.override_amount {
                    overrides.amount
                } else {
                    template.amount
                };
                check_plain_spending(self, &config, amount).is_err() || config.delays_fit(
                    amount,
                    self.now(),
                )
            },
            _ => true,
        }
    }

    /// Whether there is a ledger from which on a recovery, once approved, can be executed.
    pub fn recovery_fits(&self, proposal_id: u64) -> (r: bool)
        ensures
            r == self@.recovery_fits(proposal_id),
    {
        match (storage::get_config(self), storage::get_recovery_proposal(self, proposal_id)) {
            (Ok(config), Ok(proposal)) => {
                let rules = &config.recovery_config;
                proposal.status != RecoveryStatus::Pending || proposal.approvals.len() as u128 + 1
                    < rules.threshold as u128 || rules.delay <= u64::MAX - self.now()
            },
            _ => true,
        }
    }

    /// Whether a template, where there is one, can be changed once more.
    pub fn template_fits(&self, template_id: u64) -> (r: bool)
        ensures
            r == self@.template_fits(template_id),
    {
        match storage::get_template(self, template_id) {
            Ok(template) => template.version < u32::MAX,
            Err(_) => true,
        }
    }
}

} // verus!
