//! Proposals to transfer tokens from the vault.

use vstd::prelude::*;

use crate::constants::PROPOSAL_EXPIRY_LEDGERS;
use crate::costs::{new_gas_limit, publish_metrics};
use crate::env::{Action, Env, EnvModel, Event};
use crate::errors::VaultError;
use crate::math::{divide, sat_add, sat_mul, sat_mul_u64, sat_sub, sum_exceeds};
use crate::primitives::{copy_list, Address, Symbol, Texts};
use crate::reputation::current_reputation;
use crate::storage;
use crate::table::Table;
use crate::types::{
    AuditAction, Condition, ConditionLogic, Config, ConfigModel, Priority, Proposal, ProposalModel,
    ProposalStatus, Role, StakeRecord, TransferRequest, TransferRequestModel,
};
use crate::VaultDAO;

verus! {

/// What a call leaves behind: the state, and the answer or the reason for refusal.
pub type Outcome<T> = (EnvModel, Result<T, VaultError>);

/// What is settled about a new proposal before it is stored.
pub ghost struct ProposalTerms {
    pub id: u64,
    pub insurance: i128,
    pub stake: i128,
    pub unlock_ledger: u64,
    pub expires_at: u64,
}

/// Score from which on proposers may spend, and insure, on better terms.
pub const TRUSTED_SCORE: u32 = 750;

/// The most that a proposer with the given score may propose at once: two or three times the
/// limit from a high score on.
pub open spec fn proposal_limit(limit: i128, score: u32) -> int {
    if score >= 900 {
        limit * 3
    } else if score >= 800 {
        limit * 2
    } else {
        limit as int
    }
}

/// The most that may be spent in a period in which a proposer with the given score proposes:
/// one and a half times the limit from a good score on.
pub open spec fn period_limit(limit: i128, score: u32) -> i128 {
    if score >= TRUSTED_SCORE {
        crate::math::clamp_i128(crate::math::quotient(limit * 3, 2))
    } else {
        limit
    }
}

/// The ledger from which on an amount may be paid; zero where it is not locked.
pub open spec fn unlock_ledger(config: ConfigModel, amount: i128, now: u64) -> u64 {
    if amount >= config.timelock_threshold {
        (now + config.timelock_delay) as u64
    } else {
        0
    }
}

/// The last ledger at which a new proposal can be voted on; zero where there is none.
pub open spec fn voting_deadline(config: ConfigModel, now: u64) -> u64 {
    if config.default_voting_deadline > 0 {
        (now + config.default_voting_deadline) as u64
    } else {
        0
    }
}

/// Why an execution ledger is refused, if it is: it has to lie ahead, and not before the
/// timelock ends.
pub open spec fn schedule_refusal(execution_time: u64, now: u64, timelock_end: u64) -> Option<
    VaultError,
> {
    if execution_time <= now {
        Some(VaultError::TimelockNotExpired)
    } else if execution_time < timelock_end {
        Some(VaultError::TimelockNotExpired)
    } else {
        None
    }
}

/// The last ledger of a proposal: the configured deadline, but at least the usual one; twice
/// that for proposals of low priority.
pub open spec fn expiration_ledger(config: ConfigModel, priority: Priority, now: u64) -> int {
    let configured = crate::math::max_int(
        config.default_voting_deadline as int,
        PROPOSAL_EXPIRY_LEDGERS as int,
    );
    let multiplier: int = if priority == Priority::Low {
        2
    } else {
        1
    };
    now + crate::math::clamp_u64(configured * multiplier)
}

impl EnvModel {
    /// Whether an address may propose.
    pub open spec fn may_propose(self, addr: Address) -> bool {
        self.role(addr) == Role::Treasurer || self.role(addr) == Role::Admin
    }

    /// Why an amount is more than may be spent, if it is.
    pub open spec fn spending_refusal(
        self,
        config: ConfigModel,
        score: u32,
        amount: i128,
    ) -> Option<VaultError> {
        if amount > proposal_limit(config.spending_limit, score) {
            Some(VaultError::ExceedsProposalLimit)
        } else if self.daily_spent(self.day_number()) + amount > period_limit(
            config.daily_limit,
            score,
        ) {
            Some(VaultError::ExceedsDailyLimit)
        } else if self.weekly_spent(self.week_number()) + amount > period_limit(
            config.weekly_limit,
            score,
        ) {
            Some(VaultError::ExceedsWeeklyLimit)
        } else {
            None
        }
    }

    /// The insurance that an amount needs at least, if it needs any. A good score halves it.
    pub open spec fn required_insurance(self, amount: i128, score: u32) -> Option<int> {
        let rules = self.insurance_config();
        if rules.enabled && amount >= rules.min_amount {
            let full = crate::math::quotient(amount * rules.min_insurance_bps, 10_000);
            Some(
                if score >= TRUSTED_SCORE {
                    crate::math::quotient(full, 2)
                } else {
                    full
                },
            )
        } else {
            None
        }
    }

    /// Whether the insurance that an amount needs can be computed.
    pub open spec fn insurance_fits(self, amount: i128) -> bool {
        let rules = self.insurance_config();
        rules.enabled && amount >= rules.min_amount ==> crate::math::fits_i128(
            amount * rules.min_insurance_bps,
        )
    }

    /// The insurance that is collected, or the refusal of an offer that is too low.
    pub open spec fn settled_insurance(self, amount: i128, score: u32, offered: i128) -> Result<
        i128,
        VaultError,
    > {
        match self.required_insurance(amount, score) {
            Some(required) => if offered < required {
                Err(VaultError::InsuranceInsufficient)
            } else {
                Ok(offered)
            },
            None => Ok(crate::math::max_int(offered as int, 0) as i128),
        }
    }

    /// The stake that an amount needs: a share of it, capped, and less from a good score on.
    pub open spec fn required_stake(self, amount: i128, score: u32) -> i128 {
        let rules = self.staking_config();
        if rules.enabled && amount >= rules.min_amount {
            let capped = crate::math::min_int(
                crate::math::quotient(amount * rules.base_stake_bps, 10_000),
                rules.max_stake_amount as int,
            );
            if score >= rules.reputation_discount_threshold {
                let discount = crate::math::quotient(
                    capped * rules.reputation_discount_percentage,
                    100,
                );
                crate::math::clamp_i128(capped - discount)
            } else {
                capped as i128
            }
        } else {
            0
        }
    }

    /// Whether the stake that an amount needs can be computed.
    pub open spec fn stake_fits(self, amount: i128, score: u32) -> bool {
        let rules = self.staking_config();
        rules.enabled && amount >= rules.min_amount ==> {
            let share = crate::math::quotient(amount * rules.base_stake_bps, 10_000);
            let capped = crate::math::min_int(share, rules.max_stake_amount as int);
            &&& crate::math::fits_i128(amount * rules.base_stake_bps)
            &&& score >= rules.reputation_discount_threshold ==> crate::math::fits_i128(
                capped * rules.reputation_discount_percentage,
            )
        }
    }

    /// The state after an amount, where it is positive, was collected.
    pub open spec fn collect(self, token: Address, from: Address, amount: i128) -> EnvModel {
        if amount > 0 {
            self.act(Action::TransferToVault { token, from, amount })
        } else {
            self
        }
    }

    /// The state after an amount was reserved against the limits of the day and the week.
    pub open spec fn reserve_spending(self, amount: i128) -> EnvModel {
        self.add_daily_spent(self.day_number(), amount).add_weekly_spent(
            self.week_number(),
            amount,
        )
    }

    /// A new proposal.
    pub open spec fn new_proposal(
        self,
        config: ConfigModel,
        request: TransferRequestModel,
        terms: ProposalTerms,
    ) -> ProposalModel {
        ProposalModel {
            id: terms.id,
            proposer: request.proposer,
            recipient: request.recipient,
            token: request.token,
            amount: request.amount,
            memo: request.memo,
            metadata: Map::empty(),
            tags: Seq::empty(),
            approvals: Seq::empty(),
            abstentions: Seq::empty(),
            attachments: Seq::empty(),
            status: ProposalStatus::Pending,
            priority: request.priority,
            conditions: request.conditions,
            condition_logic: request.condition_logic,
            created_at: self.now(),
            expires_at: terms.expires_at,
            unlock_ledger: terms.unlock_ledger,
            execution_time: request.execution_time,
            insurance_amount: terms.insurance,
            stake_amount: terms.stake,
            gas_limit: self.new_gas_limit(),
            gas_used: 0,
            snapshot_ledger: self.now(),
            snapshot_signers: config.signers,
            depends_on: request.depends_on,
            is_swap: false,
            voting_deadline: voting_deadline(config, self.now()),
        }
    }

    /// The state after a proposal was stored, with its estimated cost, and queued.
    pub open spec fn file_proposal(self, proposal: ProposalModel) -> EnvModel {
        self.with_proposal(proposal).estimate_cost(proposal).queue_push(
            proposal.priority.spec_code(),
            proposal.id,
        )
    }

    /// The state after the creation of a proposal was published.
    pub open spec fn announce_proposal(self, proposal: ProposalModel) -> EnvModel {
        self.publish(
            Event::ProposalCreated {
                proposal_id: proposal.id,
                proposer: proposal.proposer,
                recipient: proposal.recipient,
                token: proposal.token,
                amount: proposal.amount,
                insurance: proposal.insurance_amount,
            },
        )
    }

    /// The state after the stake of a proposal, where there is one, was recorded.
    pub open spec fn record_stake(self, proposal: ProposalModel) -> EnvModel {
        if proposal.stake_amount > 0 {
            self.with_stake_record(
                StakeRecord {
                    proposal_id: proposal.id,
                    staker: proposal.proposer,
                    token: proposal.token,
                    amount: proposal.stake_amount,
                    locked_at: self.now(),
                    refunded: false,
                    slashed: false,
                    slashed_amount: 0,
                    released_at: 0,
                },
            )
        } else {
            self
        }
    }

    /// The state after what a proposer locked for a proposal was published.
    pub open spec fn announce_locks(self, proposal: ProposalModel) -> EnvModel {
        let insured = if proposal.insurance_amount > 0 {
            self.publish(
                Event::InsuranceLocked {
                    proposal_id: proposal.id,
                    proposer: proposal.proposer,
                    amount: proposal.insurance_amount,
                    token: proposal.token,
                },
            )
        } else {
            self
        };
        if proposal.stake_amount > 0 {
            insured.publish(
                Event::StakeLocked {
                    proposal_id: proposal.id,
                    staker: proposal.proposer,
                    amount: proposal.stake_amount,
                    token: proposal.token,
                },
            )
        } else {
            insured
        }
    }

    /// The state after a proposal was created.
    #[verifier::opaque]
    pub open spec fn create_proposal(self, proposal: ProposalModel) -> EnvModel {
        self.record_stake(proposal).file_proposal(proposal).act(Action::ExtendInstanceTtl).audit(
            AuditAction::ProposeTransfer,
            proposal.proposer,
            proposal.id,
        ).announce_locks(proposal).announce_proposal(proposal).reputation_on_propose(
            proposal.proposer,
        ).count_proposal().publish_metrics()
    }

    /// What proposing a transfer leaves behind once limits and insurance allow it.
    #[verifier::opaque]
    pub open spec fn propose_funded(
        self,
        config: ConfigModel,
        request: TransferRequestModel,
        insurance: i128,
        stake: i128,
    ) -> Outcome<u64> {
        let funded = self.collect(request.token, request.proposer, insurance).collect(
            request.token,
            request.proposer,
            stake,
        ).reserve_spending(request.amount);
        let unlock = unlock_ledger(config, request.amount, self.now());
        let refusal = match request.execution_time {
            Some(time) => schedule_refusal(time, self.now(), unlock),
            None => None,
        };
        match refusal {
            Some(error) => (funded, Err(error)),
            None => {
                let id = self.proposals.next_id;
                let numbered = funded.bump_proposal_id();
                match crate::dependencies::dependencies_refusal(
                    self.proposals.records,
                    id,
                    request.depends_on,
                ) {
                    Some(error) => (numbered, Err(error)),
                    None => {
                        let terms = ProposalTerms {
                            id,
                            insurance,
                            stake,
                            unlock_ledger: unlock,
                            expires_at: (self.now() + PROPOSAL_EXPIRY_LEDGERS) as u64,
                        };
                        (
                            numbered.create_proposal(
                                numbered.new_proposal(config, request, terms),
                            ),
                            Ok(id),
                        )
                    },
                }
            },
        }
    }

    /// What proposing a transfer leaves behind.
    pub open spec fn propose(self, request: TransferRequestModel) -> Outcome<u64> {
        match self.config() {
            Err(error) => (self, Err(error)),
            Ok(config) => if !self.may_propose(request.proposer) {
                (self, Err(VaultError::InsufficientRole))
            } else if let Some(error) = self.recipient_refusal(request.recipient) {
                (self, Err(error))
            } else if !self.velocity_allows(request.proposer, config.velocity_limit) {
                (self, Err(VaultError::VelocityLimitExceeded))
            } else {
                let counted = self.count_velocity(request.proposer, config.velocity_limit);
                if request.amount <= 0 {
                    (counted, Err(VaultError::InvalidAmount))
                } else {
                    let rep = self.current_reputation(request.proposer);
                    let known = counted.with_reputation(request.proposer, rep);
                    match self.spending_refusal(config, rep.score, request.amount) {
                        Some(error) => (known, Err(error)),
                        None => match self.settled_insurance(
                            request.amount,
                            rep.score,
                            request.insurance_amount,
                        ) {
                            Err(error) => (known, Err(error)),
                            Ok(insurance) => known.propose_funded(
                                config,
                                request,
                                insurance,
                                self.required_stake(request.amount, rep.score),
                            ),
                        },
                    }
                }
            },
        }
    }

    /// Whether proposing a transfer, where the limits allow it, stays within the limits of
    /// integers.
    pub open spec fn propose_fits(self, proposer: Address, amount: i128, offered: i128) -> bool {
        let score = self.current_reputation(proposer).score;
        &&& self.has_room()
        &&& self.reputation(proposer).proposals_created < u32::MAX
        &&& self.config() matches Ok(config) ==> (amount > 0 && self.spending_refusal(
            config,
            score,
            amount,
        ) is None ==> {
            &&& self.insurance_fits(amount)
            &&& self.settled_insurance(amount, score, offered) is Ok ==> {
                &&& self.stake_fits(amount, score)
                &&& config.delays_fit(amount, self.now())
            }
        })
    }
}

/// The last ledger of a proposal.
pub fn calculate_expiration_ledger(config: &Config, priority: &Priority, current_ledger: u64) -> (r:
    u64)
    requires
        expiration_ledger(config@, *priority, current_ledger) <= u64::MAX,
    ensures
        r == expiration_ledger(config@, *priority, current_ledger),
{
    let multiplier: u64 = match priority {
        Priority::Low => 2,
        Priority::Normal => 1,
        Priority::High => 1,
        Priority::Critical => 1,
    };
    let configured: u64 = if config.default_voting_deadline > PROPOSAL_EXPIRY_LEDGERS {
        config.default_voting_deadline
    } else {
        PROPOSAL_EXPIRY_LEDGERS
    };
    current_ledger + sat_mul_u64(configured, multiplier)
}

/// The most that may be spent in a period.
fn adjusted_period_limit(limit: i128, score: u32) -> (r: i128)
    ensures
        r == period_limit(limit, score),
{
    if score >= TRUSTED_SCORE {
        sat_add(limit, divide(limit, 2))
    } else {
        limit
    }
}

/// Decides whether an amount may be spent.
pub(crate) fn check_spending(env: &Env, config: &Config, score: u32, amount: i128) -> (r: Result<
    (),
    VaultError,
>)
    requires
        amount > 0,
    ensures
        r == crate::errors::unless(env@.spending_refusal(config@, score, amount)),
{
    let adjusted_spending_limit: i128 = if score >= 900 {
        sat_mul(config.spending_limit, 3)
    } else if score >= 800 {
        sat_mul(config.spending_limit, 2)
    } else {
        config.spending_limit
    };
    if amount > adjusted_spending_limit {
        return Err(VaultError::ExceedsProposalLimit);
    }
    let spent_today: i128 = storage::get_daily_spent(env, storage::get_day_number(env));
    if sum_exceeds(spent_today, amount, adjusted_period_limit(config.daily_limit, score)) {
        return Err(VaultError::ExceedsDailyLimit);
    }
    let spent_week: i128 = storage::get_weekly_spent(env, storage::get_week_number(env));
    if sum_exceeds(spent_week, amount, adjusted_period_limit(config.weekly_limit, score)) {
        return Err(VaultError::ExceedsWeeklyLimit);
    }
    Ok(())
}

/// The insurance that is collected, or the refusal of an offer that is too low.
pub(crate) fn settle_insurance(env: &Env, amount: i128, score: u32, offered: i128) -> (r: Result<
    i128,
    VaultError,
>)
    requires
        env@.insurance_fits(amount),
    ensures
        r == env@.settled_insurance(amount, score, offered),
{
    let rules = storage::get_insurance_config(env);
    if rules.enabled && amount >= rules.min_amount {
        let mut min_required: i128 = divide(amount * rules.min_insurance_bps as i128, 10_000);
        if score >= TRUSTED_SCORE {
            min_required = divide(min_required, 2);
        }
        if offered < min_required {
            return Err(VaultError::InsuranceInsufficient);
        }
        Ok(offered)
    } else if offered > 0 {
        Ok(offered)
    } else {
        Ok(0)
    }
}

/// The stake that an amount needs.
fn needed_stake(env: &Env, amount: i128, score: u32) -> (r: i128)
    requires
        env@.stake_fits(amount, score),
    ensures
        r == env@.required_stake(amount, score),
{
    let rules = storage::get_staking_config(env);
    if rules.enabled && amount >= rules.min_amount {
        let mut required: i128 = divide(amount * rules.base_stake_bps as i128, 10_000);
        if required > rules.max_stake_amount {
            required = rules.max_stake_amount;
        }
        if score >= rules.reputation_discount_threshold {
            let discount: i128 = divide(
                required * rules.reputation_discount_percentage as i128,
                100,
            );
            required = sat_sub(required, discount);
        }
        required
    } else {
        0
    }
}

/// Collects an amount, where it is positive.
pub(crate) fn collect(env: &mut Env, token: &Address, from: &Address, amount: i128)
    ensures
        final(env)@ == old(env)@.collect(*token, *from, amount),
{
    if amount > 0 {
        env.act(Action::TransferToVault { token: *token, from: *from, amount });
    }
}

/// The last ledger at which a new proposal can be voted on; zero where there is none.
pub(crate) fn new_voting_deadline(config: &Config, now: u64) -> (r: u64)
    requires
        config@.deadline_fits(now),
    ensures
        r == voting_deadline(config@, now),
{
    if config.default_voting_deadline > 0 {
        now + config.default_voting_deadline
    } else {
        0
    }
}

/// The ledger from which on an amount may be paid; zero where it is not locked.
pub(crate) fn new_unlock_ledger(config: &Config, amount: i128, now: u64) -> (r: u64)
    requires
        config@.unlock_fits(amount, now),
    ensures
        r == unlock_ledger(config@, amount, now),
{
    if amount >= config.timelock_threshold {
        now + config.timelock_delay
    } else {
        0
    }
}

/// Stores a proposal, with its estimated cost, and queues it.
pub(crate) fn file_proposal(env: &mut Env, proposal: &Proposal)
    ensures
        final(env)@ == old(env)@.file_proposal(proposal@),
{
    storage::set_proposal(env, proposal);
    let _ = VaultDAO::persist_execution_fee_estimate(env, proposal);
    storage::add_to_priority_queue(env, proposal.priority.code(), proposal.id);
}

/// Publishes the creation of a proposal.
pub(crate) fn announce_proposal(env: &mut Env, proposal: &Proposal)
    ensures
        final(env)@ == old(env)@.announce_proposal(proposal@),
{
    env.publish(
        Event::ProposalCreated {
            proposal_id: proposal.id,
            proposer: proposal.proposer,
            recipient: proposal.recipient,
            token: proposal.token,
            amount: proposal.amount,
            insurance: proposal.insurance_amount,
        },
    );
}

/// Records the stake of a proposal, where there is one.
fn record_stake(env: &mut Env, proposal: &Proposal)
    ensures
        final(env)@ == old(env)@.record_stake(proposal@),
{
    if proposal.stake_amount > 0 {
        let record = StakeRecord {
            proposal_id: proposal.id,
            staker: proposal.proposer,
            token: proposal.token,
            amount: proposal.stake_amount,
            locked_at: env.now(),
            refunded: false,
            slashed: false,
            slashed_amount: 0,
            released_at: 0,
        };
        storage::set_stake_record(env, &record);
    }
}

/// Publishes what a proposer locked for a proposal.
fn announce_locks(env: &mut Env, proposal: &Proposal)
    ensures
        final(env)@ == old(env)@.announce_locks(proposal@),
{
    if proposal.insurance_amount > 0 {
        env.publish(
            Event::InsuranceLocked {
                proposal_id: proposal.id,
                proposer: proposal.proposer,
                amount: proposal.insurance_amount,
                token: proposal.token,
            },
        );
    }
    if proposal.stake_amount > 0 {
        env.publish(
            Event::StakeLocked {
                proposal_id: proposal.id,
                staker: proposal.proposer,
                amount: proposal.stake_amount,
                token: proposal.token,
            },
        );
    }
}

/// Creates a proposal.
fn create_proposal(env: &mut Env, proposal: &Proposal)
    requires
        old(env)@.audit.next_id < u64::MAX,
        old(env)@.reputation(proposal.proposer).proposals_created < u32::MAX,
    ensures
        final(env)@ == old(env)@.create_proposal(proposal@),
{
    proof {
        reveal(EnvModel::create_proposal);
    }
    record_stake(env, proposal);
    file_proposal(env, proposal);
    storage::extend_instance_ttl(env);
    storage::create_audit_entry(env, AuditAction::ProposeTransfer, &proposal.proposer, proposal.id);
    announce_locks(env, proposal);
    announce_proposal(env, proposal);
    VaultDAO::update_reputation_on_propose(env, &proposal.proposer);
    storage::metrics_on_proposal(env);
    publish_metrics(env);
}

/// Reserves spending, locks what the proposer has to lock, and creates the proposal.
fn propose_funded(
    env: &mut Env,
    config: &Config,
    request: TransferRequest,
    insurance: i128,
    stake: i128,
) -> (r: Result<u64, VaultError>)
    requires
        old(env)@.has_room(),
        config@.delays_fit(request.amount, old(env)@.now()),
        old(env)@.reputation(request.proposer).proposals_created < u32::MAX,
        crate::math::fits_i128(
            old(env)@.daily_spent(old(env)@.day_number()) + request.amount,
        ),
        crate::math::fits_i128(
            old(env)@.weekly_spent(old(env)@.week_number()) + request.amount,
        ),
    ensures
        (final(env)@, r) == old(env)@.propose_funded(config@, request@, insurance, stake),
{
    proof {
        reveal(EnvModel::propose_funded);
    }
    collect(env, &request.token, &request.proposer, insurance);
    collect(env, &request.token, &request.proposer, stake);
    let today: u64 = storage::get_day_number(env);
    let week: u64 = storage::get_week_number(env);
    storage::add_daily_spent(env, today, request.amount);
    storage::add_weekly_spent(env, week, request.amount);
    let current_ledger: u64 = env.now();
    let unlock: u64 = new_unlock_ledger(config, request.amount, current_ledger);
    if let Some(time) = request.execution_time {
        VaultDAO::validate_execution_time(time, current_ledger, unlock)?;
    }
    let proposal_id: u64 = storage::increment_proposal_id(env);
    VaultDAO::validate_dependencies(env, proposal_id, &request.depends_on)?;
    let proposal = Proposal {
        id: proposal_id,
        proposer: request.proposer,
        recipient: request.recipient,
        token: request.token,
        amount: request.amount,
        memo: request.memo,
        metadata: Table::new(),
        tags: Vec::new(),
        approvals: Vec::new(),
        abstentions: Vec::new(),
        attachments: Texts::new(),
        status: ProposalStatus::Pending,
        priority: request.priority,
        conditions: request.conditions,
        condition_logic: request.condition_logic,
        created_at: current_ledger,
        expires_at: current_ledger + PROPOSAL_EXPIRY_LEDGERS,
        unlock_ledger: unlock,
        execution_time: request.execution_time,
        insurance_amount: insurance,
        stake_amount: stake,
        gas_limit: new_gas_limit(env),
        gas_used: 0,
        snapshot_ledger: current_ledger,
        snapshot_signers: copy_list(&config.signers),
        depends_on: request.depends_on,
        is_swap: false,
        voting_deadline: new_voting_deadline(config, current_ledger),
    };
    create_proposal(env, &proposal);
    Ok(proposal_id)
}

impl VaultDAO {
    /// Proposes a transfer.
    ///
    /// Only treasurers and admins may propose. The recipient must pass the recipient lists,
    /// the amount the limits per proposal, day and week, and the insurance the minimum.
    pub fn propose_transfer(
        env: &mut Env,
        proposer: Address,
        recipient: Address,
        token_addr: Address,
        amount: i128,
        memo: Symbol,
        priority: Priority,
        conditions: Vec<Condition>,
        condition_logic: ConditionLogic,
        insurance_amount: i128,
    ) -> (r: Result<u64, VaultError>)
        requires
            old(env)@.authorized(proposer),
            old(env)@.propose_fits(proposer, amount, insurance_amount),
        ensures
            (final(env)@, r) == old(env)@.propose(
                (TransferRequestModel {
                    proposer,
                    recipient,
                    token: token_addr,
                    amount,
                    memo,
                    priority,
                    conditions: conditions@,
                    condition_logic,
                    insurance_amount,
                    depends_on: Seq::empty(),
                    execution_time: None,
                }),
            ),
    {
        Self::propose_transfer_internal(
            env,
            proposer,
            recipient,
            token_addr,
            amount,
            memo,
            priority,
            conditions,
            condition_logic,
            insurance_amount,
            Vec::new(),
            None,
        )
    }

    /// Proposes a transfer that is to be executed at a given ledger.
    pub fn propose_scheduled_transfer(
        env: &mut Env,
        proposer: Address,
        recipient: Address,
        token_addr: Address,
        amount: i128,
        memo: Symbol,
        priority: Priority,
        conditions: Vec<Condition>,
        condition_logic: ConditionLogic,
        insurance_amount: i128,
        execution_time: u64,
    ) -> (r: Result<u64, VaultError>)
        requires
            old(env)@.authorized(proposer),
            old(env)@.propose_fits(proposer, amount, insurance_amount),
        ensures
            (final(env)@, r) == old(env)@.propose(
                (TransferRequestModel {
                    proposer,
                    recipient,
                    token: token_addr,
                    amount,
                    memo,
                    priority,
                    conditions: conditions@,
                    condition_logic,
                    insurance_amount,
                    depends_on: Seq::empty(),
                    execution_time: Some(execution_time),
                }),
            ),
    {
        Self::propose_transfer_internal(
            env,
            proposer,
            recipient,
            token_addr,
            amount,
            memo,
            priority,
            conditions,
            condition_logic,
            insurance_amount,
            Vec::new(),
            Some(execution_time),
        )
    }

    /// Proposes a transfer that waits for other proposals to be executed.
    pub fn propose_transfer_with_deps(
        env: &mut Env,
        proposer: Address,
        recipient: Address,
        token_addr: Address,
        amount: i128,
        memo: Symbol,
        priority: Priority,
        conditions: Vec<Condition>,
        condition_logic: ConditionLogic,
        insurance_amount: i128,
        depends_on: Vec<u64>,
    ) -> (r: Result<u64, VaultError>)
        requires
            old(env)@.authorized(proposer),
            old(env)@.propose_fits(proposer, amount, insurance_amount),
        ensures
            (final(env)@, r) == old(env)@.propose(
                (TransferRequestModel {
                    proposer,
                    recipient,
                    token: token_addr,
                    amount,
                    memo,
                    priority,
                    conditions: conditions@,
                    condition_logic,
                    insurance_amount,
                    depends_on: depends_on@,
                    execution_time: None,
                }),
            ),
    {
        Self::propose_transfer_internal(
            env,
            proposer,
            recipient,
            token_addr,
            amount,
            memo,
            priority,
            conditions,
            condition_logic,
            insurance_amount,
            depends_on,
            None,
        )
    }

    /// Proposes a transfer.
    pub fn propose_transfer_internal(
        env: &mut Env,
        proposer: Address,
        recipient: Address,
        token_addr: Address,
        amount: i128,
        memo: Symbol,
        priority: Priority,
        conditions: Vec<Condition>,
        condition_logic: ConditionLogic,
        insurance_amount: i128,
        depends_on: Vec<u64>,
        execution_time: Option<u64>,
    ) -> (r: Result<u64, VaultError>)
        requires
            old(env)@.authorized(proposer),
            old(env)@.propose_fits(proposer, amount, insurance_amount),
        ensures
            (final(env)@, r) == old(env)@.propose(
                (TransferRequestModel {
                    proposer,
                    recipient,
                    token: token_addr,
                    amount,
                    memo,
                    priority,
                    conditions: conditions@,
                    condition_logic,
                    insurance_amount,
                    depends_on: depends_on@,
                    execution_time,
                }),
            ),
    {
        let request = TransferRequest {
            proposer,
            recipient,
            token: token_addr,
            amount,
            memo,
            priority,
            conditions,
            condition_logic,
            insurance_amount,
            depends_on,
            execution_time,
        };
        let config = storage::get_config(env)?;
        let role = storage::get_role(env, &proposer);
        if role != Role::Treasurer && role != Role::Admin {
            return Err(VaultError::InsufficientRole);
        }
        Self::validate_recipient(env, &recipient)?;
        if !storage::check_and_update_velocity(env, &proposer, &config.velocity_limit) {
            return Err(VaultError::VelocityLimitExceeded);
        }
        if amount <= 0 {
            return Err(VaultError::InvalidAmount);
        }
        let rep = current_reputation(env, &proposer);
        storage::set_reputation(env, &proposer, &rep);
        check_spending(env, &config, rep.score, amount)?;
        let actual_insurance: i128 = settle_insurance(env, amount, rep.score, insurance_amount)?;
        let actual_stake: i128 = needed_stake(env, amount, rep.score);
        propose_funded(env, &config, request, actual_insurance, actual_stake)
    }

    /// Screens a recipient.
    pub fn validate_recipient(env: &Env, recipient: &Address) -> (r: Result<(), VaultError>)
        ensures
            r == crate::errors::unless(env@.recipient_refusal(*recipient)),
    {
        storage::validate_recipient_list(env, recipient)
    }

    /// Decides whether a proposal may be scheduled for a ledger.
    pub fn validate_execution_time(
        execution_time: u64,
        current_ledger: u64,
        timelock_end: u64,
    ) -> (r: Result<(), VaultError>)
        ensures
            r == crate::errors::unless(
                schedule_refusal(execution_time, current_ledger, timelock_end),
            ),
    {
        if execution_time <= current_ledger {
            return Err(VaultError::TimelockNotExpired);
        }
        if execution_time < timelock_end {
            return Err(VaultError::TimelockNotExpired);
        }
        Ok(())
    }
}

} // verus!
