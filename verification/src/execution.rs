//! Execution of approved proposals.
//!
//! An execution alternates with the outside. [`VaultDAO::start_execution`] decides whether it
//! may begin; [`VaultDAO::charge_execution`] tests the conditions and charges the fee;
//! [`VaultDAO::transfer_due`] says what is to be transferred; and
//! [`VaultDAO::finish_execution`] settles the outcome. [`VaultDAO::execute_proposal`] is all of
//! them in a row, with the answers of the outside given beforehand.

use vstd::prelude::*;

use crate::costs::publish_metrics;
use crate::env::{Action, Env, EnvModel, Event};
use crate::errors::VaultError;
use crate::guarantees::{return_insurance, return_stake};
use crate::math::sat_sub;
use crate::primitives::{Address, Record};
use crate::proposals::Outcome;
use crate::reputation::decay_reputation;
use crate::storage;
use crate::types::{
    AuditAction, Config, ConfigModel, ExecutionAnswers, ExecutionAnswersModel, ExecutionSnapshot,
    ExecutionSnapshotModel, Observation, Proposal, ProposalModel, ProposalStatus,
};
use crate::voting::expire;
use crate::VaultDAO;

verus! {

/// Why a proposal cannot be executed on account of its status, if it cannot.
pub open spec fn status_refusal(status: ProposalStatus) -> Option<VaultError> {
    match status {
        ProposalStatus::Approved => None,
        ProposalStatus::Executed => Some(VaultError::ProposalAlreadyExecuted),
        ProposalStatus::Cancelled => Some(VaultError::ProposalAlreadyCancelled),
        _ => Some(VaultError::ProposalNotApproved),
    }
}

/// Why a proposal has to wait for one of several others, if it has to: the first that does not
/// exist or was not executed decides.
pub open spec fn unexecuted(records: Map<u64, ProposalModel>, ids: Seq<u64>) -> Option<VaultError>
    decreases ids.len(),
{
    if ids.len() == 0 {
        None
    } else {
        match unexecuted(records, ids.drop_last()) {
            Some(error) => Some(error),
            None => if !records.contains_key(ids.last()) {
                Some(VaultError::ProposalNotFound)
            } else if records[ids.last()].status != ProposalStatus::Executed {
                Some(VaultError::ProposalNotApproved)
            } else {
                None
            },
        }
    }
}

/// What is to be transferred, or that the vault does not hold enough for the amount, the
/// insurance to return and the fee. The fee is deducted from the amount.
pub open spec fn due(proposal: ProposalModel, fee: i128, balance: i128) -> Result<
    i128,
    VaultError,
> {
    if balance < proposal.amount + proposal.insurance_amount + fee {
        Err(VaultError::InsufficientBalance)
    } else {
        Ok(crate::math::clamp_i128(proposal.amount - fee))
    }
}

impl EnvModel {
    /// The state after a hook was called.
    pub open spec fn call_hook(self, hook: Address, proposal_id: u64, is_pre: bool) -> EnvModel {
        self.act(Action::CallHook { hook, proposal_id, is_pre }).publish(
            Event::HookExecuted { hook, proposal_id, is_pre },
        )
    }

    /// The state after several hooks were called, in order.
    pub open spec fn call_hooks(self, hooks: Seq<Address>, proposal_id: u64, is_pre: bool) -> 
        EnvModel
        decreases hooks.len(),
    {
        if hooks.len() == 0 {
            self
        } else {
            self.call_hooks(hooks.drop_last(), proposal_id, is_pre).call_hook(
                hooks.last(),
                proposal_id,
                is_pre,
            )
        }
    }

    /// Why the execution of an approved proposal that has not expired is refused, if it is.
    pub open spec fn execution_refusal(self, proposal: ProposalModel) -> Option<VaultError> {
        if proposal.unlock_ledger > 0 && self.now() < proposal.unlock_ledger {
            Some(VaultError::TimelockNotExpired)
        } else if let Some(error) = unexecuted(self.proposals.records, proposal.depends_on) {
            Some(error)
        } else {
            match self.config() {
                Err(error) => Some(error),
                Ok(config) => match self.votes_missing(config, proposal) {
                    Some(error) => Some(error),
                    None => self.retry_refusal(proposal.id, config.retry_config),
                },
            }
        }
    }

    /// The state after the hooks before an execution were called and the proposal was kept as
    /// it stood.
    pub open spec fn prepare_execution(self, config: ConfigModel, proposal: ProposalModel) -> 
        EnvModel {
        self.call_hooks(config.pre_execution_hooks, proposal.id, true).with_snapshot(
            proposal.id,
            ExecutionSnapshotModel {
                proposal,
                was_in_priority_queue: self.priority_queue(
                    proposal.priority.spec_code(),
                ).contains(proposal.id),
            },
        )
    }

    /// What starting an execution leaves behind: the proposal that is to be executed, or the
    /// reason for refusal.
    pub open spec fn start_execution(self, executor: Address, proposal_id: u64) -> Outcome<
        ProposalModel,
    > {
        let known = self.decay_reputation(executor);
        match self.proposal(proposal_id) {
            Err(error) => (known, Err(error)),
            Ok(proposal) => if let Some(error) = status_refusal(proposal.status) {
                (known, Err(error))
            } else if self.now() > proposal.expires_at {
                (known.expire(proposal), Err(VaultError::ProposalExpired))
            } else {
                match known.execution_refusal(proposal) {
                    Some(error) => (known, Err(error)),
                    None => (
                        known.prepare_execution(self.access.config->0, proposal),
                        Ok(proposal),
                    ),
                }
            },
        }
    }

    /// What charging an execution leaves behind: the fee, or the reason for which the
    /// execution fails.
    pub open spec fn charge(self, proposal: ProposalModel, seen: Seq<Observation>) -> Outcome<
        i128,
    > {
        let (tested, met) = if proposal.conditions.len() > 0 {
            self.evaluate(proposal, seen)
        } else {
            (self, Ok(()))
        };
        let cost = self.execution_fee(proposal).total_fee;
        match met {
            Err(error) => (tested, Err(error)),
            Ok(_) => if proposal.gas_limit > 0 && cost > proposal.gas_limit {
                (
                    tested.publish(
                        Event::GasLimitExceeded {
                            proposal_id: proposal.id,
                            used: cost,
                            limit: proposal.gas_limit,
                        },
                    ),
                    Err(VaultError::ExceedsProposalLimit),
                )
            } else {
                (
                    tested.collect_fee(proposal.proposer, proposal.token, proposal.amount),
                    Ok(
                        self.fee(
                            proposal.proposer,
                            proposal.token,
                            proposal.amount,
                        ).final_fee,
                    ),
                )
            },
        }
    }

    /// What a transfer that was tried leaves behind. Where it went through, insurance and stake
    /// are returned, and the proposal has its cost recorded; where it failed, the rollback is
    /// published with its reason.
    pub open spec fn settle_transfer(self, proposal: ProposalModel, amount: i128, done: bool) -> 
        Outcome<ProposalModel> {
        let tried = self.act(
            Action::TriedTransfer {
                token: proposal.token,
                to: proposal.recipient,
                amount,
                done,
            },
        );
        if done {
            (
                tried.return_insurance(proposal).return_stake(proposal),
                Ok(
                    ProposalModel {
                        gas_used: self.execution_fee(proposal).total_fee,
                        ..proposal
                    },
                ),
            )
        } else {
            (
                tried.publish(
                    Event::ExecutionRolledBack {
                        proposal_id: proposal.id,
                        error: VaultError::InsufficientBalance.spec_code(),
                    },
                ),
                Err(VaultError::InsufficientBalance),
            )
        }
    }

    /// What trying to execute a proposal leaves behind: the proposal with its cost recorded,
    /// or the reason for which it failed.
    pub open spec fn try_execute(self, proposal: ProposalModel, answers: ExecutionAnswersModel) -> 
        Outcome<ProposalModel> {
        let (charged, fee) = self.charge(proposal, answers.observations);
        match fee {
            Err(error) => (charged, Err(error)),
            Ok(fee) => match due(proposal, fee, answers.balance) {
                Err(error) => (charged, Err(error)),
                Ok(amount) => charged.settle_transfer(proposal, amount, answers.transferred),
            },
        }
    }

    /// The state after the execution of a proposal was published.
    pub open spec fn announce_execution(self, executor: Address, proposal: ProposalModel) -> 
        EnvModel {
        self.publish(
            Event::ProposalExecuted {
                proposal_id: proposal.id,
                executor,
                recipient: proposal.recipient,
                token: proposal.token,
                amount: proposal.amount,
                ledger: self.now(),
            },
        )
    }

    /// The state after an execution was counted in reputations and metrics.
    pub open spec fn count_executed(self, proposal: ProposalModel) -> EnvModel {
        self.reputation_on_execution(proposal.proposer, proposal.approvals).count_execution(
            proposal.gas_used,
            crate::math::clamp_u64(self.now() - proposal.created_at),
        ).publish(
            Event::ExecutionFeeUsed { proposal_id: proposal.id, fee: proposal.gas_used },
        )
    }

    /// The state after a proposal was executed.
    pub open spec fn complete_execution(
        self,
        config: ConfigModel,
        executor: Address,
        proposal: ProposalModel,
    ) -> EnvModel {
        let executed = ProposalModel { status: ProposalStatus::Executed, ..proposal };
        self.call_hooks(config.post_execution_hooks, proposal.id, false).with_proposal(
            executed,
        ).act(Action::ExtendInstanceTtl).announce_execution(executor, executed).count_executed(
            executed,
        ).publish_metrics().audit(AuditAction::ExecuteProposal, executor, proposal.id)
    }

    /// What the end of an execution leaves behind. One that failed for a passing reason is
    /// retried where retries are in use: that counts as success, so that the retry is kept.
    #[verifier::opaque]
    pub open spec fn finish_execution(
        self,
        config: ConfigModel,
        executor: Address,
        proposal: ProposalModel,
        outcome: Result<(), VaultError>,
    ) -> Outcome<()> {
        match outcome {
            Ok(_) => (self.complete_execution(config, executor, proposal), Ok(())),
            Err(error) => if crate::retries::is_passing(error) && config.retry_config.enabled {
                self.schedule_retry(proposal.id, config.retry_config, self.now(), error)
            } else {
                (self, Err(error))
            },
        }
    }

    /// What executing a proposal leaves behind, given the answers of the outside.
    pub open spec fn execute(
        self,
        executor: Address,
        proposal_id: u64,
        answers: ExecutionAnswersModel,
    ) -> Outcome<()> {
        let (started, proposal) = self.start_execution(executor, proposal_id);
        match proposal {
            Err(error) => (started, Err(error)),
            Ok(proposal) => {
                let config = self.access.config->0;
                let (tried, outcome) = started.try_execute(proposal, answers);
                match outcome {
                    Ok(executed) => tried.finish_execution(config, executor, executed, Ok(())),
                    Err(error) => tried.finish_execution(config, executor, proposal, Err(error)),
                }
            },
        }
    }

    /// Whether charging a proposal, where its conditions are met and its cost is within its
    /// limit, and summing up what the vault has to hold stay within the limits of integers.
    pub open spec fn payment_fits(self, proposal: ProposalModel, seen: Seq<Observation>) -> bool {
        self.charge(proposal, seen).1 matches Ok(fee) ==> {
            &&& self.fee_collection_fits(proposal.proposer, proposal.token, proposal.amount)
            &&& crate::math::fits_i128(proposal.amount + proposal.insurance_amount)
            &&& crate::math::fits_i128(proposal.amount + proposal.insurance_amount + fee)
        }
    }

    /// Whether the execution of a proposal can be counted.
    pub open spec fn completion_fits(self, proposal: ProposalModel) -> bool {
        &&& self.has_room()
        &&& self.reputation(proposal.proposer).proposals_executed < u32::MAX
    }

    /// Whether the outcome of an execution can be counted.
    pub open spec fn finish_fits(
        self,
        config: ConfigModel,
        proposal: ProposalModel,
        outcome: Result<(), VaultError>,
    ) -> bool {
        match outcome {
            Ok(_) => self.completion_fits(proposal),
            Err(error) => crate::retries::is_passing(error) && config.retry_config.enabled
                ==> self.retries(proposal.id).retry_count < u32::MAX,
        }
    }

    /// Whether executing a proposal, as far as it comes, stays within the limits of integers.
    pub open spec fn execute_fits(
        self,
        executor: Address,
        proposal_id: u64,
        answers: ExecutionAnswersModel,
    ) -> bool {
        let (started, proposal) = self.start_execution(executor, proposal_id);
        proposal matches Ok(proposal) ==> {
            &&& started.payment_fits(proposal, answers.observations)
            &&& started.try_execute(proposal, answers).1 is Ok ==> self.completion_fits(proposal)
        }
    }
}

/// Calling hooks asks for actions, and changes nothing that is stored.
pub(crate) proof fn lemma_hooks_frame(env: EnvModel, hooks: Seq<Address>, proposal_id: u64, is_pre: bool)
    ensures
        env.call_hooks(hooks, proposal_id, is_pre) == (EnvModel {
            actions: env.call_hooks(hooks, proposal_id, is_pre).actions,
            ..env
        }),
    decreases hooks.len(),
{
    if hooks.len() > 0 {
        lemma_hooks_frame(env, hooks.drop_last(), proposal_id, is_pre);
    }
}

/// Rewarding those who approved changes reputations and what was published, nothing else.
pub(crate) proof fn lemma_rewards_frame(env: EnvModel, approvers: Seq<Address>)
    ensures
        env.reward_approvers(approvers) == (EnvModel {
            actions: env.reward_approvers(approvers).actions,
            members: env.reward_approvers(approvers).members,
            ..env
        }),
    decreases approvers.len(),
{
    if approvers.len() > 0 {
        lemma_rewards_frame(env, approvers.drop_last());
    }
}

/// A reason to wait for the first of several proposals is a reason to wait for all.
proof fn lemma_unexecuted(records: Map<u64, ProposalModel>, ids: Seq<u64>, n: int)
    requires
        0 <= n <= ids.len(),
    ensures
        unexecuted(records, ids.take(n)) is Some ==> unexecuted(records, ids) == unexecuted(
            records,
            ids.take(n),
        ),
    decreases ids.len() - n,
{
    if n == ids.len() {
        assert(ids.take(n) =~= ids);
    } else {
        lemma_unexecuted(records, ids, n + 1);
        assert(ids.take(n + 1).drop_last() =~= ids.take(n));
    }
}

/// Calls several hooks, in order.
fn call_hooks(env: &mut Env, hooks: &Vec<Address>, proposal_id: u64, is_pre: bool)
    ensures
        final(env)@ == old(env)@.call_hooks(hooks@, proposal_id, is_pre),
{
    let mut i: usize = 0;
    while i < hooks.len()
        invariant
            i <= hooks.len(),
            env@ == old(env)@.call_hooks(hooks@.take(i as int), proposal_id, is_pre),
        decreases hooks.len() - i,
    {
        assert(hooks@.take(i + 1).drop_last() =~= hooks@.take(i as int));
        VaultDAO::call_hook(env, &hooks[i], proposal_id, is_pre);
        i += 1;
    }
    assert(hooks@.take(hooks@.len() as int) =~= hooks@);
}

/// Decides whether all of several proposals were executed.
fn check_executed(env: &Env, ids: &Vec<u64>) -> (r: Result<(), VaultError>)
    ensures
        r == crate::errors::unless(unexecuted(env@.proposals.records, ids@)),
{
    let mut i: usize = 0;
    while i < ids.len()
        invariant
            i <= ids.len(),
            unexecuted(env@.proposals.records, ids@.take(i as int)) is None,
        decreases ids.len() - i,
    {
        proof {
            assert(ids@.take(i + 1).drop_last() =~= ids@.take(i as int));
            lemma_unexecuted(env@.proposals.records, ids@, i + 1);
        }
        match storage::get_proposal(env, ids[i]) {
            Ok(dependency) => {
                if dependency.status != ProposalStatus::Executed {
                    return Err(VaultError::ProposalNotApproved);
                }
            },
            Err(_) => return Err(VaultError::ProposalNotFound),
        }
        i += 1;
    }
    assert(ids@.take(ids@.len() as int) =~= ids@);
    Ok(())
}

/// Decides whether the execution of an approved proposal that has not expired may begin.
pub(crate) fn check_execution(env: &Env, proposal: &Proposal) -> (r: Result<Config, VaultError>)
    ensures
        match env@.execution_refusal(proposal@) {
            Some(error) => r matches Err(e) && e == error,
            None => r matches Ok(config) && env@.config() == Ok::<ConfigModel, VaultError>(
                config@,
            ),
        },
{
    let current_ledger: u64 = env.now();
    if proposal.unlock_ledger > 0 && current_ledger < proposal.unlock_ledger {
        return Err(VaultError::TimelockNotExpired);
    }
    check_executed(env, &proposal.depends_on)?;
    let config = storage::get_config(env)?;
    VaultDAO::ensure_vote_requirements_satisfied(env, &config, proposal)?;
    if let Some(state) = storage::get_retry_state(env, proposal.id) {
        if state.retry_count > 0 {
            if config.retry_config.enabled && state.retry_count
                >= config.retry_config.max_retries {
                return Err(VaultError::RetryError);
            }
            if current_ledger < state.next_retry_ledger {
                return Err(VaultError::RetryError);
            }
        }
    }
    Ok(config)
}

/// Calls the hooks before an execution and keeps the proposal as it stands.
fn prepare_execution(env: &mut Env, config: &Config, proposal: &Proposal)
    ensures
        final(env)@ == old(env)@.prepare_execution(config@, proposal@),
{
    call_hooks(env, &config.pre_execution_hooks, proposal.id, true);
    proof {
        lemma_hooks_frame(old(env)@, config.pre_execution_hooks@, proposal.id, true);
    }
    let snapshot = ExecutionSnapshot {
        proposal: proposal.duplicate(),
        was_in_priority_queue: storage::is_in_priority_queue(
            env,
            proposal.priority.code(),
            proposal.id,
        ),
    };
    storage::set_execution_snapshot(env, proposal.id, &snapshot);
}

/// Counts an execution in reputations and metrics.
pub(crate) fn count_executed(env: &mut Env, proposal: &Proposal)
    requires
        old(env)@.reputation(proposal.proposer).proposals_executed < u32::MAX,
    ensures
        final(env)@ == old(env)@.count_executed(proposal@),
{
    VaultDAO::update_reputation_on_execution(env, proposal);
    proof {
        lemma_rewards_frame(old(env)@.reward_proposer(proposal.proposer), proposal.approvals@);
    }
    let execution_time: u64 = env.now().saturating_sub(proposal.created_at);
    storage::metrics_on_execution(env, proposal.gas_used, execution_time);
    env.publish(Event::ExecutionFeeUsed { proposal_id: proposal.id, fee: proposal.gas_used });
}

/// Publishes the execution of a proposal.
pub(crate) fn announce_execution(env: &mut Env, executor: Address, proposal: &Proposal)
    ensures
        final(env)@ == old(env)@.announce_execution(executor, proposal@),
{
    let ledger: u64 = env.now();
    env.publish(
        Event::ProposalExecuted {
            proposal_id: proposal.id,
            executor,
            recipient: proposal.recipient,
            token: proposal.token,
            amount: proposal.amount,
            ledger,
        },
    );
}

/// Marks a proposal as executed and settles what depends on it.
fn complete_execution(env: &mut Env, config: &Config, executor: Address, proposal: &mut Proposal)
    requires
        old(env)@.audit.next_id < u64::MAX,
        old(env)@.reputation(old(proposal).proposer).proposals_executed < u32::MAX,
    ensures
        final(env)@ == old(env)@.complete_execution(config@, executor, old(proposal)@),
{
    call_hooks(env, &config.post_execution_hooks, proposal.id, false);
    proof {
        lemma_hooks_frame(old(env)@, config.post_execution_hooks@, proposal.id, false);
    }
    proposal.status = ProposalStatus::Executed;
    storage::set_proposal(env, proposal);
    storage::extend_instance_ttl(env);
    announce_execution(env, executor, proposal);
    let ghost announced = env@;
    count_executed(env, proposal);
    proof {
        lemma_rewards_frame(announced.reward_proposer(proposal.proposer), proposal.approvals@);
    }
    publish_metrics(env);
    storage::create_audit_entry(env, AuditAction::ExecuteProposal, &executor, proposal.id);
}

impl VaultDAO {
    /// Calls a hook contract.
    pub fn call_hook(env: &mut Env, hook: &Address, proposal_id: u64, is_pre: bool)
        ensures
            final(env)@ == old(env)@.call_hook(*hook, proposal_id, is_pre),
    {
        env.act(Action::CallHook { hook: *hook, proposal_id, is_pre });
        env.publish(Event::HookExecuted { hook: *hook, proposal_id, is_pre });
    }

    /// Decides whether a proposal may be executed, and prepares its execution.
    pub fn start_execution(env: &mut Env, executor: Address, proposal_id: u64) -> (r: Result<
        (Config, Proposal),
        VaultError,
    >)
        requires
            old(env)@.authorized(executor),
        ensures
            final(env)@ == old(env)@.start_execution(executor, proposal_id).0,
            match old(env)@.start_execution(executor, proposal_id).1 {
                Ok(proposal) => r matches Ok(started) && started.1@ == proposal && old(
                    env,
                )@.config() == Ok::<ConfigModel, VaultError>(started.0@),
                Err(error) => r matches Err(e) && e == error,
            },
    {
        decay_reputation(env, &executor);
        let mut proposal = storage::get_proposal(env, proposal_id)?;
        if proposal.status == ProposalStatus::Executed {
            return Err(VaultError::ProposalAlreadyExecuted);
        }
        if proposal.status == ProposalStatus::Cancelled {
            return Err(VaultError::ProposalAlreadyCancelled);
        }
        if proposal.status != ProposalStatus::Approved {
            return Err(VaultError::ProposalNotApproved);
        }
        if env.now() > proposal.expires_at {
            expire(env, &mut proposal);
            return Err(VaultError::ProposalExpired);
        }
        let config = check_execution(env, &proposal)?;
        prepare_execution(env, &config, &proposal);
        Ok((config, proposal))
    }

    /// Tests the conditions of a proposal, given what the outside says about each, and charges
    /// the fee.
    pub fn charge_execution(env: &mut Env, proposal: &Proposal, observations: &Vec<Observation>) -> (r:
        Result<i128, VaultError>)
        requires
            observations@.len() >= proposal.conditions@.len(),
            old(env)@.charge(proposal@, observations@).1 is Ok ==> old(env)@.fee_collection_fits(
                proposal.proposer,
                proposal.token,
                proposal.amount,
            ),
        ensures
            (final(env)@, r) == old(env)@.charge(proposal@, observations@),
    {
        proof {
            crate::conditions::lemma_conditions_frame(old(env)@, proposal@.conditions, observations@);
        }
        if proposal.conditions.len() > 0 {
            Self::evaluate_conditions(env, proposal, observations)?;
        }
        let estimate = Self::calculate_execution_fee(env, proposal);
        if proposal.gas_limit > 0 && estimate.total_fee > proposal.gas_limit {
            env.publish(
                Event::GasLimitExceeded {
                    proposal_id: proposal.id,
                    used: estimate.total_fee,
                    limit: proposal.gas_limit,
                },
            );
            return Err(VaultError::ExceedsProposalLimit);
        }
        Self::collect_and_distribute_fee(env, &proposal.proposer, &proposal.token, proposal.amount)
    }

    /// What is to be transferred, given the vault's balance once the fee is paid.
    pub fn transfer_due(proposal: &Proposal, fee: i128, balance: i128) -> (r: Result<
        i128,
        VaultError,
    >)
        requires
            crate::math::fits_i128(proposal.amount + proposal.insurance_amount),
            crate::math::fits_i128(proposal.amount + proposal.insurance_amount + fee),
        ensures
            r == due(proposal@, fee, balance),
    {
        let total_required: i128 = proposal.amount + proposal.insurance_amount + fee;
        if balance < total_required {
            return Err(VaultError::InsufficientBalance);
        }
        Ok(sat_sub(proposal.amount, fee))
    }

    /// Settles a transfer that was tried, and records the cost of an execution that went
    /// through.
    pub fn settle_transfer(env: &mut Env, proposal: &mut Proposal, amount: i128, done: bool) -> (r:
        Result<(), VaultError>)
        ensures
            final(env)@ == old(env)@.settle_transfer(old(proposal)@, amount, done).0,
            match old(env)@.settle_transfer(old(proposal)@, amount, done).1 {
                Ok(executed) => r == Ok::<(), VaultError>(()) && final(proposal)@ == executed,
                Err(error) => r == Err::<(), VaultError>(error) && final(proposal)@ == old(
                    proposal,
                )@,
            },
    {
        env.act(
            Action::TriedTransfer {
                token: proposal.token,
                to: proposal.recipient,
                amount,
                done,
            },
        );
        if !done {
            env.publish(
                Event::ExecutionRolledBack {
                    proposal_id: proposal.id,
                    error: VaultError::InsufficientBalance.code(),
                },
            );
            return Err(VaultError::InsufficientBalance);
        }
        return_insurance(env, proposal);
        return_stake(env, proposal);
        proposal.gas_used = Self::calculate_execution_fee(env, proposal).total_fee;
        Ok(())
    }

    /// Tries to execute a proposal, given the answers of the outside, and records its cost.
    pub fn try_execute_transfer(env: &mut Env, proposal: &mut Proposal, answers: &ExecutionAnswers) -> (r:
        Result<(), VaultError>)
        requires
            answers.observations@.len() >= old(proposal).conditions@.len(),
            old(env)@.payment_fits(old(proposal)@, answers.observations@),
        ensures
            final(env)@ == old(env)@.try_execute(old(proposal)@, answers@).0,
            match old(env)@.try_execute(old(proposal)@, answers@).1 {
                Ok(executed) => r == Ok::<(), VaultError>(()) && final(proposal)@ == executed,
                Err(error) => r == Err::<(), VaultError>(error) && final(proposal)@ == old(
                    proposal,
                )@,
            },
    {
        let fee: i128 = Self::charge_execution(env, proposal, &answers.observations)?;
        let amount: i128 = Self::transfer_due(proposal, fee, answers.balance)?;
        Self::settle_transfer(env, proposal, amount, answers.transferred)
    }

    /// Settles the outcome of an execution.
    pub fn finish_execution(
        env: &mut Env,
        config: &Config,
        executor: Address,
        proposal: Proposal,
        outcome: Result<(), VaultError>,
    ) -> (r: Result<(), VaultError>)
        requires
            old(env)@.finish_fits(config@, proposal@, outcome),
        ensures
            (final(env)@, r) == old(env)@.finish_execution(
                config@,
                executor,
                proposal@,
                outcome,
            ),
    {
        proof {
            reveal(EnvModel::finish_execution);
        }
        let mut proposal = proposal;
        match outcome {
            Ok(()) => {
                complete_execution(env, config, executor, &mut proposal);
                Ok(())
            },
            Err(error) => {
                if Self::is_retryable_error(&error) && config.retry_config.enabled {
                    let current_ledger: u64 = env.now();
                    Self::schedule_retry(
                        env,
                        proposal.id,
                        &config.retry_config,
                        current_ledger,
                        &error,
                    )
                } else {
                    Err(error)
                }
            },
        }
    }

    /// Executes an approved proposal, given the answers of the outside.
    ///
    /// Anyone may execute, provided that the proposal is approved and still has its votes, its
    /// timelock has passed, the proposals that it depends on were executed, its conditions are
    /// met and the vault holds enough.
    pub fn execute_proposal(
        env: &mut Env,
        executor: Address,
        proposal_id: u64,
        answers: &ExecutionAnswers,
    ) -> (r: Result<(), VaultError>)
        requires
            old(env)@.authorized(executor),
            old(env)@.execute_fits(executor, proposal_id, answers@),
            old(env)@.proposal(proposal_id) matches Ok(proposal) ==> answers.observations@.len()
                >= proposal.conditions.len(),
        ensures
            (final(env)@, r) == old(env)@.execute(executor, proposal_id, answers@),
    {
        let started = Self::start_execution(env, executor, proposal_id)?;
        let (config, mut proposal) = started;
        proof {
            lemma_started(old(env)@, executor, proposal_id);
            lemma_tried(env@, config@, proposal@, answers@);
        }
        let outcome = Self::try_execute_transfer(env, &mut proposal, answers);
        Self::finish_execution(env, &config, executor, proposal, outcome)
    }
}

/// What the start of an execution leaves as it was.
proof fn lemma_started(env: EnvModel, executor: Address, proposal_id: u64)
    requires
        env.start_execution(executor, proposal_id).1 is Ok,
    ensures
        ({
            let (started, proposal) = env.start_execution(executor, proposal_id);
            let config = env.access.config->0;
            &&& env.proposal(proposal_id) == proposal
            &&& started.completion_fits(proposal->Ok_0) == env.completion_fits(proposal->Ok_0)
            &&& config.retry_config.enabled ==> started.retries(proposal->Ok_0.id).retry_count
                < u32::MAX
        }),
{
    let known = env.decay_reputation(executor);
    let proposal = env.proposal(proposal_id)->Ok_0;
    let config = env.access.config->0;
    lemma_hooks_frame(known, config.pre_execution_hooks, proposal.id, true);
    let started = env.start_execution(executor, proposal_id).0;
    assert(started.treasury == env.treasury);
    assert(started.access == env.access);
    assert(started.ledger == env.ledger);
    assert(started.proposals.retries == env.proposals.retries);
    assert(started.members.reputation == known.members.reputation);
}

/// What trying an execution leaves as it was.
proof fn lemma_tried(
    env: EnvModel,
    config: ConfigModel,
    proposal: ProposalModel,
    answers: ExecutionAnswersModel,
)
    requires
        env.try_execute(proposal, answers).1 is Ok ==> env.completion_fits(proposal),
        config.retry_config.enabled ==> env.retries(proposal.id).retry_count < u32::MAX,
    ensures
        ({
            let (tried, outcome) = env.try_execute(proposal, answers);
            match outcome {
                Ok(executed) => tried.finish_fits(config, executed, Ok(())),
                Err(error) => tried.finish_fits(config, proposal, Err(error)),
            }
        }),
{
    crate::conditions::lemma_conditions_frame(env, proposal.conditions, answers.observations);
    let (charged, fee) = env.charge(proposal, answers.observations);
    assert(charged.access == env.access);
    assert(charged.proposals == env.proposals);
    assert(charged.members == env.members);
}

} // verus!
