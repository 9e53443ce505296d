//! Execution of several proposals in one call.

use vstd::prelude::*;

use crate::constants::MAX_BATCH_SIZE;
use crate::costs::publish_metrics;
use crate::env::{Action, Env, EnvModel, Event};
use crate::errors::VaultError;
use crate::execution::{announce_execution, count_executed};
use crate::guarantees::{return_insurance, return_stake};
use crate::math::count_u32;
use crate::primitives::Address;
use crate::proposals::Outcome;
use crate::storage;
use crate::types::{
    AuditAction, BatchStatus, Config, ConfigModel, ExecutionAnswers, ExecutionAnswersModel,
    Proposal, ProposalBatch, ProposalBatchModel, ProposalBatchResult, ProposalModel,
    ProposalStatus,
};
use crate::VaultDAO;

verus! {

/// What executing several proposals came to.
pub ghost struct BatchRun {
    pub env: EnvModel,
    pub executed: Seq<u64>,
    pub failed: nat,
}

/// The state after a recorded batch ended: completed, or rolled back where one of its
/// proposals failed.
#[verifier::opaque]
pub open spec fn finish_batch(
    executor: Address,
    batch: ProposalBatchModel,
    run: BatchRun,
) -> EnvModel {
    let executed = crate::math::clamp_u32(run.executed.len() as int);
    let failed = crate::math::clamp_u32(run.failed as int);
    let result = ProposalBatchResult { executed_count: executed, failed_count: failed };
    if run.failed == 0 {
        run.env.close_batch(
            batch,
            BatchStatus::Completed,
            executed,
            0,
        ).with_proposal_batch_result(batch.id, result).publish(
            Event::BatchExecuted { executor, executed, failed },
        )
    } else {
        let (undone, entries) = run.env.take_back_each(run.executed);
        undone.close_batch(batch, BatchStatus::RolledBack, executed, failed).with_batch_rollback(
            batch.id,
            entries,
        ).with_proposal_batch_result(batch.id, result).publish(
            Event::BatchRolledBack { executor, executed },
        )
    }
}

impl EnvModel {
    /// Whether every proposal is stored under its own identifier.
    pub open spec fn records_keyed(self) -> bool {
        forall|id: u64| #[trigger]
            self.proposals.records.contains_key(id) ==> self.proposals.records[id].id == id
    }

    /// The state after a proposal was found to have expired in a batch.
    pub open spec fn expire_in_batch(self, proposal: ProposalModel) -> EnvModel {
        self.with_proposal(
            ProposalModel { status: ProposalStatus::Expired, ..proposal },
        ).count_expiry().publish(
            Event::ProposalExpired { proposal_id: proposal.id, expires_at: proposal.expires_at },
        ).publish_metrics()
    }

    /// Whether a proposal is neither locked nor waiting for others.
    pub open spec fn released(self, proposal: ProposalModel) -> bool {
        &&& proposal.unlock_ledger == 0 || self.now() >= proposal.unlock_ledger
        &&& crate::dependencies::waits(
            self.proposals.records,
            proposal.id,
            proposal.depends_on,
        ) is None
    }

    /// The state after a proposal of a batch was paid and executed.
    #[verifier::opaque]
    pub open spec fn executed_in_batch(self, executor: Address, proposal: ProposalModel) -> EnvModel {
        let executed = ProposalModel {
            gas_used: self.execution_fee(proposal).total_fee,
            status: ProposalStatus::Executed,
            ..proposal
        };
        self.act(
            Action::Transfer {
                token: proposal.token,
                to: proposal.recipient,
                amount: proposal.amount,
            },
        ).return_insurance(proposal).return_stake(proposal).with_proposal(
            executed,
        ).announce_execution(executor, executed).count_executed(executed)
    }

    /// The state after a proposal of a batch was taken up, and whether it was executed, given
    /// what the outside says about its conditions and the vault's balance.
    pub open spec fn execute_one(
        self,
        config: ConfigModel,
        executor: Address,
        proposal_id: u64,
        answers: ExecutionAnswersModel,
    ) -> (EnvModel, bool) {
        match self.proposal(proposal_id) {
            Err(_) => (self, false),
            Ok(proposal) => if proposal.status != ProposalStatus::Approved || self.votes_missing(
                config,
                proposal,
            ) is Some {
                (self, false)
            } else if self.now() > proposal.expires_at {
                (self.expire_in_batch(proposal), false)
            } else if !self.released(proposal) {
                (self, false)
            } else {
                let (tested, met) = if proposal.conditions.len() > 0 {
                    self.evaluate(proposal, answers.observations)
                } else {
                    (self, Ok(()))
                };
                let cost = self.execution_fee(proposal).total_fee;
                if met is Err || (proposal.gas_limit > 0 && cost > proposal.gas_limit)
                    || answers.balance < proposal.amount + proposal.stake_amount {
                    (tested, false)
                } else {
                    (tested.executed_in_batch(executor, proposal), true)
                }
            },
        }
    }

    /// What executing several proposals, in order, comes to.
    pub open spec fn execute_each(
        self,
        config: ConfigModel,
        executor: Address,
        ids: Seq<u64>,
        answers: Seq<ExecutionAnswersModel>,
    ) -> BatchRun
        decreases ids.len(),
    {
        if ids.len() == 0 {
            BatchRun { env: self, executed: Seq::empty(), failed: 0 }
        } else {
            let run = self.execute_each(config, executor, ids.drop_last(), answers);
            let (after, done) = run.env.execute_one(
                config,
                executor,
                ids.last(),
                answers[ids.len() - 1],
            );
            if done {
                BatchRun { env: after, executed: run.executed.push(ids.last()), ..run }
            } else {
                BatchRun { env: after, failed: run.failed + 1, ..run }
            }
        }
    }

    /// The configuration under which several proposals are executed, or why they are not: no
    /// more than a batch can be executed in one call.
    pub open spec fn batch_config(self, ids: Seq<u64>) -> Result<ConfigModel, VaultError> {
        if ids.len() > MAX_BATCH_SIZE {
            Err(VaultError::BatchTooLarge)
        } else {
            self.config()
        }
    }

    /// What executing several proposals leaves behind: the executed ones, and how many were
    /// not.
    pub open spec fn batch_execute(
        self,
        executor: Address,
        ids: Seq<u64>,
        answers: Seq<ExecutionAnswersModel>,
    ) -> Outcome<(Seq<u64>, u32)> {
        match self.batch_config(ids) {
            Err(error) => (self, Err(error)),
            Ok(config) => {
                let run = self.execute_each(config, executor, ids, answers);
                let failed = crate::math::clamp_u32(run.failed as int);
                (
                    run.env.act(Action::ExtendInstanceTtl).publish(
                        Event::BatchExecuted {
                            executor,
                            executed: crate::math::clamp_u32(run.executed.len() as int),
                            failed,
                        },
                    ),
                    Ok((run.executed, failed)),
                )
            },
        }
    }

    /// Whether a proposal of a batch of so many, where it is approved, can be paid and counted.
    pub open spec fn batch_item_fits(self, proposal: ProposalModel, count: nat) -> bool {
        proposal.status == ProposalStatus::Approved ==> {
            &&& crate::math::fits_i128(proposal.amount + proposal.stake_amount)
            &&& self.reputation(proposal.proposer).proposals_executed + count <= u32::MAX
        }
    }

    /// Whether executing several proposals, no more than a batch holds, stays within the limits
    /// of integers.
    pub open spec fn batch_execute_fits(self, ids: Seq<u64>) -> bool {
        self.batch_config(ids) is Ok ==> forall|i: int|
            0 <= i < ids.len() ==> (self.proposal(#[trigger] ids[i]) matches Ok(proposal)
                ==> self.batch_item_fits(proposal, ids.len()))
    }

    /// Whether a proposal of a recorded batch may be paid.
    pub open spec fn batch_item_ready(self, proposal_id: u64) -> bool {
        match self.proposal(proposal_id) {
            Ok(proposal) => proposal.status == ProposalStatus::Approved && self.released(proposal),
            Err(_) => false,
        }
    }

    /// The state after the transfer of a proposal of a recorded batch was tried.
    pub open spec fn batch_item_tried(self, executor: Address, proposal: ProposalModel, done: bool) -> 
        EnvModel {
        let tried = self.act(
            Action::TriedTransfer {
                token: proposal.token,
                to: proposal.recipient,
                amount: proposal.amount,
                done,
            },
        );
        if done {
            tried.with_proposal(
                ProposalModel { status: ProposalStatus::Executed, ..proposal },
            ).audit(AuditAction::ExecuteProposal, executor, proposal.id)
        } else {
            tried
        }
    }

    /// What executing the proposals of a recorded batch, in order and up to the first that
    /// fails, comes to. Whether a transfer goes through is given for each.
    pub open spec fn run_batch(self, executor: Address, ids: Seq<u64>, outcomes: Seq<bool>) -> 
        BatchRun
        decreases ids.len(),
    {
        if ids.len() == 0 {
            BatchRun { env: self, executed: Seq::empty(), failed: 0 }
        } else {
            let run = self.run_batch(executor, ids.drop_last(), outcomes);
            let id = ids.last();
            let done = outcomes[ids.len() - 1];
            if run.failed > 0 {
                run
            } else if !run.env.batch_item_ready(id) {
                BatchRun { failed: 1, ..run }
            } else {
                let after = run.env.batch_item_tried(
                    executor,
                    run.env.proposal(id)->Ok_0,
                    done,
                );
                if done {
                    BatchRun { env: after, executed: run.executed.push(id), failed: 0 }
                } else {
                    BatchRun { env: after, failed: 1, ..run }
                }
            }
        }
    }

    /// The state after a proposal of a failed batch was taken back.
    pub open spec fn take_back(self, proposal: ProposalModel) -> EnvModel {
        self.act(
            Action::TakeBack {
                token: proposal.token,
                from: proposal.recipient,
                amount: proposal.amount,
            },
        ).with_proposal(ProposalModel { status: ProposalStatus::Pending, ..proposal })
    }

    /// The state after the executed proposals of a failed batch were taken back, in order, and
    /// what that has to bring back.
    pub open spec fn take_back_each(self, ids: Seq<u64>) -> (EnvModel, Seq<(Address, i128)>)
        decreases ids.len(),
    {
        if ids.len() == 0 {
            (self, Seq::empty())
        } else {
            let (before, entries) = self.take_back_each(ids.drop_last());
            match before.proposal(ids.last()) {
                Ok(proposal) => (
                    before.take_back(proposal),
                    entries.push((proposal.token, proposal.amount)),
                ),
                Err(_) => (before, entries),
            }
        }
    }

    /// The state after the outcome of a recorded batch was stored.
    pub open spec fn close_batch(self, batch: ProposalBatchModel, status: BatchStatus, executed: 
        u32, failed: u32) -> EnvModel {
        self.with_proposal_batch(
            ProposalBatchModel {
                status,
                executed_count: executed,
                failed_count: failed,
                ..batch
            },
        )
    }

    /// The state after the execution of a recorded batch began.
    pub open spec fn begun_batch(self, batch: ProposalBatchModel) -> EnvModel {
        self.with_proposal_batch(ProposalBatchModel { status: BatchStatus::Executing, ..batch })
    }

    /// What executing a recorded batch leaves behind: either all of its proposals are
    /// executed, or those that were are taken back.
    pub open spec fn execute_proposal_batch(
        self,
        executor: Address,
        batch_id: u64,
        outcomes: Seq<bool>,
    ) -> Outcome<()> {
        match self.proposal_batch(batch_id) {
            Err(error) => (self, Err(error)),
            Ok(batch) => if batch.status != BatchStatus::Pending {
                (self, Err(VaultError::InvalidAmount))
            } else {
                let begun = ProposalBatchModel { status: BatchStatus::Executing, ..batch };
                let run = self.begun_batch(batch).run_batch(
                    executor,
                    batch.proposal_ids,
                    outcomes,
                );
                (finish_batch(executor, begun, run), Ok(()))
            },
        }
    }
}

/// What the execution of a proposal leaves as it was, and how far it counts.
proof fn lemma_rewards_count(env: EnvModel, approvers: Seq<Address>, addr: Address)
    ensures
        env.reward_approvers(approvers).reputation(addr).proposals_executed == env.reputation(
            addr,
        ).proposals_executed,
        env.reward_approvers(approvers).proposals == env.proposals,
        env.reward_approvers(approvers).access == env.access,
        env.reward_approvers(approvers).ledger == env.ledger,
    decreases approvers.len(),
{
    if approvers.len() > 0 {
        lemma_rewards_count(env, approvers.drop_last(), addr);
    }
}

/// Two proposals that agree in what is paid and to whom.
spec fn same_payment(a: ProposalModel, b: ProposalModel) -> bool {
    &&& a.id == b.id
    &&& a.proposer == b.proposer
    &&& a.amount == b.amount
    &&& a.stake_amount == b.stake_amount
    &&& a.conditions == b.conditions
    &&& a.status == ProposalStatus::Approved ==> b.status == ProposalStatus::Approved
}

/// Taking up a proposal of a batch keeps what is paid for every proposal, and counts at most
/// one execution for anyone.
proof fn lemma_execute_one(
    env: EnvModel,
    config: ConfigModel,
    executor: Address,
    proposal_id: u64,
    answers: ExecutionAnswersModel,
)
    requires
        env.records_keyed(),
        env.proposal(proposal_id) matches Ok(proposal) ==> env.batch_item_fits(proposal, 1),
    ensures
        ({
            let after = env.execute_one(config, executor, proposal_id, answers).0;
            &&& after.records_keyed()
            &&& forall|id: u64|
                #![trigger after.proposal(id)]
                (after.proposal(id) is Ok <==> env.proposal(id) is Ok) && (env.proposal(
                    id,
                ) is Ok ==> same_payment(after.proposal(id)->Ok_0, env.proposal(id)->Ok_0))
            &&& forall|addr: Address| #[trigger]
                after.reputation(addr).proposals_executed <= env.reputation(
                    addr,
                ).proposals_executed + 1
        }),
{
    reveal(EnvModel::executed_in_batch);
    let after = env.execute_one(config, executor, proposal_id, answers).0;
    if let Ok(proposal) = env.proposal(proposal_id) {
        crate::conditions::lemma_conditions_frame(env, proposal.conditions, answers.observations);
        let tested = if proposal.conditions.len() > 0 {
            env.evaluate(proposal, answers.observations).0
        } else {
            env
        };
        let executed = ProposalModel {
            gas_used: tested.execution_fee(proposal).total_fee,
            status: ProposalStatus::Executed,
            ..proposal
        };
        let paid = tested.act(
            Action::Transfer {
                token: proposal.token,
                to: proposal.recipient,
                amount: proposal.amount,
            },
        ).return_insurance(proposal).return_stake(proposal).with_proposal(
            executed,
        ).announce_execution(executor, executed);
        assert(paid.members == env.members);
        assert forall|addr: Address| #[trigger]
            tested.executed_in_batch(executor, proposal).reputation(addr).proposals_executed
                <= env.reputation(addr).proposals_executed + 1 by {
            lemma_rewards_count(
                paid.reward_proposer(proposal.proposer),
                proposal.approvals,
                addr,
            );
        }
        lemma_rewards_count(
            paid.reward_proposer(proposal.proposer),
            proposal.approvals,
            proposal.proposer,
        );
        assert(after.proposals.attachments == env.proposals.attachments);
    }
}

/// Marks a proposal as expired in a batch.
fn expire_in_batch(env: &mut Env, proposal: &mut Proposal)
    ensures
        final(env)@ == old(env)@.expire_in_batch(old(proposal)@),
{
    proposal.status = ProposalStatus::Expired;
    storage::set_proposal(env, proposal);
    storage::metrics_on_expiry(env);
    env.publish(
        Event::ProposalExpired { proposal_id: proposal.id, expires_at: proposal.expires_at },
    );
    publish_metrics(env);
}

/// Whether a proposal is neither locked nor waiting for others.
fn released(env: &Env, proposal: &Proposal) -> (r: bool)
    ensures
        r == env@.released(proposal@),
{
    let current_ledger: u64 = env.now();
    (proposal.unlock_ledger == 0 || current_ledger >= proposal.unlock_ledger)
        && VaultDAO::ensure_dependencies_executable(env, proposal).is_ok()
}

/// Pays and executes a proposal of a batch.
fn execute_in_batch(env: &mut Env, executor: Address, proposal: &mut Proposal)
    requires
        old(env)@.reputation(old(proposal).proposer).proposals_executed < u32::MAX,
    ensures
        final(env)@ == old(env)@.executed_in_batch(executor, old(proposal)@),
{
    proof {
        reveal(EnvModel::executed_in_batch);
    }
    let cost: u64 = VaultDAO::calculate_execution_fee(env, proposal).total_fee;
    env.act(
        Action::Transfer {
            token: proposal.token,
            to: proposal.recipient,
            amount: proposal.amount,
        },
    );
    return_insurance(env, proposal);
    return_stake(env, proposal);
    proposal.gas_used = cost;
    proposal.status = ProposalStatus::Executed;
    storage::set_proposal(env, proposal);
    announce_execution(env, executor, proposal);
    count_executed(env, proposal);
}

impl VaultDAO {
    /// Takes up a proposal of a batch, given what the outside says about its conditions and the
    /// vault's balance, and says whether it was executed.
    pub fn execute_one(
        env: &mut Env,
        config: &Config,
        executor: Address,
        proposal_id: u64,
        answers: &ExecutionAnswers,
    ) -> (r: bool)
        requires
            old(env)@.proposal(proposal_id) matches Ok(proposal) ==> {
                &&& old(env)@.batch_item_fits(proposal, 1)
                &&& answers.observations@.len() >= proposal.conditions.len()
            },
        ensures
            (final(env)@, r) == old(env)@.execute_one(config@, executor, proposal_id, answers@),
    {
        let mut proposal = match storage::get_proposal(env, proposal_id) {
            Ok(proposal) => proposal,
            Err(_) => return false,
        };
        proof {
            crate::conditions::lemma_conditions_frame(
                old(env)@,
                proposal@.conditions,
                answers.observations@,
            );
        }
        if proposal.status != ProposalStatus::Approved {
            return false;
        }
        if Self::ensure_vote_requirements_satisfied(env, config, &proposal).is_err() {
            return false;
        }
        if env.now() > proposal.expires_at {
            expire_in_batch(env, &mut proposal);
            return false;
        }
        if !released(env, &proposal) {
            return false;
        }
        if proposal.conditions.len() > 0 && Self::evaluate_conditions(
            env,
            &proposal,
            &answers.observations,
        ).is_err() {
            return false;
        }
        let estimate = Self::calculate_execution_fee(env, &proposal);
        if proposal.gas_limit > 0 && estimate.total_fee > proposal.gas_limit {
            return false;
        }
        if answers.balance < proposal.amount + proposal.stake_amount {
            return false;
        }
        execute_in_batch(env, executor, &mut proposal);
        true
    }

    /// Takes up a proposal of a batch, and keeps count of those that were executed and of how
    /// many were not.
    pub fn take_up(
        env: &mut Env,
        config: &Config,
        executor: Address,
        proposal_id: u64,
        answers: &ExecutionAnswers,
        executed: &mut Vec<u64>,
        failed: &mut usize,
    )
        requires
            *old(failed) < usize::MAX,
            old(env)@.proposal(proposal_id) matches Ok(proposal) ==> {
                &&& old(env)@.batch_item_fits(proposal, 1)
                &&& answers.observations@.len() >= proposal.conditions.len()
            },
        ensures
            ({
                let (after, done) = old(env)@.execute_one(config@, executor, proposal_id, answers@);
                &&& final(env)@ == after
                &&& final(executed)@ == if done {
                    old(executed)@.push(proposal_id)
                } else {
                    old(executed)@
                }
                &&& *final(failed) == if done {
                    *old(failed) as int
                } else {
                    *old(failed) + 1
                }
            }),
    {
        if Self::execute_one(env, config, executor, proposal_id, answers) {
            executed.push(proposal_id);
        } else {
            *failed += 1;
        }
    }

    /// Executes several approved proposals, no more than a batch holds, given the answers of the
    /// outside for each. Those that cannot be executed are skipped.
    pub fn batch_execute_proposals(
        env: &mut Env,
        executor: Address,
        proposal_ids: Vec<u64>,
        answers: &Vec<ExecutionAnswers>,
    ) -> (r: Result<(Vec<u64>, u32), VaultError>)
        requires
            old(env)@.authorized(executor),
            old(env)@.records_keyed(),
            old(env)@.batch_execute_fits(proposal_ids@),
            answers@.len() == proposal_ids@.len(),
            forall|i: int|
                0 <= i < proposal_ids@.len() ==> (old(env)@.proposal(
                    #[trigger] proposal_ids@[i],
                ) matches Ok(proposal) ==> answers@[i].observations@.len()
                    >= proposal.conditions.len()),
        ensures
            ({
                let (after, answer) = old(env)@.batch_execute(
                    executor,
                    proposal_ids@,
                    answers@.map_values(|a: ExecutionAnswers| a@),
                );
                &&& final(env)@ == after
                &&& match answer {
                    Ok(answer) => r matches Ok(got) && (got.0@, got.1) == answer,
                    Err(error) => r matches Err(e) && e == error,
                }
            }),
    {
        let config = Self::begin_batch(env, &proposal_ids)?;
        let ghost views = answers@.map_values(|a: ExecutionAnswers| a@);
        let ghost first = env@;
        let mut executed: Vec<u64> = Vec::new();
        let mut failed: usize = 0;
        let mut i: usize = 0;
        while i < proposal_ids.len()
            invariant
                i <= proposal_ids.len(),
                failed <= i,
                first == old(env)@,
                first.batch_execute_fits(proposal_ids@),
                first.batch_config(proposal_ids@) is Ok,
                answers@.len() == proposal_ids@.len(),
                views == answers@.map_values(|a: ExecutionAnswers| a@),
                forall|j: int|
                    0 <= j < proposal_ids@.len() ==> (first.proposal(
                        #[trigger] proposal_ids@[j],
                    ) matches Ok(proposal) ==> answers@[j].observations@.len()
                        >= proposal.conditions.len()),
                env@.records_keyed(),
                forall|id: u64|
                    #![trigger env@.proposal(id)]
                    (env@.proposal(id) is Ok <==> first.proposal(id) is Ok) && (first.proposal(
                        id,
                    ) is Ok ==> same_payment(env@.proposal(id)->Ok_0, first.proposal(id)->Ok_0)),
                forall|addr: Address| #[trigger]
                    env@.reputation(addr).proposals_executed <= first.reputation(
                        addr,
                    ).proposals_executed + i,
                first.execute_each(
                    config@,
                    executor,
                    proposal_ids@.take(i as int),
                    views,
                ) == (BatchRun { env: env@, executed: executed@, failed: failed as nat }),
            decreases proposal_ids.len() - i,
        {
            let id: u64 = proposal_ids[i];
            let ghost before = env@;
            proof {
                let next = proposal_ids@.take(i + 1);
                assert(next.drop_last() =~= proposal_ids@.take(i as int));
                assert(next.last() == id);
                assert(views[i as int] == answers@[i as int]@);
                assert(first.proposal(proposal_ids@[i as int]) matches Ok(p)
                    ==> first.batch_item_fits(p, proposal_ids@.len()));
                if let Ok(p) = before.proposal(id) {
                    assert(same_payment(p, first.proposal(id)->Ok_0));
                    assert(before.reputation(p.proposer).proposals_executed <= first.reputation(
                        p.proposer,
                    ).proposals_executed + i);
                    assert(before.batch_item_fits(p, 1));
                }
                lemma_execute_one(before, config@, executor, id, answers@[i as int]@);
            }
            Self::take_up(env, &config, executor, id, &answers[i], &mut executed, &mut failed);
            proof {
                assert forall|k: u64|
                    #![trigger env@.proposal(k)]
                    (env@.proposal(k) is Ok <==> first.proposal(k) is Ok) && (first.proposal(
                        k,
                    ) is Ok ==> same_payment(
                        env@.proposal(k)->Ok_0,
                        first.proposal(k)->Ok_0,
                    )) by {
                    assert(before.proposal(k) is Ok <==> first.proposal(k) is Ok);
                }
                assert forall|addr: Address| #[trigger]
                    env@.reputation(addr).proposals_executed <= first.reputation(
                        addr,
                    ).proposals_executed + (i + 1) by {
                    assert(before.reputation(addr).proposals_executed <= first.reputation(
                        addr,
                    ).proposals_executed + i);
                }
            }
            i += 1;
        }
        assert(proposal_ids@.take(proposal_ids@.len() as int) =~= proposal_ids@);
        Ok(Self::report_batch(env, executor, executed, failed))
    }

    /// The configuration under which several proposals are executed, or why they are not.
    pub fn begin_batch(env: &Env, proposal_ids: &Vec<u64>) -> (r: Result<Config, VaultError>)
        ensures
            crate::errors::res_view(r) == env@.batch_config(proposal_ids@),
    {
        if proposal_ids.len() > MAX_BATCH_SIZE as usize {
            return Err(VaultError::BatchTooLarge);
        }
        storage::get_config(env)
    }

    /// Reports which proposals were executed and how many were not.
    pub fn report_batch(env: &mut Env, executor: Address, executed: Vec<u64>, failed: usize) -> (r: (
        Vec<u64>,
        u32,
    ))
        ensures
            r.0@ == executed@,
            r.1 == crate::math::clamp_u32(failed as int),
            final(env)@ == old(env)@.act(Action::ExtendInstanceTtl).publish(
                Event::BatchExecuted {
                    executor,
                    executed: crate::math::clamp_u32(executed@.len() as int),
                    failed: crate::math::clamp_u32(failed as int),
                },
            ),
    {
        storage::extend_instance_ttl(env);
        let failed_count: u32 = count_u32(failed as u128);
        let executed_count: u32 = count_u32(executed.len() as u128);
        env.publish(
            Event::BatchExecuted { executor, executed: executed_count, failed: failed_count },
        );
        (executed, failed_count)
    }

    /// Whether a proposal of a recorded batch may be paid, and the proposal where it may.
    pub fn batch_item_ready(env: &Env, proposal_id: u64) -> (r: Option<Proposal>)
        ensures
            match r {
                Some(proposal) => env@.batch_item_ready(proposal_id) && env@.proposal(proposal_id)
                    == Ok::<ProposalModel, VaultError>(proposal@),
                None => !env@.batch_item_ready(proposal_id),
            },
    {
        match storage::get_proposal(env, proposal_id) {
            Ok(proposal) => if proposal.status == ProposalStatus::Approved && released(
                env,
                &proposal,
            ) {
                Some(proposal)
            } else {
                None
            },
            Err(_) => None,
        }
    }

    /// Records the transfer of a proposal of a recorded batch that was tried.
    pub fn batch_item_tried(env: &mut Env, executor: Address, proposal: Proposal, done: bool)
        requires
            old(env)@.audit.next_id < u64::MAX,
        ensures
            final(env)@ == old(env)@.batch_item_tried(executor, proposal@, done),
    {
        let mut proposal = proposal;
        env.act(
            Action::TriedTransfer {
                token: proposal.token,
                to: proposal.recipient,
                amount: proposal.amount,
                done,
            },
        );
        if done {
            proposal.status = ProposalStatus::Executed;
            storage::set_proposal(env, &proposal);
            storage::create_audit_entry(
                env,
                AuditAction::ExecuteProposal,
                &executor,
                proposal.id,
            );
        }
    }

    /// Begins the execution of a recorded batch.
    pub fn begin_proposal_batch(env: &mut Env, executor: Address, batch_id: u64) -> (r: Result<
        ProposalBatch,
        VaultError,
    >)
        requires
            old(env)@.authorized(executor),
        ensures
            match old(env)@.proposal_batch(batch_id) {
                Err(error) => r matches Err(e) && e == error && final(env)@ == old(env)@,
                Ok(batch) => if batch.status != BatchStatus::Pending {
                    r matches Err(e) && e == VaultError::InvalidAmount && final(env)@ == old(env)@
                } else {
                    r matches Ok(begun) && begun@ == (ProposalBatchModel {
                        status: BatchStatus::Executing,
                        ..batch
                    }) && final(env)@ == old(env)@.with_proposal_batch(begun@)
                },
            },
    {
        let mut batch = storage::get_proposal_batch(env, batch_id)?;
        if batch.status != BatchStatus::Pending {
            return Err(VaultError::InvalidAmount);
        }
        batch.status = BatchStatus::Executing;
        storage::set_proposal_batch(env, &batch);
        Ok(batch)
    }

    /// Ends the execution of a recorded batch. Where one of its proposals failed, those that
    /// were executed are taken back.
    pub fn finish_proposal_batch(
        env: &mut Env,
        executor: Address,
        batch: ProposalBatch,
        executed: &Vec<u64>,
        failed: bool,
    )
        ensures
            final(env)@ == finish_batch(
                executor,
                batch@,
                (BatchRun {
                    env: old(env)@,
                    executed: executed@,
                    failed: if failed {
                        1
                    } else {
                        0
                    },
                }),
            ),
    {
        proof {
            reveal(finish_batch);
        }
        let mut batch = batch;
        let executed_count: u32 = count_u32(executed.len() as u128);
        if !failed {
            batch.status = BatchStatus::Completed;
            batch.executed_count = executed_count;
            batch.failed_count = 0;
            storage::set_proposal_batch(env, &batch);
            let result = ProposalBatchResult { executed_count, failed_count: 0 };
            storage::set_proposal_batch_result(env, batch.id, &result);
            env.publish(Event::BatchExecuted { executor, executed: executed_count, failed: 0 });
            return;
        }
        let entries = take_back_each(env, executed);
        batch.status = BatchStatus::RolledBack;
        batch.executed_count = executed_count;
        batch.failed_count = 1;
        storage::set_proposal_batch(env, &batch);
        storage::set_batch_rollback(env, batch.id, &entries);
        let result = ProposalBatchResult { executed_count, failed_count: 1 };
        storage::set_proposal_batch_result(env, batch.id, &result);
        env.publish(Event::BatchRolledBack { executor, executed: executed_count });
    }

    /// Executes a recorded batch, given for each proposal whether its transfer goes through:
    /// either all of its proposals are executed, or those that were are taken back.
    pub fn execute_proposal_batch(
        env: &mut Env,
        executor: Address,
        batch_id: u64,
        outcomes: &Vec<bool>,
    ) -> (r: Result<(), VaultError>)
        requires
            old(env)@.authorized(executor),
            old(env)@.has_room(),
            old(env)@.proposal_batch(batch_id) matches Ok(batch) ==> batch.proposal_ids.len()
                == outcomes@.len() <= MAX_BATCH_SIZE,
        ensures
            (final(env)@, r) == old(env)@.execute_proposal_batch(executor, batch_id, outcomes@),
    {
        let batch = Self::begin_proposal_batch(env, executor, batch_id)?;
        let ghost first = env@;
        let ids = &batch.proposal_ids;
        let mut executed: Vec<u64> = Vec::new();
        let mut failed: bool = false;
        let mut i: usize = 0;
        while i < ids.len() && !failed
            invariant
                i <= ids.len() == outcomes.len() <= MAX_BATCH_SIZE,
                ids@ == batch@.proposal_ids,
                env@.audit.next_id <= first.audit.next_id + i,
                first.has_room(),
                first.run_batch(executor, ids@.take(i as int), outcomes@) == (BatchRun {
                    env: env@,
                    executed: executed@,
                    failed: if failed {
                        1
                    } else {
                        0
                    },
                }),
            decreases ids.len() - i,
        {
            proof {
                assert(ids@.take(i + 1).drop_last() =~= ids@.take(i as int));
                assert(ids@.take(i + 1).last() == ids@[i as int]);
            }
            match Self::batch_item_ready(env, ids[i]) {
                Some(proposal) => {
                    Self::batch_item_tried(env, executor, proposal, outcomes[i]);
                    if outcomes[i] {
                        executed.push(ids[i]);
                    } else {
                        failed = true;
                    }
                },
                None => {
                    failed = true;
                },
            }
            i += 1;
        }
        proof {
            assert(ids@.take(ids@.len() as int) =~= ids@);
            lemma_batch_stops(first, executor, ids@, outcomes@, i as int);
        }
        Self::finish_proposal_batch(env, executor, batch, &executed, failed);
        Ok(())
    }
}

/// A recorded batch that failed early goes no further.
proof fn lemma_batch_stops(
    env: EnvModel,
    executor: Address,
    ids: Seq<u64>,
    outcomes: Seq<bool>,
    n: int,
)
    requires
        0 <= n <= ids.len(),
    ensures
        env.run_batch(executor, ids.take(n), outcomes).failed > 0 ==> env.run_batch(
            executor,
            ids,
            outcomes,
        ) == env.run_batch(executor, ids.take(n), outcomes),
    decreases ids.len() - n,
{
    if n == ids.len() {
        assert(ids.take(n) =~= ids);
    } else {
        lemma_batch_stops(env, executor, ids, outcomes, n + 1);
        assert(ids.take(n + 1).drop_last() =~= ids.take(n));
    }
}

/// Takes executed proposals of a failed batch back.
fn take_back_each(env: &mut Env, ids: &Vec<u64>) -> (r: Vec<(Address, i128)>)
    ensures
        (final(env)@, r@) == old(env)@.take_back_each(ids@),
{
    let mut entries: Vec<(Address, i128)> = Vec::new();
    let mut i: usize = 0;
    while i < ids.len()
        invariant
            i <= ids.len(),
            (env@, entries@) == old(env)@.take_back_each(ids@.take(i as int)),
        decreases ids.len() - i,
    {
        assert(ids@.take(i + 1).drop_last() =~= ids@.take(i as int));
        if let Ok(proposal) = storage::get_proposal(env, ids[i]) {
            let mut proposal = proposal;
            entries.push((proposal.token, proposal.amount));
            env.act(
                Action::TakeBack {
                    token: proposal.token,
                    from: proposal.recipient,
                    amount: proposal.amount,
                },
            );
            proposal.status = ProposalStatus::Pending;
            storage::set_proposal(env, &proposal);
        }
        i += 1;
    }
    assert(ids@.take(ids@.len() as int) =~= ids@);
    entries
}

} // verus!
