//! What holds of executions.

use vstd::prelude::*;

use crate::env::{Action, EnvModel, Event};
use crate::errors::VaultError;
use crate::primitives::Address;
use crate::types::{
    ConfigModel, ExecutionAnswersModel, Observation, ProposalModel, ProposalStatus,
};

verus! {

/// Charging an execution leaves proposals, queues and costs alone.
proof fn lemma_charge_frame(env: EnvModel, proposal: ProposalModel, seen: Seq<Observation>)
    ensures
        env.charge(proposal, seen).0.proposals == env.proposals,
        env.charge(proposal, seen).0.execution_fee(proposal) == env.execution_fee(proposal),
{
    crate::conditions::lemma_conditions_frame(env, proposal.conditions, seen);
}

/// Settling a transfer leaves proposals and queues alone.
proof fn lemma_settle_frame(env: EnvModel, proposal: ProposalModel, amount: i128, done: bool)
    ensures
        env.settle_transfer(proposal, amount, done).0.proposals == env.proposals,
{
}

/// Trying an execution leaves proposals and queues alone.
pub(crate) proof fn lemma_try_frame(env: EnvModel, proposal: ProposalModel, answers: ExecutionAnswersModel)
    ensures
        env.try_execute(proposal, answers).0.proposals == env.proposals,
        env.try_execute(proposal, answers).1 matches Ok(executed) ==> executed == (ProposalModel {
            gas_used: env.execution_fee(proposal).total_fee,
            ..proposal
        }) && answers.transferred,
{
    let (charged, fee) = env.charge(proposal, answers.observations);
    lemma_charge_frame(env, proposal, answers.observations);
    if let Ok(fee) = fee {
        if let Ok(amount) = crate::execution::due(proposal, fee, answers.balance) {
            lemma_settle_frame(charged, proposal, amount, answers.transferred);
        }
    }
}

/// Preparing an execution keeps the proposal as it stands, and nothing else.
pub(crate) proof fn lemma_prepare_frame(env: EnvModel, config: ConfigModel, proposal: ProposalModel)
    ensures
        env.prepare_execution(config, proposal).proposals.records == env.proposals.records,
        env.prepare_execution(config, proposal).proposals.attachments == env.proposals.attachments,
        env.prepare_execution(config, proposal).proposals.queues == env.proposals.queues,
{
    crate::execution::lemma_hooks_frame(env, config.pre_execution_hooks, proposal.id, true);
}

/// Completing an execution marks the proposal as executed.
pub(crate) proof fn lemma_complete_frame(
    env: EnvModel,
    config: ConfigModel,
    executor: Address,
    proposal: ProposalModel,
)
    ensures
        env.complete_execution(config, executor, proposal).proposals.records
            == env.proposals.records.insert(
            proposal.id,
            ProposalModel { status: ProposalStatus::Executed, ..proposal },
        ),
        env.complete_execution(config, executor, proposal).proposals.attachments
            == env.proposals.attachments,
{
    let executed = ProposalModel { status: ProposalStatus::Executed, ..proposal };
    crate::execution::lemma_hooks_frame(env, config.post_execution_hooks, proposal.id, false);
    let announced = env.call_hooks(
        config.post_execution_hooks,
        proposal.id,
        false,
    ).with_proposal(executed).act(crate::env::Action::ExtendInstanceTtl).announce_execution(
        executor,
        executed,
    );
    crate::execution::lemma_rewards_frame(
        announced.reward_proposer(executed.proposer),
        executed.approvals,
    );
}

/// Finishing an execution that failed leaves proposals and queues alone.
proof fn lemma_failed_frame(
    env: EnvModel,
    config: ConfigModel,
    executor: Address,
    proposal: ProposalModel,
    error: VaultError,
)
    ensures
        ({
            let after = env.finish_execution(config, executor, proposal, Err(error)).0.proposals;
            &&& after.records == env.proposals.records
            &&& after.attachments == env.proposals.attachments
            &&& after.queues == env.proposals.queues
        }),
{
    reveal(EnvModel::finish_execution);
}

impl EnvModel {
    /// Whether an execution goes through.
    pub open spec fn executes(
        self,
        executor: Address,
        proposal_id: u64,
        answers: ExecutionAnswersModel,
    ) -> bool {
        let (started, proposal) = self.start_execution(executor, proposal_id);
        proposal matches Ok(p) && started.try_execute(p, answers).1 is Ok
    }
}

/// Only approved proposals are executed: for every other the call fails with the error that its
/// status calls for, and asks for no transfer. In particular a proposal that was executed,
/// vetoed, cancelled, rejected or has expired is never executed any more.
pub proof fn law_only_approved_proposals_are_executed(
    env: EnvModel,
    executor: Address,
    proposal_id: u64,
    answers: ExecutionAnswersModel,
)
    requires
        env.proposal(proposal_id) matches Ok(proposal) && proposal.status
            != ProposalStatus::Approved,
    ensures
        env.execute(executor, proposal_id, answers).0 == env.decay_reputation(executor),
        env.execute(executor, proposal_id, answers).1 matches Err(error)
            && crate::execution::status_refusal(env.proposal(proposal_id)->Ok_0.status) == Some(
            error,
        ),
{
}

/// An execution goes through only where the proposal is approved and has not expired, its
/// timelock has ended, all proposals that it depends on were executed, threshold and quorum are
/// still reached, the vault holds enough for the amount, the insurance and the fee, and the
/// transfer is made.
pub proof fn law_executions_meet_every_demand(
    env: EnvModel,
    executor: Address,
    proposal_id: u64,
    answers: ExecutionAnswersModel,
)
    requires
        env.executes(executor, proposal_id, answers),
    ensures
        ({
            let proposal = env.proposal(proposal_id)->Ok_0;
            let known = env.decay_reputation(executor);
            &&& env.proposal(proposal_id) is Ok
            &&& proposal.status == ProposalStatus::Approved
            &&& env.now() <= proposal.expires_at
            &&& proposal.unlock_ledger == 0 || env.now() >= proposal.unlock_ledger
            &&& crate::execution::unexecuted(env.proposals.records, proposal.depends_on) is None
            &&& env.config() is Ok
            &&& known.votes_missing(env.config()->Ok_0, proposal) is None
            &&& answers.balance >= proposal.amount + proposal.insurance_amount
                + env.start_execution(executor, proposal_id).0.fee(
                proposal.proposer,
                proposal.token,
                proposal.amount,
            ).final_fee
            &&& answers.transferred
        }),
{
    let (started, proposal) = env.start_execution(executor, proposal_id);
    lemma_try_frame(started, proposal->Ok_0, answers);
}

/// An execution that goes through marks the proposal as executed, records its cost, and changes
/// no other proposal.
pub proof fn law_executed_proposals_are_marked(
    env: EnvModel,
    executor: Address,
    proposal_id: u64,
    answers: ExecutionAnswersModel,
)
    requires
        env.proposal(proposal_id) matches Ok(proposal) && proposal.id == proposal_id,
        env.executes(executor, proposal_id, answers),
    ensures
        env.execute(executor, proposal_id, answers).1 is Ok,
        ({
            let proposal = env.proposal(proposal_id)->Ok_0;
            let records = env.execute(executor, proposal_id, answers).0.proposals.records;
            &&& records.contains_key(proposal_id)
            &&& records[proposal_id].status == ProposalStatus::Executed
            &&& records[proposal_id] == (ProposalModel {
                status: ProposalStatus::Executed,
                gas_used: records[proposal_id].gas_used,
                ..proposal
            })
            &&& records.remove(proposal_id) == env.proposals.records.remove(proposal_id)
        }),
{
    reveal(EnvModel::finish_execution);
    let proposal = env.proposal(proposal_id)->Ok_0;
    let config = env.access.config->0;
    let known = env.decay_reputation(executor);
    let (started, _) = env.start_execution(executor, proposal_id);
    lemma_prepare_frame(known, config, proposal);
    let (tried, outcome) = started.try_execute(proposal, answers);
    lemma_try_frame(started, proposal, answers);
    lemma_complete_frame(tried, config, executor, outcome->Ok_0);
}

/// An execution that does not go through leaves the proposal and the queues as they were, unless
/// the proposal has expired, which it is then marked as.
pub proof fn law_failed_executions_restore_the_proposal(
    env: EnvModel,
    executor: Address,
    proposal_id: u64,
    answers: ExecutionAnswersModel,
)
    requires
        env.proposal(proposal_id) matches Ok(proposal) && proposal.id == proposal_id,
        !env.executes(executor, proposal_id, answers),
    ensures
        ({
            let proposal = env.proposal(proposal_id)->Ok_0;
            let after = env.execute(executor, proposal_id, answers).0.proposals;
            &&& after.queues == env.proposals.queues
            &&& if proposal.status == ProposalStatus::Approved && env.now()
                > proposal.expires_at {
                after.records == env.proposals.records.insert(
                    proposal_id,
                    ProposalModel { status: ProposalStatus::Expired, ..proposal },
                )
            } else {
                after.records == env.proposals.records
            }
        }),
{
    let proposal = env.proposal(proposal_id)->Ok_0;
    let config = env.access.config->0;
    let known = env.decay_reputation(executor);
    let (started, begun) = env.start_execution(executor, proposal_id);
    lemma_prepare_frame(known, config, proposal);
    if begun is Ok {
        let (tried, outcome) = started.try_execute(proposal, answers);
        lemma_try_frame(started, proposal, answers);
        lemma_failed_frame(tried, config, executor, proposal, outcome->Err_0);
    }
}

/// A transfer that fails is announced with the code of its failure, whether the execution is
/// retried or refused.
pub proof fn law_failed_transfers_are_announced(
    env: EnvModel,
    executor: Address,
    proposal_id: u64,
    answers: ExecutionAnswersModel,
)
    requires
        env.start_execution(executor, proposal_id).1 is Ok,
        ({
            let (started, proposal) = env.start_execution(executor, proposal_id);
            let fee = started.charge(proposal->Ok_0, answers.observations).1;
            fee is Ok && crate::execution::due(proposal->Ok_0, fee->Ok_0, answers.balance) is Ok
        }),
        !answers.transferred,
    ensures
        env.execute(executor, proposal_id, answers).0.actions.contains(
            Action::Publish(
                Event::ExecutionRolledBack {
                    proposal_id: env.start_execution(executor, proposal_id).1->Ok_0.id,
                    error: VaultError::InsufficientBalance.spec_code(),
                },
            ),
        ),
{
    reveal(EnvModel::finish_execution);
    let (started, proposal) = env.start_execution(executor, proposal_id);
    let tried = started.try_execute(proposal->Ok_0, answers).0;
    let after = env.execute(executor, proposal_id, answers).0;
    let last = tried.actions.len() - 1;
    let announced = Action::Publish(
        Event::ExecutionRolledBack {
            proposal_id: proposal->Ok_0.id,
            error: VaultError::InsufficientBalance.spec_code(),
        },
    );
    assert(tried.actions[last] == announced);
    assert(after.actions[last] == announced);
}

} // verus!
