//! What holds of calls that ask for what does not exist, or come before a vault was initialized:
//! they are refused, say why, and change nothing.

use vstd::prelude::*;

use crate::env::EnvModel;
use crate::errors::VaultError;
use crate::primitives::{Address, Symbol};
use crate::types::{
    ExecutionAnswersModel, InitConfigModel, Priority, SubscriptionTier, TemplateOverrides,
    TransferDetails, TransferRequestModel,
};

verus! {

/// Whether a call was refused for a reason, without effect on anything that is stored.
pub open spec fn refused<T>(
    before: EnvModel,
    outcome: (EnvModel, Result<T, VaultError>),
    error: VaultError,
) -> bool {
    outcome.0 == before && outcome.1 is Err && outcome.1->Err_0 == error
}

/// A proposal that does not exist cannot be cancelled, amended, moved or executed, nor voted on,
/// vetoed or commented.
pub proof fn law_unknown_proposals_are_refused(
    env: EnvModel,
    caller: Address,
    id: u64,
    text: Symbol,
    amount: i128,
    priority: Priority,
    answers: ExecutionAnswersModel,
)
    requires
        !env.proposals.records.contains_key(id),
        env.access.config is Some,
        env.access.config->0.signers.contains(caller),
        env.access.config->0.veto_addresses.contains(caller),
    ensures
        refused(env, env.cancel(caller, id, text), VaultError::ProposalNotFound),
        refused(env, env.amend(caller, id, caller, amount, text), VaultError::ProposalNotFound),
        refused(env, env.reprioritize(caller, id, priority), VaultError::ProposalNotFound),
        refused(env, env.veto(caller, id), VaultError::ProposalNotFound),
        refused(env, env.add_comment(caller, id, text, 0), VaultError::ProposalNotFound),
        refused(env, env.tag(caller, id, text), VaultError::ProposalNotFound),
        refused(env, env.abstain(caller, id), VaultError::ProposalNotFound),
        refused(
            env,
            env.execute_scheduled(caller, id, true, true),
            VaultError::ProposalNotFound,
        ),
        refused(env, env.cancel_scheduled(caller, id), VaultError::ProposalNotFound),
        refused(env, env.execute_swap(caller, id), VaultError::ProposalNotFound),
        env.approve(caller, id).1 == Err::<(), _>(VaultError::ProposalNotFound),
        env.approve(caller, id).0.proposals == env.proposals,
        env.execute(caller, id, answers).1 == Err::<(), _>(VaultError::ProposalNotFound),
        env.execute(caller, id, answers).0.proposals == env.proposals,
{
    reveal(EnvModel::vote_on);
}

/// A payment, stream, escrow, subscription, template, round, batch, dispute or recovery that does
/// not exist cannot be used.
pub proof fn law_unknown_records_are_refused(
    env: EnvModel,
    caller: Address,
    id: u64,
    amount: i128,
    index: u32,
    text: Symbol,
    tier: SubscriptionTier,
    overrides: TemplateOverrides,
)
    ensures
        !env.payments.recurring.contains_key(id) ==> {
            &&& refused(env, env.pay_recurring(id, amount), VaultError::ProposalNotFound)
            &&& refused(env, env.stop_recurring(caller, id), VaultError::ProposalNotFound)
        },
        !env.payments.streams.contains_key(id) ==> {
            &&& refused(env, env.claim_stream(caller, id, true), VaultError::ProposalNotFound)
            &&& refused(env, env.pause_stream(caller, id), VaultError::ProposalNotFound)
            &&& refused(env, env.resume_stream(caller, id), VaultError::ProposalNotFound)
            &&& refused(env, env.cancel_stream(caller, id, true), VaultError::ProposalNotFound)
        },
        !env.payments.escrows.contains_key(id) ==> {
            &&& refused(env, env.complete_milestone(caller, id, 0), VaultError::ProposalNotFound)
            &&& refused(env, env.release_escrow(caller, id), VaultError::ProposalNotFound)
            &&& refused(env, env.dispute_escrow(caller, id, text), VaultError::ProposalNotFound)
        },
        !env.payments.subscriptions.contains_key(id) ==> {
            &&& refused(env, env.renew_subscription(caller, id), VaultError::SubscriptionNotFound)
            &&& refused(env, env.cancel_subscription(caller, id), VaultError::SubscriptionNotFound)
            &&& refused(
                env,
                env.upgrade_subscription(caller, id, tier, amount),
                VaultError::SubscriptionNotFound,
            )
        },
        !env.programs.templates.contains_key(id) ==> refused(
            env,
            env.propose_from_template(caller, id, overrides),
            VaultError::TemplateNotFound,
        ),
        !env.programs.funding_rounds.contains_key(id) ==> refused(
            env,
            env.submit_milestone(caller, id, index),
            VaultError::ProposalNotFound,
        ),
        !env.programs.recovery_proposals.contains_key(id) ==> refused(
            env,
            env.execute_recovery(id),
            VaultError::ProposalNotFound,
        ),
        !env.programs.proposal_batches.contains_key(id) ==> refused(
            env,
            env.execute_proposal_batch(caller, id, seq![]),
            VaultError::ProposalNotFound,
        ),
        !env.proposals.comments.contains_key(id) ==> refused(
            env,
            env.edit_comment(caller, id, text),
            VaultError::ProposalNotFound,
        ),
{
}

/// Before a vault is initialized nothing can be proposed, voted on or recovered, and limits cannot
/// be changed.
pub proof fn law_fresh_vaults_refuse(
    env: EnvModel,
    caller: Address,
    id: u64,
    request: TransferRequestModel,
    transfers: Seq<TransferDetails>,
    amounts: (i128, i128, i128),
)
    requires
        env.access.config is None,
        !env.access.initialized,
        transfers.len() <= 10,
    ensures
        refused(env, env.propose(request), VaultError::NotInitialized),
        refused(env, env.batch_propose(request, transfers), VaultError::NotInitialized),
        refused(env, env.approve(caller, id), VaultError::NotInitialized),
        refused(env, env.abstain(caller, id), VaultError::NotInitialized),
        refused(env, env.veto(caller, id), VaultError::NotInitialized),
        refused(
            env,
            env.update_limits(caller, amounts.0, amounts.1, amounts.2),
            VaultError::NotInitialized,
        ),
        refused(env, env.initiate_recovery(caller, seq![caller], 1), VaultError::NotInitialized),
        refused(env, env.execute_batch(caller, id), VaultError::NotInitialized),
        refused(
            env,
            env.assign_role(caller, caller, crate::types::Role::Admin),
            VaultError::NotInitialized,
        ),
{
}

/// A configuration is refused for the first thing that is wrong with it.
pub proof fn law_configurations_are_refused_with_a_reason(
    env: EnvModel,
    admin: Address,
    init: InitConfigModel,
)
    requires
        !env.access.initialized,
    ensures
        ({
            let outcome = env.initialize(admin, init);
            let n = init.signers.len();
            &&& n == 0 ==> refused(env, outcome, VaultError::NoSigners)
            &&& n > 0 && init.threshold == 0 ==> refused(env, outcome, VaultError::ThresholdTooLow)
            &&& n > 0 && init.threshold > n ==> refused(env, outcome, VaultError::ThresholdTooHigh)
            &&& n > 0 && 1 <= init.threshold <= n && init.quorum > n ==> refused(
                env,
                outcome,
                VaultError::QuorumTooHigh,
            )
            &&& n > 0 && 1 <= init.threshold <= n && init.quorum <= n && (init.spending_limit <= 0
                || init.daily_limit <= 0 || init.weekly_limit <= 0) ==> refused(
                env,
                outcome,
                VaultError::InvalidAmount,
            )
        }),
{
}

} // verus!
