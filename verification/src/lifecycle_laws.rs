//! What holds of proposals that were screened, vetoed or closed.

use vstd::prelude::*;

use crate::env::{Action, EnvModel};
use crate::errors::VaultError;
use crate::primitives::{Address, Symbol};
use crate::types::{
    ExecutionAnswersModel, ListMode, ProposalModel, ProposalStatus, TransferRequestModel,
};

verus! {

/// Whether a proposal is over: nothing more can be decided about it.
pub open spec fn closed(status: ProposalStatus) -> bool {
    match status {
        ProposalStatus::Executed => true,
        ProposalStatus::Rejected => true,
        ProposalStatus::Expired => true,
        ProposalStatus::Cancelled => true,
        ProposalStatus::Vetoed => true,
        _ => false,
    }
}

/// A proposal that is over stays as it is: it cannot be voted on, amended, cancelled, moved to
/// another priority or executed, and a veto leaves it alone.
pub proof fn law_closed_proposals_stay_closed(
    env: EnvModel,
    caller: Address,
    proposal_id: u64,
    recipient: Address,
    amount: i128,
    text: Symbol,
    priority: crate::types::Priority,
    answers: ExecutionAnswersModel,
)
    requires
        env.proposal(proposal_id) matches Ok(proposal) && closed(proposal.status),
    ensures
        env.approve(caller, proposal_id).1 is Err,
        env.approve(caller, proposal_id).0.proposals == env.proposals,
        env.abstain(caller, proposal_id).1 is Err,
        env.abstain(caller, proposal_id).0.proposals == env.proposals,
        env.execute(caller, proposal_id, answers).1 is Err,
        env.execute(caller, proposal_id, answers).0.proposals == env.proposals,
        env.cancel(caller, proposal_id, text).1 is Err,
        env.cancel(caller, proposal_id, text).0.proposals == env.proposals,
        env.amend(caller, proposal_id, recipient, amount, text).1 is Err,
        env.amend(caller, proposal_id, recipient, amount, text).0.proposals == env.proposals,
        env.reprioritize(caller, proposal_id, priority).1 is Err,
        env.reprioritize(caller, proposal_id, priority).0.proposals == env.proposals,
        env.veto(caller, proposal_id).0.proposals == env.proposals,
{
    reveal(EnvModel::vote_on);
    let known = env.decay_reputation(caller);
    assert(known.proposals == env.proposals);
    assert(known.proposal(proposal_id) == env.proposal(proposal_id));
}

/// A veto blocks a proposal: it is marked, leaves its queue, gives back the spending that it
/// reserved, and its execution is refused from then on.
pub proof fn law_vetoed_proposals_are_blocked(
    env: EnvModel,
    vetoer: Address,
    proposal_id: u64,
    executor: Address,
    answers: ExecutionAnswersModel,
)
    requires
        env.proposal(proposal_id) matches Ok(proposal) && proposal.id == proposal_id
            && proposal.status != ProposalStatus::Vetoed,
        env.veto(vetoer, proposal_id).1 is Ok,
    ensures
        ({
            let before = env.proposal(proposal_id)->Ok_0;
            let after = env.veto(vetoer, proposal_id).0;
            &&& env.veto_address(vetoer) == Ok::<bool, VaultError>(true)
            &&& before.status == ProposalStatus::Pending || before.status
                == ProposalStatus::Approved
            &&& after.proposal(proposal_id) == Ok::<ProposalModel, VaultError>(
                ProposalModel { status: ProposalStatus::Vetoed, ..before },
            )
            &&& !after.priority_queue(before.priority.spec_code()).contains(proposal_id)
            &&& after.daily_spent(env.day_number()) == env.refund_spending(
                before.amount,
            ).daily_spent(env.day_number())
            &&& after.weekly_spent(env.week_number()) == env.refund_spending(
                before.amount,
            ).weekly_spent(env.week_number())
            &&& after.execute(executor, proposal_id, answers).1 == Err::<(), _>(
                VaultError::ProposalNotApproved,
            )
        }),
{
    let before = env.proposal(proposal_id)->Ok_0;
    let queue = env.priority_queue(before.priority.spec_code());
    crate::primitives::lemma_without_contains(queue, proposal_id, proposal_id);
}

/// A veto by one who may veto succeeds on every proposal that is pending or approved. What the
/// proposal reserved of the day and the week is given back, down to zero, and its insurance goes
/// back to its proposer in full. Another veto changes nothing.
pub proof fn law_vetoes_give_back(env: EnvModel, vetoer: Address, proposal_id: u64)
    requires
        env.veto_address(vetoer) == Ok::<bool, VaultError>(true),
        env.proposal(proposal_id) matches Ok(proposal) && proposal.id == proposal_id && (
        proposal.status == ProposalStatus::Pending || proposal.status
            == ProposalStatus::Approved),
    ensures
        ({
            let before = env.proposal(proposal_id)->Ok_0;
            let (after, r) = env.veto(vetoer, proposal_id);
            let day = env.daily_spent(env.day_number()) - before.amount;
            let week = env.weekly_spent(env.week_number()) - before.amount;
            &&& r == Ok::<(), VaultError>(())
            &&& after.proposal(proposal_id) == Ok::<ProposalModel, VaultError>(
                ProposalModel { status: ProposalStatus::Vetoed, ..before },
            )
            &&& !after.priority_queue(before.priority.spec_code()).contains(proposal_id)
            &&& after.daily_spent(env.day_number()) == crate::math::max_int(
                crate::math::min_int(day, i128::MAX as int),
                0,
            )
            &&& after.weekly_spent(env.week_number()) == crate::math::max_int(
                crate::math::min_int(week, i128::MAX as int),
                0,
            )
            &&& before.amount >= 0 ==> {
                &&& after.daily_spent(env.day_number()) == crate::math::max_int(day, 0)
                &&& after.weekly_spent(env.week_number()) == crate::math::max_int(week, 0)
            }
            &&& before.insurance_amount > 0 ==> after.actions.contains(
                Action::Transfer {
                    token: before.token,
                    to: before.proposer,
                    amount: before.insurance_amount,
                },
            )
            &&& after.veto(vetoer, proposal_id) == (after, Ok::<(), VaultError>(()))
        }),
{
    let before = env.proposal(proposal_id)->Ok_0;
    let queue = env.priority_queue(before.priority.spec_code());
    crate::primitives::lemma_without_contains(queue, proposal_id, proposal_id);
    let after = env.veto(vetoer, proposal_id).0;
    if before.insurance_amount > 0 {
        assert(after.actions[env.actions.len() as int + 1] == (Action::Transfer {
            token: before.token,
            to: before.proposer,
            amount: before.insurance_amount,
        }));
    }
}

/// Proposals are accepted only towards recipients that the lists allow: listed ones where a
/// whitelist is in use, and unlisted ones where a blacklist is.
pub proof fn law_recipients_are_screened(env: EnvModel, request: TransferRequestModel)
    requires
        env.propose(request).1 is Ok,
    ensures
        env.list_mode() == ListMode::Whitelist ==> env.whitelisted(request.recipient),
        env.list_mode() == ListMode::Blacklist ==> !env.blacklisted(request.recipient),
{
}

/// A stake that was returned is not returned or slashed again: doing so changes nothing.
pub proof fn law_returned_stakes_are_settled(
    env: EnvModel,
    proposal: ProposalModel,
    again: ProposalModel,
)
    requires
        proposal.stake_amount > 0,
        env.stake_record(proposal.id) matches Some(record) && record.proposal_id == proposal.id,
        again.id == proposal.id,
    ensures
        env.return_stake(proposal).return_stake(again) == env.return_stake(proposal),
        env.return_stake(proposal).slash_stake(again) == env.return_stake(proposal),
        env.slash_stake(proposal).stake_record(proposal.id) matches Some(record)
            && record.slashed ==> env.slash_stake(proposal).return_stake(again)
            == env.slash_stake(proposal),
{
}

} // verus!
