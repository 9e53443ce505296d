//! What holds of what calls tell observers: who did what, and over which amounts.

use vstd::prelude::*;

use crate::books::{announced, told};
use crate::env::{EnvModel, Event};
use crate::primitives::{Address, Symbol};
use crate::types::{Milestone, ProposalStatus, SubscriptionTier};

verus! {

broadcast use crate::books::lemma_announced_push;

/// Streams tell who sends what to whom, what is claimed, and what becomes of them.
pub proof fn law_streams_are_announced(
    env: EnvModel,
    caller: Address,
    recipient: Address,
    token: Address,
    rate: i128,
    total: i128,
    duration: u64,
    id: u64,
)
    requires
        env.payments.streams.contains_key(id),
    ensures
        env.create_stream(caller, recipient, token, rate, total, duration).1 is Ok ==> told(
            env,
            env.create_stream(caller, recipient, token, rate, total, duration).0,
            seq![
                Event::StreamCreated {
                    stream_id: env.payments.next_stream_id,
                    sender: caller,
                    recipient,
                    token,
                    amount: total,
                    rate,
                },
            ],
        ),
        env.claim_stream(caller, id, true).1 matches Ok(amount) ==> told(
            env,
            env.claim_stream(caller, id, true).0,
            seq![Event::StreamClaimed { stream_id: id, recipient: caller, amount }],
        ),
        env.pause_stream(caller, id).1 is Ok ==> told(
            env,
            env.pause_stream(caller, id).0,
            seq![Event::StreamStatusUpdated { stream_id: id, status: 1, caller }],
        ),
        env.resume_stream(caller, id).1 is Ok ==> told(
            env,
            env.resume_stream(caller, id).0,
            seq![Event::StreamStatusUpdated { stream_id: id, status: 0, caller }],
        ),
        env.cancel_stream(caller, id, true).1 is Ok ==> told(
            env,
            env.cancel_stream(caller, id, true).0,
            seq![Event::StreamStatusUpdated { stream_id: id, status: 3, caller }],
        ),
{
}

/// Escrows tell who funds what for whom, what is released to whom, and how a dispute over them ends.
pub proof fn law_escrows_are_announced(
    env: EnvModel,
    caller: Address,
    recipient: Address,
    token: Address,
    amount: i128,
    milestones: Seq<Milestone>,
    duration: u64,
    id: u64,
    reason: Symbol,
    to_recipient: bool,
)
    requires
        env.payments.escrows.contains_key(id),
    ensures
        env.create_escrow(caller, recipient, token, amount, milestones, duration, caller).1 is Ok
            ==> told(
            env,
            env.create_escrow(caller, recipient, token, amount, milestones, duration, caller).0,
            seq![
                Event::EscrowCreated {
                    escrow_id: env.payments.next_escrow_id,
                    funder: caller,
                    recipient,
                    token,
                    amount,
                    duration,
                },
            ],
        ),
        env.release_escrow(caller, id).1 matches Ok(paid) ==> {
            let escrow = env.payments.escrows[id];
            let expired = env.ledger.sequence >= escrow.expires_at;
            told(
                env,
                env.release_escrow(caller, id).0,
                seq![
                    Event::EscrowReleased {
                        escrow_id: id,
                        recipient: if expired {
                            escrow.funder
                        } else {
                            escrow.recipient
                        },
                        amount: paid,
                        is_refund: expired,
                    },
                ],
            )
        },
        env.dispute_escrow(caller, id, reason).1 is Ok ==> told(
            env,
            env.dispute_escrow(caller, id, reason).0,
            seq![Event::EscrowDisputed { escrow_id: id, disputer: caller, reason }],
        ),
        env.resolve_escrow_dispute(caller, id, to_recipient).1 is Ok ==> told(
            env,
            env.resolve_escrow_dispute(caller, id, to_recipient).0,
            seq![
                Event::EscrowDisputeResolved { escrow_id: id, arbitrator: caller, to_recipient },
            ],
        ),
{
}

/// Subscriptions tell who subscribes at what price, and each payment with its number.
pub proof fn law_subscriptions_are_announced(
    env: EnvModel,
    caller: Address,
    provider: Address,
    tier: SubscriptionTier,
    token: Address,
    amount: i128,
    interval: u64,
    auto_renew: bool,
    id: u64,
)
    requires
        env.payments.subscriptions.contains_key(id),
        env.payments.subscriptions[id].total_payments < u32::MAX,
    ensures
        env.create_subscription(caller, provider, tier, token, amount, interval, auto_renew).1 is Ok
            ==> told(
            env,
            env.create_subscription(
                caller,
                provider,
                tier,
                token,
                amount,
                interval,
                auto_renew,
            ).0,
            seq![
                Event::SubscriptionCreated {
                    id: env.payments.next_subscription_id,
                    subscriber: caller,
                    tier: tier.spec_code(),
                    amount,
                },
            ],
        ),
        env.renew_subscription(caller, id).1 is Ok ==> told(
            env,
            env.renew_subscription(caller, id).0,
            seq![
                Event::SubscriptionRenewed {
                    id,
                    payment_number: (env.payments.subscriptions[id].total_payments + 1) as u32,
                    amount: env.payments.subscriptions[id].amount_per_period,
                },
            ],
        ),
        env.cancel_subscription(caller, id).1 is Ok ==> told(
            env,
            env.cancel_subscription(caller, id).0,
            seq![Event::SubscriptionCancelled { id, caller }],
        ),
        env.upgrade_subscription(caller, id, tier, amount).1 is Ok ==> told(
            env,
            env.upgrade_subscription(caller, id, tier, amount).0,
            seq![
                Event::SubscriptionUpgraded {
                    id,
                    old_tier: env.payments.subscriptions[id].tier.spec_code(),
                    new_tier: tier.spec_code(),
                    amount,
                },
            ],
        ),
{
}

/// Locks tell what is locked for how long, and what comes back.
pub proof fn law_locks_are_announced(
    env: EnvModel,
    owner: Address,
    token: Address,
    amount: i128,
    duration: u64,
)
    ensures
        env.lock_tokens(owner, token, amount, duration).1 is Ok ==> told(
            env,
            env.lock_tokens(owner, token, amount, duration).0,
            seq![
                Event::TokensLocked {
                    owner,
                    amount,
                    duration,
                    multiplier_bps: crate::holding_laws::multiplier(duration as int) as u32,
                },
            ],
        ),
        env.unlock_tokens(owner).1 matches Ok(paid) ==> told(
            env,
            env.unlock_tokens(owner).0,
            seq![Event::TokensUnlocked { owner, amount: paid }],
        ),
{
}

/// Vetoing and cancelling a proposal is told with what is given back: first the insurance, then the
/// stake.
pub proof fn law_vetoes_and_cancellations_are_announced(
    env: EnvModel,
    caller: Address,
    id: u64,
    reason: Symbol,
)
    requires
        env.proposals.records.contains_key(id),
        env.proposals.records[id].id == id,
    ensures
        ({
            let proposal = env.proposals.records[id];
            let insurance = if proposal.insurance_amount > 0 {
                seq![
                    Event::InsuranceReturned {
                        proposal_id: id,
                        proposer: proposal.proposer,
                        amount: proposal.insurance_amount,
                    },
                ]
            } else {
                seq![]
            };
            let stake = if proposal.stake_amount > 0 && crate::transfer_laws::stake_open(env, id) {
                seq![
                    Event::StakeRefunded {
                        proposal_id: id,
                        staker: proposal.proposer,
                        amount: proposal.stake_amount,
                    },
                ]
            } else {
                seq![]
            };
            &&& env.veto(caller, id).1 is Ok && proposal.status != ProposalStatus::Vetoed ==> told(
                env,
                env.veto(caller, id).0,
                insurance + stake + seq![Event::ProposalVetoed { proposal_id: id, vetoer: caller }],
            )
            &&& env.cancel(caller, id, reason).1 is Ok && caller == proposal.proposer ==> told(
                env,
                env.cancel(caller, id, reason).0,
                seq![
                    Event::ProposalCancelled {
                        proposal_id: id,
                        canceller: caller,
                        reason,
                        refunded: proposal.amount,
                    },
                ] + insurance + stake,
            )
        }),
{
    reveal(EnvModel::cancelled);
}

/// Changes of the threshold, the limits, the quorum, roles and hooks are told.
pub proof fn law_governing_is_announced(
    env: EnvModel,
    admin: Address,
    count: u32,
    amounts: (i128, i128, i128),
    target: Address,
    role: crate::types::Role,
)
    requires
        env.access.config is Some,
    ensures
        env.update_threshold(admin, count).1 is Ok ==> told(
            env,
            env.update_threshold(admin, count).0,
            seq![Event::ConfigUpdated { admin }],
        ),
        env.update_limits(admin, amounts.0, amounts.1, amounts.2).1 is Ok ==> told(
            env,
            env.update_limits(admin, amounts.0, amounts.1, amounts.2).0,
            seq![Event::ConfigUpdated { admin }],
        ),
        env.update_quorum(admin, count).1 is Ok ==> told(
            env,
            env.update_quorum(admin, count).0,
            seq![
                Event::ConfigUpdated { admin },
                Event::QuorumUpdated {
                    admin,
                    old_quorum: env.access.config->0.quorum,
                    new_quorum: count,
                },
            ],
        ),
        env.assign_role(admin, target, role).1 is Ok ==> told(
            env,
            env.assign_role(admin, target, role).0,
            seq![Event::RoleAssigned { addr: target, role: role.spec_code() }],
        ),
        env.remove_signer(admin, target).1 is Ok ==> told(
            env,
            env.remove_signer(admin, target).0,
            seq![Event::ConfigUpdated { admin }],
        ),
        env.add_pre_hook(admin, target).1 is Ok ==> told(
            env,
            env.add_pre_hook(admin, target).0,
            seq![Event::HookRegistered { hook: target, is_pre: true }],
        ),
        env.add_post_hook(admin, target).1 is Ok ==> told(
            env,
            env.add_post_hook(admin, target).0,
            seq![Event::HookRegistered { hook: target, is_pre: false }],
        ),
{
}

/// Funding rounds and recoveries are told step by step: what is approved, verified and paid.
pub proof fn law_rounds_and_recoveries_are_announced(
    env: EnvModel,
    caller: Address,
    id: u64,
    index: u32,
)
    requires
        env.programs.funding_rounds.contains_key(id),
        index < env.programs.funding_rounds[id].milestones.len(),
    ensures
        env.approve_funding_round(caller, id).1 is Ok ==> told(
            env,
            env.approve_funding_round(caller, id).0,
            seq![Event::FundingRoundApproved { round_id: id, approver: caller }],
        ),
        env.submit_milestone(caller, id, index).1 is Ok ==> told(
            env,
            env.submit_milestone(caller, id, index).0,
            seq![Event::MilestoneSubmitted { round_id: id, milestone: index, submitter: caller }],
        ),
        env.verify_milestone(caller, id, index).1 matches Ok(amount) ==> {
            let after = env.verify_milestone(caller, id, index).0;
            let first = announced(env.actions).len() as int;
            &&& announced(after.actions).len() >= first + 2
            &&& announced(after.actions)[first] == (Event::MilestoneVerified {
                round_id: id,
                milestone: index,
                verifier: caller,
                amount,
            })
            &&& announced(after.actions)[first + 1] == (Event::FundingReleased {
                round_id: id,
                recipient: env.programs.funding_rounds[id].recipient,
                amount,
                milestone: index,
            })
        },
        env.approve_recovery(caller, id).1 is Ok ==> told(
            env,
            env.approve_recovery(caller, id).0,
            seq![Event::RecoveryApproved { proposal_id: id, guardian: caller }],
        ),
        env.execute_recovery(id).1 is Ok ==> told(
            env,
            env.execute_recovery(id).0,
            seq![
                Event::RecoveryExecuted { proposal_id: id },
                Event::ConfigUpdated { admin: env.ledger.contract },
            ],
        ),
{
}

} // verus!
