//! What holds of reputation, counters, retries and the audit trail: what a call adds to whose
//! record.

use vstd::prelude::*;

use crate::books::{least, ledger_of, most};
use crate::decision_laws::cast;
use crate::env::EnvModel;
use crate::errors::VaultError;
use crate::primitives::{Address, Symbol};
use crate::types::{
    AuditAction, ConfigModel, InitConfigModel, ProposalModel, ProposalStatus,
    Reputation, RetryConfig, RetryState, Role, VaultMetrics,
};
use crate::voting::Vote;

verus! {

/// What is known of an address: that of a newcomer where nothing was recorded.
pub open spec fn known_of(env: EnvModel, addr: Address) -> Reputation {
    if env.members.reputation.contains_key(addr) {
        env.members.reputation[addr]
    } else {
        Reputation {
            score: 500,
            proposals_executed: 0,
            proposals_rejected: 0,
            proposals_created: 0,
            approvals_given: 0,
            abstentions_given: 0,
            participation_count: 0,
            last_participation_ledger: 0,
            last_decay_ledger: 0,
        }
    }
}

/// Reputation decays: with every half-life that has passed since it last did, the distance of the
/// score to the floor is halved. Before the first has passed, and where there is no half-life,
/// the score stays; nothing else about a reputation changes but when it last decayed.
pub proof fn law_reputation_halves_towards_the_floor(env: EnvModel, addr: Address)
    ensures
        ({
            let before = known_of(env, addr);
            let now = env.current_reputation(addr);
            let rules = env.members.reputation_config;
            let half_life = rules.decay_half_life_ledgers;
            let elapsed = most(ledger_of(env) - before.last_decay_ledger, 0);
            let floor = rules.decay_min_score;
            &&& now == (Reputation {
                score: now.score,
                last_decay_ledger: env.ledger.sequence as u64,
                ..before
            })
            &&& half_life == 0 || elapsed < half_life ==> now.score == before.score
            &&& half_life > 0 && half_life <= elapsed < 2 * half_life && before.score >= floor
                ==> now.score == floor + (before.score - floor) / 2
            &&& half_life > 0 && 2 * half_life <= elapsed < 3 * half_life && before.score >= floor
                ==> now.score == floor + (before.score - floor) / 4
            &&& before.score >= floor ==> floor <= now.score <= before.score
        }),
{
    let before = known_of(env, addr);
    let rules = env.members.reputation_config;
    let half_life = rules.decay_half_life_ledgers as int;
    let elapsed = most(ledger_of(env) - before.last_decay_ledger, 0);
    let floor = rules.decay_min_score;
    reveal_with_fuel(crate::storage::decayed_score, 3);
    if half_life > 0 {
        let periods = elapsed / half_life;
        assert(elapsed < half_life ==> periods == 0) by (nonlinear_arith)
            requires
                0 <= elapsed,
                half_life > 0,
                periods == elapsed / half_life,
        ;
        assert(half_life <= elapsed < 2 * half_life ==> periods == 1) by (nonlinear_arith)
            requires
                0 <= elapsed,
                half_life > 0,
                periods == elapsed / half_life,
        ;
        assert(2 * half_life <= elapsed < 3 * half_life ==> periods == 2) by (nonlinear_arith)
            requires
                0 <= elapsed,
                half_life > 0,
                periods == elapsed / half_life,
        ;
        assert(periods >= 0) by (nonlinear_arith)
            requires
                0 <= elapsed,
                half_life > 0,
                periods == elapsed / half_life,
        ;
        if before.score >= floor {
            crate::reputation::law_decay_keeps_the_floor(before.score, floor, periods as nat);
        }
    }
}

/// What votes, executions and rejections do to the reputation of the one they concern, after it
/// has decayed: an approval adds two to the score and counts; an abstention counts; an execution
/// adds ten for the proposer and five for each who approved; a rejection takes twenty. A score
/// stays between zero and a thousand.
pub proof fn law_reputation_follows_what_was_done(env: EnvModel, addr: Address, other: Address)
    requires
        known_of(env, addr).approvals_given < u32::MAX,
        known_of(env, addr).abstentions_given < u32::MAX,
        known_of(env, addr).participation_count < u32::MAX,
        known_of(env, addr).proposals_created < u32::MAX,
        known_of(env, addr).proposals_executed < u32::MAX,
        known_of(env, addr).proposals_rejected < u32::MAX,
        other != addr,
    ensures
        ({
            let decayed = env.current_reputation(addr);
            let now = env.ledger.sequence as u64;
            &&& known_of(env.reputation_on_propose(addr), addr) == (Reputation {
                proposals_created: (decayed.proposals_created + 1) as u32,
                ..decayed
            })
            &&& known_of(env.reputation_on_approval(addr), addr) == (Reputation {
                score: least(decayed.score + 2, 1_000) as u32,
                approvals_given: (decayed.approvals_given + 1) as u32,
                participation_count: (decayed.participation_count + 1) as u32,
                last_participation_ledger: now,
                ..decayed
            })
            &&& known_of(env.reputation_on_abstention(addr), addr) == (Reputation {
                abstentions_given: (decayed.abstentions_given + 1) as u32,
                participation_count: (decayed.participation_count + 1) as u32,
                last_participation_ledger: now,
                ..decayed
            })
            &&& known_of(env.reward_proposer(addr), addr) == (Reputation {
                score: least(decayed.score + 10, 1_000) as u32,
                proposals_executed: (decayed.proposals_executed + 1) as u32,
                ..decayed
            })
            &&& known_of(env.reward_approver(addr), addr) == (Reputation {
                score: least(decayed.score + 5, 1_000) as u32,
                ..decayed
            })
            &&& known_of(env.reputation_on_rejection(addr), addr) == (Reputation {
                score: most(decayed.score - 20, 0) as u32,
                proposals_rejected: (decayed.proposals_rejected + 1) as u32,
                ..decayed
            })
            &&& known_of(env.reputation_on_propose(addr), other) == known_of(env, other)
            &&& known_of(env.reputation_on_approval(addr), other) == known_of(env, other)
            &&& known_of(env.reputation_on_abstention(addr), other) == known_of(env, other)
            &&& known_of(env.reward_proposer(addr), other) == known_of(env, other)
            &&& known_of(env.reward_approver(addr), other) == known_of(env, other)
            &&& known_of(env.reputation_on_rejection(addr), other) == known_of(env, other)
        }),
{
}

/// Rewards of others leave a reputation alone.
pub(crate) proof fn lemma_rewards_leave_others(env: EnvModel, approvers: Seq<Address>, addr: Address)
    requires
        !approvers.contains(addr),
    ensures
        known_of(env.reward_approvers(approvers), addr) == known_of(env, addr),
    decreases approvers.len(),
{
    if approvers.len() > 0 {
        let rest = approvers.drop_last();
        assert(!rest.contains(addr)) by {
            if rest.contains(addr) {
                let i = choose|i: int| 0 <= i < rest.len() && rest[i] == addr;
                assert(approvers[i] == addr);
            }
        }
        assert(approvers[approvers.len() - 1] != addr);
        lemma_rewards_leave_others(env, rest, addr);
    }
}

/// The execution of a proposal is counted once for its proposer, who gets ten more where it did not
/// approve the proposal itself.
pub proof fn law_executions_reward_the_proposer(env: EnvModel, proposal: ProposalModel)
    requires
        known_of(env, proposal.proposer).proposals_executed < u32::MAX,
        !proposal.approvals.contains(proposal.proposer),
    ensures
        ({
            let after = env.count_executed(proposal);
            let decayed = env.current_reputation(proposal.proposer);
            let metrics = env.treasury.metrics;
            &&& known_of(after, proposal.proposer) == (Reputation {
                score: least(decayed.score + 10, 1_000) as u32,
                proposals_executed: (decayed.proposals_executed + 1) as u32,
                ..decayed
            })
            &&& after.treasury.metrics == (VaultMetrics {
                executed_count: least(metrics.executed_count + 1, u64::MAX as int) as u64,
                total_gas_used: least(
                    metrics.total_gas_used + proposal.gas_used,
                    u64::MAX as int,
                ) as u64,
                total_execution_time_ledgers: least(
                    metrics.total_execution_time_ledgers + most(
                        ledger_of(env) - proposal.created_at,
                        0,
                    ),
                    u64::MAX as int,
                ) as u64,
                last_updated_ledger: env.ledger.sequence as u64,
                ..metrics
            })
        }),
{
    let rewarded = env.reward_proposer(proposal.proposer);
    lemma_rewards_leave_others(rewarded, proposal.approvals, proposal.proposer);
    crate::execution::lemma_rewards_frame(rewarded, proposal.approvals);
}

/// Rejections, expiries and proposals are counted, one at a time.
pub proof fn law_counters_count(env: EnvModel)
    ensures
        ({
            let metrics = env.treasury.metrics;
            let now = env.ledger.sequence as u64;
            let top = u64::MAX as int;
            &&& env.count_rejection().treasury.metrics == (VaultMetrics {
                rejected_count: least(metrics.rejected_count + 1, top) as u64,
                last_updated_ledger: now,
                ..metrics
            })
            &&& env.count_expiry().treasury.metrics == (VaultMetrics {
                expired_count: least(metrics.expired_count + 1, top) as u64,
                last_updated_ledger: now,
                ..metrics
            })
            &&& env.count_proposal().treasury.metrics == (VaultMetrics {
                total_proposals: least(metrics.total_proposals + 1, top) as u64,
                last_updated_ledger: now,
                ..metrics
            })
        }),
{
}

/// The success rate is the share of executed proposals among those that came to an end, in basis
/// points; the average time is that of executed ones.
pub proof fn law_rates_are_shares(metrics: VaultMetrics)
    ensures
        ({
            let ended = metrics.executed_count + metrics.rejected_count + metrics.expired_count;
            let rate = metrics.spec_success_rate_bps();
            &&& ended == 0 ==> rate == 0
            &&& ended > 0 ==> rate == metrics.executed_count * 10_000 / ended
            &&& rate <= 10_000
            &&& metrics.executed_count == 0 ==> metrics.spec_avg_execution_time_ledgers() == 0
            &&& metrics.executed_count > 0 ==> metrics.spec_avg_execution_time_ledgers()
                == metrics.total_execution_time_ledgers / metrics.executed_count
        }),
{
    let ended = metrics.executed_count + metrics.rejected_count + metrics.expired_count;
    let n = metrics.executed_count as int;
    if ended > 0 {
        assert(0 <= n * 10_000 / ended <= 10_000) by (nonlinear_arith)
            requires
                0 <= n <= ended,
                ended > 0,
        ;
    }
}

/// A retry waits for the initial wait at first, twice as long each time, and never longer than a
/// cap of about seven days.
pub proof fn law_waits_double(initial: u64, retry_count: u32)
    requires
        1 <= retry_count < u32::MAX,
    ensures
        crate::retries::backoff(initial, 1) == least(initial as int, 120_960),
        retry_count <= 30 ==> crate::retries::backoff(initial, (retry_count + 1) as u32) == least(
            2 * crate::retries::backoff(initial, retry_count),
            120_960,
        ),
        retry_count > 30 ==> crate::retries::backoff(initial, (retry_count + 1) as u32)
            == crate::retries::backoff(initial, retry_count),
{
    lemma_doubled_positive(initial as int, (retry_count - 1) as nat);
}

/// Doubling keeps a number from turning negative.
proof fn lemma_doubled_positive(n: int, times: nat)
    requires
        n >= 0,
    ensures
        crate::retries::doubled(n, times) >= 0,
    decreases times,
{
    if times > 0 {
        lemma_doubled_positive(n, (times - 1) as nat);
    }
}

/// Only an execution that failed for want of funds or for a stale price is retried. A retry is
/// recorded with its number and the ledger from which on it may be tried; past the largest number
/// none is.
pub proof fn law_retries_are_recorded(
    env: EnvModel,
    id: u64,
    rules: RetryConfig,
    error: VaultError,
)
    requires
        env.proposals.retries.contains_key(id) ==> env.proposals.retries[id].retry_count
            < u32::MAX,
    ensures
        ({
            let tried = if env.proposals.retries.contains_key(id) {
                env.proposals.retries[id].retry_count as int
            } else {
                0
            };
            let now = env.ledger.sequence as u64;
            let (after, r) = env.schedule_retry(id, rules, now, error);
            &&& crate::retries::is_passing(error) <==> error == VaultError::InsufficientBalance
                || error == VaultError::ConditionsNotMet
            &&& r is Ok <==> tried < rules.max_retries
            &&& r is Err ==> r == Err::<(), _>(VaultError::RetryError) && (after.proposals
                == env.proposals)
            &&& r is Ok ==> after.proposals.retries == env.proposals.retries.insert(
                id,
                RetryState {
                    retry_count: (tried + 1) as u32,
                    next_retry_ledger: (now + crate::retries::backoff(
                        rules.initial_backoff_ledgers,
                        (tried + 1) as u32,
                    )) as u64,
                    last_retry_ledger: now,
                },
            )
        }),
{
}

/// The entry that a call adds to the audit trail.
pub open spec fn recorded(
    before: EnvModel,
    after: EnvModel,
    action: AuditAction,
    actor: Address,
    target: u64,
) -> bool {
    let id = before.audit.next_id;
    &&& after.audit.next_id == id + 1
    &&& after.audit.entries == before.audit.entries.insert(id, after.audit.entries[id])
    &&& after.audit.entries[id].id == id
    &&& after.audit.entries[id].action == action
    &&& after.audit.entries[id].actor == actor
    &&& after.audit.entries[id].target == target
    &&& after.audit.entries[id].timestamp == ledger_of(before)
    &&& after.audit.entries[id].prev_hash == before.audit.last_hash
    &&& after.audit.last_hash == after.audit.entries[id].hash
}

/// Governing a vault leaves a trace: who did what, and when.
pub proof fn law_governing_is_audited(
    env: EnvModel,
    admin: Address,
    init: InitConfigModel,
    count: u32,
    amounts: (i128, i128, i128),
    target: Address,
    role: Role,
)
    requires
        env.audit.next_id < u64::MAX,
    ensures
        env.initialize(admin, init).1 is Ok ==> recorded(
            env,
            env.initialize(admin, init).0,
            AuditAction::Initialize,
            admin,
            0,
        ),
        env.update_threshold(admin, count).1 is Ok ==> recorded(
            env,
            env.update_threshold(admin, count).0,
            AuditAction::UpdateThreshold,
            admin,
            0,
        ),
        env.update_limits(admin, amounts.0, amounts.1, amounts.2).1 is Ok ==> recorded(
            env,
            env.update_limits(admin, amounts.0, amounts.1, amounts.2).0,
            AuditAction::UpdateLimits,
            admin,
            0,
        ),
        env.assign_role(admin, target, role).1 is Ok ==> recorded(
            env,
            env.assign_role(admin, target, role).0,
            AuditAction::SetRole,
            admin,
            0,
        ),
        env.remove_signer(admin, target).1 is Ok ==> recorded(
            env,
            env.remove_signer(admin, target).0,
            AuditAction::RemoveSigner,
            admin,
            0,
        ),
{
    crate::governing_laws::lemma_tracked(
        env.with_config(crate::governance::initial_config(init)).with_voting_strategy(
            crate::types::VotingStrategy::Simple,
        ).with_role(admin, Role::Admin),
        init.signers,
    );
}

/// Cancelling and rejecting a proposal leaves a trace.
pub proof fn law_cancelling_is_audited(env: EnvModel, caller: Address, id: u64, reason: Symbol)
    requires
        env.audit.next_id < u64::MAX,
        env.proposals.records.contains_key(id),
        env.proposals.records[id].id == id,
        env.cancel(caller, id, reason).1 is Ok,
    ensures
        recorded(
            env,
            env.cancel(caller, id, reason).0,
            AuditAction::RejectProposal,
            caller,
            id,
        ),
{
    let proposal = env.proposal(id)->Ok_0;
    if caller == proposal.proposer {
        reveal(EnvModel::cancelled);
    } else {
        lemma_rejection_audited(env, caller, proposal);
    }
}

/// A rejection leaves a trace.
proof fn lemma_rejection_audited(env: EnvModel, caller: Address, proposal: ProposalModel)
    requires
        env.audit.next_id < u64::MAX,
    ensures
        recorded(
            env,
            env.rejected(caller, proposal),
            AuditAction::RejectProposal,
            caller,
            proposal.id,
        ),
{
    reveal(EnvModel::rejected);
    let changed = ProposalModel { status: ProposalStatus::Rejected, ..proposal };
    let marked = env.with_proposal(changed).queue_remove(
        proposal.priority.spec_code(),
        proposal.id,
    ).reputation_on_rejection(proposal.proposer);
    let insured = marked.slash_insurance(changed);
    assert(insured.audit == env.audit && insured.ledger == env.ledger);
    let slashed = insured.slash_stake(changed);
    assert(slashed.audit == env.audit && slashed.ledger == env.ledger);
}

/// The trace that a vote leaves.
pub open spec fn vote_action(vote: Vote) -> AuditAction {
    match vote {
        Vote::Approve => AuditAction::ApproveProposal,
        Vote::Abstain => AuditAction::AbstainProposal,
    }
}

/// Votes that are weighed leave a trace.
proof fn lemma_settled_audited(
    env: EnvModel,
    config: ConfigModel,
    signer: Address,
    vote: Vote,
    proposal: ProposalModel,
    count: nat,
)
    requires
        env.audit.next_id < u64::MAX,
    ensures
        recorded(
            env,
            env.settle_votes(config, signer, vote, proposal, count),
            vote_action(vote),
            signer,
            proposal.id,
        ),
{
    reveal(EnvModel::settle_votes);
    let announced = env.announce_votes(config, proposal, count);
    assert(announced.audit == env.audit && announced.ledger == env.ledger);
    assert(env.weighed(config, proposal).id == proposal.id);
}

/// A vote that is accepted in time leaves a trace.
proof fn lemma_vote_audited(
    env: EnvModel,
    config: ConfigModel,
    signer: Address,
    id: u64,
    vote: Vote,
)
    requires
        env.audit.next_id < u64::MAX,
        env.proposals.records.contains_key(id),
        env.proposals.records[id].id == id,
        env.proposals.records[id].voting_deadline == 0 || ledger_of(env)
            <= env.proposals.records[id].voting_deadline,
        env.vote_on(config, signer, id, vote).1 is Ok,
    ensures
        recorded(
            env,
            env.vote_on(config, signer, id, vote).0,
            vote_action(vote),
            signer,
            id,
        ),
{
    reveal(EnvModel::vote_on);
    reveal(EnvModel::accept_votes);
    let before = env.proposal(id)->Ok_0;
    let voters = crate::voting::counted_voters(before, env.ballot(signer, vote));
    let counted = crate::voting::with_votes(before, vote, voters);
    crate::voting::lemma_count_votes_frame(env, id, signer, vote, voters);
    let tallied = env.count_votes(id, signer, vote, voters);
    let kept = match vote {
        Vote::Approve => tallied.with_approval_ledger(id, signer, env.now()),
        Vote::Abstain => tallied,
    };
    assert(kept.audit == env.audit && kept.ledger == env.ledger);
    lemma_settled_audited(kept, config, signer, vote, counted, voters.len());
    assert(env.vote_on(config, signer, id, vote).0 == kept.settle_votes(
        config,
        signer,
        vote,
        counted,
        voters.len(),
    ));
}

/// A vote that is accepted in time leaves a trace: who approved or abstained, and on what.
pub proof fn law_votes_are_audited(env: EnvModel, signer: Address, id: u64, vote: Vote)
    requires
        env.access.config is Some,
        env.audit.next_id < u64::MAX,
        env.proposals.records.contains_key(id),
        env.proposals.records[id].id == id,
        env.proposals.records[id].voting_deadline == 0 || ledger_of(env)
            <= env.proposals.records[id].voting_deadline,
        cast(env, signer, id, vote).1 is Ok,
    ensures
        recorded(env, cast(env, signer, id, vote).0, vote_action(vote), signer, id),
{
    let config = env.access.config->0;
    let voting = match vote {
        Vote::Approve => env.decay_reputation(signer),
        Vote::Abstain => env,
    };
    assert(voting.audit == env.audit && voting.ledger == env.ledger);
    assert(voting.proposals == env.proposals);
    lemma_vote_audited(voting, config, signer, id, vote);
}

} // verus!
