//! What holds of decisions: how many approvals and votes a proposal needs, whose votes count, and
//! what a vote changes.

use vstd::prelude::*;

use crate::books::ledger_of;
use crate::env::EnvModel;
use crate::errors::VaultError;
use crate::primitives::Address;
use crate::types::{
    AmountTier, ConfigModel, ProposalModel, ProposalStatus, ThresholdStrategyModel, VotingStrategy,
};
use crate::voting::Vote;

verus! {

/// Whether a tier decides for an amount: the amount reaches it, and of all the tiers that the
/// amount reaches it has the highest amount, the last of several such.
pub open spec fn tier_decides(tiers: Seq<AmountTier>, amount: i128, i: int) -> bool {
    &&& 0 <= i < tiers.len()
    &&& tiers[i].amount <= amount
    &&& forall|j: int|
        0 <= j < tiers.len() && (#[trigger] tiers[j]).amount <= amount ==> tiers[j].amount
            <= tiers[i].amount && (tiers[j].amount == tiers[i].amount ==> j <= i)
}

/// Whether a number of approvals is enough for a proposal: the threshold; or the percentage of
/// the signers, and at least one; or what the tier of its amount asks for; or what is asked for
/// before and after a delay.
pub open spec fn approvals_suffice(
    env: EnvModel,
    config: ConfigModel,
    proposal: ProposalModel,
    approvals: nat,
) -> bool {
    match config.threshold_strategy {
        ThresholdStrategyModel::Fixed => approvals >= config.threshold,
        ThresholdStrategyModel::Percentage(pct) => approvals >= 1 && approvals * 100 >= pct
            * config.signers.len(),
        ThresholdStrategyModel::AmountBased(tiers) => {
            &&& forall|i: int| #[trigger]
                tier_decides(tiers, proposal.amount, i) ==> approvals >= tiers[i].approvals
            &&& (forall|i: int|
                0 <= i < tiers.len() ==> (#[trigger] tiers[i]).amount > proposal.amount)
                ==> approvals >= config.threshold
        },
        ThresholdStrategyModel::TimeBased(rule) => if ledger_of(env) >= proposal.created_at
            + rule.reduction_delay {
            approvals >= rule.reduced_threshold
        } else {
            approvals >= rule.initial_threshold
        },
    }
}

/// Whether a number of votes of any kind reaches the quorum: the configured number, or else the
/// configured percentage of the signers.
pub open spec fn votes_suffice(config: ConfigModel, votes: nat) -> bool {
    if config.quorum > 0 {
        votes >= config.quorum
    } else {
        votes * 100 >= config.quorum_percentage * config.signers.len()
    }
}

/// Whether counts of a configuration can be computed exactly: percentages are percentages.
pub open spec fn percentages_valid(config: ConfigModel) -> bool {
    &&& 1 <= config.signers.len() <= u32::MAX
    &&& config.quorum_percentage <= 100
    &&& config.threshold_strategy matches ThresholdStrategyModel::Percentage(pct) ==> pct <= 100
}

/// The best of tiers is the one that decides.
proof fn lemma_best_tier(tiers: Seq<AmountTier>, amount: i128)
    ensures
        match crate::thresholds::best_tier(tiers, amount) {
            Some(best) => exists|i: int| #[trigger]
                tier_decides(tiers, amount, i) && tiers[i] == best,
            None => forall|i: int| 0 <= i < tiers.len() ==> (#[trigger] tiers[i]).amount > amount,
        },
    decreases tiers.len(),
{
    if tiers.len() > 0 {
        let rest = tiers.drop_last();
        let last = tiers.len() - 1;
        lemma_best_tier(rest, amount);
        assert forall|j: int| 0 <= j < rest.len() implies rest[j] == tiers[j] by {}
        assert(tiers[last] == tiers.last());
        match crate::thresholds::best_tier(rest, amount) {
            Some(best) => {
                let k = choose|k: int| #[trigger]
                    tier_decides(rest, amount, k) && rest[k] == best;
                let i = if tiers[last].amount <= amount && tiers[last].amount >= best.amount {
                    last
                } else {
                    k
                };
                assert forall|j: int|
                    0 <= j < tiers.len() && (#[trigger] tiers[j]).amount
                        <= amount implies tiers[j].amount <= tiers[i].amount && (tiers[j].amount
                    == tiers[i].amount ==> j <= i) by {
                    if j < last {
                        assert(rest[j].amount <= rest[k].amount);
                    }
                }
                assert(tier_decides(tiers, amount, i));
            },
            None => {
                assert forall|j: int| 0 <= j < last implies (#[trigger] tiers[j]).amount
                    > amount by {
                    assert(rest[j].amount > amount);
                }
                if tiers[last].amount <= amount {
                    assert(tier_decides(tiers, amount, last));
                }
            },
        }
    }
}

/// At most one tier decides for an amount.
proof fn lemma_one_tier_decides(tiers: Seq<AmountTier>, amount: i128, i: int, j: int)
    requires
        tier_decides(tiers, amount, i),
        tier_decides(tiers, amount, j),
    ensures
        i == j,
{
    assert(tiers[i].amount <= tiers[j].amount);
    assert(tiers[j].amount <= tiers[i].amount);
}

/// Unless votes are weighed by the tokens that voters locked, every approval counts one, and a
/// proposal has the approvals that it needs exactly when their number is enough.
pub proof fn law_thresholds_count_approvals(
    env: EnvModel,
    config: ConfigModel,
    proposal: ProposalModel,
)
    requires
        env.access.voting_strategy != VotingStrategy::Quadratic,
        percentages_valid(config),
    ensures
        env.threshold_reached(config, proposal) <==> approvals_suffice(
            env,
            config,
            proposal,
            proposal.approvals.len(),
        ),
{
    let n = proposal.approvals.len();
    let s = config.signers.len();
    match config.threshold_strategy {
        ThresholdStrategyModel::Percentage(pct) => {
            assert(0 <= s * pct <= s * 100) by (nonlinear_arith)
                requires
                    0 <= pct <= 100,
                    s >= 1,
            ;
            assert(s * pct == pct * s) by (nonlinear_arith);
        },
        ThresholdStrategyModel::AmountBased(tiers) => {
            lemma_best_tier(tiers, proposal.amount);
            if let Some(best) = crate::thresholds::best_tier(tiers, proposal.amount) {
                let k = choose|k: int| #[trigger]
                    tier_decides(tiers, proposal.amount, k) && tiers[k] == best;
                assert forall|i: int| #[trigger]
                    tier_decides(tiers, proposal.amount, i) implies i == k by {
                    lemma_one_tier_decides(tiers, proposal.amount, i, k);
                }
                assert(!(tiers[k].amount > proposal.amount));
            } else {
                assert forall|i: int| #[trigger]
                    tier_decides(tiers, proposal.amount, i) implies n >= tiers[i].approvals by {
                    assert(tiers[i].amount > proposal.amount);
                }
            }
        },
        _ => {},
    }
}

/// A quorum is a number of votes of any kind, approvals and abstentions together.
pub proof fn law_quorums_count_votes(config: ConfigModel, votes: nat)
    requires
        percentages_valid(config),
    ensures
        crate::voting::quorum_reached(config, votes as int) <==> votes_suffice(config, votes),
{
    let s = config.signers.len();
    let pct = config.quorum_percentage;
    assert(0 <= s * pct <= s * 100) by (nonlinear_arith)
        requires
            0 <= pct <= 100,
            s >= 1,
    ;
    assert(s * pct == pct * s) by (nonlinear_arith);
    assert(pct == 0 ==> pct * s == 0) by (nonlinear_arith);
}

/// The weights of several voters added up.
pub open spec fn weights(env: EnvModel, voters: Seq<Address>) -> int {
    voters.fold_left(0int, |sum: int, voter: Address| sum + env.vote_weight(voter))
}

/// Weights add up voter by voter.
proof fn lemma_weights(env: EnvModel, voters: Seq<Address>)
    ensures
        weights(env, voters) == env.total_weight(voters),
    decreases voters.len(),
{
    if voters.len() > 0 {
        lemma_weights(env, voters.drop_last());
    }
}

/// Under quadratic voting a vote weighs the square root of the tokens that the voter has locked,
/// rounded down, and one without a lock. The approvals of a proposal reach a fixed threshold
/// exactly when they weigh as much as that many votes of the average weight of those who may
/// vote, which counts as one at least.
pub proof fn law_quadratic_votes_weigh_the_root(
    env: EnvModel,
    config: ConfigModel,
    proposal: ProposalModel,
    voter: Address,
)
    requires
        env.access.voting_strategy == VotingStrategy::Quadratic,
        config.threshold_strategy == ThresholdStrategyModel::Fixed,
        proposal.snapshot_signers.len() > 0,
    ensures
        ({
            let locks = env.members.token_locks;
            let w = env.vote_weight(voter);
            if locks.contains_key(voter) && locks[voter].is_active {
                if locks[voter].amount > 0 {
                    w * w <= locks[voter].amount < (w + 1) * (w + 1)
                } else {
                    w == 0
                }
            } else {
                w == 1
            }
        }),
        ({
            let n = proposal.snapshot_signers.len();
            let average = crate::books::most(weights(env, proposal.snapshot_signers) / n as int, 1);
            env.threshold_reached(config, proposal) <==> weights(env, proposal.approvals)
                >= config.threshold * average
        }),
{
    lemma_weights(env, proposal.approvals);
    lemma_weights(env, proposal.snapshot_signers);
    let locks = env.members.token_locks;
    if locks.contains_key(voter) && locks[voter].is_active && locks[voter].amount > 0 {
        lemma_root_exists(locks[voter].amount);
    }
}

/// A positive amount has a root.
proof fn lemma_root_exists(value: i128)
    requires
        value > 0,
    ensures
        ({
            let w = crate::thresholds::root(value) as int;
            w * w <= value < (w + 1) * (w + 1)
        }),
{
    lemma_root_below(value as nat, 0x1_0000_0000_0000_0000);
    let w = choose|w: int|
        0 <= w < 0x1_0000_0000_0000_0000 && #[trigger] crate::math::is_floor_sqrt(
            w,
            value as int,
        );
    assert(crate::math::is_floor_sqrt((w as u64) as int, value as int));
}

/// A number below a square has a root below the square's.
proof fn lemma_root_below(value: nat, bound: nat)
    requires
        value < bound * bound,
    ensures
        exists|w: int| 0 <= w < bound && #[trigger] crate::math::is_floor_sqrt(w, value as int),
    decreases bound,
{
    if bound == 0 {
        assert(bound * bound == 0) by (nonlinear_arith)
            requires
                bound == 0,
        ;
    } else {
        let w = bound - 1;
        if w * w <= value {
            assert(crate::math::is_floor_sqrt(w, value as int));
        } else {
            lemma_root_below(value, w as nat);
        }
    }
}

/// A vote that is accepted in time decides a proposal exactly when the number of its approvals is
/// enough and its votes reach the quorum. A decided proposal is scheduled where it has an
/// execution ledger, and else approved, with an amount from the timelock threshold on locked for
/// the configured delay; one that is not decided stays pending. Nothing else about it changes but
/// its votes, and no other proposal changes.
pub proof fn law_votes_decide_by_number(env: EnvModel, signer: Address, id: u64, vote: Vote)
    requires
        env.access.voting_strategy != VotingStrategy::Quadratic,
        env.access.config is Some,
        percentages_valid(env.access.config->0),
        env.proposals.records.contains_key(id),
        env.proposals.records[id].id == id,
        env.proposals.records[id].voting_deadline == 0 || ledger_of(env)
            <= env.proposals.records[id].voting_deadline,
        env.ledger.sequence + env.access.config->0.timelock_delay <= u64::MAX,
        cast(env, signer, id, vote).1 is Ok,
    ensures
        ({
            let config = env.access.config->0;
            let before = env.proposals.records[id];
            let records = cast(env, signer, id, vote).0.proposals.records;
            let after = records[id];
            let decided = approvals_suffice(env, config, after, after.approvals.len())
                && votes_suffice(config, after.approvals.len() + after.abstentions.len());
            &&& config.signers.contains(signer)
            &&& before.snapshot_signers.contains(signer)
            &&& before.status == ProposalStatus::Pending
            &&& before.expires_at == 0 || ledger_of(env) <= before.expires_at
            &&& records == env.proposals.records.insert(id, after)
            &&& after == (ProposalModel {
                approvals: after.approvals,
                abstentions: after.abstentions,
                attachments: after.attachments,
                status: after.status,
                unlock_ledger: after.unlock_ledger,
                ..before
            })
            &&& vote == Vote::Approve ==> after.abstentions == before.abstentions
            &&& vote == Vote::Abstain ==> after.approvals == before.approvals
            &&& !decided ==> after.status == ProposalStatus::Pending
            &&& decided && before.execution_time is Some ==> after.status
                == ProposalStatus::Scheduled
            &&& decided && before.execution_time is None ==> after.status
                == ProposalStatus::Approved
            &&& after.status == ProposalStatus::Approved ==> after.unlock_ledger == if before.amount
                >= config.timelock_threshold {
                env.ledger.sequence + config.timelock_delay
            } else {
                0
            }
            &&& after.status != ProposalStatus::Approved ==> after.unlock_ledger
                == before.unlock_ledger
        }),
{
    let config = env.access.config->0;
    let before = env.proposal(id)->Ok_0;
    let voters = crate::voting::counted_voters(before, env.ballot(signer, vote));
    let counted = crate::voting::with_votes(before, vote, voters);
    lemma_cast(env, signer, id, vote);
    law_thresholds_count_approvals(env, config, counted);
    law_quorums_count_votes(config, counted.approvals.len() + counted.abstentions.len());
}

/// What the answer to a vote depends on.
proof fn lemma_vote_answer(
    env: EnvModel,
    config: ConfigModel,
    signer: Address,
    id: u64,
    vote: Vote,
)
    requires
        env.proposals.records.contains_key(id),
    ensures
        ({
            let before = env.proposal(id)->Ok_0;
            let voters = crate::voting::counted_voters(before, env.ballot(signer, vote));
            let r = env.vote_on(config, signer, id, vote).1;
            if !before.snapshot_signers.contains(signer) {
                r == Err::<(), _>(VaultError::VoterNotInSnapshot)
            } else if before.status != ProposalStatus::Pending {
                r == Err::<(), _>(VaultError::ProposalNotPending)
            } else if voters.len() == 0 {
                r == Err::<(), _>(VaultError::AlreadyApproved)
            } else if before.expires_at > 0 && ledger_of(env) > before.expires_at {
                r == Err::<(), _>(VaultError::ProposalExpired)
            } else {
                r == Ok::<(), VaultError>(())
            }
        }),
{
    reveal(EnvModel::vote_on);
    reveal(EnvModel::accept_votes);
    let before = env.proposal(id)->Ok_0;
    let voters = crate::voting::counted_voters(before, env.ballot(signer, vote));
    crate::voting::lemma_count_votes_frame(env, before.id, signer, vote, voters);
}

/// The answer to a vote of a signer, and what it makes of the proposal.
pub(crate) proof fn lemma_cast(env: EnvModel, signer: Address, id: u64, vote: Vote)
    requires
        env.access.config is Some,
        env.proposals.records.contains_key(id),
        env.proposals.records[id].id == id,
    ensures
        ({
            let config = env.access.config->0;
            let before = env.proposal(id)->Ok_0;
            let voters = crate::voting::counted_voters(before, env.ballot(signer, vote));
            let counted = crate::voting::with_votes(before, vote, voters);
            let (after, r) = cast(env, signer, id, vote);
            let expired = before.expires_at > 0 && ledger_of(env) > before.expires_at;
            let late = before.voting_deadline > 0 && ledger_of(env) > before.voting_deadline;
            if !config.signers.contains(signer) {
                r == Err::<(), _>(VaultError::NotASigner) && after == env
            } else if !before.snapshot_signers.contains(signer) {
                r == Err::<(), _>(VaultError::VoterNotInSnapshot) && (after.proposals.records
                    == env.proposals.records)
            } else if before.status != ProposalStatus::Pending {
                r == Err::<(), _>(VaultError::ProposalNotPending) && (after.proposals.records
                    == env.proposals.records)
            } else if voters.len() == 0 {
                r == Err::<(), _>(VaultError::AlreadyApproved) && (after.proposals.records
                    == env.proposals.records)
            } else if expired {
                r == Err::<(), _>(VaultError::ProposalExpired) && (after.proposals.records
                    == env.proposals.records.insert(
                    id,
                    ProposalModel { status: ProposalStatus::Expired, ..counted },
                ))
            } else if late {
                r == Ok::<(), VaultError>(()) && (after.proposals.records
                    == env.proposals.records.insert(
                    id,
                    ProposalModel { status: ProposalStatus::Rejected, ..counted },
                ))
            } else {
                r == Ok::<(), VaultError>(()) && (after.proposals.records
                    == env.proposals.records.insert(id, env.weighed(config, counted)))
            }
        }),
{
    let config = env.access.config->0;
    let before = env.proposal(id)->Ok_0;
    let voters = crate::voting::counted_voters(before, env.ballot(signer, vote));
    let counted = crate::voting::with_votes(before, vote, voters);
    crate::voting::lemma_decay_frame(env, config, signer, counted);
    let voting = match vote {
        Vote::Approve => env.decay_reputation(signer),
        Vote::Abstain => env,
    };
    lemma_vote_answer(voting, config, signer, id, vote);
    crate::voting_laws::lemma_vote_records(voting, config, signer, id, vote);
}

/// What a vote of a signer leaves behind.
pub open spec fn cast(env: EnvModel, signer: Address, id: u64, vote: Vote) -> (
    EnvModel,
    Result<(), VaultError>,
) {
    match vote {
        Vote::Approve => env.approve(signer, id),
        Vote::Abstain => env.abstain(signer, id),
    }
}

/// Whether a signer votes for itself alone: it has not delegated its vote, and nobody has
/// delegated a vote to it.
pub open spec fn votes_alone(env: EnvModel, signer: Address) -> bool {
    &&& env.members.delegations.contains_key(signer) ==> {
        let delegation = env.members.delegations[signer];
        !delegation.is_active || (delegation.expiry_ledger > 0 && ledger_of(env)
            > delegation.expiry_ledger)
    }
    &&& env.members.delegators.contains_key(signer) ==> env.members.delegators[signer].len() == 0
}

/// The vote of a signer who votes for itself alone is accepted exactly when it is a signer now and
/// was one when the proposal was made, the proposal is pending and has not expired, and it has
/// not voted. It then counts once, in its own name, and nobody else's vote is cast.
pub proof fn law_signers_vote_once(env: EnvModel, signer: Address, id: u64, vote: Vote)
    requires
        env.access.config is Some,
        env.proposals.records.contains_key(id),
        env.proposals.records[id].id == id,
        votes_alone(env, signer),
    ensures
        ({
            let config = env.access.config->0;
            let before = env.proposals.records[id];
            let (env2, r) = cast(env, signer, id, vote);
            let after = env2.proposals.records[id];
            let known = config.signers.contains(signer);
            let entitled = before.snapshot_signers.contains(signer);
            let pending = before.status == ProposalStatus::Pending;
            let voted = before.approvals.contains(signer) || before.abstentions.contains(signer);
            let expired = before.expires_at > 0 && ledger_of(env) > before.expires_at;
            &&& r is Ok <==> known && entitled && pending && !voted && !expired
            &&& !known ==> r == Err::<(), _>(VaultError::NotASigner)
            &&& known && !entitled ==> r == Err::<(), _>(VaultError::VoterNotInSnapshot)
            &&& known && entitled && !pending ==> r == Err::<(), _>(VaultError::ProposalNotPending)
            &&& known && entitled && pending && voted ==> r == Err::<(), _>(
                VaultError::AlreadyApproved,
            )
            &&& known && entitled && pending && !voted && expired ==> r == Err::<(), _>(
                VaultError::ProposalExpired,
            ) && after.status == ProposalStatus::Expired
            &&& !known || !entitled || !pending || voted ==> env2.proposals.records
                == env.proposals.records
            &&& r is Ok && vote == Vote::Approve ==> after.approvals == before.approvals.push(
                signer,
            ) && after.abstentions == before.abstentions
            &&& r is Ok && vote == Vote::Abstain ==> after.abstentions == before.abstentions.push(
                signer,
            ) && after.approvals == before.approvals
        }),
{
    let config = env.access.config->0;
    let before = env.proposal(id)->Ok_0;
    assert(env.delegate_of(signer) is None);
    assert(env.delegation_chain(signer, env.longest_chain()).len() == 0);
    assert(env.effective_voter(signer) == signer);
    assert(env.delegators_for(signer).len() == 0);
    assert(env.electorate(signer) == seq![signer]);
    assert(env.ballot(signer, vote) == seq![signer]);
    let voters = crate::voting::counted_voters(before, seq![signer]);
    assert(seq![signer].drop_last() =~= Seq::<Address>::empty());
    assert(crate::voting::counted_voters(before, Seq::<Address>::empty()).len() == 0);
    assert(voters =~= if crate::voting::may_vote(before, signer) {
        seq![signer]
    } else {
        Seq::empty()
    });
    lemma_cast(env, signer, id, vote);
    assert(before.approvals + seq![signer] =~= before.approvals.push(signer));
    assert(before.abstentions + seq![signer] =~= before.abstentions.push(signer));
}

/// Whether a delegation of a voter is in force.
pub open spec fn delegates(env: EnvModel, voter: Address) -> bool {
    env.members.delegations.contains_key(voter) && {
        let delegation = env.members.delegations[voter];
        delegation.is_active && (delegation.expiry_ledger == 0 || ledger_of(env)
            <= delegation.expiry_ledger)
    }
}

/// Those who are represented by several were there before, or delegate.
proof fn lemma_each_delegate(
    env: EnvModel,
    delegators: Seq<Address>,
    voters: Seq<Address>,
    depth: nat,
    voter: Address,
)
    ensures
        env.represented_by_each(delegators, voters, depth).contains(voter) ==> voters.contains(
            voter,
        ) || delegates(env, voter),
    decreases crate::delegation::MAX_REPRESENTATION_DEPTH + 1 - depth, 0nat, delegators.len(),
{
    if depth < crate::delegation::MAX_REPRESENTATION_DEPTH && delegators.len() > 0 {
        let first = delegators[0];
        if !voters.contains(first) && env.delegate_of(first) is Some {
            lemma_each_delegate(
                env,
                env.delegators_for(first),
                voters.push(first),
                depth + 1,
                voter,
            );
            crate::primitives::lemma_push_contains(voters, first, voter);
            lemma_each_delegate(
                env,
                delegators.skip(1),
                env.represented(first, voters.push(first), depth + 1),
                depth,
                voter,
            );
        } else {
            lemma_each_delegate(env, delegators.skip(1), voters, depth, voter);
        }
    }
}

/// A vote counts for the signer who casts it, for the one at the end of its delegation chain, or
/// for one who has delegated a vote, and for nobody else: whoever else voted is left alone.
pub proof fn law_votes_are_cast_for_delegators_only(
    env: EnvModel,
    signer: Address,
    id: u64,
    vote: Vote,
    voter: Address,
)
    requires
        env.proposals.records.contains_key(id),
        env.proposals.records[id].id == id,
        voter != signer,
        voter != env.effective_voter(signer),
        !delegates(env, voter),
    ensures
        ({
            let before = env.proposals.records[id];
            let after = cast(env, signer, id, vote).0.proposals.records[id];
            &&& after.approvals.contains(voter) ==> before.approvals.contains(voter)
            &&& after.abstentions.contains(voter) ==> before.abstentions.contains(voter)
        }),
{
    if env.access.config is Some && env.access.config->0.signers.contains(signer) {
        let config = env.access.config->0;
        let before = env.proposal(id)->Ok_0;
        let ballot = env.ballot(signer, vote);
        let voters = crate::voting::counted_voters(before, ballot);
        let end = env.effective_voter(signer);
        lemma_each_delegate(env, env.delegators_for(signer), seq![signer], 0, voter);
        lemma_each_delegate(env, env.delegators_for(end), seq![end], 0, voter);
        assert(!seq![signer].contains(voter));
        assert(!seq![end].contains(voter));
        assert(!env.electorate(signer).contains(voter));
        assert(!env.electorate(end).contains(voter));
        lemma_without_keeps_out(env.electorate(end), signer, voter);
        assert(!ballot.contains(voter));
        crate::voting::lemma_counted_voters(before, ballot);
        crate::voting::lemma_append_contains(before.approvals, voters, voter);
        crate::voting::lemma_append_contains(before.abstentions, voters, voter);
        let counted = crate::voting::with_votes(before, vote, voters);
        let voting = match vote {
            Vote::Approve => env.decay_reputation(signer),
            Vote::Abstain => env,
        };
        if vote == Vote::Approve {
            crate::voting::lemma_decay_frame(env, config, signer, counted);
        }
        crate::voting_laws::lemma_vote_records(voting, config, signer, id, vote);
    }
}

/// Taking an item out of a list puts nothing in.
proof fn lemma_without_keeps_out(list: Seq<Address>, item: Address, other: Address)
    requires
        !list.contains(other),
    ensures
        !crate::primitives::without(list, item).contains(other),
    decreases list.len(),
{
    if list.len() > 0 {
        let rest = list.drop_last();
        assert(!rest.contains(other)) by {
            if rest.contains(other) {
                let i = choose|i: int| 0 <= i < rest.len() && rest[i] == other;
                assert(list[i] == other);
            }
        }
        lemma_without_keeps_out(rest, item, other);
        assert(list[list.len() - 1] != other);
        crate::primitives::lemma_push_contains(
            crate::primitives::without(rest, item),
            list.last(),
            other,
        );
    }
}

/// Whoever votes already stays among the voters when others are represented.
proof fn lemma_each_keeps(
    env: EnvModel,
    delegators: Seq<Address>,
    voters: Seq<Address>,
    depth: nat,
    voter: Address,
)
    requires
        voters.contains(voter),
    ensures
        env.represented_by_each(delegators, voters, depth).contains(voter),
    decreases crate::delegation::MAX_REPRESENTATION_DEPTH + 1 - depth, 0nat, delegators.len(),
{
    if depth < crate::delegation::MAX_REPRESENTATION_DEPTH && delegators.len() > 0 {
        let first = delegators[0];
        if !voters.contains(first) && env.delegate_of(first) is Some {
            crate::primitives::lemma_push_contains(voters, first, voter);
            lemma_each_keeps(
                env,
                env.delegators_for(first),
                voters.push(first),
                depth + 1,
                voter,
            );
            lemma_each_keeps(
                env,
                delegators.skip(1),
                env.represented(first, voters.push(first), depth + 1),
                depth,
                voter,
            );
        } else {
            lemma_each_keeps(env, delegators.skip(1), voters, depth, voter);
        }
    }
}

/// Whoever delegates is among those who are represented.
proof fn lemma_each_includes(
    env: EnvModel,
    delegators: Seq<Address>,
    voters: Seq<Address>,
    depth: nat,
    voter: Address,
)
    requires
        depth < crate::delegation::MAX_REPRESENTATION_DEPTH,
        delegators.contains(voter),
        delegates(env, voter),
    ensures
        env.represented_by_each(delegators, voters, depth).contains(voter),
    decreases delegators.len(),
{
    let first = delegators[0];
    let rest = delegators.skip(1);
    let more = if !voters.contains(first) && env.delegate_of(first) is Some {
        env.represented(first, voters.push(first), depth + 1)
    } else {
        voters
    };
    if first == voter {
        if !voters.contains(first) {
            crate::primitives::lemma_push_contains(voters, first, voter);
            lemma_each_keeps(
                env,
                env.delegators_for(first),
                voters.push(first),
                depth + 1,
                voter,
            );
        }
        assert(more.contains(voter));
        lemma_each_keeps(env, rest, more, depth, voter);
    } else {
        let i = choose|i: int| 0 <= i < delegators.len() && delegators[i] == voter;
        assert(rest[i - 1] == voter);
        lemma_each_includes(env, rest, more, depth, voter);
    }
}

/// Whoever has delegated a vote to a signer abstains with it, and approves with it where the signer
/// has not delegated its own vote, unless it has voted or may not vote.
pub proof fn law_delegators_vote_with_their_delegate(
    env: EnvModel,
    signer: Address,
    id: u64,
    vote: Vote,
    voter: Address,
)
    requires
        env.access.config is Some,
        env.proposals.records.contains_key(id),
        env.proposals.records[id].id == id,
        env.members.delegators.contains_key(signer),
        env.members.delegators[signer].contains(voter),
        delegates(env, voter),
        vote == Vote::Approve ==> !delegates(env, signer),
        env.proposals.records[id].snapshot_signers.contains(voter),
        cast(env, signer, id, vote).1 is Ok,
    ensures
        ({
            let before = env.proposals.records[id];
            let after = cast(env, signer, id, vote).0.proposals.records[id];
            let voted = before.approvals.contains(voter) || before.abstentions.contains(voter);
            &&& !voted && vote == Vote::Approve ==> after.approvals.contains(voter)
            &&& !voted && vote == Vote::Abstain ==> after.abstentions.contains(voter)
        }),
{
    let before = env.proposal(id)->Ok_0;
    let ballot = env.ballot(signer, vote);
    let voters = crate::voting::counted_voters(before, ballot);
    if vote == Vote::Approve {
        assert(env.delegate_of(signer) is None);
        assert(env.delegation_chain(signer, env.longest_chain()).len() == 0);
        assert(env.effective_voter(signer) == signer);
    }
    assert(ballot == env.electorate(signer));
    lemma_each_includes(env, env.delegators_for(signer), seq![signer], 0, voter);
    assert(ballot.contains(voter));
    crate::voting::lemma_counted_voters(before, ballot);
    crate::voting::lemma_append_contains(before.approvals, voters, voter);
    crate::voting::lemma_append_contains(before.abstentions, voters, voter);
    lemma_cast(env, signer, id, vote);
}

} // verus!
