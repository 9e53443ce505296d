//! What holds of votes.

use vstd::prelude::*;

use crate::env::EnvModel;
use crate::errors::VaultError;
use crate::primitives::Address;
use crate::types::{ConfigModel, ProposalModel, ProposalStatus};
use crate::voting::Vote;

verus! {

/// Whether the votes on a proposal are in order: nobody voted twice, and only those who were
/// signers when the proposal was made did.
pub open spec fn votes_sound(proposal: ProposalModel) -> bool {
    &&& proposal.approvals.no_duplicates()
    &&& proposal.abstentions.no_duplicates()
    &&& forall|v: Address| #[trigger]
        proposal.approvals.contains(v) ==> proposal.snapshot_signers.contains(v)
            && !proposal.abstentions.contains(v)
    &&& forall|v: Address| #[trigger]
        proposal.abstentions.contains(v) ==> proposal.snapshot_signers.contains(v)
            && !proposal.approvals.contains(v)
}

impl EnvModel {
    /// A proposal after a signer's vote on it.
    pub open spec fn voted(
        self,
        config: ConfigModel,
        signer: Address,
        proposal: ProposalModel,
        vote: Vote,
    ) -> ProposalModel {
        let voters = crate::voting::counted_voters(proposal, self.ballot(signer, vote));
        let counted = crate::voting::with_votes(proposal, vote, voters);
        if !proposal.snapshot_signers.contains(signer) || proposal.status
            != ProposalStatus::Pending || voters.len() == 0 {
            proposal
        } else if proposal.expires_at > 0 && self.now() > proposal.expires_at {
            ProposalModel { status: ProposalStatus::Expired, ..counted }
        } else if proposal.voting_deadline > 0 && self.now() > proposal.voting_deadline {
            ProposalModel { status: ProposalStatus::Rejected, ..counted }
        } else {
            self.weighed(config, counted)
        }
    }
}

/// Slashing a proposal leaves proposals alone.
proof fn lemma_slash_frame(env: EnvModel, proposal: ProposalModel)
    ensures
        env.slash_insurance(proposal).proposals == env.proposals,
        env.slash_stake(proposal).proposals == env.proposals,
{
}

/// What a voting deadline that has passed makes of a proposal.
proof fn lemma_rejected_late(env: EnvModel, proposal: ProposalModel)
    ensures
        env.reject_late(proposal).proposals.records == env.proposals.records.insert(
            proposal.id,
            ProposalModel { status: ProposalStatus::Rejected, ..proposal },
        ),
        env.reject_late(proposal).proposals.attachments == env.proposals.attachments,
{
    let rejected = ProposalModel { status: ProposalStatus::Rejected, ..proposal };
    let counted = env.with_proposal(rejected).count_rejection();
    lemma_slash_frame(counted, rejected);
    lemma_slash_frame(counted.slash_insurance(rejected), rejected);
}

/// What votes that are weighed make of a proposal.
proof fn lemma_settled(
    env: EnvModel,
    config: ConfigModel,
    signer: Address,
    vote: Vote,
    proposal: ProposalModel,
    cast: nat,
)
    ensures
        env.settle_votes(config, signer, vote, proposal, cast).proposals.records
            == env.proposals.records.insert(proposal.id, env.weighed(config, proposal)),
        env.settle_votes(config, signer, vote, proposal, cast).proposals.attachments
            == env.proposals.attachments,
{
    reveal(EnvModel::settle_votes);
    let announced = env.announce_votes(config, proposal, cast);
    assert(announced.proposals == env.proposals);
}

/// What accepting votes makes of a proposal.
proof fn lemma_accepted(
    env: EnvModel,
    config: ConfigModel,
    signer: Address,
    vote: Vote,
    proposal: ProposalModel,
    cast: nat,
)
    ensures
        env.accept_votes(config, signer, vote, proposal, cast).0.proposals.records
            == env.proposals.records.insert(
            proposal.id,
            if proposal.expires_at > 0 && env.now() > proposal.expires_at {
                ProposalModel { status: ProposalStatus::Expired, ..proposal }
            } else if proposal.voting_deadline > 0 && env.now() > proposal.voting_deadline {
                ProposalModel { status: ProposalStatus::Rejected, ..proposal }
            } else {
                env.weighed(config, proposal)
            },
        ),
        env.accept_votes(config, signer, vote, proposal, cast).0.proposals.attachments
            == env.proposals.attachments,
{
    reveal(EnvModel::accept_votes);
    lemma_rejected_late(env, proposal);
    lemma_settled(env, config, signer, vote, proposal, cast);
}

/// What a vote makes of the stored proposals: they stay as they are, or the one that was voted
/// on is stored as the vote leaves it.
pub(crate) proof fn lemma_vote_records(
    env: EnvModel,
    config: ConfigModel,
    signer: Address,
    proposal_id: u64,
    vote: Vote,
)
    requires
        env.proposal(proposal_id) is Ok,
    ensures
        ({
            let proposal = env.proposal(proposal_id)->Ok_0;
            let voted = env.voted(config, signer, proposal, vote);
            let after = env.vote_on(config, signer, proposal_id, vote).0.proposals;
            &&& after.attachments == env.proposals.attachments
            &&& if proposal.snapshot_signers.contains(signer) && proposal.status
                == ProposalStatus::Pending && crate::voting::counted_voters(
                proposal,
                env.ballot(signer, vote),
            ).len() > 0 {
                after.records == env.proposals.records.insert(proposal.id, voted)
            } else {
                after.records == env.proposals.records && voted == proposal
            }
        }),
{
    reveal(EnvModel::vote_on);
    let proposal = env.proposal(proposal_id)->Ok_0;
    let voters = crate::voting::counted_voters(proposal, env.ballot(signer, vote));
    let counted = env.count_votes(proposal.id, signer, vote, voters);
    crate::voting::lemma_count_votes_frame(env, proposal.id, signer, vote, voters);
    crate::voting::lemma_count_votes_locks(env, proposal.id, signer, vote, voters);
    let recorded = match vote {
        Vote::Approve => counted.with_approval_ledger(proposal_id, signer, env.now()),
        Vote::Abstain => counted,
    };
    let after = crate::voting::with_votes(proposal, vote, voters);
    lemma_accepted(recorded, config, signer, vote, after, voters.len());
    crate::voting::lemma_weighed_frame(env, recorded, config, after);
    assert(counted.proposals == env.proposals);
    assert(recorded.proposals.records == env.proposals.records);
    if proposal.snapshot_signers.contains(signer) && proposal.status == ProposalStatus::Pending
        && voters.len() > 0 {
        assert(env.vote_on(config, signer, proposal_id, vote) == recorded.accept_votes(
            config,
            signer,
            vote,
            after,
            voters.len(),
        ));
    }
}

/// What a vote makes of a proposal.
proof fn lemma_voted(
    env: EnvModel,
    config: ConfigModel,
    signer: Address,
    proposal_id: u64,
    vote: Vote,
)
    requires
        env.proposal(proposal_id) matches Ok(proposal) && proposal.id == proposal_id,
    ensures
        env.vote_on(config, signer, proposal_id, vote).0.proposal(proposal_id) == Ok::<
            _,
            VaultError,
        >(env.voted(config, signer, env.proposal(proposal_id)->Ok_0, vote)),
{
    lemma_vote_records(env, config, signer, proposal_id, vote);
}

/// Adding the votes that count keeps votes in order.
proof fn lemma_votes_sound(proposal: ProposalModel, vote: Vote, voters: Seq<Address>)
    requires
        votes_sound(proposal),
    ensures
        votes_sound(crate::voting::with_votes(proposal, vote, crate::voting::counted_voters(proposal, voters))),
{
    let more = crate::voting::counted_voters(proposal, voters);
    let after = crate::voting::with_votes(proposal, vote, more);
    crate::voting::lemma_counted_voters(proposal, voters);
    assert forall|v: Address| #[trigger] after.approvals.contains(v) implies
        after.snapshot_signers.contains(v) && !after.abstentions.contains(v) by {
        crate::voting::lemma_append_contains(proposal.approvals, more, v);
        crate::voting::lemma_append_contains(proposal.abstentions, more, v);
        assert(more.contains(v) ==> crate::voting::may_vote(proposal, v));
    }
    assert forall|v: Address| #[trigger] after.abstentions.contains(v) implies
        after.snapshot_signers.contains(v) && !after.approvals.contains(v) by {
        crate::voting::lemma_append_contains(proposal.approvals, more, v);
        crate::voting::lemma_append_contains(proposal.abstentions, more, v);
        assert(more.contains(v) ==> crate::voting::may_vote(proposal, v));
    }
    let list = match vote {
        Vote::Approve => proposal.approvals,
        Vote::Abstain => proposal.abstentions,
    };
    let both = list + more;
    assert forall|i: int, j: int| 0 <= i < j < both.len() implies both[i] != both[j] by {
        if i < list.len() && j >= list.len() {
            assert(list.contains(list[i]));
            assert(more.contains(more[j - list.len()]));
        }
    }
}

/// What a proposal becomes when a signer votes, whichever way.
proof fn lemma_both_votes(
    env: EnvModel,
    config: ConfigModel,
    signer: Address,
    proposal_id: u64,
)
    requires
        env.config() == Ok::<_, VaultError>(config),
        config.signers.contains(signer),
        env.proposal(proposal_id) matches Ok(proposal) && proposal.id == proposal_id,
    ensures
        ({
            let proposal = env.proposal(proposal_id)->Ok_0;
            &&& env.approve(signer, proposal_id).0.proposal(proposal_id) == Ok::<_, VaultError>(
                env.voted(config, signer, proposal, Vote::Approve),
            )
            &&& env.abstain(signer, proposal_id).0.proposal(proposal_id) == Ok::<_, VaultError>(
                env.voted(config, signer, proposal, Vote::Abstain),
            )
        }),
{
    let proposal = env.proposal(proposal_id)->Ok_0;
    let voters = crate::voting::counted_voters(proposal, env.ballot(signer, Vote::Approve));
    let decayed = env.decay_reputation(signer);
    crate::voting::lemma_decay_frame(
        env,
        config,
        signer,
        crate::voting::with_votes(proposal, Vote::Approve, voters),
    );
    lemma_voted(decayed, config, signer, proposal_id, Vote::Approve);
    lemma_voted(env, config, signer, proposal_id, Vote::Abstain);
}

/// Whether the votes on every stored proposal are in order.
pub open spec fn all_votes_sound(env: EnvModel) -> bool {
    forall|id: u64| #[trigger]
        env.proposals.records.contains_key(id) ==> votes_sound(env.proposals.records[id])
}

/// A vote keeps the votes on every stored proposal in order.
proof fn lemma_all_votes_sound(
    env: EnvModel,
    config: ConfigModel,
    signer: Address,
    proposal_id: u64,
    vote: Vote,
)
    requires
        all_votes_sound(env),
    ensures
        all_votes_sound(env.vote_on(config, signer, proposal_id, vote).0),
{
    if let Ok(proposal) = env.proposal(proposal_id) {
        assert(env.proposals.records.contains_key(proposal_id));
        assert(votes_sound(proposal));
        lemma_votes_sound(proposal, vote, env.ballot(signer, vote));
        assert(votes_sound(env.voted(config, signer, proposal, vote)));
        lemma_vote_records(env, config, signer, proposal_id, vote);
    } else {
        reveal(EnvModel::vote_on);
    }
}

/// No signer ever counts twice on a proposal, and only those who were signers when it was made
/// count: whatever a vote is answered, and in whosever name it is cast, it keeps the votes on
/// every stored proposal in order.
pub proof fn law_votes_stay_sound(env: EnvModel, signer: Address, proposal_id: u64)
    requires
        all_votes_sound(env),
    ensures
        all_votes_sound(env.approve(signer, proposal_id).0),
        all_votes_sound(env.abstain(signer, proposal_id).0),
{
    if let Ok(config) = env.config() {
        let decayed = env.decay_reputation(signer);
        assert(decayed.proposals == env.proposals);
        lemma_all_votes_sound(decayed, config, signer, proposal_id, Vote::Approve);
        lemma_all_votes_sound(env, config, signer, proposal_id, Vote::Abstain);
    }
}

/// A vote that is accepted in time decides a pending proposal exactly when its approvals reach
/// the threshold and all its votes reach the quorum. An approved amount from the timelock
/// threshold on is locked for the configured delay.
pub proof fn law_decisions_need_threshold_and_quorum(
    env: EnvModel,
    signer: Address,
    proposal_id: u64,
)
    requires
        env.proposal(proposal_id) matches Ok(proposal) && proposal.id == proposal_id
            && proposal.status == ProposalStatus::Pending && (proposal.voting_deadline == 0
            || env.now() <= proposal.voting_deadline),
    ensures
        env.approve(signer, proposal_id).1 is Ok ==> decided_rightly(
            env,
            env.approve(signer, proposal_id).0.proposal(proposal_id)->Ok_0,
        ),
        env.abstain(signer, proposal_id).1 is Ok ==> decided_rightly(
            env,
            env.abstain(signer, proposal_id).0.proposal(proposal_id)->Ok_0,
        ),
{
    let proposal = env.proposal(proposal_id)->Ok_0;
    if let Ok(config) = env.config() {
        if config.signers.contains(signer) {
            let approved = crate::voting::with_votes(
                proposal,
                Vote::Approve,
                crate::voting::counted_voters(proposal, env.ballot(signer, Vote::Approve)),
            );
            let abstained = crate::voting::with_votes(
                proposal,
                Vote::Abstain,
                crate::voting::counted_voters(proposal, env.ballot(signer, Vote::Abstain)),
            );
            let decayed = env.decay_reputation(signer);
            lemma_both_votes(env, config, signer, proposal_id);
            crate::voting::lemma_decay_frame(env, config, signer, approved);
            lemma_accepted_in_time(decayed, config, signer, proposal_id, Vote::Approve);
            lemma_accepted_in_time(env, config, signer, proposal_id, Vote::Abstain);
            lemma_decided(env, config, approved);
            lemma_decided(env, config, abstained);
        }
    }
}

/// Whether a proposal that was voted on is decided exactly when it has the votes that it needs,
/// and is locked as its amount demands.
pub open spec fn decided_rightly(env: EnvModel, after: ProposalModel) -> bool {
    let config = env.access.config->0;
    let enough = env.threshold_reached(config, after) && crate::voting::quorum_reached(
        config,
        crate::voting::votes(after) as int,
    );
    &&& enough <==> after.status == ProposalStatus::Approved || after.status
        == ProposalStatus::Scheduled
    &&& !enough ==> after.status == ProposalStatus::Pending
    &&& after.status == ProposalStatus::Approved ==> after.unlock_ledger
        == crate::proposals::unlock_ledger(config, after.amount, env.now())
}

/// Weighing decides a pending proposal rightly.
proof fn lemma_decided(env: EnvModel, config: ConfigModel, proposal: ProposalModel)
    requires
        env.config() == Ok::<_, VaultError>(config),
        proposal.status == ProposalStatus::Pending,
    ensures
        decided_rightly(env, env.weighed(config, proposal)),
{
    let after = env.weighed(config, proposal);
    assert(after.approvals == proposal.approvals);
}

/// A vote that succeeds before the deadline was weighed.
proof fn lemma_accepted_in_time(
    env: EnvModel,
    config: ConfigModel,
    signer: Address,
    proposal_id: u64,
    vote: Vote,
)
    requires
        env.proposal(proposal_id) matches Ok(proposal) && proposal.status
            == ProposalStatus::Pending && (proposal.voting_deadline == 0 || env.now()
            <= proposal.voting_deadline),
    ensures
        env.vote_on(config, signer, proposal_id, vote).1 is Ok ==> {
            let proposal = env.proposal(proposal_id)->Ok_0;
            env.voted(config, signer, proposal, vote) == env.weighed(
                config,
                crate::voting::with_votes(
                    proposal,
                    vote,
                    crate::voting::counted_voters(proposal, env.ballot(signer, vote)),
                ),
            )
        },
{
    reveal(EnvModel::vote_on);
    reveal(EnvModel::accept_votes);
    let proposal = env.proposal(proposal_id)->Ok_0;
    let voters = crate::voting::counted_voters(proposal, env.ballot(signer, vote));
    crate::voting::lemma_count_votes_frame(env, proposal.id, signer, vote, voters);
}

/// A vote that counts is among the votes that count.
proof fn lemma_counted(proposal: ProposalModel, voters: Seq<Address>, voter: Address)
    requires
        voters.contains(voter),
        crate::voting::may_vote(proposal, voter),
    ensures
        crate::voting::counted_voters(proposal, voters).contains(voter),
    decreases voters.len(),
{
    let shorter = voters.drop_last();
    let earlier = crate::voting::counted_voters(proposal, shorter);
    if voters.last() == voter {
        if !earlier.contains(voter) {
            let more = earlier.push(voter);
            assert(more[more.len() - 1] == voter);
        }
    } else {
        let i = choose|i: int| 0 <= i < voters.len() && voters[i] == voter;
        assert(shorter[i] == voter);
        lemma_counted(proposal, shorter, voter);
        let j = choose|j: int| 0 <= j < earlier.len() && earlier[j] == voter;
        assert(crate::voting::counted_voters(proposal, voters)[j] == voter);
    }
}

/// Votes that count are among those in whose name votes are cast.
proof fn lemma_counted_among(proposal: ProposalModel, voters: Seq<Address>, voter: Address)
    requires
        crate::voting::counted_voters(proposal, voters).contains(voter),
    ensures
        voters.contains(voter),
    decreases voters.len(),
{
    if voters.len() > 0 {
        let shorter = voters.drop_last();
        let earlier = crate::voting::counted_voters(proposal, shorter);
        if voters.last() == voter {
            assert(voters[voters.len() - 1] == voter);
        } else {
            let all = crate::voting::counted_voters(proposal, voters);
            let j = choose|j: int| 0 <= j < all.len() && all[j] == voter;
            assert(earlier[j] == voter);
            lemma_counted_among(proposal, shorter, voter);
            let i = choose|i: int| 0 <= i < shorter.len() && shorter[i] == voter;
            assert(voters[i] == voter);
        }
    }
}

/// The approval of a signer who delegates is recorded under the effective voter, at the end of
/// the signer's delegation chain, where that one may vote; the signer's own address is not
/// added.
pub proof fn law_delegated_approvals_are_recorded_at_the_end(
    env: EnvModel,
    signer: Address,
    proposal_id: u64,
)
    requires
        env.proposal(proposal_id) matches Ok(proposal) && proposal.id == proposal_id,
        env.approve(signer, proposal_id).1 is Ok,
        env.effective_voter(signer) != signer,
    ensures
        ({
            let voter = env.effective_voter(signer);
            let before = env.proposal(proposal_id)->Ok_0;
            let after = env.approve(signer, proposal_id).0.proposal(proposal_id)->Ok_0;
            &&& crate::voting::may_vote(before, voter) ==> after.approvals.contains(voter)
            &&& after.approvals.contains(signer) ==> before.approvals.contains(signer)
        }),
{
    let config = env.config()->Ok_0;
    let voter = env.effective_voter(signer);
    let before = env.proposal(proposal_id)->Ok_0;
    let voters = env.ballot(signer, Vote::Approve);
    let counted = crate::voting::counted_voters(before, voters);
    lemma_both_votes(env, config, signer, proposal_id);
    crate::delegation::law_approvals_go_to_the_effective_voter(env, signer);
    assert(voters.contains(voter));
    if crate::voting::may_vote(before, voter) {
        lemma_counted(before, voters, voter);
        crate::voting::lemma_append_contains(before.approvals, counted, voter);
    }
    crate::voting::lemma_append_contains(before.approvals, counted, signer);
    if counted.contains(signer) {
        lemma_counted_among(before, voters, signer);
    }
    let after = env.approve(signer, proposal_id).0.proposal(proposal_id)->Ok_0;
    let decayed = env.decay_reputation(signer);
    crate::voting::lemma_decay_frame(
        env,
        config,
        signer,
        crate::voting::with_votes(before, Vote::Approve, counted),
    );
    reveal(EnvModel::vote_on);
    assert(after.approvals == before.approvals + counted);
}

} // verus!
