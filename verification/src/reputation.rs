//! Reputation of proposers and signers.

use vstd::prelude::*;

use crate::env::{Env, EnvModel, Event, ReputationChange};
use crate::primitives::Address;
use crate::storage;
use crate::types::{Proposal, Reputation};
use crate::VaultDAO;

verus! {

/// What an executed proposal adds to its proposer's score.
pub const REP_EXEC_PROPOSER: u32 = 10;

/// What an executed proposal adds to the score of each who approved it.
pub const REP_EXEC_APPROVER: u32 = 5;

/// What a rejected proposal takes from its proposer's score.
pub const REP_REJECTION_PENALTY: u32 = 20;

/// What an approval adds to the signer's score.
pub const REP_APPROVAL_BONUS: u32 = 2;

/// The highest score that a reward leads to.
pub const REP_MAX_SCORE: u32 = 1000;

/// A score after a reward.
pub open spec fn rewarded(score: u32, bonus: u32) -> u32 {
    crate::math::min_int(score + bonus, REP_MAX_SCORE as int) as u32
}

/// A score after the penalty for a rejected proposal.
pub open spec fn penalized(score: u32) -> u32 {
    crate::math::max_int(score - REP_REJECTION_PENALTY, 0) as u32
}

impl EnvModel {
    /// Stores a reputation and publishes its change of score, if there is one.
    pub open spec fn change_reputation(
        self,
        addr: Address,
        rep: Reputation,
        old_score: u32,
        reason: ReputationChange,
    ) -> EnvModel {
        let stored = self.with_reputation(addr, rep);
        if old_score != rep.score {
            stored.publish(
                Event::ReputationUpdated { addr, old_score, new_score: rep.score, reason },
            )
        } else {
            stored
        }
    }

    /// The reputation of an address, decayed up to the current ledger.
    pub open spec fn current_reputation(self, addr: Address) -> Reputation {
        self.decayed(self.reputation(addr))
    }

    /// The state after the reputation of an address was decayed.
    pub open spec fn decay_reputation(self, addr: Address) -> EnvModel {
        self.change_reputation(
            addr,
            self.current_reputation(addr),
            self.reputation(addr).score,
            ReputationChange::Decay,
        )
    }

    /// The state after a proposal was counted for its proposer.
    pub open spec fn reputation_on_propose(self, proposer: Address) -> EnvModel {
        let rep = self.current_reputation(proposer);
        self.with_reputation(
            proposer,
            Reputation { proposals_created: (rep.proposals_created + 1) as u32, ..rep },
        )
    }

    /// The state after an approval was counted for a signer.
    pub open spec fn reputation_on_approval(self, signer: Address) -> EnvModel {
        let rep = self.current_reputation(signer);
        self.change_reputation(
            signer,
            Reputation {
                score: rewarded(rep.score, REP_APPROVAL_BONUS),
                approvals_given: crate::math::clamp_u32(rep.approvals_given + 1),
                participation_count: crate::math::clamp_u32(rep.participation_count + 1),
                last_participation_ledger: self.now(),
                ..rep
            },
            rep.score,
            ReputationChange::Approved,
        )
    }

    /// The state after an abstention was counted for a signer.
    pub open spec fn reputation_on_abstention(self, signer: Address) -> EnvModel {
        let rep = self.current_reputation(signer);
        self.with_reputation(
            signer,
            Reputation {
                abstentions_given: crate::math::clamp_u32(rep.abstentions_given + 1),
                participation_count: crate::math::clamp_u32(rep.participation_count + 1),
                last_participation_ledger: self.now(),
                ..rep
            },
        )
    }

    /// The state after the proposer of an executed proposal was rewarded.
    pub open spec fn reward_proposer(self, proposer: Address) -> EnvModel {
        let rep = self.current_reputation(proposer);
        self.change_reputation(
            proposer,
            Reputation {
                score: rewarded(rep.score, REP_EXEC_PROPOSER),
                proposals_executed: (rep.proposals_executed + 1) as u32,
                ..rep
            },
            rep.score,
            ReputationChange::Executed,
        )
    }

    /// The state after one who approved an executed proposal was rewarded.
    pub open spec fn reward_approver(self, approver: Address) -> EnvModel {
        let rep = self.current_reputation(approver);
        self.change_reputation(
            approver,
            Reputation { score: rewarded(rep.score, REP_EXEC_APPROVER), ..rep },
            rep.score,
            ReputationChange::Approved,
        )
    }

    /// The state after those who approved an executed proposal were rewarded, in order.
    pub open spec fn reward_approvers(self, approvers: Seq<Address>) -> EnvModel
        decreases approvers.len(),
    {
        if approvers.len() == 0 {
            self
        } else {
            self.reward_approvers(approvers.drop_last()).reward_approver(approvers.last())
        }
    }

    /// The state after an execution was counted for the proposer and all who approved.
    pub open spec fn reputation_on_execution(
        self,
        proposer: Address,
        approvers: Seq<Address>,
    ) -> EnvModel {
        self.reward_proposer(proposer).reward_approvers(approvers)
    }

    /// The state after a rejection was counted for the proposer.
    pub open spec fn reputation_on_rejection(self, proposer: Address) -> EnvModel {
        let rep = self.current_reputation(proposer);
        self.change_reputation(
            proposer,
            Reputation {
                score: penalized(rep.score),
                proposals_rejected: (rep.proposals_rejected + 1) as u32,
                ..rep
            },
            rep.score,
            ReputationChange::Rejected,
        )
    }
}

/// Stores a reputation and publishes its change of score, if there is one.
fn change_reputation(
    env: &mut Env,
    addr: &Address,
    rep: &Reputation,
    old_score: u32,
    reason: ReputationChange,
)
    ensures
        final(env)@ == old(env)@.change_reputation(*addr, *rep, old_score, reason),
{
    storage::set_reputation(env, addr, rep);
    if old_score != rep.score {
        env.publish(
            Event::ReputationUpdated { addr: *addr, old_score, new_score: rep.score, reason },
        );
    }
}

/// A score after a reward.
fn reward(score: u32, bonus: u32) -> (r: u32)
    ensures
        r == rewarded(score, bonus),
{
    let sum: u32 = score.saturating_add(bonus);
    if sum < REP_MAX_SCORE {
        sum
    } else {
        REP_MAX_SCORE
    }
}

/// The reputation of an address, decayed up to the current ledger.
pub fn current_reputation(env: &Env, addr: &Address) -> (r: Reputation)
    ensures
        r == env@.current_reputation(*addr),
{
    let mut rep = storage::get_reputation(env, addr);
    storage::apply_reputation_decay(env, &mut rep);
    rep
}

/// Decays the reputation of an address up to the current ledger.
pub fn decay_reputation(env: &mut Env, addr: &Address)
    ensures
        final(env)@ == old(env)@.decay_reputation(*addr),
{
    let old_score: u32 = storage::get_reputation(env, addr).score;
    let rep = current_reputation(env, addr);
    change_reputation(env, addr, &rep, old_score, ReputationChange::Decay);
}

impl VaultDAO {
    /// Counts a proposal for its proposer.
    pub fn update_reputation_on_propose(env: &mut Env, proposer: &Address)
        requires
            old(env)@.reputation(*proposer).proposals_created < u32::MAX,
        ensures
            final(env)@ == old(env)@.reputation_on_propose(*proposer),
    {
        let mut rep = current_reputation(env, proposer);
        rep.proposals_created += 1;
        storage::set_reputation(env, proposer, &rep);
    }

    /// Counts an approval for a signer.
    pub fn update_reputation_on_approval(env: &mut Env, signer: &Address)
        ensures
            final(env)@ == old(env)@.reputation_on_approval(*signer),
    {
        let mut rep = current_reputation(env, signer);
        let old_score: u32 = rep.score;
        rep.score = reward(rep.score, REP_APPROVAL_BONUS);
        rep.approvals_given = rep.approvals_given.saturating_add(1);
        rep.participation_count = rep.participation_count.saturating_add(1);
        rep.last_participation_ledger = env.now();
        change_reputation(env, signer, &rep, old_score, ReputationChange::Approved);
    }

    /// Counts an abstention for a signer.
    pub fn update_reputation_on_abstention(env: &mut Env, signer: &Address)
        ensures
            final(env)@ == old(env)@.reputation_on_abstention(*signer),
    {
        let mut rep = current_reputation(env, signer);
        rep.abstentions_given = rep.abstentions_given.saturating_add(1);
        rep.participation_count = rep.participation_count.saturating_add(1);
        rep.last_participation_ledger = env.now();
        storage::set_reputation(env, signer, &rep);
    }

    /// Rewards the proposer of an executed proposal and all who approved it.
    pub fn update_reputation_on_execution(env: &mut Env, proposal: &Proposal)
        requires
            old(env)@.reputation(proposal.proposer).proposals_executed < u32::MAX,
        ensures
            final(env)@ == old(env)@.reputation_on_execution(
                proposal.proposer,
                proposal.approvals@,
            ),
    {
        let mut rep = current_reputation(env, &proposal.proposer);
        let old_score: u32 = rep.score;
        rep.score = reward(rep.score, REP_EXEC_PROPOSER);
        rep.proposals_executed += 1;
        change_reputation(env, &proposal.proposer, &rep, old_score, ReputationChange::Executed);
        let ghost rewarded_proposer = env@;
        let approvals = &proposal.approvals;
        let mut i: usize = 0;
        while i < approvals.len()
            invariant
                i <= approvals.len(),
                env@ == rewarded_proposer.reward_approvers(approvals@.take(i as int)),
            decreases approvals.len() - i,
        {
            assert(approvals@.take(i + 1).drop_last() =~= approvals@.take(i as int));
            let approver = approvals[i];
            let mut rep = current_reputation(env, &approver);
            let old_score: u32 = rep.score;
            rep.score = reward(rep.score, REP_EXEC_APPROVER);
            change_reputation(env, &approver, &rep, old_score, ReputationChange::Approved);
            i += 1;
        }
        assert(approvals@.take(approvals@.len() as int) =~= approvals@);
    }

    /// Penalizes the proposer of a rejected proposal.
    pub fn update_reputation_on_rejection(env: &mut Env, proposer: &Address)
        requires
            old(env)@.reputation(*proposer).proposals_rejected < u32::MAX,
        ensures
            final(env)@ == old(env)@.reputation_on_rejection(*proposer),
    {
        let mut rep = current_reputation(env, proposer);
        let old_score: u32 = rep.score;
        rep.score = rep.score.saturating_sub(REP_REJECTION_PENALTY);
        rep.proposals_rejected += 1;
        change_reputation(env, proposer, &rep, old_score, ReputationChange::Rejected);
    }
}

/// A score above the floor does not decay below it.
pub proof fn law_decay_keeps_the_floor(score: u32, floor: u32, periods: nat)
    requires
        score >= floor,
    ensures
        floor <= crate::storage::decayed_score(score, floor, periods) <= score,
    decreases periods,
{
    if periods > 0 && score > floor {
        law_decay_keeps_the_floor(
            (floor + (score - floor) / 2) as u32,
            floor,
            (periods - 1) as nat,
        );
    }
}

/// Decay over two spans, the first of which ends at a half-life, is decay over both at once.
pub proof fn law_decay_composes(score: u32, floor: u32, first: nat, second: nat)
    requires
        score >= floor,
    ensures
        crate::storage::decayed_score(
            crate::storage::decayed_score(score, floor, first),
            floor,
            second,
        ) == crate::storage::decayed_score(score, floor, first + second),
    decreases first,
{
    if first > 0 && score > floor {
        law_decay_composes((floor + (score - floor) / 2) as u32, floor, (first - 1) as nat, second);
    }
}

/// Rewards never lead above the highest score, and never lower one that is below it.
pub proof fn law_rewards_are_bounded(score: u32, bonus: u32)
    ensures
        rewarded(score, bonus) <= REP_MAX_SCORE,
        score <= REP_MAX_SCORE ==> score <= rewarded(score, bonus),
{
}

} // verus!
