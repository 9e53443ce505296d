//! Approvals and abstentions.

use vstd::prelude::*;

use crate::costs::publish_metrics;
use crate::env::{Action, Env, EnvModel, Event};
use crate::errors::VaultError;
use crate::math::count_u32;
use crate::primitives::{list_contains, list_without, Address};
use crate::proposals::Outcome;
use crate::reputation::decay_reputation;
use crate::storage;
use crate::types::{AuditAction, Config, ConfigModel, Proposal, ProposalModel, ProposalStatus};
use crate::VaultDAO;

verus! {

/// How a signer votes.
#[derive(Clone, Copy, PartialEq, Eq, Structural, Debug)]
pub enum Vote {
    Approve,
    Abstain,
}

/// Whether a voter may vote on a proposal: it was a signer when the proposal was made, and has
/// not voted.
pub open spec fn may_vote(proposal: ProposalModel, voter: Address) -> bool {
    &&& proposal.snapshot_signers.contains(voter)
    &&& !proposal.approvals.contains(voter)
    &&& !proposal.abstentions.contains(voter)
}

/// Those of several voters whose votes count on a proposal, each once.
pub open spec fn counted_voters(proposal: ProposalModel, voters: Seq<Address>) -> Seq<Address>
    decreases voters.len(),
{
    if voters.len() == 0 {
        Seq::empty()
    } else {
        let earlier = counted_voters(proposal, voters.drop_last());
        if may_vote(proposal, voters.last()) && !earlier.contains(voters.last()) {
            earlier.push(voters.last())
        } else {
            earlier
        }
    }
}

/// A proposal with votes added.
pub open spec fn with_votes(proposal: ProposalModel, vote: Vote, voters: Seq<Address>) -> 
    ProposalModel {
    match vote {
        Vote::Approve => ProposalModel { approvals: proposal.approvals + voters, ..proposal },
        Vote::Abstain => ProposalModel { abstentions: proposal.abstentions + voters, ..proposal },
    }
}

/// How many votes of any kind a proposal has.
pub open spec fn votes(proposal: ProposalModel) -> nat {
    proposal.approvals.len() + proposal.abstentions.len()
}

/// Whether the voting deadline of a proposal, where it has one, has passed.
pub open spec fn past_deadline(proposal: ProposalModel, now: u64) -> bool {
    proposal.voting_deadline > 0 && now > proposal.voting_deadline
}

/// Whether a number of votes is enough.
pub open spec fn quorum_reached(config: ConfigModel, votes: int) -> bool {
    let needed = crate::thresholds::needed_quorum(config);
    needed == 0 || votes >= needed
}

impl EnvModel {
    /// The state after votes of several voters, cast by one signer, were counted for them.
    pub open spec fn count_votes(
        self,
        proposal_id: u64,
        signer: Address,
        vote: Vote,
        voters: Seq<Address>,
    ) -> EnvModel
        decreases voters.len(),
    {
        if voters.len() == 0 {
            self
        } else {
            let voter = voters.last();
            let earlier = self.count_votes(proposal_id, signer, vote, voters.drop_last());
            let counted = match vote {
                Vote::Approve => earlier.reputation_on_approval(voter),
                Vote::Abstain => earlier.reputation_on_abstention(voter),
            };
            if voter != signer {
                counted.publish(Event::DelegatedVote { proposal_id, voter, signer })
            } else {
                counted
            }
        }
    }

    /// The state after a proposal expired: the spending that it reserved is given back.
    pub open spec fn expire(self, proposal: ProposalModel) -> EnvModel {
        self.refund_spending(proposal.amount).with_proposal(
            ProposalModel { status: ProposalStatus::Expired, ..proposal },
        ).count_expiry().publish(
            Event::ProposalExpired { proposal_id: proposal.id, expires_at: proposal.expires_at },
        ).publish_metrics()
    }

    /// The state after a proposal was rejected because its voting deadline had passed.
    pub open spec fn reject_late(self, proposal: ProposalModel) -> EnvModel {
        let rejected = ProposalModel { status: ProposalStatus::Rejected, ..proposal };
        self.with_proposal(rejected).count_rejection().slash_insurance(rejected).slash_stake(
            rejected,
        ).publish(
            Event::ProposalDeadlineRejected {
                proposal_id: proposal.id,
                deadline: proposal.voting_deadline,
            },
        )
    }

    /// A proposal after its votes were weighed: approved, or scheduled where it has an
    /// execution ledger, once both threshold and quorum are reached.
    pub open spec fn weighed(self, config: ConfigModel, proposal: ProposalModel) -> ProposalModel {
        if self.threshold_reached(config, proposal) && quorum_reached(
            config,
            votes(proposal) as int,
        ) {
            if proposal.execution_time is Some {
                ProposalModel { status: ProposalStatus::Scheduled, ..proposal }
            } else {
                ProposalModel {
                    status: ProposalStatus::Approved,
                    unlock_ledger: crate::proposals::unlock_ledger(
                        config,
                        proposal.amount,
                        self.now(),
                    ),
                    ..proposal
                }
            }
        } else {
            proposal
        }
    }

    /// The state after it was published that the latest votes reached the quorum, if they did.
    pub open spec fn announce_quorum(
        self,
        config: ConfigModel,
        proposal: ProposalModel,
        cast: nat,
    ) -> EnvModel {
        let needed = crate::thresholds::needed_quorum(config);
        if needed > 0 && votes(proposal) - cast < needed <= votes(proposal) {
            self.publish(
                Event::QuorumReached {
                    proposal_id: proposal.id,
                    quorum_votes: crate::math::clamp_u32(votes(proposal) as int),
                    required: needed,
                },
            )
        } else {
            self
        }
    }

    /// The state after it was published what became of a proposal that was pending.
    pub open spec fn announce_decision(self, proposal: ProposalModel) -> EnvModel {
        if proposal.status == ProposalStatus::Approved {
            self.publish(
                Event::ProposalReady {
                    proposal_id: proposal.id,
                    unlock_ledger: proposal.unlock_ledger,
                },
            )
        } else if proposal.status == ProposalStatus::Scheduled {
            self.publish(
                Event::ProposalScheduled {
                    proposal_id: proposal.id,
                    execution_time: proposal.execution_time->0,
                    ledger: self.now(),
                },
            )
        } else {
            self
        }
    }

    /// The state after it was published what new votes on a proposal led to.
    pub open spec fn announce_votes(
        self,
        config: ConfigModel,
        proposal: ProposalModel,
        cast: nat,
    ) -> EnvModel {
        self.announce_quorum(config, proposal, cast).announce_decision(
            self.weighed(config, proposal),
        )
    }

    /// The state after a vote on a proposal was recorded.
    pub open spec fn record_vote(self, config: ConfigModel, signer: Address, vote: Vote, proposal: 
        ProposalModel) -> EnvModel {
        let kept = self.with_proposal(proposal).act(Action::ExtendInstanceTtl);
        match vote {
            Vote::Approve => kept.audit(
                AuditAction::ApproveProposal,
                signer,
                proposal.id,
            ).publish(
                Event::ProposalApproved {
                    proposal_id: proposal.id,
                    signer,
                    approvals: crate::math::clamp_u32(proposal.approvals.len() as int),
                    threshold: config.threshold,
                },
            ),
            Vote::Abstain => kept.audit(
                AuditAction::AbstainProposal,
                signer,
                proposal.id,
            ).publish(
                Event::ProposalAbstained {
                    proposal_id: proposal.id,
                    signer,
                    abstentions: crate::math::clamp_u32(proposal.abstentions.len() as int),
                    quorum_votes: crate::math::clamp_u32(votes(proposal) as int),
                },
            ),
        }
    }

    /// The state after new votes on a proposal were weighed.
    #[verifier::opaque]
    pub open spec fn settle_votes(
        self,
        config: ConfigModel,
        signer: Address,
        vote: Vote,
        proposal: ProposalModel,
        cast: nat,
    ) -> EnvModel {
        self.announce_votes(config, proposal, cast).record_vote(
            config,
            signer,
            vote,
            self.weighed(config, proposal),
        )
    }

    /// What new votes on a proposal leave behind: it may have expired, or its voting deadline
    /// may have passed.
    #[verifier::opaque]
    pub open spec fn accept_votes(
        self,
        config: ConfigModel,
        signer: Address,
        vote: Vote,
        proposal: ProposalModel,
        cast: nat,
    ) -> Outcome<()> {
        if proposal.expires_at > 0 && self.now() > proposal.expires_at {
            (self.expire(proposal), Err(VaultError::ProposalExpired))
        } else if past_deadline(proposal, self.now()) {
            (self.reject_late(proposal), Ok(()))
        } else {
            (self.settle_votes(config, signer, vote, proposal, cast), Ok(()))
        }
    }

    /// All in whose name a signer votes. An approval is recorded under the effective voter and
    /// those whom it represents, an abstention under the signer and those whom it represents.
    pub open spec fn ballot(self, signer: Address, vote: Vote) -> Seq<Address> {
        match vote {
            Vote::Approve => self.approval_electorate(signer),
            Vote::Abstain => self.electorate(signer),
        }
    }

    /// What a vote on a proposal leaves behind.
    #[verifier::opaque]
    pub open spec fn vote_on(
        self,
        config: ConfigModel,
        signer: Address,
        proposal_id: u64,
        vote: Vote,
    ) -> Outcome<()> {
        match self.proposal(proposal_id) {
            Err(error) => (self, Err(error)),
            Ok(proposal) => if !proposal.snapshot_signers.contains(signer) {
                (self, Err(VaultError::VoterNotInSnapshot))
            } else if proposal.status != ProposalStatus::Pending {
                (self, Err(VaultError::ProposalNotPending))
            } else {
                let voters = counted_voters(proposal, self.ballot(signer, vote));
                let counted = self.count_votes(proposal.id, signer, vote, voters);
                if voters.len() == 0 {
                    (counted, Err(VaultError::AlreadyApproved))
                } else {
                    let recorded = match vote {
                        Vote::Approve => counted.with_approval_ledger(
                            proposal_id,
                            signer,
                            self.now(),
                        ),
                        Vote::Abstain => counted,
                    };
                    recorded.accept_votes(
                        config,
                        signer,
                        vote,
                        with_votes(proposal, vote, voters),
                        voters.len(),
                    )
                }
            },
        }
    }

    /// What an approval of a proposal leaves behind.
    pub open spec fn approve(self, signer: Address, proposal_id: u64) -> Outcome<()> {
        match self.config() {
            Err(error) => (self, Err(error)),
            Ok(config) => if !config.signers.contains(signer) {
                (self, Err(VaultError::NotASigner))
            } else {
                self.decay_reputation(signer).vote_on(config, signer, proposal_id, Vote::Approve)
            },
        }
    }

    /// What an abstention from a proposal leaves behind.
    pub open spec fn abstain(self, signer: Address, proposal_id: u64) -> Outcome<()> {
        match self.config() {
            Err(error) => (self, Err(error)),
            Ok(config) => if !config.signers.contains(signer) {
                (self, Err(VaultError::NotASigner))
            } else {
                self.vote_on(config, signer, proposal_id, Vote::Abstain)
            },
        }
    }

    /// Whether what new votes on a proposal lead to stays within the limits of integers.
    pub open spec fn outcome_fits(self, config: ConfigModel, proposal: ProposalModel) -> bool {
        if proposal.expires_at > 0 && self.now() > proposal.expires_at {
            true
        } else if past_deadline(proposal, self.now()) {
            self.slash_fits(proposal)
        } else {
            self.weighed(config, proposal).status == ProposalStatus::Approved
                ==> config.unlock_fits(proposal.amount, self.now())
        }
    }

    /// Whether a vote of a signer on a proposal, where it counts, stays within the limits of
    /// integers.
    pub open spec fn vote_fits(self, signer: Address, proposal_id: u64, vote: Vote) -> bool {
        &&& self.has_room()
        &&& self.config() matches Ok(config) ==> (self.proposal(proposal_id) matches Ok(proposal)
            ==> {
            let voters = counted_voters(proposal, self.ballot(signer, vote));
            config.signers.contains(signer) && proposal.snapshot_signers.contains(signer)
                && proposal.status == ProposalStatus::Pending && voters.len() > 0
                ==> self.outcome_fits(config, with_votes(proposal, vote, voters))
        })
    }
}

/// What is in one of two lists.
pub(crate) proof fn lemma_append_contains<T>(a: Seq<T>, b: Seq<T>, x: T)
    ensures
        (a + b).contains(x) <==> a.contains(x) || b.contains(x),
{
    let both = a + b;
    if a.contains(x) {
        let i = choose|i: int| 0 <= i < a.len() && a[i] == x;
        assert(both[i] == x);
    }
    if b.contains(x) {
        let i = choose|i: int| 0 <= i < b.len() && b[i] == x;
        assert(both[a.len() + i] == x);
    }
    if both.contains(x) {
        let i = choose|i: int| 0 <= i < both.len() && both[i] == x;
        if i < a.len() {
            assert(a[i] == x);
        } else {
            assert(b[i - a.len()] == x);
        }
    }
}

/// Counting votes changes reputations and what was published, and nothing else.
pub(crate) proof fn lemma_count_votes_frame(
    env: EnvModel,
    proposal_id: u64,
    signer: Address,
    vote: Vote,
    voters: Seq<Address>,
)
    ensures
        ({
            let after = env.count_votes(proposal_id, signer, vote, voters);
            after == (EnvModel { actions: after.actions, members: after.members, ..env })
        }),
    decreases voters.len(),
{
    if voters.len() > 0 {
        lemma_count_votes_frame(env, proposal_id, signer, vote, voters.drop_last());
    }
}

/// Counting votes leaves token locks alone.
pub(crate) proof fn lemma_count_votes_locks(
    env: EnvModel,
    proposal_id: u64,
    signer: Address,
    vote: Vote,
    voters: Seq<Address>,
)
    ensures
        env.count_votes(proposal_id, signer, vote, voters).members.token_locks
            == env.members.token_locks,
    decreases voters.len(),
{
    if voters.len() > 0 {
        lemma_count_votes_locks(env, proposal_id, signer, vote, voters.drop_last());
    }
}

/// Weights depend on the voting strategy and on token locks alone.
pub(crate) proof fn lemma_weights_frame(a: EnvModel, b: EnvModel, voters: Seq<Address>)
    requires
        a.access.voting_strategy == b.access.voting_strategy,
        a.members.token_locks == b.members.token_locks,
    ensures
        a.total_weight(voters) == b.total_weight(voters),
        a.average_weight(voters) == b.average_weight(voters),
    decreases voters.len(),
{
    if voters.len() > 0 {
        lemma_weights_frame(a, b, voters.drop_last());
    }
}

/// Weighing depends on the ledger, the voting strategy and token locks alone.
pub(crate) proof fn lemma_weighed_frame(
    a: EnvModel,
    b: EnvModel,
    config: ConfigModel,
    proposal: ProposalModel,
)
    requires
        a.ledger == b.ledger,
        a.access.voting_strategy == b.access.voting_strategy,
        a.members.token_locks == b.members.token_locks,
    ensures
        a.weighed(config, proposal) == b.weighed(config, proposal),
        a.threshold_reached(config, proposal) == b.threshold_reached(config, proposal),
{
    lemma_weights_frame(a, b, proposal.approvals);
    lemma_weights_frame(a, b, proposal.snapshot_signers);
}

/// The reputation of a signer decays without an effect on proposals and votes.
pub(crate) proof fn lemma_decay_frame(
    env: EnvModel,
    config: ConfigModel,
    signer: Address,
    proposal: ProposalModel,
)
    ensures
        ({
            let decayed = env.decay_reputation(signer);
            &&& decayed.proposals == env.proposals
            &&& decayed.ledger == env.ledger
            &&& decayed.ballot(signer, Vote::Approve) == env.ballot(signer, Vote::Approve)
            &&& decayed.weighed(config, proposal) == env.weighed(config, proposal)
            &&& decayed.outcome_fits(config, proposal) == env.outcome_fits(config, proposal)
        }),
{
    let decayed = env.decay_reputation(signer);
    lemma_weighed_frame(env, decayed, config, proposal);
    crate::delegation::lemma_approval_electorate_frame(env, decayed, signer);
}

/// The voters whose votes count may vote and occur once.
pub proof fn lemma_counted_voters(proposal: ProposalModel, voters: Seq<Address>)
    ensures
        counted_voters(proposal, voters).no_duplicates(),
        forall|v: Address| #[trigger]
            counted_voters(proposal, voters).contains(v) <==> voters.contains(v) && may_vote(
                proposal,
                v,
            ),
    decreases voters.len(),
{
    if voters.len() > 0 {
        let earlier = counted_voters(proposal, voters.drop_last());
        lemma_counted_voters(proposal, voters.drop_last());
        assert(voters =~= voters.drop_last().push(voters.last()));
        assert forall|v: Address| #[trigger]
            counted_voters(proposal, voters).contains(v) <==> voters.contains(v) && may_vote(
                proposal,
                v,
            ) by {
            crate::primitives::lemma_push_contains(voters.drop_last(), voters.last(), v);
            crate::primitives::lemma_push_contains(earlier, voters.last(), v);
        }
    }
}

/// Those of several voters whose votes count on a proposal.
pub(crate) fn find_counted(proposal: &Proposal, voters: &Vec<Address>) -> (r: Vec<Address>)
    ensures
        r@ == counted_voters(proposal@, voters@),
{
    let mut counted: Vec<Address> = Vec::new();
    let mut i: usize = 0;
    while i < voters.len()
        invariant
            i <= voters.len(),
            counted@ == counted_voters(proposal@, voters@.take(i as int)),
        decreases voters.len() - i,
    {
        let voter = voters[i];
        assert(voters@.take(i + 1).drop_last() =~= voters@.take(i as int));
        if list_contains(&proposal.snapshot_signers, &voter) && !list_contains(
            &proposal.approvals,
            &voter,
        ) && !list_contains(&proposal.abstentions, &voter) && !list_contains(&counted, &voter) {
            counted.push(voter);
        }
        i += 1;
    }
    assert(voters@.take(voters@.len() as int) =~= voters@);
    counted
}

/// Adds votes to a proposal.
pub(crate) fn add_votes(proposal: &mut Proposal, vote: Vote, voters: &Vec<Address>)
    ensures
        final(proposal)@ == with_votes(old(proposal)@, vote, voters@),
{
    let ghost first = proposal@;
    let mut i: usize = 0;
    assert(first.approvals + voters@.take(0) =~= first.approvals);
    assert(first.abstentions + voters@.take(0) =~= first.abstentions);
    while i < voters.len()
        invariant
            i <= voters.len(),
            proposal@ == with_votes(first, vote, voters@.take(i as int)),
        decreases voters.len() - i,
    {
        assert(voters@.take(i + 1) =~= voters@.take(i as int).push(voters@[i as int]));
        match vote {
            Vote::Approve => {
                proposal.approvals.push(voters[i]);
                assert(proposal@.approvals =~= first.approvals + voters@.take(i + 1));
            },
            Vote::Abstain => {
                proposal.abstentions.push(voters[i]);
                assert(proposal@.abstentions =~= first.abstentions + voters@.take(i + 1));
            },
        }
        i += 1;
    }
    assert(voters@.take(voters@.len() as int) =~= voters@);
}

/// Counts votes of several voters, cast by one signer, for them.
fn count_votes(
    env: &mut Env,
    proposal_id: u64,
    signer: Address,
    vote: Vote,
    voters: &Vec<Address>,
)
    ensures
        final(env)@ == old(env)@.count_votes(proposal_id, signer, vote, voters@),
{
    let mut i: usize = 0;
    while i < voters.len()
        invariant
            i <= voters.len(),
            env@ == old(env)@.count_votes(proposal_id, signer, vote, voters@.take(i as int)),
        decreases voters.len() - i,
    {
        let voter = voters[i];
        assert(voters@.take(i + 1).drop_last() =~= voters@.take(i as int));
        match vote {
            Vote::Approve => VaultDAO::update_reputation_on_approval(env, &voter),
            Vote::Abstain => VaultDAO::update_reputation_on_abstention(env, &voter),
        }
        if voter != signer {
            env.publish(Event::DelegatedVote { proposal_id, voter, signer });
        }
        i += 1;
    }
    assert(voters@.take(voters@.len() as int) =~= voters@);
}

/// Marks a proposal as expired and gives the spending that it reserved back.
pub(crate) fn expire(env: &mut Env, proposal: &mut Proposal)
    ensures
        final(env)@ == old(env)@.expire(old(proposal)@),
        final(proposal)@ == (ProposalModel { status: ProposalStatus::Expired, ..old(proposal)@ }),
{
    storage::refund_spending_limits(env, proposal.amount);
    proposal.status = ProposalStatus::Expired;
    storage::set_proposal(env, proposal);
    storage::metrics_on_expiry(env);
    env.publish(
        Event::ProposalExpired { proposal_id: proposal.id, expires_at: proposal.expires_at },
    );
    publish_metrics(env);
}

/// Rejects a proposal whose voting deadline has passed.
fn reject_late(env: &mut Env, proposal: &mut Proposal)
    requires
        old(env)@.slash_fits(old(proposal)@),
    ensures
        final(env)@ == old(env)@.reject_late(old(proposal)@),
{
    proposal.status = ProposalStatus::Rejected;
    storage::set_proposal(env, proposal);
    storage::metrics_on_rejection(env);
    VaultDAO::slash_insurance_on_rejection(env, proposal);
    VaultDAO::slash_stake_on_rejection(env, proposal);
    env.publish(
        Event::ProposalDeadlineRejected {
            proposal_id: proposal.id,
            deadline: proposal.voting_deadline,
        },
    );
}

/// Weighs new votes on a proposal and publishes what they led to.
fn weigh_votes(env: &mut Env, config: &Config, proposal: &mut Proposal, cast: usize)
    requires
        old(env)@.weighed(config@, old(proposal)@).status == ProposalStatus::Approved
            ==> config@.unlock_fits(old(proposal)@.amount, old(env)@.now()),
        old(proposal)@.status == ProposalStatus::Pending,
        cast <= votes(old(proposal)@),
    ensures
        final(proposal)@ == old(env)@.weighed(config@, old(proposal)@),
        final(env)@ == old(env)@.announce_votes(config@, old(proposal)@, cast as nat),
{
    let current_ledger: u64 = env.now();
    let quorum_votes: u128 = proposal.approvals.len() as u128 + proposal.abstentions.len() as u128;
    let previous_votes: u128 = quorum_votes - cast as u128;
    let required_quorum: u32 = VaultDAO::effective_quorum(config);
    let threshold_reached = VaultDAO::is_threshold_reached(env, config, proposal);
    let enough = required_quorum == 0 || quorum_votes >= required_quorum as u128;
    if required_quorum > 0 && previous_votes < required_quorum as u128 && enough {
        env.publish(
            Event::QuorumReached {
                proposal_id: proposal.id,
                quorum_votes: count_u32(quorum_votes),
                required: required_quorum,
            },
        );
    }
    if threshold_reached && enough {
        match proposal.execution_time {
            Some(execution_time) => {
                proposal.status = ProposalStatus::Scheduled;
                env.publish(
                    Event::ProposalScheduled {
                        proposal_id: proposal.id,
                        execution_time,
                        ledger: current_ledger,
                    },
                );
            },
            None => {
                proposal.status = ProposalStatus::Approved;
                proposal.unlock_ledger = crate::proposals::new_unlock_ledger(
                    config,
                    proposal.amount,
                    current_ledger,
                );
                env.publish(
                    Event::ProposalReady {
                        proposal_id: proposal.id,
                        unlock_ledger: proposal.unlock_ledger,
                    },
                );
            },
        }
    }
}

/// Records a vote on a proposal.
fn record_vote(env: &mut Env, config: &Config, signer: Address, vote: Vote, proposal: &Proposal)
    requires
        old(env)@.audit.next_id < u64::MAX,
    ensures
        final(env)@ == old(env)@.record_vote(config@, signer, vote, proposal@),
{
    storage::set_proposal(env, proposal);
    storage::extend_instance_ttl(env);
    match vote {
        Vote::Approve => {
            storage::create_audit_entry(env, AuditAction::ApproveProposal, &signer, proposal.id);
            env.publish(
                Event::ProposalApproved {
                    proposal_id: proposal.id,
                    signer,
                    approvals: count_u32(proposal.approvals.len() as u128),
                    threshold: config.threshold,
                },
            );
        },
        Vote::Abstain => {
            storage::create_audit_entry(env, AuditAction::AbstainProposal, &signer, proposal.id);
            let quorum_votes: u128 = proposal.approvals.len() as u128 + proposal.abstentions.len()
                as u128;
            env.publish(
                Event::ProposalAbstained {
                    proposal_id: proposal.id,
                    signer,
                    abstentions: count_u32(proposal.abstentions.len() as u128),
                    quorum_votes: count_u32(quorum_votes),
                },
            );
        },
    }
}

/// Accepts new votes on a proposal.
fn accept_votes(
    env: &mut Env,
    config: &Config,
    signer: Address,
    vote: Vote,
    proposal: &mut Proposal,
    cast: usize,
) -> (r: Result<(), VaultError>)
    requires
        old(env)@.audit.next_id < u64::MAX,
        old(env)@.outcome_fits(config@, old(proposal)@),
        old(proposal)@.status == ProposalStatus::Pending,
        cast <= votes(old(proposal)@),
    ensures
        (final(env)@, r) == old(env)@.accept_votes(
            config@,
            signer,
            vote,
            old(proposal)@,
            cast as nat,
        ),
{
    proof {
        reveal(EnvModel::accept_votes);
        reveal(EnvModel::settle_votes);
    }
    let current_ledger: u64 = env.now();
    if proposal.expires_at > 0 && current_ledger > proposal.expires_at {
        expire(env, proposal);
        return Err(VaultError::ProposalExpired);
    }
    if proposal.voting_deadline > 0 && current_ledger > proposal.voting_deadline {
        reject_late(env, proposal);
        return Ok(());
    }
    weigh_votes(env, config, proposal, cast);
    record_vote(env, config, signer, vote, proposal);
    Ok(())
}

/// All in whose name a signer votes.
pub(crate) fn find_ballot(env: &Env, signer: &Address, vote: Vote) -> (r: Vec<Address>)
    ensures
        r@ == env@.ballot(*signer, vote),
{
    let voter = match vote {
        Vote::Approve => VaultDAO::get_effective_voter(env, signer),
        Vote::Abstain => *signer,
    };
    let mut voters: Vec<Address> = Vec::new();
    voters.push(voter);
    assert(voters@ =~= seq![voter]);
    VaultDAO::get_all_represented_voters(env, &voter, &mut voters, 0);
    if voter == *signer {
        voters
    } else {
        list_without(&voters, signer)
    }
}

/// Casts a vote of a signer, and of all in whose name it votes, on a proposal.
fn vote_on(env: &mut Env, config: &Config, signer: Address, proposal_id: u64, vote: Vote) -> (r:
    Result<(), VaultError>)
    requires
        old(env)@.config() == Ok::<ConfigModel, VaultError>(config@),
        config@.signers.contains(signer),
        old(env)@.vote_fits(signer, proposal_id, vote),
    ensures
        (final(env)@, r) == old(env)@.vote_on(config@, signer, proposal_id, vote),
{
    proof {
        reveal(EnvModel::vote_on);
    }
    let mut proposal = storage::get_proposal(env, proposal_id)?;
    if !list_contains(&proposal.snapshot_signers, &signer) {
        return Err(VaultError::VoterNotInSnapshot);
    }
    let represented = find_ballot(env, &signer, vote);
    if proposal.status != ProposalStatus::Pending {
        return Err(VaultError::ProposalNotPending);
    }
    let voters = find_counted(&proposal, &represented);
    if voters.len() == 0 {
        return Err(VaultError::AlreadyApproved);
    }
    count_votes(env, proposal.id, signer, vote, &voters);
    proof {
        lemma_count_votes_frame(old(env)@, proposal.id, signer, vote, voters@);
        lemma_count_votes_locks(old(env)@, proposal.id, signer, vote, voters@);
    }
    add_votes(&mut proposal, vote, &voters);
    if vote == Vote::Approve {
        let current_ledger: u64 = env.now();
        storage::set_approval_ledger(env, proposal_id, &signer, current_ledger);
    }
    proof {
        lemma_weighed_frame(old(env)@, env@, config@, proposal@);
    }
    accept_votes(env, config, signer, vote, &mut proposal, voters.len())
}

impl VaultDAO {
    /// Approves a pending proposal.
    ///
    /// The approval is recorded under the effective voter, which is the signer unless it
    /// delegates, and under those whom the effective voter represents. Once the approvals
    /// reach the threshold, and approvals and abstentions together the quorum, the
    /// proposal is approved; amounts from the timelock threshold on are locked for the
    /// configured delay.
    pub fn approve_proposal(env: &mut Env, signer: Address, proposal_id: u64) -> (r: Result<
        (),
        VaultError,
    >)
        requires
            old(env)@.authorized(signer),
            old(env)@.vote_fits(signer, proposal_id, Vote::Approve),
        ensures
            (final(env)@, r) == old(env)@.approve(signer, proposal_id),
    {
        let config = storage::get_config(env)?;
        if !list_contains(&config.signers, &signer) {
            return Err(VaultError::NotASigner);
        }
        proof {
            if let Ok(proposal) = env@.proposal(proposal_id) {
                let voters = counted_voters(proposal, env@.ballot(signer, Vote::Approve));
                lemma_decay_frame(
                    env@,
                    config@,
                    signer,
                    with_votes(proposal, Vote::Approve, voters),
                );
            }
        }
        decay_reputation(env, &signer);
        vote_on(env, &config, signer, proposal_id, Vote::Approve)
    }

    /// Abstains from a pending proposal.
    ///
    /// The signer's own abstention and those of all whom it represents are recorded. They
    /// count towards the quorum, and not towards the threshold.
    pub fn abstain_proposal(env: &mut Env, signer: Address, proposal_id: u64) -> (r: Result<
        (),
        VaultError,
    >)
        requires
            old(env)@.authorized(signer),
            old(env)@.vote_fits(signer, proposal_id, Vote::Abstain),
        ensures
            (final(env)@, r) == old(env)@.abstain(signer, proposal_id),
    {
        let config = storage::get_config(env)?;
        if !list_contains(&config.signers, &signer) {
            return Err(VaultError::NotASigner);
        }
        vote_on(env, &config, signer, proposal_id, Vote::Abstain)
    }
}

} // verus!
