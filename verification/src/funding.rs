//! Funding rounds: an amount that is paid out milestone by milestone, each once an admin has
//! verified it.

use vstd::prelude::*;

use crate::env::{Action, Env, EnvModel, Event};
use crate::errors::VaultError;
use crate::math::sat_add;
use crate::primitives::{list_contains, Address};
use crate::proposals::Outcome;
use crate::storage;
use crate::types::{
    FundingMilestone, FundingMilestoneStatus, FundingRound, FundingRoundConfig, FundingRoundModel,
    FundingRoundStatus, Role,
};
use crate::VaultDAO;

verus! {

/// What milestones are worth together.
pub open spec fn milestones_total(milestones: Seq<FundingMilestone>) -> int
    decreases milestones.len(),
{
    if milestones.len() == 0 {
        0
    } else {
        milestones_total(milestones.drop_last()) + milestones.last().amount
    }
}

/// What verified milestones are worth together.
pub open spec fn verified_total(milestones: Seq<FundingMilestone>) -> int
    decreases milestones.len(),
{
    if milestones.len() == 0 {
        0
    } else {
        verified_total(milestones.drop_last()) + if milestones.last().status
            == FundingMilestoneStatus::Verified {
            milestones.last().amount as int
        } else {
            0
        }
    }
}

/// Whether every milestone is verified.
pub open spec fn all_verified(milestones: Seq<FundingMilestone>) -> bool {
    forall|i: int|
        0 <= i < milestones.len() ==> (#[trigger] milestones[i]).status
            == FundingMilestoneStatus::Verified
}

/// Whether every milestone is worth something.
pub open spec fn milestones_worth(milestones: Seq<FundingMilestone>) -> bool {
    forall|i: int| 0 <= i < milestones.len() ==> (#[trigger] milestones[i]).amount > 0
}

impl FundingRoundConfig {
    /// Whether the rules allow a round with some milestones.
    pub open spec fn allows(self, milestones: Seq<FundingMilestone>) -> bool {
        &&& self.enabled
        &&& self.min_milestones <= milestones.len() <= self.max_milestones
        &&& self.min_milestone_amount > 0 ==> forall|i: int|
            0 <= i < milestones.len() ==> (#[trigger] milestones[i]).amount
                >= self.min_milestone_amount
    }
}

impl FundingRoundModel {
    /// Whether milestones make up the round, and exactly what verified ones are worth was
    /// released.
    pub open spec fn balanced(self) -> bool {
        &&& milestones_worth(self.milestones)
        &&& milestones_total(self.milestones) == self.total_amount
        &&& verified_total(self.milestones) == self.released_amount
    }

    /// The round after a milestone was submitted.
    pub open spec fn after_submission(self, index: int, time: u64) -> FundingRoundModel {
        FundingRoundModel {
            milestones: self.milestones.update(
                index,
                FundingMilestone {
                    status: FundingMilestoneStatus::Submitted,
                    submitted_at: time,
                    ..self.milestones[index]
                },
            ),
            ..self
        }
    }

    /// The round after a milestone was verified and paid.
    pub open spec fn after_payment(self, index: int, verifier: Address, time: u64) -> 
        FundingRoundModel {
        FundingRoundModel {
            milestones: self.milestones.update(
                index,
                FundingMilestone {
                    status: FundingMilestoneStatus::Verified,
                    verified_at: time,
                    verified_by: Some(verifier),
                    ..self.milestones[index]
                },
            ),
            released_amount: crate::math::clamp_i128(
                self.released_amount + self.milestones[index].amount,
            ),
            ..self
        }
    }

    /// The round when it is closed as completed, where all its milestones are verified.
    pub open spec fn closed(self, time: u64) -> FundingRoundModel {
        if all_verified(self.milestones) {
            FundingRoundModel {
                status: FundingRoundStatus::Completed,
                finalized_at: time,
                ..self
            }
        } else {
            self
        }
    }
}

impl EnvModel {
    /// Whether the terms of a round are in order: the milestones are worth something each and
    /// the total together, and the rules allow them where there are rules.
    pub open spec fn round_allowed(self, total: i128, milestones: Seq<FundingMilestone>) -> bool {
        &&& total > 0
        &&& milestones.len() > 0
        &&& self.funding_round_config() matches Some(rules) ==> rules.allows(milestones)
        &&& milestones_worth(milestones)
        &&& milestones_total(milestones) == total
    }

    /// What creating a funding round leaves behind.
    pub open spec fn create_funding_round(
        self,
        proposer: Address,
        recipient: Address,
        token: Address,
        total: i128,
        milestones: Seq<FundingMilestone>,
    ) -> Outcome<u64> {
        let id = self.programs.next_funding_round_id;
        if !self.may_propose(proposer) {
            (self, Err(VaultError::InsufficientRole))
        } else if !self.round_allowed(total, milestones) {
            (self, Err(VaultError::InvalidAmount))
        } else {
            (
                self.bump_next_funding_round_id().with_funding_round(
                    FundingRoundModel {
                        id,
                        proposal_id: 0,
                        recipient,
                        token,
                        total_amount: total,
                        released_amount: 0,
                        milestones,
                        status: FundingRoundStatus::Pending,
                        created_at: self.ledger.timestamp,
                        approved_at: 0,
                        finalized_at: 0,
                    },
                ).act(Action::ExtendInstanceTtl).publish(
                    Event::FundingRoundCreated {
                        round_id: id,
                        proposal_id: 0,
                        recipient,
                        token,
                        amount: total,
                        milestones: crate::math::clamp_u32(milestones.len() as int),
                    },
                ),
                Ok(id),
            )
        }
    }

    /// What approving a funding round leaves behind.
    pub open spec fn approve_funding_round(self, approver: Address, round_id: u64) -> Outcome<()> {
        if self.role(approver) != Role::Admin {
            (self, Err(VaultError::InsufficientRole))
        } else {
            match self.funding_round(round_id) {
                Err(error) => (self, Err(error)),
                Ok(round) => if round.status != FundingRoundStatus::Pending {
                    (self, Err(VaultError::InvalidAmount))
                } else {
                    (
                        self.with_funding_round(
                            FundingRoundModel {
                                status: FundingRoundStatus::Active,
                                approved_at: self.ledger.timestamp,
                                ..round
                            },
                        ).publish(Event::FundingRoundApproved { round_id, approver }),
                        Ok(()),
                    )
                },
            }
        }
    }

    /// What submitting a milestone leaves behind.
    pub open spec fn submit_milestone(self, submitter: Address, round_id: u64, index: u32) -> 
        Outcome<()> {
        match self.funding_round(round_id) {
            Err(error) => (self, Err(error)),
            Ok(round) => if round.recipient != submitter {
                (self, Err(VaultError::Unauthorized))
            } else if round.status != FundingRoundStatus::Active || index >= round.milestones.len()
                || round.milestones[index as int].status != FundingMilestoneStatus::Pending {
                (self, Err(VaultError::InvalidAmount))
            } else {
                (
                    self.with_funding_round(
                        round.after_submission(index as int, self.ledger.timestamp),
                    ).publish(Event::MilestoneSubmitted { round_id, milestone: index, submitter }),
                    Ok(()),
                )
            },
        }
    }

    /// What verifying a milestone leaves behind.
    pub open spec fn verify_milestone(self, verifier: Address, round_id: u64, index: u32) -> 
        Outcome<i128> {
        if self.role(verifier) != Role::Admin {
            (self, Err(VaultError::InsufficientRole))
        } else {
            match self.funding_round(round_id) {
                Err(error) => (self, Err(error)),
                Ok(round) => if round.status != FundingRoundStatus::Active || index
                    >= round.milestones.len() || round.milestones[index as int].status
                    != FundingMilestoneStatus::Submitted {
                    (self, Err(VaultError::InvalidAmount))
                } else {
                    let amount = round.milestones[index as int].amount;
                    let time = self.ledger.timestamp;
                    let paid = round.after_payment(index as int, verifier, time);
                    let announced = self.act(
                        Action::Transfer { token: round.token, to: round.recipient, amount },
                    ).publish(
                        Event::MilestoneVerified { round_id, milestone: index, verifier, amount },
                    ).publish(
                        Event::FundingReleased {
                            round_id,
                            recipient: round.recipient,
                            amount,
                            milestone: index,
                        },
                    );
                    let completed = if all_verified(paid.milestones) {
                        announced.publish(
                            Event::FundingRoundCompleted {
                                round_id,
                                released: paid.released_amount,
                            },
                        )
                    } else {
                        announced
                    };
                    (completed.with_funding_round(paid.closed(time)), Ok(amount))
                },
            }
        }
    }

    /// What cancelling a funding round leaves behind.
    pub open spec fn cancel_funding_round(self, canceller: Address, round_id: u64) -> Outcome<()> {
        if self.role(canceller) != Role::Admin {
            (self, Err(VaultError::InsufficientRole))
        } else {
            match self.funding_round(round_id) {
                Err(error) => (self, Err(error)),
                Ok(round) => if round.status == FundingRoundStatus::Completed || round.status
                    == FundingRoundStatus::Cancelled {
                    (self, Err(VaultError::InvalidAmount))
                } else {
                    (
                        self.with_funding_round(
                            FundingRoundModel {
                                status: FundingRoundStatus::Cancelled,
                                finalized_at: self.ledger.timestamp,
                                ..round
                            },
                        ).publish(Event::FundingRoundCancelled { round_id, canceller }),
                        Ok(()),
                    )
                },
            }
        }
    }

    /// What setting the rules for funding rounds leaves behind.
    pub open spec fn change_funding_round_config(
        self,
        signer: Address,
        rules: FundingRoundConfig,
    ) -> Outcome<()> {
        match self.config() {
            Err(error) => (self, Err(error)),
            Ok(config) => if !config.signers.contains(signer) {
                (self, Err(VaultError::NotASigner))
            } else {
                (self.with_funding_round_config(rules), Ok(()))
            },
        }
    }
}

/// Changing one milestone changes what verified milestones are worth by the difference.
proof fn lemma_milestone_change(
    milestones: Seq<FundingMilestone>,
    index: int,
    after: FundingMilestone,
)
    requires
        0 <= index < milestones.len(),
        after.amount == milestones[index].amount,
        milestones[index].status != FundingMilestoneStatus::Verified,
    ensures
        milestones_total(milestones.update(index, after)) == milestones_total(milestones),
        verified_total(milestones.update(index, after)) == verified_total(milestones)
            + if after.status == FundingMilestoneStatus::Verified {
            after.amount as int
        } else {
            0
        },
    decreases milestones.len(),
{
    let changed = milestones.update(index, after);
    if index == milestones.len() - 1 {
        assert(changed.drop_last() =~= milestones.drop_last());
    } else {
        assert(changed.drop_last() =~= milestones.drop_last().update(index, after));
        lemma_milestone_change(milestones.drop_last(), index, after);
    }
}

/// Verified milestones are worth no more than all milestones, and as much exactly when all are
/// verified.
proof fn lemma_verified_bound(milestones: Seq<FundingMilestone>)
    requires
        milestones_worth(milestones),
    ensures
        0 <= verified_total(milestones) <= milestones_total(milestones),
        verified_total(milestones) == milestones_total(milestones) <==> all_verified(milestones),
    decreases milestones.len(),
{
    if milestones.len() > 0 {
        let rest = milestones.drop_last();
        let n = milestones.len() - 1;
        assert forall|i: int| 0 <= i < rest.len() implies (#[trigger] rest[i]).amount > 0 by {
            assert(milestones[i].amount > 0);
        }
        assert(milestones[n].amount > 0);
        lemma_verified_bound(rest);
        if all_verified(milestones) {
            assert(milestones[n].status == FundingMilestoneStatus::Verified);
            assert forall|i: int| 0 <= i < rest.len() implies (#[trigger] rest[i]).status
                == FundingMilestoneStatus::Verified by {
                assert(milestones[i].status == FundingMilestoneStatus::Verified);
            }
        }
        if verified_total(milestones) == milestones_total(milestones) {
            assert forall|i: int| 0 <= i < milestones.len() implies (
            #[trigger] milestones[i]).status == FundingMilestoneStatus::Verified by {
                if i < n {
                    assert(rest[i].status == FundingMilestoneStatus::Verified);
                }
            }
        }
    }
}

/// Milestones that are all pending have released nothing.
proof fn lemma_pending_total(milestones: Seq<FundingMilestone>)
    requires
        forall|i: int|
            0 <= i < milestones.len() ==> (#[trigger] milestones[i]).status
                == FundingMilestoneStatus::Pending,
    ensures
        verified_total(milestones) == 0,
    decreases milestones.len(),
{
    if milestones.len() > 0 {
        let rest = milestones.drop_last();
        assert forall|i: int| 0 <= i < rest.len() implies (#[trigger] rest[i]).status
            == FundingMilestoneStatus::Pending by {
            assert(milestones[i].status == FundingMilestoneStatus::Pending);
        }
        assert(milestones[milestones.len() - 1].status == FundingMilestoneStatus::Pending);
        lemma_pending_total(rest);
    }
}

/// A round that was created with pending milestones is balanced.
pub proof fn law_new_rounds_are_balanced(
    env: EnvModel,
    proposer: Address,
    recipient: Address,
    token: Address,
    total: i128,
    milestones: Seq<FundingMilestone>,
)
    requires
        env.create_funding_round(proposer, recipient, token, total, milestones).1 is Ok,
        forall|i: int|
            0 <= i < milestones.len() ==> (#[trigger] milestones[i]).status
                == FundingMilestoneStatus::Pending,
    ensures
        ({
            let (after, r) = env.create_funding_round(
                proposer,
                recipient,
                token,
                total,
                milestones,
            );
            after.funding_round(r->Ok_0) matches Ok(round) && round.balanced()
        }),
{
    lemma_pending_total(milestones);
}

/// Submitting and verifying keep a round balanced: exactly what verified milestones are worth
/// is released, never more than the total, and the round is completed exactly when the total
/// is.
pub proof fn law_rounds_stay_balanced(
    env: EnvModel,
    caller: Address,
    round_id: u64,
    index: u32,
)
    requires
        env.funding_round(round_id) matches Ok(round) && round.balanced() && round.id == round_id,
    ensures
        env.submit_milestone(caller, round_id, index).0.funding_round(round_id) matches Ok(round)
            && round.balanced(),
        env.verify_milestone(caller, round_id, index).1 matches Ok(amount) ==> {
            let before = env.funding_round(round_id)->Ok_0;
            let after = env.verify_milestone(caller, round_id, index).0.funding_round(
                round_id,
            )->Ok_0;
            &&& after.balanced()
            &&& after.released_amount == before.released_amount + amount
            &&& after.released_amount <= after.total_amount
            &&& after.status == FundingRoundStatus::Completed <==> after.released_amount
                == after.total_amount
        },
{
    let round = env.funding_round(round_id)->Ok_0;
    let i = index as int;
    lemma_verified_bound(round.milestones);
    if env.submit_milestone(caller, round_id, index).1 is Ok {
        let after = round.after_submission(i, env.ledger.timestamp);
        lemma_milestone_change(round.milestones, i, after.milestones[i]);
        lemma_worth_kept(round.milestones, i, after.milestones[i]);
    }
    if env.verify_milestone(caller, round_id, index).1 is Ok {
        let after = round.after_payment(i, caller, env.ledger.timestamp);
        lemma_milestone_change(round.milestones, i, after.milestones[i]);
        lemma_worth_kept(round.milestones, i, after.milestones[i]);
        lemma_verified_bound(after.milestones);
    }
}

/// Milestones stay worth something when one changes otherwise.
proof fn lemma_worth_kept(
    milestones: Seq<FundingMilestone>,
    index: int,
    after: FundingMilestone,
)
    requires
        0 <= index < milestones.len(),
        milestones_worth(milestones),
        after.amount == milestones[index].amount,
    ensures
        milestones_worth(milestones.update(index, after)),
{
    assert forall|i: int| 0 <= i < milestones.len() implies (#[trigger] milestones.update(
        index,
        after,
    )[i]).amount > 0 by {
        assert(milestones[i].amount > 0);
    }
}

/// A milestone is paid at most once: after its verification it is not submitted any more, so
/// that neither a submission nor a verification succeeds again.
pub proof fn law_milestones_are_paid_once(
    env: EnvModel,
    verifier: Address,
    caller: Address,
    round_id: u64,
    index: u32,
)
    requires
        env.funding_round(round_id) matches Ok(round) && round.id == round_id,
        env.verify_milestone(verifier, round_id, index).1 is Ok,
    ensures
        env.verify_milestone(verifier, round_id, index).0.verify_milestone(
            caller,
            round_id,
            index,
        ).1 is Err,
        env.verify_milestone(verifier, round_id, index).0.submit_milestone(
            caller,
            round_id,
            index,
        ).1 is Err,
{
}

/// Whether the terms of a round are in order.
fn round_allowed(env: &Env, total: i128, milestones: &Vec<FundingMilestone>) -> (r: bool)
    ensures
        r == env@.round_allowed(total, milestones@),
{
    if total <= 0 || milestones.len() == 0 {
        return false;
    }
    if let Some(rules) = storage::get_funding_round_config(env) {
        if !rules_allow(&rules, milestones) {
            return false;
        }
    }
    let mut sum: i128 = 0;
    let mut i: usize = 0;
    while i < milestones.len()
        invariant
            i <= milestones.len(),
            forall|j: int| 0 <= j < i ==> (#[trigger] milestones@[j]).amount > 0,
            sum == milestones_total(milestones@.take(i as int)),
            0 <= sum,
        decreases milestones.len() - i,
    {
        let amount: i128 = milestones[i].amount;
        if amount <= 0 {
            return false;
        }
        assert(milestones@.take(i + 1).drop_last() =~= milestones@.take(i as int));
        match sum.checked_add(amount) {
            Some(more) => {
                sum = more;
            },
            None => {
                proof {
                    if milestones_worth(milestones@) {
                        lemma_total_prefix(milestones@, i + 1);
                    }
                }
                return false;
            },
        }
        i += 1;
    }
    assert(milestones@.take(milestones@.len() as int) =~= milestones@);
    sum == total
}

/// The first milestones are worth no more than all.
proof fn lemma_total_prefix(milestones: Seq<FundingMilestone>, k: int)
    requires
        0 <= k <= milestones.len(),
        milestones_worth(milestones),
    ensures
        milestones_total(milestones.take(k)) <= milestones_total(milestones),
    decreases milestones.len(),
{
    if k == milestones.len() {
        assert(milestones.take(k) =~= milestones);
    } else {
        let rest = milestones.drop_last();
        assert forall|i: int| 0 <= i < rest.len() implies (#[trigger] rest[i]).amount > 0 by {
            assert(milestones[i].amount > 0);
        }
        assert(milestones[milestones.len() - 1].amount > 0);
        assert(rest.take(k) =~= milestones.take(k));
        lemma_total_prefix(rest, k);
    }
}

/// Whether rules allow a round with some milestones.
fn rules_allow(rules: &FundingRoundConfig, milestones: &Vec<FundingMilestone>) -> (r: bool)
    ensures
        r == rules.allows(milestones@),
{
    if !rules.enabled || (milestones.len() as u64) < rules.min_milestones as u64
        || milestones.len() as u64 > rules.max_milestones as u64 {
        return false;
    }
    if rules.min_milestone_amount > 0 {
        let mut i: usize = 0;
        while i < milestones.len()
            invariant
                i <= milestones.len(),
                rules.min_milestone_amount > 0,
                forall|j: int|
                    0 <= j < i ==> (#[trigger] milestones@[j]).amount
                        >= rules.min_milestone_amount,
            decreases milestones.len() - i,
        {
            if milestones[i].amount < rules.min_milestone_amount {
                return false;
            }
            i += 1;
        }
    }
    true
}

impl FundingRound {
    /// Whether every milestone is verified.
    pub fn all_milestones_verified(&self) -> (r: bool)
        ensures
            r == all_verified(self@.milestones),
    {
        let mut i: usize = 0;
        while i < self.milestones.len()
            invariant
                i <= self.milestones.len(),
                forall|j: int|
                    0 <= j < i ==> (#[trigger] self.milestones@[j]).status
                        == FundingMilestoneStatus::Verified,
            decreases self.milestones.len() - i,
        {
            if self.milestones[i].status != FundingMilestoneStatus::Verified {
                return false;
            }
            i += 1;
        }
        true
    }
}

impl VaultDAO {
    /// Creates a funding round. Treasurers and admins may.
    pub fn create_funding_round(
        env: &mut Env,
        proposer: Address,
        recipient: Address,
        token: Address,
        total_amount: i128,
        milestones: Vec<FundingMilestone>,
    ) -> (r: Result<u64, VaultError>)
        requires
            old(env)@.authorized(proposer),
            old(env)@.has_room(),
        ensures
            (final(env)@, r) == old(env)@.create_funding_round(
                proposer,
                recipient,
                token,
                total_amount,
                milestones@,
            ),
    {
        let role = storage::get_role(env, &proposer);
        if role != Role::Treasurer && role != Role::Admin {
            return Err(VaultError::InsufficientRole);
        }
        if !round_allowed(env, total_amount, &milestones) {
            return Err(VaultError::InvalidAmount);
        }
        let milestone_count: u32 = crate::math::count_u32(milestones.len() as u128);
        let round_id: u64 = storage::bump_funding_round_id(env);
        let round = FundingRound {
            id: round_id,
            proposal_id: 0,
            recipient,
            token,
            total_amount,
            released_amount: 0,
            milestones,
            status: FundingRoundStatus::Pending,
            created_at: env.ledger.timestamp,
            approved_at: 0,
            finalized_at: 0,
        };
        storage::set_funding_round(env, &round);
        storage::extend_instance_ttl(env);
        env.publish(
            Event::FundingRoundCreated {
                round_id,
                proposal_id: 0,
                recipient,
                token,
                amount: total_amount,
                milestones: milestone_count,
            },
        );
        Ok(round_id)
    }

    /// Approves a pending funding round, which is active from then on. Only admins may.
    pub fn approve_funding_round(env: &mut Env, approver: Address, round_id: u64) -> (r: Result<
        (),
        VaultError,
    >)
        requires
            old(env)@.authorized(approver),
        ensures
            (final(env)@, r) == old(env)@.approve_funding_round(approver, round_id),
    {
        if storage::get_role(env, &approver) != Role::Admin {
            return Err(VaultError::InsufficientRole);
        }
        let mut round = storage::get_funding_round(env, round_id)?;
        if round.status != FundingRoundStatus::Pending {
            return Err(VaultError::InvalidAmount);
        }
        round.status = FundingRoundStatus::Active;
        round.approved_at = env.ledger.timestamp;
        storage::set_funding_round(env, &round);
        env.publish(Event::FundingRoundApproved { round_id, approver });
        Ok(())
    }

    /// Submits a pending milestone of an active round. Only the round's recipient may.
    pub fn submit_milestone(
        env: &mut Env,
        submitter: Address,
        round_id: u64,
        milestone_index: u32,
    ) -> (r: Result<(), VaultError>)
        requires
            old(env)@.authorized(submitter),
        ensures
            (final(env)@, r) == old(env)@.submit_milestone(submitter, round_id, milestone_index),
    {
        let mut round = storage::get_funding_round(env, round_id)?;
        if round.recipient != submitter {
            return Err(VaultError::Unauthorized);
        }
        if round.status != FundingRoundStatus::Active {
            return Err(VaultError::InvalidAmount);
        }
        if milestone_index as u64 >= round.milestones.len() as u64 {
            return Err(VaultError::InvalidAmount);
        }
        let index: usize = milestone_index as usize;
        let mut milestone = round.milestones[index];
        if milestone.status != FundingMilestoneStatus::Pending {
            return Err(VaultError::InvalidAmount);
        }
        milestone.status = FundingMilestoneStatus::Submitted;
        milestone.submitted_at = env.ledger.timestamp;
        round.milestones[index] = milestone;
        storage::set_funding_round(env, &round);
        env.publish(
            Event::MilestoneSubmitted { round_id, milestone: milestone_index, submitter },
        );
        Ok(())
    }

    /// Verifies a submitted milestone of an active round and pays what it is worth to the
    /// round's recipient. Only admins may.
    pub fn verify_milestone(
        env: &mut Env,
        verifier: Address,
        round_id: u64,
        milestone_index: u32,
    ) -> (r: Result<i128, VaultError>)
        requires
            old(env)@.authorized(verifier),
        ensures
            (final(env)@, r) == old(env)@.verify_milestone(verifier, round_id, milestone_index),
    {
        if storage::get_role(env, &verifier) != Role::Admin {
            return Err(VaultError::InsufficientRole);
        }
        let mut round = storage::get_funding_round(env, round_id)?;
        if round.status != FundingRoundStatus::Active {
            return Err(VaultError::InvalidAmount);
        }
        if milestone_index as u64 >= round.milestones.len() as u64 {
            return Err(VaultError::InvalidAmount);
        }
        let index: usize = milestone_index as usize;
        let mut milestone = round.milestones[index];
        if milestone.status != FundingMilestoneStatus::Submitted {
            return Err(VaultError::InvalidAmount);
        }
        let amount: i128 = milestone.amount;
        milestone.status = FundingMilestoneStatus::Verified;
        milestone.verified_at = env.ledger.timestamp;
        milestone.verified_by = Some(verifier);
        round.milestones[index] = milestone;
        env.act(Action::Transfer { token: round.token, to: round.recipient, amount });
        round.released_amount = sat_add(round.released_amount, amount);
        env.publish(
            Event::MilestoneVerified { round_id, milestone: milestone_index, verifier, amount },
        );
        env.publish(
            Event::FundingReleased {
                round_id,
                recipient: round.recipient,
                amount,
                milestone: milestone_index,
            },
        );
        if round.all_milestones_verified() {
            round.status = FundingRoundStatus::Completed;
            round.finalized_at = env.ledger.timestamp;
            env.publish(
                Event::FundingRoundCompleted { round_id, released: round.released_amount },
            );
        }
        storage::set_funding_round(env, &round);
        Ok(amount)
    }

    /// Cancels a funding round that was neither completed nor cancelled. What was not released
    /// stays in the vault. Only admins may.
    pub fn cancel_funding_round(env: &mut Env, canceller: Address, round_id: u64) -> (r: Result<
        (),
        VaultError,
    >)
        requires
            old(env)@.authorized(canceller),
        ensures
            (final(env)@, r) == old(env)@.cancel_funding_round(canceller, round_id),
    {
        if storage::get_role(env, &canceller) != Role::Admin {
            return Err(VaultError::InsufficientRole);
        }
        let mut round = storage::get_funding_round(env, round_id)?;
        if round.status == FundingRoundStatus::Completed || round.status
            == FundingRoundStatus::Cancelled {
            return Err(VaultError::InvalidAmount);
        }
        round.status = FundingRoundStatus::Cancelled;
        round.finalized_at = env.ledger.timestamp;
        storage::set_funding_round(env, &round);
        env.publish(Event::FundingRoundCancelled { round_id, canceller });
        Ok(())
    }

    /// The funding round with an identifier.
    pub fn get_funding_round(env: &Env, round_id: u64) -> (r: Result<FundingRound, VaultError>)
        ensures
            crate::errors::res_view(r) == env@.funding_round(round_id),
    {
        storage::get_funding_round(env, round_id)
    }

    /// The funding rounds of a proposal.
    pub fn get_proposal_funding_rounds(env: &Env, proposal_id: u64) -> (r: Vec<u64>)
        ensures
            r@ == env@.proposal_funding_rounds(proposal_id),
    {
        storage::get_proposal_funding_rounds(env, proposal_id)
    }

    /// Sets the rules for funding rounds. Only signers may.
    pub fn set_funding_round_config(env: &mut Env, signer: Address, config: FundingRoundConfig) -> (r:
        Result<(), VaultError>)
        requires
            old(env)@.authorized(signer),
        ensures
            (final(env)@, r) == old(env)@.change_funding_round_config(signer, config),
    {
        let vault_config = storage::get_config(env)?;
        if !list_contains(&vault_config.signers, &signer) {
            return Err(VaultError::NotASigner);
        }
        storage::set_funding_round_config(env, &config);
        Ok(())
    }

    /// The rules for funding rounds.
    pub fn get_funding_round_config(env: &Env) -> (r: Option<FundingRoundConfig>)
        ensures
            r == env@.funding_round_config(),
    {
        storage::get_funding_round_config(env)
    }
}

} // verus!
