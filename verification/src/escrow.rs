//! Escrows: funds that are released to their recipient once every milestone is reached, and
//! returned to their funder when the escrow expires.

use vstd::prelude::*;

use crate::env::{Action, Env, EnvModel, Event};
use crate::errors::VaultError;
use crate::primitives::{Address, Symbol};
use crate::proposals::Outcome;
use crate::storage;
use crate::types::{Escrow, EscrowModel, EscrowStatus, Milestone, Role};
use crate::VaultDAO;

verus! {

/// The sum of the percentages of milestones.
pub open spec fn percentage_sum(milestones: Seq<Milestone>) -> int
    decreases milestones.len(),
{
    if milestones.len() == 0 {
        0
    } else {
        percentage_sum(milestones.drop_last()) + milestones.last().percentage
    }
}

/// The sum of the percentages of completed milestones.
pub open spec fn completed_percentage(milestones: Seq<Milestone>) -> int
    decreases milestones.len(),
{
    if milestones.len() == 0 {
        0
    } else {
        completed_percentage(milestones.drop_last()) + if milestones.last().is_completed {
            milestones.last().percentage as int
        } else {
            0
        }
    }
}

/// Whether every milestone is completed.
pub open spec fn all_completed(milestones: Seq<Milestone>) -> bool {
    forall|i: int| 0 <= i < milestones.len() ==> (#[trigger] milestones[i]).is_completed
}

/// Whether milestones divide an escrow: there are some, each has a percentage from 1 to 100,
/// and the percentages sum up to 100.
pub open spec fn milestones_divide(milestones: Seq<Milestone>) -> bool {
    &&& milestones.len() > 0
    &&& forall|i: int|
        0 <= i < milestones.len() ==> 1 <= (#[trigger] milestones[i]).percentage <= 100
    &&& percentage_sum(milestones) == 100
}

/// Milestones after those with an identifier were completed, or the first reason why one of
/// them cannot be.
pub open spec fn complete_matching(milestones: Seq<Milestone>, id: u64, now: u64) -> Result<
    Seq<Milestone>,
    VaultError,
>
    decreases milestones.len(),
{
    if milestones.len() == 0 {
        Ok(Seq::empty())
    } else {
        let m = milestones.last();
        match complete_matching(milestones.drop_last(), id, now) {
            Err(error) => Err(error),
            Ok(done) => if m.id != id {
                Ok(done.push(m))
            } else if m.is_completed {
                Err(VaultError::AlreadyApproved)
            } else if now < m.release_ledger {
                Err(VaultError::TimelockNotExpired)
            } else {
                Ok(done.push(Milestone { is_completed: true, completion_ledger: now, ..m }))
            },
        }
    }
}

/// Whether one of the milestones has an identifier.
pub open spec fn has_milestone(milestones: Seq<Milestone>, id: u64) -> bool {
    exists|i: int| 0 <= i < milestones.len() && (#[trigger] milestones[i]).id == id
}

impl EscrowModel {
    /// Whether the escrow is one that can have been created: its milestones divide it, and no
    /// more was released than it holds.
    pub open spec fn valid(self) -> bool {
        &&& 0 <= self.released_amount <= self.total_amount
        &&& percentage_sum(self.milestones) == 100
    }

    /// Whether the escrow has expired.
    pub open spec fn expired(self, now: u64) -> bool {
        now >= self.expires_at
    }

    /// What completed milestones have earned and was not released yet.
    pub open spec fn earned(self) -> int {
        self.total_amount * completed_percentage(self.milestones) / 100 - self.released_amount
    }

    /// What a release pays: all that is left after expiry, else what was earned.
    pub open spec fn releasable(self, now: u64) -> int {
        if self.expired(now) {
            self.total_amount - self.released_amount
        } else {
            self.earned()
        }
    }

    /// Whom a release pays: the funder after expiry, else the recipient.
    pub open spec fn payee(self, now: u64) -> Address {
        if self.expired(now) {
            self.funder
        } else {
            self.recipient
        }
    }

    /// The escrow after a release.
    pub open spec fn after_release(self, now: u64) -> EscrowModel {
        let released = self.released_amount + self.releasable(now);
        if released >= self.total_amount {
            EscrowModel {
                released_amount: released as i128,
                status: if self.expired(now) {
                    EscrowStatus::Refunded
                } else {
                    EscrowStatus::Released
                },
                finalized_at: now,
                ..self
            }
        } else {
            EscrowModel { released_amount: released as i128, ..self }
        }
    }

    /// The escrow after a dispute was resolved.
    pub open spec fn after_resolution(self, to_recipient: bool, now: u64) -> EscrowModel {
        EscrowModel {
            released_amount: crate::math::max_int(
                self.released_amount as int,
                self.total_amount as int,
            ) as i128,
            status: if to_recipient {
                EscrowStatus::Released
            } else {
                EscrowStatus::Refunded
            },
            finalized_at: now,
            ..self
        }
    }
}

/// Completed milestones never make up more than all milestones.
proof fn lemma_completed_bound(milestones: Seq<Milestone>)
    ensures
        0 <= completed_percentage(milestones) <= percentage_sum(milestones),
        all_completed(milestones) ==> completed_percentage(milestones) == percentage_sum(
            milestones,
        ),
    decreases milestones.len(),
{
    if milestones.len() > 0 {
        lemma_completed_bound(milestones.drop_last());
        if all_completed(milestones) {
            assert(milestones[milestones.len() - 1].is_completed);
            assert forall|i: int| 0 <= i < milestones.drop_last().len() implies (
            #[trigger] milestones.drop_last()[i]).is_completed by {
                assert(milestones[i].is_completed);
            }
        }
    }
}

/// Percentages of the first milestones sum up to no more than those of all.
proof fn lemma_percentage_prefix(milestones: Seq<Milestone>, k: int)
    requires
        0 <= k <= milestones.len(),
    ensures
        0 <= percentage_sum(milestones.take(k)) <= percentage_sum(milestones),
        0 <= completed_percentage(milestones.take(k)) <= completed_percentage(milestones),
    decreases milestones.len(),
{
    lemma_completed_bound(milestones.take(k));
    if k == milestones.len() {
        assert(milestones.take(k) =~= milestones);
    } else {
        lemma_percentage_prefix(milestones.drop_last(), k);
        assert(milestones.drop_last().take(k) =~= milestones.take(k));
    }
}

/// The first refusal decides.
proof fn lemma_complete_refusal(milestones: Seq<Milestone>, k: int, id: u64, now: u64)
    requires
        0 <= k <= milestones.len(),
        complete_matching(milestones.take(k), id, now) is Err,
    ensures
        complete_matching(milestones, id, now) == complete_matching(milestones.take(k), id, now),
    decreases milestones.len(),
{
    if k == milestones.len() {
        assert(milestones.take(k) =~= milestones);
    } else {
        assert(milestones.drop_last().take(k) =~= milestones.take(k));
        lemma_complete_refusal(milestones.drop_last(), k, id, now);
    }
}

/// Completing milestones keeps their number and percentages.
proof fn lemma_complete_keeps_percentages(milestones: Seq<Milestone>, id: u64, now: u64)
    ensures
        complete_matching(milestones, id, now) matches Ok(done) ==> done.len() == milestones.len()
            && percentage_sum(done) == percentage_sum(milestones),
    decreases milestones.len(),
{
    if milestones.len() > 0 {
        lemma_complete_keeps_percentages(milestones.drop_last(), id, now);
        if let Ok(done) = complete_matching(milestones, id, now) {
            let before = complete_matching(milestones.drop_last(), id, now)->Ok_0;
            assert(done.drop_last() =~= before);
        }
    }
}

impl EnvModel {
    /// What creating an escrow leaves behind.
    pub open spec fn create_escrow(
        self,
        funder: Address,
        recipient: Address,
        token: Address,
        amount: i128,
        milestones: Seq<Milestone>,
        duration: u64,
        arbitrator: Address,
    ) -> Outcome<u64> {
        let id = self.payments.next_escrow_id;
        if amount <= 0 || !milestones_divide(milestones) {
            (self, Err(VaultError::InvalidAmount))
        } else {
            (
                self.act(
                    Action::TransferToVault { token, from: funder, amount },
                ).bump_next_escrow_id().with_escrow(
                    EscrowModel {
                        id,
                        funder,
                        recipient,
                        token,
                        total_amount: amount,
                        released_amount: 0,
                        milestones,
                        status: EscrowStatus::Active,
                        arbitrator,
                        dispute_reason: Symbol::spec_empty(),
                        created_at: self.now(),
                        expires_at: (self.now() + duration) as u64,
                        finalized_at: 0,
                    },
                ).funder_escrow_push(funder, id).recipient_escrow_push(recipient, id).publish(
                    Event::EscrowCreated {
                        escrow_id: id,
                        funder,
                        recipient,
                        token,
                        amount,
                        duration,
                    },
                ),
                Ok(id),
            )
        }
    }

    /// What completing a milestone leaves behind.
    pub open spec fn complete_milestone(
        self,
        completer: Address,
        escrow_id: u64,
        milestone_id: u64,
    ) -> Outcome<()> {
        match self.escrow(escrow_id) {
            Err(error) => (self, Err(error)),
            Ok(escrow) => if escrow.status != EscrowStatus::Active {
                (self, Err(VaultError::ProposalNotPending))
            } else if escrow.expired(self.now()) {
                (self, Err(VaultError::ProposalExpired))
            } else {
                match complete_matching(escrow.milestones, milestone_id, self.now()) {
                    Err(error) => (self, Err(error)),
                    Ok(milestones) => if !has_milestone(escrow.milestones, milestone_id) {
                        (self, Err(VaultError::ProposalNotFound))
                    } else {
                        (
                            self.with_escrow(
                                EscrowModel {
                                    milestones,
                                    status: if all_completed(milestones) {
                                        EscrowStatus::MilestonesComplete
                                    } else {
                                        EscrowStatus::Active
                                    },
                                    ..escrow
                                },
                            ).publish(
                                Event::MilestoneCompleted { escrow_id, milestone_id, completer },
                            ),
                            Ok(()),
                        )
                    },
                }
            },
        }
    }

    /// Why an escrow cannot be released, if it cannot.
    pub open spec fn release_refusal(self, caller: Address, escrow: EscrowModel) -> Option<
        VaultError,
    > {
        if caller != escrow.funder && caller != escrow.recipient && self.role(caller)
            != Role::Admin {
            Some(VaultError::Unauthorized)
        } else if escrow.status == EscrowStatus::Disputed {
            Some(VaultError::ConditionsNotMet)
        } else if escrow.status != EscrowStatus::MilestonesComplete && !escrow.expired(self.now()) {
            Some(VaultError::ConditionsNotMet)
        } else if escrow.releasable(self.now()) <= 0 {
            Some(VaultError::ProposalAlreadyExecuted)
        } else {
            None
        }
    }

    /// What releasing an escrow leaves behind.
    pub open spec fn release_escrow(self, caller: Address, escrow_id: u64) -> Outcome<i128> {
        match self.escrow(escrow_id) {
            Err(error) => (self, Err(error)),
            Ok(escrow) => match self.release_refusal(caller, escrow) {
                Some(error) => (self, Err(error)),
                None => {
                    let now = self.now();
                    let amount = escrow.releasable(now) as i128;
                    (
                        self.act(
                            Action::Transfer { token: escrow.token, to: escrow.payee(now), amount },
                        ).with_escrow(escrow.after_release(now)).publish(
                            Event::EscrowReleased {
                                escrow_id,
                                recipient: escrow.payee(now),
                                amount,
                                is_refund: escrow.expired(now),
                            },
                        ),
                        Ok(amount),
                    )
                },
            },
        }
    }

    /// What disputing an escrow leaves behind.
    pub open spec fn dispute_escrow(self, disputer: Address, escrow_id: u64, reason: Symbol) -> 
        Outcome<()> {
        match self.escrow(escrow_id) {
            Err(error) => (self, Err(error)),
            Ok(escrow) => if disputer != escrow.funder && self.role(disputer) != Role::Admin {
                (self, Err(VaultError::Unauthorized))
            } else if escrow.status != EscrowStatus::Active && escrow.status
                != EscrowStatus::MilestonesComplete {
                (self, Err(VaultError::ProposalNotPending))
            } else {
                (
                    self.with_escrow(
                        EscrowModel {
                            status: EscrowStatus::Disputed,
                            dispute_reason: reason,
                            ..escrow
                        },
                    ).publish(Event::EscrowDisputed { escrow_id, disputer, reason }),
                    Ok(()),
                )
            },
        }
    }

    /// What resolving an escrow's dispute leaves behind.
    pub open spec fn resolve_escrow_dispute(
        self,
        arbitrator: Address,
        escrow_id: u64,
        to_recipient: bool,
    ) -> Outcome<()> {
        if self.role(arbitrator) != Role::Admin {
            (self, Err(VaultError::Unauthorized))
        } else {
            match self.escrow(escrow_id) {
                Err(error) => (self, Err(error)),
                Ok(escrow) => if escrow.status != EscrowStatus::Disputed {
                    (self, Err(VaultError::ProposalNotPending))
                } else {
                    let amount = escrow.total_amount - escrow.released_amount;
                    let paid = if amount > 0 {
                        self.act(
                            Action::Transfer {
                                token: escrow.token,
                                to: if to_recipient {
                                    escrow.recipient
                                } else {
                                    escrow.funder
                                },
                                amount: amount as i128,
                            },
                        )
                    } else {
                        self
                    };
                    (
                        paid.with_escrow(
                            escrow.after_resolution(to_recipient, self.now()),
                        ).publish(
                            Event::EscrowDisputeResolved { escrow_id, arbitrator, to_recipient },
                        ),
                        Ok(()),
                    )
                },
            }
        }
    }

    /// Whether there is a ledger at which a new escrow, where it is allowed, expires.
    pub open spec fn escrow_creation_fits(
        self,
        amount: i128,
        milestones: Seq<Milestone>,
        duration: u64,
    ) -> bool {
        &&& self.has_room()
        &&& amount > 0 && milestones_divide(milestones) ==> self.now() + duration <= u64::MAX
    }

    /// Whether an escrow, where there is one, is valid.
    pub open spec fn escrow_fits(self, escrow_id: u64) -> bool {
        self.escrow(escrow_id) matches Ok(escrow) ==> escrow.valid()
    }
}

/// An escrow never pays more than it holds: what a release pays brings the released amount to
/// no more than the total, and the escrow stays valid.
pub proof fn law_escrows_pay_no_more_than_they_hold(escrow: EscrowModel, now: u64)
    requires
        escrow.valid(),
        escrow.releasable(now) > 0,
    ensures
        escrow.after_release(now).valid(),
        escrow.after_release(now).released_amount == escrow.released_amount + escrow.releasable(
            now,
        ),
{
    lemma_earned_bound(escrow);
}

/// An escrow whose milestones are all completed owes its recipient all that is left.
pub proof fn law_completed_escrows_pay_in_full(escrow: EscrowModel)
    requires
        escrow.valid(),
        all_completed(escrow.milestones),
    ensures
        escrow.earned() == escrow.total_amount - escrow.released_amount,
{
    lemma_completed_bound(escrow.milestones);
    assert(escrow.total_amount * 100 / 100 == escrow.total_amount) by (nonlinear_arith);
}

/// A disputed escrow pays nobody before an admin resolves the dispute, which settles all that
/// is left.
pub proof fn law_disputes_hold_the_funds(
    env: EnvModel,
    caller: Address,
    escrow_id: u64,
    to_recipient: bool,
)
    requires
        env.escrow(escrow_id) matches Ok(escrow) && escrow.status == EscrowStatus::Disputed
            && escrow.valid(),
    ensures
        env.release_escrow(caller, escrow_id).0 == env,
        env.release_escrow(caller, escrow_id).1 is Err,
        env.role(caller) != Role::Admin ==> env.resolve_escrow_dispute(
            caller,
            escrow_id,
            to_recipient,
        ) == (env, Err::<(), _>(VaultError::Unauthorized)),
        env.escrow(escrow_id)->Ok_0.after_resolution(to_recipient, env.now()).valid(),
        env.escrow(escrow_id)->Ok_0.after_resolution(to_recipient, env.now()).released_amount
            == env.escrow(escrow_id)->Ok_0.total_amount,
{
}

/// Completing a milestone keeps an escrow valid, and moves no funds.
pub proof fn law_milestones_move_no_funds(
    env: EnvModel,
    completer: Address,
    escrow_id: u64,
    milestone_id: u64,
)
    requires
        env.escrow(escrow_id) matches Ok(escrow) && escrow.valid() && escrow.id == escrow_id,
        env.complete_milestone(completer, escrow_id, milestone_id).1 is Ok,
    ensures
        env.complete_milestone(completer, escrow_id, milestone_id).0.escrow(escrow_id) matches Ok(
            after,
        ) && after.valid() && after.released_amount == env.escrow(
            escrow_id,
        )->Ok_0.released_amount,
        env.complete_milestone(completer, escrow_id, milestone_id).0.actions == env.actions.push(
            Action::Publish(Event::MilestoneCompleted { escrow_id, milestone_id, completer }),
        ),
{
    lemma_complete_keeps_percentages(
        env.escrow(escrow_id)->Ok_0.milestones,
        milestone_id,
        env.now(),
    );
}

/// What was earned stays within what is left.
proof fn lemma_earned_bound(escrow: EscrowModel)
    requires
        escrow.valid(),
    ensures
        -escrow.released_amount <= escrow.earned() <= escrow.total_amount - escrow.released_amount,
{
    lemma_completed_bound(escrow.milestones);
    let total = escrow.total_amount as int;
    let pct = completed_percentage(escrow.milestones);
    assert(0 <= total * pct <= total * 100) by (nonlinear_arith)
        requires
            0 <= total,
            0 <= pct <= 100,
    ;
}

/// Whether milestones divide an escrow.
pub(crate) fn check_milestones(milestones: &Vec<Milestone>) -> (r: bool)
    ensures
        r == milestones_divide(milestones@),
{
    if milestones.len() == 0 {
        return false;
    }
    let mut total_pct: u32 = 0;
    let mut i: usize = 0;
    while i < milestones.len()
        invariant
            i <= milestones.len(),
            forall|j: int| 0 <= j < i ==> 1 <= (#[trigger] milestones@[j]).percentage <= 100,
            total_pct == crate::math::clamp_u32(percentage_sum(milestones@.take(i as int))),
        decreases milestones.len() - i,
    {
        let percentage: u32 = milestones[i].percentage;
        if percentage == 0 || percentage > 100 {
            return false;
        }
        assert(milestones@.take(i + 1).drop_last() =~= milestones@.take(i as int));
        proof {
            lemma_percentage_prefix(milestones@, i as int);
        }
        total_pct = total_pct.saturating_add(percentage);
        i += 1;
    }
    assert(milestones@.take(milestones@.len() as int) =~= milestones@);
    total_pct == 100
}

/// Whether the shares of milestones make up the whole.
pub(crate) fn shares_make_up_the_whole(milestones: &Vec<Milestone>) -> (r: bool)
    ensures
        r == (percentage_sum(milestones@) == 100),
{
    let mut total_pct: u32 = 0;
    let mut i: usize = 0;
    while i < milestones.len()
        invariant
            i <= milestones.len(),
            total_pct == percentage_sum(milestones@.take(i as int)) <= 100,
        decreases milestones.len() - i,
    {
        assert(milestones@.take(i + 1).drop_last() =~= milestones@.take(i as int));
        proof {
            lemma_percentage_prefix(milestones@, i + 1);
        }
        if milestones[i].percentage > 100 - total_pct {
            return false;
        }
        total_pct += milestones[i].percentage;
        i += 1;
    }
    assert(milestones@.take(milestones@.len() as int) =~= milestones@);
    total_pct == 100
}

/// Whether every milestone is completed.
fn check_completed(milestones: &Vec<Milestone>) -> (r: bool)
    ensures
        r == all_completed(milestones@),
{
    let mut i: usize = 0;
    while i < milestones.len()
        invariant
            i <= milestones.len(),
            forall|j: int| 0 <= j < i ==> (#[trigger] milestones@[j]).is_completed,
        decreases milestones.len() - i,
    {
        if !milestones[i].is_completed {
            return false;
        }
        i += 1;
    }
    true
}

/// Completes the milestones with an identifier.
fn mark_milestones(milestones: &Vec<Milestone>, id: u64, now: u64) -> (r: Result<
    Vec<Milestone>,
    VaultError,
>)
    ensures
        match r {
            Ok(done) => if has_milestone(milestones@, id) {
                complete_matching(milestones@, id, now) == Ok::<_, VaultError>(done@)
            } else {
                false
            },
            Err(error) => if complete_matching(milestones@, id, now) is Ok {
                !has_milestone(milestones@, id) && error == VaultError::ProposalNotFound
            } else {
                complete_matching(milestones@, id, now) == Err::<Seq<Milestone>, _>(error)
            },
        },
{
    let mut done: Vec<Milestone> = Vec::new();
    let mut found = false;
    let mut i: usize = 0;
    while i < milestones.len()
        invariant
            i <= milestones.len(),
            found == has_milestone(milestones@.take(i as int), id),
            complete_matching(milestones@.take(i as int), id, now) == Ok::<_, VaultError>(done@),
        decreases milestones.len() - i,
    {
        let mut m = milestones[i];
        assert(milestones@.take(i + 1).drop_last() =~= milestones@.take(i as int));
        assert(milestones@.take(i + 1)[i as int] == m);
        if m.id == id {
            if m.is_completed {
                proof {
                    lemma_complete_refusal(milestones@, i + 1, id, now);
                }
                return Err(VaultError::AlreadyApproved);
            }
            if now < m.release_ledger {
                proof {
                    lemma_complete_refusal(milestones@, i + 1, id, now);
                }
                return Err(VaultError::TimelockNotExpired);
            }
            m.is_completed = true;
            m.completion_ledger = now;
            found = true;
        }
        proof {
            lemma_has_milestone_step(milestones@, i as int, id);
        }
        done.push(m);
        i += 1;
    }
    assert(milestones@.take(milestones@.len() as int) =~= milestones@);
    if !found {
        return Err(VaultError::ProposalNotFound);
    }
    Ok(done)
}

/// One more milestone is looked at.
proof fn lemma_has_milestone_step(milestones: Seq<Milestone>, i: int, id: u64)
    requires
        0 <= i < milestones.len(),
    ensures
        has_milestone(milestones.take(i + 1), id) == (has_milestone(milestones.take(i), id)
            || milestones[i].id == id),
{
    let before = milestones.take(i);
    let after = milestones.take(i + 1);
    assert(after[i] == milestones[i]);
    if has_milestone(before, id) {
        let j = choose|j: int| 0 <= j < before.len() && (#[trigger] before[j]).id == id;
        assert(after[j] == before[j]);
    }
    if has_milestone(after, id) {
        let j = choose|j: int| 0 <= j < after.len() && (#[trigger] after[j]).id == id;
        assert(j < i ==> before[j] == after[j]);
    }
}

impl Escrow {
    /// What completed milestones have earned and was not released yet.
    pub fn amount_to_release(&self) -> (r: i128)
        requires
            self@.valid(),
        ensures
            r == self@.earned(),
    {
        let mut pct: u32 = 0;
        let mut i: usize = 0;
        while i < self.milestones.len()
            invariant
                i <= self.milestones.len(),
                percentage_sum(self.milestones@) == 100,
                pct == completed_percentage(self.milestones@.take(i as int)),
            decreases self.milestones.len() - i,
        {
            assert(self.milestones@.take(i + 1).drop_last() =~= self.milestones@.take(i as int));
            proof {
                lemma_completed_bound(self.milestones@);
                lemma_percentage_prefix(self.milestones@, i + 1);
            }
            if self.milestones[i].is_completed {
                pct = pct + self.milestones[i].percentage;
            }
            i += 1;
        }
        assert(self.milestones@.take(self.milestones@.len() as int) =~= self.milestones@);
        proof {
            lemma_completed_bound(self.milestones@);
            lemma_earned_bound(self@);
        }
        let hundreds: i128 = self.total_amount / 100;
        let rest: i128 = self.total_amount % 100;
        assert(0 <= hundreds * pct <= hundreds * 100) by (nonlinear_arith)
            requires
                0 <= hundreds,
                0 <= pct <= 100,
        ;
        assert(0 <= rest * pct <= 9_900) by (nonlinear_arith)
            requires
                0 <= rest <= 99,
                0 <= pct <= 100,
        ;
        assert(self.total_amount * pct == 100 * (hundreds * pct) + rest * pct) by (nonlinear_arith)
            requires
                self.total_amount == 100 * hundreds + rest,
        ;
        hundreds * pct as i128 + rest * pct as i128 / 100 - self.released_amount
    }
}

impl VaultDAO {
    /// Creates an escrow: the funder pays the amount into the vault, which holds it until all
    /// milestones are completed or the escrow expires.
    pub fn create_escrow(
        env: &mut Env,
        funder: Address,
        recipient: Address,
        token_addr: Address,
        amount: i128,
        milestones: Vec<Milestone>,
        duration_ledgers: u64,
        arbitrator: Address,
    ) -> (r: Result<u64, VaultError>)
        requires
            old(env)@.authorized(funder),
            old(env)@.escrow_creation_fits(amount, milestones@, duration_ledgers),
        ensures
            (final(env)@, r) == old(env)@.create_escrow(
                funder,
                recipient,
                token_addr,
                amount,
                milestones@,
                duration_ledgers,
                arbitrator,
            ),
    {
        if amount <= 0 {
            return Err(VaultError::InvalidAmount);
        }
        if !check_milestones(&milestones) {
            return Err(VaultError::InvalidAmount);
        }
        env.act(Action::TransferToVault { token: token_addr, from: funder, amount });
        let escrow_id: u64 = storage::increment_escrow_id(env);
        let current_ledger: u64 = env.now();
        let escrow = Escrow {
            id: escrow_id,
            funder,
            recipient,
            token: token_addr,
            total_amount: amount,
            released_amount: 0,
            milestones,
            status: EscrowStatus::Active,
            arbitrator,
            dispute_reason: Symbol::empty(),
            created_at: current_ledger,
            expires_at: current_ledger + duration_ledgers,
            finalized_at: 0,
        };
        storage::set_escrow(env, &escrow);
        storage::add_funder_escrow(env, &funder, escrow_id);
        storage::add_recipient_escrow(env, &recipient, escrow_id);
        env.publish(
            Event::EscrowCreated {
                escrow_id,
                funder,
                recipient,
                token: token_addr,
                amount,
                duration: duration_ledgers,
            },
        );
        Ok(escrow_id)
    }

    /// Completes a milestone of an active escrow that has not expired.
    pub fn complete_milestone(
        env: &mut Env,
        completer: Address,
        escrow_id: u64,
        milestone_id: u64,
    ) -> (r: Result<(), VaultError>)
        requires
            old(env)@.authorized(completer),
        ensures
            (final(env)@, r) == old(env)@.complete_milestone(completer, escrow_id, milestone_id),
    {
        let mut escrow = storage::get_escrow(env, escrow_id)?;
        let current_ledger: u64 = env.now();
        if escrow.status != EscrowStatus::Active {
            return Err(VaultError::ProposalNotPending);
        }
        if current_ledger >= escrow.expires_at {
            return Err(VaultError::ProposalExpired);
        }
        let updated = mark_milestones(&escrow.milestones, milestone_id, current_ledger)?;
        escrow.milestones = updated;
        if check_completed(&escrow.milestones) {
            escrow.status = EscrowStatus::MilestonesComplete;
        }
        storage::set_escrow(env, &escrow);
        env.publish(Event::MilestoneCompleted { escrow_id, milestone_id, completer });
        Ok(())
    }

    /// Releases an escrow: to its recipient when all milestones are completed, back to its
    /// funder when it has expired. Its funder, its recipient and admins may.
    pub fn release_escrow(env: &mut Env, caller: Address, escrow_id: u64) -> (r: Result<
        i128,
        VaultError,
    >)
        requires
            old(env)@.authorized(caller),
            old(env)@.escrow_fits(escrow_id),
        ensures
            (final(env)@, r) == old(env)@.release_escrow(caller, escrow_id),
    {
        let mut escrow = storage::get_escrow(env, escrow_id)?;
        let current_ledger: u64 = env.now();
        let role = storage::get_role(env, &caller);
        if caller != escrow.funder && caller != escrow.recipient && role != Role::Admin {
            return Err(VaultError::Unauthorized);
        }
        if escrow.status == EscrowStatus::Disputed {
            return Err(VaultError::ConditionsNotMet);
        }
        let is_expired = current_ledger >= escrow.expires_at;
        if escrow.status != EscrowStatus::MilestonesComplete && !is_expired {
            return Err(VaultError::ConditionsNotMet);
        }
        proof {
            lemma_earned_bound(escrow@);
        }
        let amount: i128 = if is_expired {
            escrow.total_amount - escrow.released_amount
        } else {
            escrow.amount_to_release()
        };
        if amount <= 0 {
            return Err(VaultError::ProposalAlreadyExecuted);
        }
        let recipient = if is_expired {
            escrow.funder
        } else {
            escrow.recipient
        };
        env.act(Action::Transfer { token: escrow.token, to: recipient, amount });
        escrow.released_amount = escrow.released_amount + amount;
        if escrow.released_amount >= escrow.total_amount {
            escrow.status = if is_expired {
                EscrowStatus::Refunded
            } else {
                EscrowStatus::Released
            };
            escrow.finalized_at = current_ledger;
        }
        storage::set_escrow(env, &escrow);
        env.publish(
            Event::EscrowReleased { escrow_id, recipient, amount, is_refund: is_expired },
        );
        Ok(amount)
    }

    /// Releases an escrow on behalf of its recipient.
    pub fn release_escrow_funds(env: &mut Env, escrow_id: u64) -> (r: Result<i128, VaultError>)
        requires
            old(env)@.escrow(escrow_id) matches Ok(escrow) ==> old(env)@.authorized(
                escrow.recipient,
            ),
            old(env)@.escrow_fits(escrow_id),
        ensures
            match old(env)@.escrow(escrow_id) {
                Err(error) => final(env)@ == old(env)@ && r == Err::<i128, _>(error),
                Ok(escrow) => (final(env)@, r) == old(env)@.release_escrow(
                    escrow.recipient,
                    escrow_id,
                ),
            },
    {
        let escrow = storage::get_escrow(env, escrow_id)?;
        Self::release_escrow(env, escrow.recipient, escrow_id)
    }

    /// Disputes an escrow that was not settled. Its funder and admins may.
    pub fn dispute_escrow(env: &mut Env, disputer: Address, escrow_id: u64, reason: Symbol) -> (r:
        Result<(), VaultError>)
        requires
            old(env)@.authorized(disputer),
        ensures
            (final(env)@, r) == old(env)@.dispute_escrow(disputer, escrow_id, reason),
    {
        let mut escrow = storage::get_escrow(env, escrow_id)?;
        let role = storage::get_role(env, &disputer);
        if disputer != escrow.funder && role != Role::Admin {
            return Err(VaultError::Unauthorized);
        }
        if escrow.status != EscrowStatus::Active && escrow.status
            != EscrowStatus::MilestonesComplete {
            return Err(VaultError::ProposalNotPending);
        }
        escrow.status = EscrowStatus::Disputed;
        escrow.dispute_reason = reason;
        storage::set_escrow(env, &escrow);
        env.publish(Event::EscrowDisputed { escrow_id, disputer, reason });
        Ok(())
    }

    /// Resolves the dispute of an escrow: all that is left goes to the recipient, or back to
    /// the funder. Only admins may.
    pub fn resolve_escrow_dispute(
        env: &mut Env,
        arbitrator: Address,
        escrow_id: u64,
        release_to_recipient: bool,
    ) -> (r: Result<(), VaultError>)
        requires
            old(env)@.authorized(arbitrator),
            old(env)@.escrow_fits(escrow_id),
        ensures
            (final(env)@, r) == old(env)@.resolve_escrow_dispute(
                arbitrator,
                escrow_id,
                release_to_recipient,
            ),
    {
        if storage::get_role(env, &arbitrator) != Role::Admin {
            return Err(VaultError::Unauthorized);
        }
        let mut escrow = storage::get_escrow(env, escrow_id)?;
        if escrow.status != EscrowStatus::Disputed {
            return Err(VaultError::ProposalNotPending);
        }
        let amount: i128 = escrow.total_amount - escrow.released_amount;
        if amount > 0 {
            let recipient = if release_to_recipient {
                escrow.recipient
            } else {
                escrow.funder
            };
            env.act(Action::Transfer { token: escrow.token, to: recipient, amount });
            escrow.released_amount = escrow.released_amount + amount;
        }
        escrow.status = if release_to_recipient {
            EscrowStatus::Released
        } else {
            EscrowStatus::Refunded
        };
        escrow.finalized_at = env.now();
        storage::set_escrow(env, &escrow);
        env.publish(
            Event::EscrowDisputeResolved {
                escrow_id,
                arbitrator,
                to_recipient: release_to_recipient,
            },
        );
        Ok(())
    }

    /// The escrow with an identifier.
    pub fn get_escrow_info(env: &Env, escrow_id: u64) -> (r: Result<Escrow, VaultError>)
        ensures
            crate::errors::res_view(r) == env@.escrow(escrow_id),
    {
        storage::get_escrow(env, escrow_id)
    }

    /// The escrows of a funder.
    pub fn get_funder_escrows(env: &Env, funder: Address) -> (r: Vec<u64>)
        ensures
            r@ == env@.funder_escrows(funder),
    {
        storage::get_funder_escrows(env, &funder)
    }

    /// The escrows of a recipient.
    pub fn get_recipient_escrows(env: &Env, recipient: Address) -> (r: Vec<u64>)
        ensures
            r@ == env@.recipient_escrows(recipient),
    {
        storage::get_recipient_escrows(env, &recipient)
    }
}

} // verus!
