//! Veto, cancellation, amendment and listing of proposals.

use vstd::prelude::*;

use crate::costs::publish_metrics;
use crate::env::{Action, Env, EnvModel, Event};
use crate::errors::VaultError;
use crate::guarantees::{return_insurance, return_stake};
use crate::math::sum_exceeds;
use crate::primitives::{Address, Symbol};
use crate::proposals::Outcome;
use crate::storage;
use crate::types::{
    AuditAction, CancellationRecord, ConfigModel, Priority, Proposal, ProposalAmendment,
    ProposalModel, ProposalStatus, Role,
};
use crate::VaultDAO;

verus! {

impl EnvModel {
    /// The state after insurance and stake of a proposal were returned.
    pub open spec fn give_back(self, proposal: ProposalModel) -> EnvModel {
        self.return_insurance(proposal).return_stake(proposal)
    }

    /// The state after a proposal was vetoed.
    pub open spec fn vetoed(self, vetoer: Address, proposal: ProposalModel) -> EnvModel {
        let changed = ProposalModel { status: ProposalStatus::Vetoed, ..proposal };
        self.with_proposal(changed).queue_remove(
            proposal.priority.spec_code(),
            proposal.id,
        ).act(Action::ExtendInstanceTtl).refund_spending(proposal.amount).give_back(
            changed,
        ).publish(Event::ProposalVetoed { proposal_id: proposal.id, vetoer })
    }

    /// What a veto leaves behind.
    pub open spec fn veto(self, vetoer: Address, proposal_id: u64) -> Outcome<()> {
        match self.veto_address(vetoer) {
            Err(error) => (self, Err(error)),
            Ok(entitled) => if !entitled {
                (self, Err(VaultError::Unauthorized))
            } else {
                match self.proposal(proposal_id) {
                    Err(error) => (self, Err(error)),
                    Ok(proposal) => match proposal.status {
                        ProposalStatus::Executed => (
                            self,
                            Err(VaultError::ProposalAlreadyExecuted),
                        ),
                        ProposalStatus::Vetoed => (self, Ok(())),
                        ProposalStatus::Pending => (self.vetoed(vetoer, proposal), Ok(())),
                        ProposalStatus::Approved => (self.vetoed(vetoer, proposal), Ok(())),
                        _ => (self, Err(VaultError::ProposalNotPending)),
                    },
                }
            },
        }
    }

    /// The state after an admin rejected a proposal.
    #[verifier::opaque]
    pub open spec fn rejected(self, canceller: Address, proposal: ProposalModel) -> EnvModel {
        let changed = ProposalModel { status: ProposalStatus::Rejected, ..proposal };
        self.with_proposal(changed).queue_remove(
            proposal.priority.spec_code(),
            proposal.id,
        ).reputation_on_rejection(proposal.proposer).slash_insurance(changed).slash_stake(
            changed,
        ).audit(AuditAction::RejectProposal, canceller, proposal.id).publish(
            Event::ProposalRejected {
                proposal_id: proposal.id,
                rejector: canceller,
                proposer: proposal.proposer,
            },
        ).count_rejection().publish_metrics()
    }

    /// The state after a proposer cancelled a proposal.
    #[verifier::opaque]
    pub open spec fn cancelled(self, canceller: Address, proposal: ProposalModel, reason: Symbol) -> 
        EnvModel {
        let changed = ProposalModel { status: ProposalStatus::Cancelled, ..proposal };
        self.refund_spending(proposal.amount).with_proposal(changed).queue_remove(
            proposal.priority.spec_code(),
            proposal.id,
        ).with_cancellation(
            CancellationRecord {
                proposal_id: proposal.id,
                cancelled_by: canceller,
                reason,
                cancelled_at_ledger: self.now(),
                refunded_amount: proposal.amount,
            },
        ).cancellation_push(proposal.id).act(Action::ExtendInstanceTtl).audit(
            AuditAction::RejectProposal,
            canceller,
            proposal.id,
        ).publish(
            Event::ProposalCancelled {
                proposal_id: proposal.id,
                canceller,
                reason,
                refunded: proposal.amount,
            },
        ).give_back(changed)
    }

    /// What cancelling a proposal leaves behind. Its proposer cancels it; an admin who is not
    /// its proposer rejects it.
    pub open spec fn cancel(self, canceller: Address, proposal_id: u64, reason: Symbol) -> Outcome<
        (),
    > {
        match self.proposal(proposal_id) {
            Err(error) => (self, Err(error)),
            Ok(proposal) => if proposal.status == ProposalStatus::Cancelled {
                (self, Err(VaultError::ProposalAlreadyCancelled))
            } else if proposal.status != ProposalStatus::Pending {
                (self, Err(VaultError::ProposalNotPending))
            } else if canceller == proposal.proposer {
                (self.cancelled(canceller, proposal, reason), Ok(()))
            } else if self.role(canceller) == Role::Admin {
                (self.rejected(canceller, proposal), Ok(()))
            } else {
                (self, Err(VaultError::Unauthorized))
            },
        }
    }

    /// Whether cancelling a proposal stays within the limits of integers.
    pub open spec fn cancel_fits(self, canceller: Address, proposal_id: u64) -> bool {
        &&& self.has_room()
        &&& self.proposal(proposal_id) matches Ok(proposal) ==> (proposal.status
            == ProposalStatus::Pending && canceller != proposal.proposer && self.role(canceller)
            == Role::Admin ==> {
            &&& self.slash_fits(proposal)
            &&& self.reputation(proposal.proposer).proposals_rejected < u32::MAX
        })
    }

    /// The state after reserved spending was adjusted to a new amount, or the limit that the
    /// new amount exceeds.
    pub open spec fn adjust_spending(self, config: ConfigModel, old_amount: i128, new_amount: i128) -> 
        Outcome<()> {
        if new_amount > old_amount {
            let increase = new_amount - old_amount;
            if self.daily_spent(self.day_number()) + increase > config.daily_limit {
                (self, Err(VaultError::ExceedsDailyLimit))
            } else if self.weekly_spent(self.week_number()) + increase > config.weekly_limit {
                (self, Err(VaultError::ExceedsWeeklyLimit))
            } else {
                (self.reserve_spending(increase as i128), Ok(()))
            }
        } else if new_amount < old_amount {
            (self.refund_spending((old_amount - new_amount) as i128), Ok(()))
        } else {
            (self, Ok(()))
        }
    }

    /// The state after a proposal was amended. It has to be voted on anew.
    pub open spec fn amended(self, proposal: ProposalModel, amendment: ProposalAmendment) -> 
        EnvModel {
        self.with_proposal(
            ProposalModel {
                recipient: amendment.new_recipient,
                amount: amendment.new_amount,
                memo: amendment.new_memo,
                approvals: Seq::empty(),
                abstentions: Seq::empty(),
                status: ProposalStatus::Pending,
                unlock_ledger: 0,
                ..proposal
            },
        ).amendment_push(amendment).act(Action::ExtendInstanceTtl).publish(
            Event::ProposalAmended { amendment },
        )
    }

    /// What amending a proposal leaves behind.
    pub open spec fn amend(
        self,
        proposer: Address,
        proposal_id: u64,
        new_recipient: Address,
        new_amount: i128,
        new_memo: Symbol,
    ) -> Outcome<()> {
        match self.config() {
            Err(error) => (self, Err(error)),
            Ok(config) => match self.proposal(proposal_id) {
                Err(error) => (self, Err(error)),
                Ok(proposal) => if proposal.proposer != proposer {
                    (self, Err(VaultError::Unauthorized))
                } else if proposal.status != ProposalStatus::Pending {
                    (self, Err(VaultError::ProposalNotPending))
                } else if new_amount <= 0 {
                    (self, Err(VaultError::InvalidAmount))
                } else if new_amount > config.spending_limit {
                    (self, Err(VaultError::ExceedsProposalLimit))
                } else {
                    let (adjusted, fits) = self.adjust_spending(
                        config,
                        proposal.amount,
                        new_amount,
                    );
                    let amendment = ProposalAmendment {
                        proposal_id,
                        amended_by: proposer,
                        amended_at_ledger: self.now(),
                        old_recipient: proposal.recipient,
                        new_recipient,
                        old_amount: proposal.amount,
                        new_amount,
                        old_memo: proposal.memo,
                        new_memo,
                    };
                    match fits {
                        Err(error) => (adjusted, Err(error)),
                        Ok(_) => (adjusted.amended(proposal, amendment), Ok(())),
                    }
                },
            },
        }
    }

    /// Whether an address may change a proposal: an admin or its proposer.
    pub open spec fn may_edit(self, caller: Address, proposal: ProposalModel) -> bool {
        self.role(caller) == Role::Admin || caller == proposal.proposer
    }

    /// What changing the priority of a proposal leaves behind.
    pub open spec fn reprioritize(self, caller: Address, proposal_id: u64, priority: Priority) -> 
        Outcome<()> {
        match self.proposal(proposal_id) {
            Err(error) => (self, Err(error)),
            Ok(proposal) => if !self.may_edit(caller, proposal) {
                (self, Err(VaultError::Unauthorized))
            } else if proposal.status != ProposalStatus::Pending {
                (self, Err(VaultError::ProposalNotPending))
            } else {
                (
                    self.queue_remove(proposal.priority.spec_code(), proposal_id).queue_push(
                        priority.spec_code(),
                        proposal_id,
                    ).with_proposal(ProposalModel { priority, ..proposal }).act(
                        Action::ExtendInstanceTtl,
                    ),
                    Ok(()),
                )
            },
        }
    }

    /// Whether a proposal can be executed at present: it is approved, has not expired, is not
    /// locked, and does not wait for others.
    pub open spec fn executable(self, id: u64) -> bool {
        match self.proposal(id) {
            Ok(proposal) => {
                &&& proposal.status == ProposalStatus::Approved
                &&& self.now() <= proposal.expires_at
                &&& proposal.unlock_ledger == 0 || self.now() >= proposal.unlock_ledger
                &&& crate::dependencies::waits(
                    self.proposals.records,
                    proposal.id,
                    proposal.depends_on,
                ) is None
            },
            Err(_) => false,
        }
    }
}

/// A proposer who cancels a proposal on the day, and in the week, in which it reserved its
/// amount gives back exactly what it reserved.
pub proof fn law_cancelling_undoes_the_reservation(
    env: EnvModel,
    amount: i128,
)
    requires
        amount >= 0,
        0 <= env.daily_spent(env.day_number()) <= i128::MAX - amount,
        0 <= env.weekly_spent(env.week_number()) <= i128::MAX - amount,
    ensures
        ({
            let after = env.reserve_spending(amount).refund_spending(amount);
            &&& after.daily_spent(env.day_number()) == env.daily_spent(env.day_number())
            &&& after.weekly_spent(env.week_number()) == env.weekly_spent(env.week_number())
        }),
{
}

/// Reserved spending that is given back never falls below zero.
pub proof fn law_refunds_stop_at_zero(env: EnvModel, amount: i128)
    ensures
        env.refund_spending(amount).daily_spent(env.day_number()) >= 0,
        env.refund_spending(amount).weekly_spent(env.week_number()) >= 0,
{
}

/// Adjusts reserved spending to a new amount.
fn adjust_spending(env: &mut Env, config: &crate::types::Config, old_amount: i128, new_amount: i128) -> (r:
    Result<(), VaultError>)
    requires
        crate::math::fits_i128(new_amount - old_amount),
        crate::math::fits_i128(old_amount - new_amount),
    ensures
        (final(env)@, r) == old(env)@.adjust_spending(config@, old_amount, new_amount),
{
    if new_amount > old_amount {
        let increase: i128 = new_amount - old_amount;
        let today: u64 = storage::get_day_number(env);
        let week: u64 = storage::get_week_number(env);
        if sum_exceeds(storage::get_daily_spent(env, today), increase, config.daily_limit) {
            return Err(VaultError::ExceedsDailyLimit);
        }
        if sum_exceeds(storage::get_weekly_spent(env, week), increase, config.weekly_limit) {
            return Err(VaultError::ExceedsWeeklyLimit);
        }
        storage::add_daily_spent(env, today, increase);
        storage::add_weekly_spent(env, week, increase);
    } else if new_amount < old_amount {
        storage::refund_spending_limits(env, old_amount - new_amount);
    }
    Ok(())
}

/// Rejects a proposal.
fn reject(env: &mut Env, canceller: Address, proposal: Proposal)
    requires
        old(env)@.audit.next_id < u64::MAX,
        old(env)@.slash_fits(proposal@),
        old(env)@.reputation(proposal.proposer).proposals_rejected < u32::MAX,
    ensures
        final(env)@ == old(env)@.rejected(canceller, proposal@),
{
    proof {
        reveal(EnvModel::rejected);
    }
    let mut proposal = proposal;
    proposal.status = ProposalStatus::Rejected;
    storage::set_proposal(env, &proposal);
    storage::remove_from_priority_queue(env, proposal.priority.code(), proposal.id);
    VaultDAO::update_reputation_on_rejection(env, &proposal.proposer);
    VaultDAO::slash_insurance_on_rejection(env, &proposal);
    VaultDAO::slash_stake_on_rejection(env, &proposal);
    storage::create_audit_entry(env, AuditAction::RejectProposal, &canceller, proposal.id);
    env.publish(
        Event::ProposalRejected {
            proposal_id: proposal.id,
            rejector: canceller,
            proposer: proposal.proposer,
        },
    );
    storage::metrics_on_rejection(env);
    publish_metrics(env);
}

/// Cancels a proposal.
fn cancel(env: &mut Env, canceller: Address, proposal: Proposal, reason: Symbol)
    requires
        old(env)@.audit.next_id < u64::MAX,
    ensures
        final(env)@ == old(env)@.cancelled(canceller, proposal@, reason),
{
    proof {
        reveal(EnvModel::cancelled);
    }
    let mut proposal = proposal;
    storage::refund_spending_limits(env, proposal.amount);
    proposal.status = ProposalStatus::Cancelled;
    storage::set_proposal(env, &proposal);
    storage::remove_from_priority_queue(env, proposal.priority.code(), proposal.id);
    let record = CancellationRecord {
        proposal_id: proposal.id,
        cancelled_by: canceller,
        reason,
        cancelled_at_ledger: env.now(),
        refunded_amount: proposal.amount,
    };
    storage::set_cancellation_record(env, &record);
    storage::add_to_cancellation_history(env, proposal.id);
    storage::extend_instance_ttl(env);
    storage::create_audit_entry(env, AuditAction::RejectProposal, &canceller, proposal.id);
    env.publish(
        Event::ProposalCancelled {
            proposal_id: proposal.id,
            canceller,
            reason,
            refunded: proposal.amount,
        },
    );
    return_insurance(env, &proposal);
    return_stake(env, &proposal);
}

/// Whether an address may change a proposal.
pub(crate) fn may_edit(env: &Env, caller: &Address, proposal: &Proposal) -> (r: bool)
    ensures
        r == env@.may_edit(*caller, proposal@),
{
    storage::get_role(env, caller) == Role::Admin || *caller == proposal.proposer
}

/// Whether a proposal can be executed at present.
fn executable(env: &Env, id: u64) -> (r: bool)
    ensures
        r == env@.executable(id),
{
    match storage::get_proposal(env, id) {
        Ok(proposal) => {
            let current_ledger: u64 = env.now();
            proposal.status == ProposalStatus::Approved && current_ledger <= proposal.expires_at
                && (proposal.unlock_ledger == 0 || current_ledger >= proposal.unlock_ledger)
                && VaultDAO::ensure_dependencies_executable(env, &proposal).is_ok()
        },
        Err(_) => false,
    }
}

impl VaultDAO {
    /// Vetoes a proposal that is pending or approved. Only configured addresses may.
    pub fn veto_proposal(env: &mut Env, vetoer: Address, proposal_id: u64) -> (r: Result<
        (),
        VaultError,
    >)
        requires
            old(env)@.authorized(vetoer),
        ensures
            (final(env)@, r) == old(env)@.veto(vetoer, proposal_id),
    {
        if !storage::is_veto_address(env, &vetoer)? {
            return Err(VaultError::Unauthorized);
        }
        let mut proposal = storage::get_proposal(env, proposal_id)?;
        if proposal.status == ProposalStatus::Executed {
            return Err(VaultError::ProposalAlreadyExecuted);
        }
        if proposal.status == ProposalStatus::Vetoed {
            return Ok(());
        }
        if proposal.status != ProposalStatus::Pending && proposal.status
            != ProposalStatus::Approved {
            return Err(VaultError::ProposalNotPending);
        }
        proposal.status = ProposalStatus::Vetoed;
        storage::set_proposal(env, &proposal);
        storage::remove_from_priority_queue(env, proposal.priority.code(), proposal.id);
        storage::extend_instance_ttl(env);
        storage::refund_spending_limits(env, proposal.amount);
        return_insurance(env, &proposal);
        return_stake(env, &proposal);
        env.publish(Event::ProposalVetoed { proposal_id: proposal.id, vetoer });
        Ok(())
    }

    /// Cancels a pending proposal.
    ///
    /// The proposer cancels: reserved spending, insurance and stake are given back. An admin
    /// who is not the proposer rejects: insurance and stake are slashed, and the reserved
    /// spending stays reserved.
    pub fn cancel_proposal(
        env: &mut Env,
        canceller: Address,
        proposal_id: u64,
        reason: Symbol,
    ) -> (r: Result<(), VaultError>)
        requires
            old(env)@.authorized(canceller),
            old(env)@.cancel_fits(canceller, proposal_id),
        ensures
            (final(env)@, r) == old(env)@.cancel(canceller, proposal_id, reason),
    {
        let proposal = storage::get_proposal(env, proposal_id)?;
        if proposal.status == ProposalStatus::Cancelled {
            return Err(VaultError::ProposalAlreadyCancelled);
        }
        if proposal.status != ProposalStatus::Pending {
            return Err(VaultError::ProposalNotPending);
        }
        let role = storage::get_role(env, &canceller);
        if role != Role::Admin && canceller != proposal.proposer {
            return Err(VaultError::Unauthorized);
        }
        if canceller != proposal.proposer {
            reject(env, canceller, proposal);
        } else {
            cancel(env, canceller, proposal, reason);
        }
        Ok(())
    }

    /// Who cancelled a proposal, why, when, and what was refunded.
    pub fn get_cancellation_record(env: &Env, proposal_id: u64) -> (r: Result<
        CancellationRecord,
        VaultError,
    >)
        ensures
            r == env@.cancellation(proposal_id),
    {
        storage::get_cancellation_record(env, proposal_id)
    }

    /// The cancelled proposals, in order of cancellation.
    pub fn get_cancellation_history(env: &Env) -> (r: Vec<u64>)
        ensures
            r@ == env@.cancellation_history(),
    {
        storage::get_cancellation_history(env)
    }

    /// Amends a pending proposal, which then has to be voted on anew. Only its proposer may.
    pub fn amend_proposal(
        env: &mut Env,
        proposer: Address,
        proposal_id: u64,
        new_recipient: Address,
        new_amount: i128,
        new_memo: Symbol,
    ) -> (r: Result<(), VaultError>)
        requires
            old(env)@.authorized(proposer),
            old(env)@.amend_fits(proposal_id, new_amount),
        ensures
            (final(env)@, r) == old(env)@.amend(
                proposer,
                proposal_id,
                new_recipient,
                new_amount,
                new_memo,
            ),
    {
        let config = storage::get_config(env)?;
        let mut proposal = storage::get_proposal(env, proposal_id)?;
        if proposal.proposer != proposer {
            return Err(VaultError::Unauthorized);
        }
        if proposal.status != ProposalStatus::Pending {
            return Err(VaultError::ProposalNotPending);
        }
        if new_amount <= 0 {
            return Err(VaultError::InvalidAmount);
        }
        if new_amount > config.spending_limit {
            return Err(VaultError::ExceedsProposalLimit);
        }
        adjust_spending(env, &config, proposal.amount, new_amount)?;
        let amendment = ProposalAmendment {
            proposal_id,
            amended_by: proposer,
            amended_at_ledger: env.now(),
            old_recipient: proposal.recipient,
            new_recipient,
            old_amount: proposal.amount,
            new_amount,
            old_memo: proposal.memo,
            new_memo,
        };
        proposal.recipient = new_recipient;
        proposal.amount = new_amount;
        proposal.memo = new_memo;
        proposal.approvals = Vec::new();
        proposal.abstentions = Vec::new();
        proposal.status = ProposalStatus::Pending;
        proposal.unlock_ledger = 0;
        storage::set_proposal(env, &proposal);
        storage::add_amendment_record(env, &amendment);
        storage::extend_instance_ttl(env);
        env.publish(Event::ProposalAmended { amendment });
        Ok(())
    }

    /// The amendments of a proposal, in order.
    pub fn get_proposal_amendments(env: &Env, proposal_id: u64) -> (r: Vec<ProposalAmendment>)
        ensures
            r@ == env@.amendment_history(proposal_id),
    {
        storage::get_amendment_history(env, proposal_id)
    }

    /// The proposal with an identifier.
    pub fn get_proposal(env: &Env, proposal_id: u64) -> (r: Result<Proposal, VaultError>)
        ensures
            crate::errors::res_view(r) == env@.proposal(proposal_id),
    {
        storage::get_proposal(env, proposal_id)
    }

    /// A page of proposals in ascending order, by identifier: up to `limit`, and at most 100,
    /// after the first `offset`.
    pub fn list_proposal_ids(env: &mut Env, offset: u64, limit: u64) -> (r: Vec<u64>)
        ensures
            r@ == crate::storage::page(
                old(env)@.proposal_ids(),
                offset as int,
                crate::math::min_int(limit as int, 100),
            ),
            final(env)@ == old(env)@.act(Action::ExtendInstanceTtl),
    {
        storage::extend_instance_ttl(env);
        storage::get_proposal_ids_paginated(env, offset, limit)
    }

    /// A page of proposals in ascending order: up to `limit`, and at most 50, after the first
    /// `offset`.
    pub fn list_proposals(env: &mut Env, offset: u64, limit: u64) -> (r: Vec<Proposal>)
        ensures
            r@.map_values(|p: Proposal| p@) == crate::storage::page(
                old(env)@.proposal_ids(),
                offset as int,
                crate::math::min_int(limit as int, 50),
            ).map_values(|id: u64| old(env)@.proposal(id)->Ok_0),
            final(env)@ == old(env)@.act(Action::ExtendInstanceTtl),
    {
        storage::extend_instance_ttl(env);
        let cap: u64 = if limit > 50 {
            50
        } else {
            limit
        };
        let ids = storage::get_proposal_ids_paginated(env, offset, cap);
        proof {
            crate::storage::lemma_ids_below(
                env@.proposals.records,
                env@.proposals.next_id as nat,
            );
        }
        let mut proposals: Vec<Proposal> = Vec::new();
        let mut i: usize = 0;
        while i < ids.len()
            invariant
                i <= ids.len(),
                env@ == old(env)@.act(Action::ExtendInstanceTtl),
                forall|j: int|
                    0 <= j < ids@.len() ==> env@.proposals.records.contains_key(
                        #[trigger] ids@[j],
                    ),
                proposals@.map_values(|p: Proposal| p@) =~= ids@.take(i as int).map_values(
                    |id: u64| old(env)@.proposal(id)->Ok_0,
                ),
            decreases ids.len() - i,
        {
            let ghost before = proposals@;
            if let Ok(proposal) = storage::get_proposal(env, ids[i]) {
                proposals.push(proposal);
                assert(proposals@.map_values(|p: Proposal| p@) =~= before.map_values(
                    |p: Proposal| p@,
                ).push(proposal@));
            }
            i += 1;
        }
        assert(ids@.take(ids@.len() as int) =~= ids@);
        proposals
    }

    /// The proposals that can be executed at present, in ascending order.
    pub fn get_executable_proposals(env: &Env) -> (r: Vec<u64>)
        ensures
            r@ == env@.proposal_ids().filter(|id: u64| env@.executable(id)),
    {
        let ghost keep = |id: u64| env@.executable(id);
        let next_id: u64 = storage::get_next_proposal_id(env);
        let mut found: Vec<u64> = Vec::new();
        let mut id: u64 = 1;
        proof {
            reveal(Seq::filter);
        }
        while id < next_id
            invariant
                1 <= id,
                id <= next_id || id == 1,
                keep == (|id: u64| env@.executable(id)),
                found@ == crate::storage::ids_below(env@.proposals.records, id as nat).filter(
                    keep,
                ),
                next_id == env@.proposals.next_id,
            decreases next_id - id,
        {
            proof {
                reveal(Seq::filter);
                let before = crate::storage::ids_below(env@.proposals.records, id as nat);
                assert(before.push(id).drop_last() =~= before);
            }
            if executable(env, id) {
                found.push(id);
            }
            id += 1;
        }
        proof {
            if next_id == 0 {
                assert(env@.proposal_ids() =~= crate::storage::ids_below(
                    env@.proposals.records,
                    1,
                ));
            }
        }
        found
    }

    /// Changes the priority of a pending proposal. Admins and its proposer may.
    pub fn change_priority(
        env: &mut Env,
        caller: Address,
        proposal_id: u64,
        new_priority: Priority,
    ) -> (r: Result<(), VaultError>)
        requires
            old(env)@.authorized(caller),
        ensures
            (final(env)@, r) == old(env)@.reprioritize(caller, proposal_id, new_priority),
    {
        let mut proposal = storage::get_proposal(env, proposal_id)?;
        if !may_edit(env, &caller, &proposal) {
            return Err(VaultError::Unauthorized);
        }
        if proposal.status != ProposalStatus::Pending {
            return Err(VaultError::ProposalNotPending);
        }
        storage::remove_from_priority_queue(env, proposal.priority.code(), proposal_id);
        storage::add_to_priority_queue(env, new_priority.code(), proposal_id);
        proposal.priority = new_priority;
        storage::set_proposal(env, &proposal);
        storage::extend_instance_ttl(env);
        Ok(())
    }

    /// The proposals queued at a priority.
    pub fn get_proposals_by_priority(env: &Env, priority: Priority) -> (r: Vec<u64>)
        ensures
            r@ == env@.priority_queue(priority.spec_code()),
    {
        storage::get_priority_queue(env, priority.code())
    }
}

} // verus!
