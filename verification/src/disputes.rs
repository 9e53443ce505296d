//! Disputes over proposals.

use vstd::prelude::*;

use crate::env::{Action, Env, EnvModel, Event};
use crate::errors::VaultError;
use crate::primitives::{list_contains, Address, Symbol, Texts};
use crate::proposals::Outcome;
use crate::storage;
use crate::types::{
    Dispute, DisputeModel, DisputeResolution, DisputeStatus, ProposalStatus, Role,
};
use crate::VaultDAO;

verus! {

impl EnvModel {
    /// Why an address may not dispute, if it may not: over an escrow its funder and recipient
    /// may, else signers.
    pub open spec fn disputer_refusal(self, disputer: Address, escrow_id: Option<u64>) -> Option<
        VaultError,
    > {
        match escrow_id {
            Some(id) => match self.escrow(id) {
                Err(error) => Some(error),
                Ok(escrow) => if disputer != escrow.funder && disputer != escrow.recipient {
                    Some(VaultError::Unauthorized)
                } else {
                    None
                },
            },
            None => match self.config() {
                Err(error) => Some(error),
                Ok(config) => if !config.signers.contains(disputer) {
                    Some(VaultError::NotASigner)
                } else {
                    None
                },
            },
        }
    }

    /// Why a dispute cannot be raised, if it cannot.
    pub open spec fn dispute_refusal(
        self,
        disputer: Address,
        proposal_id: u64,
        escrow_id: Option<u64>,
    ) -> Option<VaultError> {
        match self.proposal(proposal_id) {
            Err(error) => Some(error),
            Ok(proposal) => match self.disputer_refusal(disputer, escrow_id) {
                Some(error) => Some(error),
                None => if proposal.status == ProposalStatus::Executed || proposal.status
                    == ProposalStatus::Cancelled {
                    Some(VaultError::ProposalAlreadyExecuted)
                } else {
                    None
                },
            },
        }
    }

    /// What raising a dispute leaves behind.
    pub open spec fn raise_dispute(
        self,
        disputer: Address,
        proposal_id: u64,
        escrow_id: Option<u64>,
        reason: Symbol,
        evidence: Seq<Seq<u8>>,
    ) -> Outcome<u64> {
        let id = self.programs.next_dispute_id;
        match self.dispute_refusal(disputer, proposal_id, escrow_id) {
            Some(error) => (self, Err(error)),
            None => (
                self.bump_next_dispute_id().with_dispute(
                    DisputeModel {
                        id,
                        proposal_id,
                        disputer,
                        reason,
                        evidence,
                        status: DisputeStatus::Filed,
                        resolution: DisputeResolution::Dismissed,
                        arbitrator: disputer,
                        filed_at: self.now(),
                        resolved_at: 0,
                    },
                ).proposal_dispute_push(proposal_id, id).act(Action::ExtendInstanceTtl).publish(
                    Event::DisputeRaised { dispute_id: id, proposal_id, disputer },
                ),
                Ok(id),
            ),
        }
    }

    /// What resolving a dispute leaves behind.
    pub open spec fn resolve_dispute(
        self,
        admin: Address,
        dispute_id: u64,
        resolution: DisputeResolution,
    ) -> Outcome<()> {
        match self.config() {
            Err(error) => (self, Err(error)),
            Ok(_) => if self.role(admin) != Role::Admin {
                (self, Err(VaultError::Unauthorized))
            } else {
                match self.dispute(dispute_id) {
                    Err(error) => (self, Err(error)),
                    Ok(dispute) => if dispute.status == DisputeStatus::Resolved || dispute.status
                        == DisputeStatus::Dismissed {
                        (self, Err(VaultError::ProposalAlreadyExecuted))
                    } else {
                        (
                            self.with_dispute(
                                DisputeModel {
                                    status: if resolution == DisputeResolution::Dismissed {
                                        DisputeStatus::Dismissed
                                    } else {
                                        DisputeStatus::Resolved
                                    },
                                    resolution,
                                    arbitrator: admin,
                                    resolved_at: self.now(),
                                    ..dispute
                                },
                            ).publish(
                                Event::DisputeResolved {
                                    dispute_id,
                                    admin,
                                    resolution: resolution.spec_code(),
                                },
                            ),
                            Ok(()),
                        )
                    },
                }
            },
        }
    }
}

/// A dispute that an admin resolved is not resolved again.
pub proof fn law_disputes_are_resolved_once(
    env: EnvModel,
    admin: Address,
    dispute_id: u64,
    resolution: DisputeResolution,
    other: DisputeResolution,
)
    requires
        env.dispute(dispute_id) matches Ok(dispute) && dispute.id == dispute_id,
        env.resolve_dispute(admin, dispute_id, resolution).1 is Ok,
    ensures
        env.resolve_dispute(admin, dispute_id, resolution).0.resolve_dispute(
            admin,
            dispute_id,
            other,
        ).1 == Err::<(), _>(VaultError::ProposalAlreadyExecuted),
{
}

/// A raised dispute can be looked up, and is listed last among those of its proposal.
pub proof fn law_raised_disputes_are_listed(
    env: EnvModel,
    disputer: Address,
    proposal_id: u64,
    escrow_id: Option<u64>,
    reason: Symbol,
    evidence: Seq<Seq<u8>>,
)
    requires
        env.raise_dispute(disputer, proposal_id, escrow_id, reason, evidence).1 is Ok,
    ensures
        ({
            let (after, r) = env.raise_dispute(
                disputer,
                proposal_id,
                escrow_id,
                reason,
                evidence,
            );
            &&& after.dispute(r->Ok_0) matches Ok(dispute) && dispute.proposal_id == proposal_id
                && dispute.disputer == disputer && dispute.status == DisputeStatus::Filed
            &&& after.proposal_disputes(proposal_id) == env.proposal_disputes(proposal_id).push(
                r->Ok_0,
            )
        }),
{
}

/// Checks that an address may dispute.
fn check_disputer(env: &Env, disputer: &Address, escrow_id: Option<u64>) -> (r: Result<
    (),
    VaultError,
>)
    ensures
        r == crate::errors::unless(env@.disputer_refusal(*disputer, escrow_id)),
{
    match escrow_id {
        Some(id) => {
            let escrow = storage::get_escrow(env, id)?;
            if *disputer != escrow.funder && *disputer != escrow.recipient {
                return Err(VaultError::Unauthorized);
            }
        },
        None => {
            let config = storage::get_config(env)?;
            if !list_contains(&config.signers, disputer) {
                return Err(VaultError::NotASigner);
            }
        },
    }
    Ok(())
}

impl VaultDAO {
    /// Raises a dispute over a proposal that was neither executed nor cancelled. Over an escrow
    /// its funder and recipient may, else signers.
    pub fn raise_dispute(
        env: &mut Env,
        disputer: Address,
        proposal_id: u64,
        escrow_id: Option<u64>,
        reason: Symbol,
        evidence: Texts,
    ) -> (r: Result<u64, VaultError>)
        requires
            old(env)@.authorized(disputer),
            old(env)@.has_room(),
        ensures
            (final(env)@, r) == old(env)@.raise_dispute(
                disputer,
                proposal_id,
                escrow_id,
                reason,
                evidence@,
            ),
    {
        let proposal = storage::get_proposal(env, proposal_id)?;
        check_disputer(env, &disputer, escrow_id)?;
        if proposal.status == ProposalStatus::Executed || proposal.status
            == ProposalStatus::Cancelled {
            return Err(VaultError::ProposalAlreadyExecuted);
        }
        let dispute_id: u64 = storage::increment_dispute_id(env);
        let dispute = Dispute {
            id: dispute_id,
            proposal_id,
            disputer,
            reason,
            evidence,
            status: DisputeStatus::Filed,
            resolution: DisputeResolution::Dismissed,
            arbitrator: disputer,
            filed_at: env.now(),
            resolved_at: 0,
        };
        storage::set_dispute(env, &dispute);
        storage::add_proposal_dispute(env, proposal_id, dispute_id);
        storage::extend_instance_ttl(env);
        env.publish(Event::DisputeRaised { dispute_id, proposal_id, disputer });
        Ok(dispute_id)
    }

    /// Resolves a dispute. Only admins may.
    pub fn resolve_dispute(
        env: &mut Env,
        admin: Address,
        dispute_id: u64,
        resolution: DisputeResolution,
    ) -> (r: Result<(), VaultError>)
        requires
            old(env)@.authorized(admin),
        ensures
            (final(env)@, r) == old(env)@.resolve_dispute(admin, dispute_id, resolution),
    {
        let _ = storage::get_config(env)?;
        if storage::get_role(env, &admin) != Role::Admin {
            return Err(VaultError::Unauthorized);
        }
        let mut dispute = storage::get_dispute(env, dispute_id)?;
        if dispute.status == DisputeStatus::Resolved || dispute.status
            == DisputeStatus::Dismissed {
            return Err(VaultError::ProposalAlreadyExecuted);
        }
        dispute.status = match resolution {
            DisputeResolution::Dismissed => DisputeStatus::Dismissed,
            _ => DisputeStatus::Resolved,
        };
        dispute.resolution = resolution;
        dispute.arbitrator = admin;
        dispute.resolved_at = env.now();
        storage::set_dispute(env, &dispute);
        env.publish(
            Event::DisputeResolved { dispute_id, admin, resolution: resolution.code() },
        );
        Ok(())
    }

    /// The dispute with an identifier.
    pub fn get_dispute(env: &Env, dispute_id: u64) -> (r: Result<Dispute, VaultError>)
        ensures
            crate::errors::res_view(r) == env@.dispute(dispute_id),
    {
        storage::get_dispute(env, dispute_id)
    }

    /// The disputes over a proposal.
    pub fn get_proposal_disputes(env: &Env, proposal_id: u64) -> (r: Vec<u64>)
        ensures
            r@ == env@.proposal_disputes(proposal_id),
    {
        storage::get_proposal_disputes(env, proposal_id)
    }
}

} // verus!
