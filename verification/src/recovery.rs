//! Recovery: guardians replace the signers of a vault, after a delay.

use vstd::prelude::*;

use crate::env::{Env, EnvModel, Event};
use crate::errors::VaultError;
use crate::primitives::{copy_list, list_contains, Address};
use crate::proposals::Outcome;
use crate::storage;
use crate::types::{
    ConfigModel, RecoveryConfig, RecoveryConfigModel, RecoveryProposal, RecoveryProposalModel,
    RecoveryStatus, Role,
};
use crate::VaultDAO;

verus! {

impl RecoveryProposalModel {
    /// Whether the proposal is one that can have been made: its threshold can be reached, and
    /// no guardian approved it twice.
    pub open spec fn valid(self) -> bool {
        &&& 1 <= self.new_threshold <= self.new_signers.len()
        &&& self.new_signers.len() <= u32::MAX
        &&& self.approvals.no_duplicates()
    }
}

impl EnvModel {
    /// What setting the recovery rules leaves behind.
    pub open spec fn change_recovery_config(self, admin: Address, rules: RecoveryConfigModel) -> 
        Outcome<()> {
        if self.role(admin) != Role::Admin {
            (self, Err(VaultError::InsufficientRole))
        } else {
            match self.config() {
                Err(error) => (self, Err(error)),
                Ok(config) => (
                    self.with_config(
                        ConfigModel { recovery_config: rules, ..config },
                    ).publish(Event::RecoveryConfigUpdated { admin }),
                    Ok(()),
                ),
            }
        }
    }

    /// Why a recovery cannot be proposed, if it cannot.
    pub open spec fn recovery_refusal(
        self,
        config: ConfigModel,
        caller: Address,
        signers: Seq<Address>,
        threshold: u32,
    ) -> Option<VaultError> {
        if !config.recovery_config.guardians.contains(caller) {
            Some(VaultError::Unauthorized)
        } else if signers.len() == 0 {
            Some(VaultError::NoSigners)
        } else if threshold < 1 {
            Some(VaultError::ThresholdTooLow)
        } else if threshold > signers.len() {
            Some(VaultError::ThresholdTooHigh)
        } else {
            None
        }
    }

    /// What proposing a recovery leaves behind.
    pub open spec fn initiate_recovery(
        self,
        caller: Address,
        signers: Seq<Address>,
        threshold: u32,
    ) -> Outcome<u64> {
        let id = self.programs.next_recovery_id;
        match self.config() {
            Err(error) => (self, Err(error)),
            Ok(config) => match self.recovery_refusal(config, caller, signers, threshold) {
                Some(error) => (self, Err(error)),
                None => (
                    self.bump_next_recovery_id().with_recovery_proposal(
                        RecoveryProposalModel {
                            id,
                            new_signers: signers,
                            new_threshold: threshold,
                            approvals: Seq::empty(),
                            status: RecoveryStatus::Pending,
                            created_at: self.now(),
                            execution_after: 0,
                        },
                    ).publish(Event::RecoveryProposed { proposal_id: id, threshold }),
                    Ok(id),
                ),
            },
        }
    }

    /// A recovery proposal after a guardian approved it.
    pub open spec fn approved_recovery(
        self,
        rules: RecoveryConfigModel,
        proposal: RecoveryProposalModel,
        guardian: Address,
    ) -> RecoveryProposalModel {
        let approvals = proposal.approvals.push(guardian);
        if approvals.len() >= rules.threshold {
            RecoveryProposalModel {
                approvals,
                status: RecoveryStatus::Approved,
                execution_after: (self.now() + rules.delay) as u64,
                ..proposal
            }
        } else {
            RecoveryProposalModel { approvals, ..proposal }
        }
    }

    /// Whether there is a ledger from which on a recovery, once approved, can be executed.
    pub open spec fn recovery_fits(self, proposal_id: u64) -> bool {
        match (self.config(), self.recovery_proposal(proposal_id)) {
            (Ok(config), Ok(proposal)) => proposal.status == RecoveryStatus::Pending
                && proposal.approvals.len() + 1 >= config.recovery_config.threshold ==> self.now()
                + config.recovery_config.delay <= u64::MAX,
            _ => true,
        }
    }

    /// What approving a recovery leaves behind.
    pub open spec fn approve_recovery(self, guardian: Address, proposal_id: u64) -> Outcome<()> {
        match self.config() {
            Err(error) => (self, Err(error)),
            Ok(config) => if !config.recovery_config.guardians.contains(guardian) {
                (self, Err(VaultError::Unauthorized))
            } else {
                match self.recovery_proposal(proposal_id) {
                    Err(error) => (self, Err(error)),
                    Ok(proposal) => if proposal.status != RecoveryStatus::Pending {
                        (self, Err(VaultError::ProposalNotPending))
                    } else if proposal.approvals.contains(guardian) {
                        (self, Err(VaultError::AlreadyApproved))
                    } else {
                        (
                            self.with_recovery_proposal(
                                self.approved_recovery(config.recovery_config, proposal, guardian),
                            ).publish(Event::RecoveryApproved { proposal_id, guardian }),
                            Ok(()),
                        )
                    },
                }
            },
        }
    }

    /// What executing a recovery leaves behind.
    pub open spec fn execute_recovery(self, proposal_id: u64) -> Outcome<()> {
        match self.recovery_proposal(proposal_id) {
            Err(error) => (self, Err(error)),
            Ok(proposal) => if proposal.status != RecoveryStatus::Approved {
                (self, Err(VaultError::ProposalNotApproved))
            } else if self.now() < proposal.execution_after {
                (self, Err(VaultError::TimelockNotExpired))
            } else {
                match self.config() {
                    Err(error) => (self, Err(error)),
                    Ok(config) => (
                        self.with_config(
                            ConfigModel {
                                signers: proposal.new_signers,
                                threshold: proposal.new_threshold,
                                quorum: crate::math::min_int(
                                    config.quorum as int,
                                    proposal.new_signers.len() as int,
                                ) as u32,
                                ..config
                            },
                        ).with_recovery_proposal(
                            RecoveryProposalModel { status: RecoveryStatus::Executed, ..proposal },
                        ).publish(Event::RecoveryExecuted { proposal_id }).publish(
                            Event::ConfigUpdated { admin: self.ledger.contract },
                        ),
                        Ok(()),
                    ),
                }
            },
        }
    }

    /// What cancelling a recovery leaves behind.
    pub open spec fn cancel_recovery(self, admin: Address, proposal_id: u64) -> Outcome<()> {
        if self.role(admin) != Role::Admin {
            (self, Err(VaultError::InsufficientRole))
        } else {
            match self.recovery_proposal(proposal_id) {
                Err(error) => (self, Err(error)),
                Ok(proposal) => if proposal.status != RecoveryStatus::Pending && proposal.status
                    != RecoveryStatus::Approved {
                    (self, Err(VaultError::ProposalNotPending))
                } else {
                    (
                        self.with_recovery_proposal(
                            RecoveryProposalModel { status: RecoveryStatus::Cancelled, ..proposal },
                        ).publish(Event::RecoveryCancelled { proposal_id, admin }),
                        Ok(()),
                    )
                },
            }
        }
    }
}

/// Approving keeps a recovery proposal valid: no guardian counts twice. It becomes approved
/// exactly when enough guardians approved it, and can then be executed after the delay.
pub proof fn law_recovery_needs_enough_guardians(
    env: EnvModel,
    guardian: Address,
    proposal_id: u64,
)
    requires
        env.recovery_fits(proposal_id),
        env.recovery_proposal(proposal_id) matches Ok(proposal) && proposal.valid() && proposal.id
            == proposal_id,
        env.approve_recovery(guardian, proposal_id).1 is Ok,
    ensures
        ({
            let rules = env.config()->Ok_0.recovery_config;
            let after = env.approve_recovery(guardian, proposal_id).0.recovery_proposal(
                proposal_id,
            );
            &&& after is Ok
            &&& after->Ok_0.valid()
            &&& rules.guardians.contains(guardian)
            &&& after->Ok_0.status == RecoveryStatus::Approved <==> after->Ok_0.approvals.len()
                >= rules.threshold
            &&& after->Ok_0.status == RecoveryStatus::Approved ==> after->Ok_0.execution_after
                == env.now() + rules.delay
        }),
{
}

/// A recovered vault can reach its threshold and its quorum.
pub proof fn law_recovered_vaults_can_decide(env: EnvModel, proposal_id: u64)
    requires
        env.recovery_proposal(proposal_id) matches Ok(proposal) && proposal.valid(),
        env.execute_recovery(proposal_id).1 is Ok,
    ensures
        env.execute_recovery(proposal_id).0.config() matches Ok(config) && {
            &&& 1 <= config.threshold <= config.signers.len()
            &&& config.quorum <= config.signers.len()
        },
{
}

/// A recovery is executed at most once, and not after it was cancelled.
pub proof fn law_recovery_happens_once(env: EnvModel, admin: Address, proposal_id: u64)
    requires
        env.recovery_proposal(proposal_id) matches Ok(proposal) && proposal.id == proposal_id,
    ensures
        env.execute_recovery(proposal_id).1 is Ok ==> env.execute_recovery(
            proposal_id,
        ).0.execute_recovery(proposal_id).1 == Err::<(), _>(VaultError::ProposalNotApproved),
        env.cancel_recovery(admin, proposal_id).1 is Ok ==> env.cancel_recovery(
            admin,
            proposal_id,
        ).0.execute_recovery(proposal_id).1 == Err::<(), _>(VaultError::ProposalNotApproved),
{
}

impl VaultDAO {
    /// Sets the recovery rules. Only admins may.
    pub fn set_recovery_config(env: &mut Env, admin: Address, config: RecoveryConfig) -> (r: Result<
        (),
        VaultError,
    >)
        requires
            old(env)@.authorized(admin),
        ensures
            (final(env)@, r) == old(env)@.change_recovery_config(admin, config@),
    {
        if storage::get_role(env, &admin) != Role::Admin {
            return Err(VaultError::InsufficientRole);
        }
        let mut vault_config = storage::get_config(env)?;
        vault_config.recovery_config = config;
        storage::set_config(env, &vault_config);
        env.publish(Event::RecoveryConfigUpdated { admin });
        Ok(())
    }

    /// Proposes new signers and a new threshold. Only guardians may.
    pub fn initiate_recovery(
        env: &mut Env,
        caller: Address,
        new_signers: Vec<Address>,
        new_threshold: u32,
    ) -> (r: Result<u64, VaultError>)
        requires
            old(env)@.authorized(caller),
            old(env)@.has_room(),
        ensures
            (final(env)@, r) == old(env)@.initiate_recovery(caller, new_signers@, new_threshold),
    {
        let config = storage::get_config(env)?;
        if !list_contains(&config.recovery_config.guardians, &caller) {
            return Err(VaultError::Unauthorized);
        }
        if new_signers.len() == 0 {
            return Err(VaultError::NoSigners);
        }
        if new_threshold < 1 {
            return Err(VaultError::ThresholdTooLow);
        }
        if new_threshold as u64 > new_signers.len() as u64 {
            return Err(VaultError::ThresholdTooHigh);
        }
        let id: u64 = storage::increment_recovery_id(env);
        let proposal = RecoveryProposal {
            id,
            new_signers,
            new_threshold,
            approvals: Vec::new(),
            status: RecoveryStatus::Pending,
            created_at: env.now(),
            execution_after: 0,
        };
        storage::set_recovery_proposal(env, &proposal);
        env.publish(Event::RecoveryProposed { proposal_id: id, threshold: new_threshold });
        Ok(id)
    }

    /// Approves a recovery. Only guardians may, each once.
    pub fn approve_recovery(env: &mut Env, guardian: Address, proposal_id: u64) -> (r: Result<
        (),
        VaultError,
    >)
        requires
            old(env)@.authorized(guardian),
            old(env)@.recovery_fits(proposal_id),
        ensures
            (final(env)@, r) == old(env)@.approve_recovery(guardian, proposal_id),
    {
        let config = storage::get_config(env)?;
        if !list_contains(&config.recovery_config.guardians, &guardian) {
            return Err(VaultError::Unauthorized);
        }
        let mut proposal = storage::get_recovery_proposal(env, proposal_id)?;
        if proposal.status != RecoveryStatus::Pending {
            return Err(VaultError::ProposalNotPending);
        }
        if list_contains(&proposal.approvals, &guardian) {
            return Err(VaultError::AlreadyApproved);
        }
        proposal.approvals.push(guardian);
        if proposal.approvals.len() as u64 >= config.recovery_config.threshold as u64 {
            proposal.status = RecoveryStatus::Approved;
            proposal.execution_after = env.now() + config.recovery_config.delay;
        }
        storage::set_recovery_proposal(env, &proposal);
        env.publish(Event::RecoveryApproved { proposal_id, guardian });
        Ok(())
    }

    /// Executes an approved recovery once its delay has passed. Anyone may.
    pub fn execute_recovery(env: &mut Env, proposal_id: u64) -> (r: Result<(), VaultError>)
        ensures
            (final(env)@, r) == old(env)@.execute_recovery(proposal_id),
    {
        let mut proposal = storage::get_recovery_proposal(env, proposal_id)?;
        if proposal.status != RecoveryStatus::Approved {
            return Err(VaultError::ProposalNotApproved);
        }
        if env.now() < proposal.execution_after {
            return Err(VaultError::TimelockNotExpired);
        }
        let mut config = storage::get_config(env)?;
        config.signers = copy_list(&proposal.new_signers);
        config.threshold = proposal.new_threshold;
        if config.quorum as u64 > config.signers.len() as u64 {
            config.quorum = config.signers.len() as u32;
        }
        storage::set_config(env, &config);
        proposal.status = RecoveryStatus::Executed;
        storage::set_recovery_proposal(env, &proposal);
        env.publish(Event::RecoveryExecuted { proposal_id });
        let vault = env.ledger.contract;
        env.publish(Event::ConfigUpdated { admin: vault });
        Ok(())
    }

    /// Cancels a recovery that was not executed. Only admins may.
    pub fn cancel_recovery(env: &mut Env, admin: Address, proposal_id: u64) -> (r: Result<
        (),
        VaultError,
    >)
        requires
            old(env)@.authorized(admin),
        ensures
            (final(env)@, r) == old(env)@.cancel_recovery(admin, proposal_id),
    {
        if storage::get_role(env, &admin) != Role::Admin {
            return Err(VaultError::InsufficientRole);
        }
        let mut proposal = storage::get_recovery_proposal(env, proposal_id)?;
        if proposal.status != RecoveryStatus::Pending && proposal.status
            != RecoveryStatus::Approved {
            return Err(VaultError::ProposalNotPending);
        }
        proposal.status = RecoveryStatus::Cancelled;
        storage::set_recovery_proposal(env, &proposal);
        env.publish(Event::RecoveryCancelled { proposal_id, admin });
        Ok(())
    }

    /// The recovery rules.
    pub fn get_recovery_config(env: &Env) -> (r: Result<RecoveryConfig, VaultError>)
        ensures
            crate::errors::res_view(r) == match env@.config() {
                Ok(config) => Ok(config.recovery_config),
                Err(error) => Err(error),
            },
    {
        let config = storage::get_config(env)?;
        Ok(config.recovery_config)
    }

    /// The recovery proposal with an identifier.
    pub fn get_recovery_proposal(env: &Env, id: u64) -> (r: Result<RecoveryProposal, VaultError>)
        ensures
            crate::errors::res_view(r) == env@.recovery_proposal(id),
    {
        storage::get_recovery_proposal(env, id)
    }
}

} // verus!
