//! Initialization, roles, signers and limits.

use vstd::prelude::*;

use crate::env::{Action, Env, EnvModel, Event};
use crate::errors::VaultError;
use crate::math::count_u32;
use crate::primitives::{list_contains, list_position, list_without, Address};
use crate::proposals::Outcome;
use crate::storage;
use crate::types::{
    AuditAction, Config, ConfigModel, InitConfig, InitConfigModel, ProposalModel,
    ProposalStatus, Role, RoleAssignment, StakingConfig, VotingStrategy,
};
use crate::VaultDAO;

verus! {

/// The configuration that a vault is initialized with.
pub open spec fn initial_config(init: InitConfigModel) -> ConfigModel {
    ConfigModel {
        signers: init.signers,
        threshold: init.threshold,
        quorum: init.quorum,
        quorum_percentage: init.quorum_percentage,
        spending_limit: init.spending_limit,
        daily_limit: init.daily_limit,
        weekly_limit: init.weekly_limit,
        timelock_threshold: init.timelock_threshold,
        timelock_delay: init.timelock_delay,
        velocity_limit: init.velocity_limit,
        threshold_strategy: init.threshold_strategy,
        pre_execution_hooks: init.pre_execution_hooks,
        post_execution_hooks: init.post_execution_hooks,
        default_voting_deadline: init.default_voting_deadline,
        veto_addresses: init.veto_addresses,
        retry_config: init.retry_config,
        recovery_config: init.recovery_config,
        staking_config: init.staking_config,
    }
}

/// Why a configuration is refused, if it is.
pub open spec fn init_refusal(init: InitConfigModel) -> Option<VaultError> {
    if init.signers.len() == 0 {
        Some(VaultError::NoSigners)
    } else if init.threshold < 1 {
        Some(VaultError::ThresholdTooLow)
    } else if init.threshold > init.signers.len() {
        Some(VaultError::ThresholdTooHigh)
    } else if init.quorum > init.signers.len() {
        Some(VaultError::QuorumTooHigh)
    } else if init.spending_limit <= 0 || init.daily_limit <= 0 || init.weekly_limit <= 0 {
        Some(VaultError::InvalidAmount)
    } else {
        None
    }
}

impl EnvModel {
    /// The state in which the roles of several addresses are tracked.
    pub open spec fn track_roles(self, addrs: Seq<Address>) -> EnvModel
        decreases addrs.len(),
    {
        if addrs.len() == 0 {
            self
        } else {
            self.track_roles(addrs.drop_last()).with_role_index(addrs.last())
        }
    }

    /// The state after initialization.
    pub open spec fn initialized(self, admin: Address, init: InitConfigModel) -> EnvModel {
        self.with_config(initial_config(init)).with_voting_strategy(
            VotingStrategy::Simple,
        ).with_role(admin, Role::Admin).track_roles(
            init.signers,
        ).with_initialized().act(Action::ExtendInstanceTtl).audit(
            AuditAction::Initialize,
            admin,
            0,
        ).publish(Event::Initialized { admin, threshold: init.threshold })
    }

    /// What initialization leaves behind.
    pub open spec fn initialize(self, admin: Address, init: InitConfigModel) -> Outcome<()> {
        if self.is_initialized() {
            (self, Err(VaultError::AlreadyInitialized))
        } else {
            match init_refusal(init) {
                Some(error) => (self, Err(error)),
                None => (self.initialized(admin, init), Ok(())),
            }
        }
    }

    /// The state after the configuration was changed, kept alive and audited.
    pub open spec fn change_config(
        self,
        admin: Address,
        config: ConfigModel,
        action: AuditAction,
    ) -> EnvModel {
        self.with_config(config).act(Action::ExtendInstanceTtl).audit(action, admin, 0).publish(
            Event::ConfigUpdated { admin },
        )
    }

    /// What changing the threshold leaves behind.
    pub open spec fn update_threshold(self, admin: Address, threshold: u32) -> Outcome<()> {
        if self.role(admin) != Role::Admin {
            (self, Err(VaultError::Unauthorized))
        } else {
            match self.config() {
                Err(error) => (self, Err(error)),
                Ok(config) => if threshold < 1 {
                    (self, Err(VaultError::ThresholdTooLow))
                } else if threshold > config.signers.len() {
                    (self, Err(VaultError::ThresholdTooHigh))
                } else {
                    (
                        self.change_config(
                            admin,
                            ConfigModel { threshold, ..config },
                            AuditAction::UpdateThreshold,
                        ),
                        Ok(()),
                    )
                },
            }
        }
    }

    /// What changing the limits leaves behind.
    pub open spec fn update_limits(
        self,
        admin: Address,
        spending_limit: i128,
        daily_limit: i128,
        weekly_limit: i128,
    ) -> Outcome<()> {
        match self.config() {
            Err(error) => (self, Err(error)),
            Ok(config) => if self.role(admin) != Role::Admin {
                (self, Err(VaultError::Unauthorized))
            } else if !(0 < spending_limit <= daily_limit <= weekly_limit) {
                (self, Err(VaultError::InvalidAmount))
            } else {
                (
                    self.change_config(
                        admin,
                        ConfigModel { spending_limit, daily_limit, weekly_limit, ..config },
                        AuditAction::UpdateLimits,
                    ),
                    Ok(()),
                )
            },
        }
    }

    /// What changing the quorum leaves behind.
    pub open spec fn update_quorum(self, admin: Address, quorum: u32) -> Outcome<()> {
        if self.role(admin) != Role::Admin {
            (self, Err(VaultError::Unauthorized))
        } else {
            match self.config() {
                Err(error) => (self, Err(error)),
                Ok(config) => if quorum > config.signers.len() {
                    (self, Err(VaultError::QuorumTooHigh))
                } else {
                    (
                        self.with_config(ConfigModel { quorum, ..config }).act(
                            Action::ExtendInstanceTtl,
                        ).publish(Event::ConfigUpdated { admin }).publish(
                            Event::QuorumUpdated {
                                admin,
                                old_quorum: config.quorum,
                                new_quorum: quorum,
                            },
                        ),
                        Ok(()),
                    )
                },
            }
        }
    }

    /// What changing the voting strategy leaves behind.
    pub open spec fn update_strategy(self, admin: Address, strategy: VotingStrategy) -> Outcome<
        (),
    > {
        if self.role(admin) != Role::Admin {
            (self, Err(VaultError::Unauthorized))
        } else {
            (
                self.with_voting_strategy(strategy).act(Action::ExtendInstanceTtl).publish(
                    Event::ConfigUpdated { admin },
                ),
                Ok(()),
            )
        }
    }

    /// What changing the voting deadline of a proposal leaves behind.
    pub open spec fn extend_deadline(self, admin: Address, proposal_id: u64, new_deadline: u64) -> 
        Outcome<()> {
        if self.role(admin) != Role::Admin {
            (self, Err(VaultError::Unauthorized))
        } else {
            match self.proposal(proposal_id) {
                Err(error) => (self, Err(error)),
                Ok(proposal) => if proposal.status != ProposalStatus::Pending {
                    (self, Err(VaultError::ProposalNotPending))
                } else {
                    (
                        self.with_proposal(
                            ProposalModel { voting_deadline: new_deadline, ..proposal },
                        ).act(Action::ExtendInstanceTtl).publish(
                            Event::VotingDeadlineExtended {
                                proposal_id,
                                old_deadline: proposal.voting_deadline,
                                new_deadline,
                                admin,
                            },
                        ),
                        Ok(()),
                    )
                },
            }
        }
    }

    /// Why a withdrawal from a pool is refused, if it is.
    pub open spec fn withdrawal_refusal(self, admin: Address, pool: i128, amount: i128) -> Option<
        VaultError,
    > {
        if self.role(admin) != Role::Admin {
            Some(VaultError::Unauthorized)
        } else if amount <= 0 {
            Some(VaultError::InvalidAmount)
        } else if amount > pool {
            Some(VaultError::InsufficientBalance)
        } else {
            None
        }
    }

    /// What withdrawing from the insurance pool leaves behind.
    pub open spec fn withdraw_insurance(
        self,
        admin: Address,
        token: Address,
        recipient: Address,
        amount: i128,
    ) -> Outcome<()> {
        match self.withdrawal_refusal(admin, self.insurance_pool(token), amount) {
            Some(error) => (self, Err(error)),
            None => (
                self.insurance_pool_sub(token, amount).act(
                    Action::Transfer { token, to: recipient, amount },
                ),
                Ok(()),
            ),
        }
    }

    /// What withdrawing from the stake pool leaves behind.
    pub open spec fn withdraw_stakes(
        self,
        admin: Address,
        token: Address,
        recipient: Address,
        amount: i128,
    ) -> Outcome<()> {
        match self.withdrawal_refusal(admin, self.stake_pool(token), amount) {
            Some(error) => (self, Err(error)),
            None => (
                self.stake_pool_sub(token, amount).act(
                    Action::Transfer { token, to: recipient, amount },
                ),
                Ok(()),
            ),
        }
    }

    /// What changing the staking rules leaves behind.
    pub open spec fn update_staking(self, admin: Address, rules: StakingConfig) -> Outcome<()> {
        if self.role(admin) != Role::Admin {
            (self, Err(VaultError::Unauthorized))
        } else {
            (
                self.with_staking_config(rules).act(Action::ExtendInstanceTtl).publish(
                    Event::ConfigUpdated { admin },
                ),
                Ok(()),
            )
        }
    }

    /// What assigning a role leaves behind.
    pub open spec fn assign_role(self, admin: Address, target: Address, role: Role) -> Outcome<
        (),
    > {
        if !self.is_initialized() {
            (self, Err(VaultError::NotInitialized))
        } else if self.role(admin) != Role::Admin {
            (self, Err(VaultError::Unauthorized))
        } else {
            (
                self.with_role(target, role).act(Action::ExtendInstanceTtl).publish(
                    Event::RoleAssigned { addr: target, role: role.spec_code() },
                ).audit(AuditAction::SetRole, admin, 0),
                Ok(()),
            )
        }
    }

    /// What removing a signer leaves behind. As many signers as the threshold must remain.
    pub open spec fn remove_signer(self, admin: Address, signer: Address) -> Outcome<()> {
        if self.role(admin) != Role::Admin {
            (self, Err(VaultError::Unauthorized))
        } else {
            match self.config() {
                Err(error) => (self, Err(error)),
                Ok(config) => match crate::primitives::first_index(config.signers, signer) {
                    None => (self, Err(VaultError::SignerNotFound)),
                    Some(i) => if config.signers.len() - 1 < config.threshold {
                        (self, Err(VaultError::CannotRemoveSigner))
                    } else {
                        (
                            self.change_config(
                                admin,
                                ConfigModel { signers: config.signers.remove(i), ..config },
                                AuditAction::RemoveSigner,
                            ),
                            Ok(()),
                        )
                    },
                },
            }
        }
    }

    /// What adding a veto address leaves behind.
    pub open spec fn add_veto(self, admin: Address, addr: Address) -> Outcome<()> {
        if self.role(admin) != Role::Admin {
            (self, Err(VaultError::InsufficientRole))
        } else {
            match self.config() {
                Err(error) => (self, Err(error)),
                Ok(config) => if config.veto_addresses.contains(addr) {
                    (self, Err(VaultError::AddressAlreadyOnList))
                } else {
                    (
                        self.with_config(
                            ConfigModel {
                                veto_addresses: config.veto_addresses.push(addr),
                                ..config
                            },
                        ).act(Action::ExtendInstanceTtl),
                        Ok(()),
                    )
                },
            }
        }
    }

    /// What removing a veto address leaves behind.
    pub open spec fn remove_veto(self, admin: Address, addr: Address) -> Outcome<()> {
        if self.role(admin) != Role::Admin {
            (self, Err(VaultError::InsufficientRole))
        } else {
            match self.config() {
                Err(error) => (self, Err(error)),
                Ok(config) => if !config.veto_addresses.contains(addr) {
                    (self, Err(VaultError::AddressNotOnList))
                } else {
                    (
                        self.with_config(
                            ConfigModel {
                                veto_addresses: crate::primitives::without(
                                    config.veto_addresses,
                                    addr,
                                ),
                                ..config
                            },
                        ).act(Action::ExtendInstanceTtl),
                        Ok(()),
                    )
                },
            }
        }
    }

    /// Whether the threshold asks for at least one and at most all of the signers.
    pub open spec fn threshold_sound(self) -> bool {
        match self.access.config {
            Some(config) => 1 <= config.threshold <= config.signers.len(),
            None => true,
        }
    }
}

/// A vault that was initialized, and whose threshold was changed or a signer of which was
/// removed, asks for at least one and at most all of its signers.
pub proof fn law_threshold_stays_reachable(
    env: EnvModel,
    admin: Address,
    init: InitConfigModel,
    threshold: u32,
    signer: Address,
)
    requires
        env.threshold_sound(),
    ensures
        env.initialize(admin, init).0.threshold_sound(),
        env.update_threshold(admin, threshold).0.threshold_sound(),
        env.remove_signer(admin, signer).0.threshold_sound(),
{
    lemma_track_roles_frame(
        env.with_config(initial_config(init)).with_voting_strategy(
            VotingStrategy::Simple,
        ).with_role(admin, Role::Admin),
        init.signers,
    );
    if let Ok(config) = env.config() {
        crate::primitives::lemma_first_index(config.signers, signer);
    }
}

/// Tracking roles changes which are tracked, and nothing else.
pub(crate) proof fn lemma_track_roles_frame(env: EnvModel, addrs: Seq<Address>)
    ensures
        env.track_roles(addrs).access.config == env.access.config,
        env.track_roles(addrs).access.roles == env.access.roles,
        env.track_roles(addrs).audit == env.audit,
    decreases addrs.len(),
{
    if addrs.len() > 0 {
        lemma_track_roles_frame(env, addrs.drop_last());
    }
}

impl VaultDAO {
    /// Initializes the vault, once.
    pub fn initialize(env: &mut Env, admin: Address, config: InitConfig) -> (r: Result<
        (),
        VaultError,
    >)
        requires
            old(env)@.authorized(admin),
            old(env)@.has_room(),
        ensures
            (final(env)@, r) == old(env)@.initialize(admin, config@),
    {
        if storage::is_initialized(env) {
            return Err(VaultError::AlreadyInitialized);
        }
        if config.signers.len() == 0 {
            return Err(VaultError::NoSigners);
        }
        if config.threshold < 1 {
            return Err(VaultError::ThresholdTooLow);
        }
        if config.threshold as u128 > config.signers.len() as u128 {
            return Err(VaultError::ThresholdTooHigh);
        }
        if config.quorum as u128 > config.signers.len() as u128 {
            return Err(VaultError::QuorumTooHigh);
        }
        if config.spending_limit <= 0 || config.daily_limit <= 0 || config.weekly_limit <= 0 {
            return Err(VaultError::InvalidAmount);
        }
        let threshold: u32 = config.threshold;
        let stored = Config {
            signers: config.signers,
            threshold: config.threshold,
            quorum: config.quorum,
            quorum_percentage: config.quorum_percentage,
            spending_limit: config.spending_limit,
            daily_limit: config.daily_limit,
            weekly_limit: config.weekly_limit,
            timelock_threshold: config.timelock_threshold,
            timelock_delay: config.timelock_delay,
            velocity_limit: config.velocity_limit,
            threshold_strategy: config.threshold_strategy,
            pre_execution_hooks: config.pre_execution_hooks,
            post_execution_hooks: config.post_execution_hooks,
            default_voting_deadline: config.default_voting_deadline,
            veto_addresses: config.veto_addresses,
            retry_config: config.retry_config,
            recovery_config: config.recovery_config,
            staking_config: config.staking_config,
        };
        storage::set_config(env, &stored);
        storage::set_voting_strategy(env, &VotingStrategy::Simple);
        storage::set_role(env, &admin, Role::Admin);
        track_roles(env, &stored.signers);
        storage::set_initialized(env);
        storage::extend_instance_ttl(env);
        storage::create_audit_entry(env, AuditAction::Initialize, &admin, 0);
        env.publish(Event::Initialized { admin, threshold });
        Ok(())
    }

    /// Changes the threshold. Only admins may.
    pub fn update_threshold(env: &mut Env, admin: Address, threshold: u32) -> (r: Result<
        (),
        VaultError,
    >)
        requires
            old(env)@.authorized(admin),
            old(env)@.has_room(),
        ensures
            (final(env)@, r) == old(env)@.update_threshold(admin, threshold),
    {
        if storage::get_role(env, &admin) != Role::Admin {
            return Err(VaultError::Unauthorized);
        }
        let mut config = storage::get_config(env)?;
        if threshold < 1 {
            return Err(VaultError::ThresholdTooLow);
        }
        if threshold as u128 > config.signers.len() as u128 {
            return Err(VaultError::ThresholdTooHigh);
        }
        config.threshold = threshold;
        change_config(env, admin, &config, AuditAction::UpdateThreshold);
        Ok(())
    }

    /// Changes the limits per proposal, day and week. Only admins may, and no limit may exceed
    /// the next.
    pub fn update_limits(
        env: &mut Env,
        admin: Address,
        spending_limit: i128,
        daily_limit: i128,
        weekly_limit: i128,
    ) -> (r: Result<(), VaultError>)
        requires
            old(env)@.authorized(admin),
            old(env)@.has_room(),
        ensures
            (final(env)@, r) == old(env)@.update_limits(
                admin,
                spending_limit,
                daily_limit,
                weekly_limit,
            ),
    {
        let mut config = storage::get_config(env)?;
        if storage::get_role(env, &admin) != Role::Admin {
            return Err(VaultError::Unauthorized);
        }
        if spending_limit <= 0 || daily_limit <= 0 || weekly_limit <= 0 {
            return Err(VaultError::InvalidAmount);
        }
        if spending_limit > daily_limit || daily_limit > weekly_limit {
            return Err(VaultError::InvalidAmount);
        }
        config.spending_limit = spending_limit;
        config.daily_limit = daily_limit;
        config.weekly_limit = weekly_limit;
        change_config(env, admin, &config, AuditAction::UpdateLimits);
        Ok(())
    }

    /// Changes how many votes of any kind are needed; zero stands for none. Only admins may.
    pub fn update_quorum(env: &mut Env, admin: Address, quorum: u32) -> (r: Result<(), VaultError>)
        requires
            old(env)@.authorized(admin),
        ensures
            (final(env)@, r) == old(env)@.update_quorum(admin, quorum),
    {
        if storage::get_role(env, &admin) != Role::Admin {
            return Err(VaultError::Unauthorized);
        }
        let mut config = storage::get_config(env)?;
        let old_quorum: u32 = config.quorum;
        if quorum as u128 > config.signers.len() as u128 {
            return Err(VaultError::QuorumTooHigh);
        }
        config.quorum = quorum;
        storage::set_config(env, &config);
        storage::extend_instance_ttl(env);
        env.publish(Event::ConfigUpdated { admin });
        env.publish(Event::QuorumUpdated { admin, old_quorum, new_quorum: quorum });
        Ok(())
    }

    /// How many votes of any kind are needed, as a number and as a percentage; zero where the
    /// vault is not initialized.
    pub fn get_quorum(env: &Env) -> (r: (u32, u32))
        ensures
            r == match env@.config() {
                Ok(config) => (config.quorum, config.quorum_percentage),
                Err(_) => (0u32, 0u32),
            },
    {
        match storage::get_config(env) {
            Ok(config) => (config.quorum, config.quorum_percentage),
            Err(_) => (0, 0),
        }
    }

    /// Changes the voting strategy. Only admins may.
    pub fn update_voting_strategy(env: &mut Env, admin: Address, strategy: VotingStrategy) -> (r:
        Result<(), VaultError>)
        requires
            old(env)@.authorized(admin),
        ensures
            (final(env)@, r) == old(env)@.update_strategy(admin, strategy),
    {
        if storage::get_role(env, &admin) != Role::Admin {
            return Err(VaultError::Unauthorized);
        }
        storage::set_voting_strategy(env, &strategy);
        storage::extend_instance_ttl(env);
        env.publish(Event::ConfigUpdated { admin });
        Ok(())
    }

    /// Changes the voting deadline of a pending proposal. Only admins may.
    pub fn extend_voting_deadline(
        env: &mut Env,
        admin: Address,
        proposal_id: u64,
        new_deadline: u64,
    ) -> (r: Result<(), VaultError>)
        requires
            old(env)@.authorized(admin),
        ensures
            (final(env)@, r) == old(env)@.extend_deadline(admin, proposal_id, new_deadline),
    {
        if storage::get_role(env, &admin) != Role::Admin {
            return Err(VaultError::Unauthorized);
        }
        let mut proposal = storage::get_proposal(env, proposal_id)?;
        if proposal.status != ProposalStatus::Pending {
            return Err(VaultError::ProposalNotPending);
        }
        let old_deadline: u64 = proposal.voting_deadline;
        proposal.voting_deadline = new_deadline;
        storage::set_proposal(env, &proposal);
        storage::extend_instance_ttl(env);
        env.publish(
            Event::VotingDeadlineExtended { proposal_id, old_deadline, new_deadline, admin },
        );
        Ok(())
    }

    /// Pays from the insurance pool. Only admins may.
    pub fn withdraw_insurance_pool(
        env: &mut Env,
        admin: Address,
        token_addr: Address,
        recipient: Address,
        amount: i128,
    ) -> (r: Result<(), VaultError>)
        requires
            old(env)@.authorized(admin),
        ensures
            (final(env)@, r) == old(env)@.withdraw_insurance(admin, token_addr, recipient, amount),
    {
        let pool: i128 = storage::get_insurance_pool(env, &token_addr);
        check_withdrawal(env, &admin, pool, amount)?;
        storage::subtract_from_insurance_pool(env, &token_addr, amount);
        env.act(Action::Transfer { token: token_addr, to: recipient, amount });
        Ok(())
    }

    /// Pays from the stake pool. Only admins may.
    pub fn withdraw_stake_pool(
        env: &mut Env,
        admin: Address,
        token_addr: Address,
        recipient: Address,
        amount: i128,
    ) -> (r: Result<(), VaultError>)
        requires
            old(env)@.authorized(admin),
        ensures
            (final(env)@, r) == old(env)@.withdraw_stakes(admin, token_addr, recipient, amount),
    {
        let pool: i128 = storage::get_stake_pool(env, &token_addr);
        check_withdrawal(env, &admin, pool, amount)?;
        storage::subtract_from_stake_pool(env, &token_addr, amount);
        env.act(Action::Transfer { token: token_addr, to: recipient, amount });
        Ok(())
    }

    /// Changes the staking rules. Only admins may.
    pub fn update_staking_config(env: &mut Env, admin: Address, config: StakingConfig) -> (r: Result<
        (),
        VaultError,
    >)
        requires
            old(env)@.authorized(admin),
        ensures
            (final(env)@, r) == old(env)@.update_staking(admin, config),
    {
        if storage::get_role(env, &admin) != Role::Admin {
            return Err(VaultError::Unauthorized);
        }
        storage::set_staking_config(env, &config);
        storage::extend_instance_ttl(env);
        env.publish(Event::ConfigUpdated { admin });
        Ok(())
    }

    /// What the insurance pool holds of a token.
    pub fn get_insurance_pool(env: &Env, token_addr: Address) -> (r: i128)
        ensures
            r == env@.insurance_pool(token_addr),
    {
        storage::get_insurance_pool(env, &token_addr)
    }

    /// The configuration.
    pub fn get_config(env: &mut Env) -> (r: Result<Config, VaultError>)
        ensures
            crate::errors::res_view(r) == old(env)@.config(),
            final(env)@ == old(env)@.act(Action::ExtendInstanceTtl),
    {
        storage::extend_instance_ttl(env);
        storage::get_config(env)
    }

    /// The signers.
    pub fn get_signers(env: &mut Env) -> (r: Result<Vec<Address>, VaultError>)
        ensures
            crate::errors::res_view(r) == match old(env)@.config() {
                Ok(config) => Ok::<Seq<Address>, VaultError>(config.signers),
                Err(error) => Err::<Seq<Address>, VaultError>(error),
            },
            final(env)@ == old(env)@.act(Action::ExtendInstanceTtl),
    {
        storage::extend_instance_ttl(env);
        let config = storage::get_config(env)?;
        Ok(config.signers)
    }

    /// Gives an address a role. Only admins may.
    pub fn set_role(env: &mut Env, admin: Address, target: Address, role: Role) -> (r: Result<
        (),
        VaultError,
    >)
        requires
            old(env)@.authorized(admin),
            old(env)@.has_room(),
        ensures
            (final(env)@, r) == old(env)@.assign_role(admin, target, role),
    {
        if !storage::is_initialized(env) {
            return Err(VaultError::NotInitialized);
        }
        if storage::get_role(env, &admin) != Role::Admin {
            return Err(VaultError::Unauthorized);
        }
        storage::set_role(env, &target, role);
        storage::extend_instance_ttl(env);
        env.publish(Event::RoleAssigned { addr: target, role: role.code() });
        storage::create_audit_entry(env, AuditAction::SetRole, &admin, 0);
        Ok(())
    }

    /// The role of an address.
    pub fn get_role(env: &Env, addr: Address) -> (r: Role)
        ensures
            r == env@.role(addr),
    {
        storage::get_role(env, &addr)
    }

    /// The tracked addresses with their roles.
    pub fn get_role_assignments(env: &Env) -> (r: Vec<RoleAssignment>)
        ensures
            r@ == env@.role_assignments(),
    {
        storage::get_role_assignments(env)
    }

    /// What was spent or reserved on a day.
    pub fn get_daily_spent(env: &Env, day: u64) -> (r: i128)
        ensures
            r == env@.daily_spent(day),
    {
        storage::get_daily_spent(env, day)
    }

    /// What was spent or reserved today.
    pub fn get_today_spent(env: &Env) -> (r: i128)
        ensures
            r == env@.daily_spent(env@.day_number()),
    {
        let today: u64 = storage::get_day_number(env);
        storage::get_daily_spent(env, today)
    }

    /// Whether an address is a signer.
    pub fn is_signer(env: &Env, addr: Address) -> (r: Result<bool, VaultError>)
        ensures
            r == match env@.config() {
                Ok(config) => Ok::<bool, VaultError>(config.signers.contains(addr)),
                Err(error) => Err::<bool, VaultError>(error),
            },
    {
        let config = storage::get_config(env)?;
        Ok(list_contains(&config.signers, &addr))
    }

    /// Removes a signer, provided that as many as the threshold remain. Only admins may.
    pub fn remove_signer(env: &mut Env, admin: Address, signer: Address) -> (r: Result<
        (),
        VaultError,
    >)
        requires
            old(env)@.authorized(admin),
            old(env)@.has_room(),
        ensures
            (final(env)@, r) == old(env)@.remove_signer(admin, signer),
    {
        if storage::get_role(env, &admin) != Role::Admin {
            return Err(VaultError::Unauthorized);
        }
        let mut config = storage::get_config(env)?;
        let found = match list_position(&config.signers, &signer) {
            Some(index) => index,
            None => return Err(VaultError::SignerNotFound),
        };
        if config.signers.len() as u128 - 1 < config.threshold as u128 {
            return Err(VaultError::CannotRemoveSigner);
        }
        let _ = config.signers.remove(found);
        change_config(env, admin, &config, AuditAction::RemoveSigner);
        Ok(())
    }

    /// The voting strategy.
    pub fn get_voting_strategy(env: &Env) -> (r: VotingStrategy)
        ensures
            r == env@.voting_strategy(),
    {
        storage::get_voting_strategy(env)
    }

    /// How many votes of any kind a proposal has, the configured quorum, of which 0 means that
    /// it is disabled, and whether the quorum in force is reached.
    pub fn get_quorum_status(env: &Env, proposal_id: u64) -> (r: Result<
        (u32, u32, bool),
        VaultError,
    >)
        ensures
            match env@.config() {
                Err(error) => r == Err::<(u32, u32, bool), VaultError>(error),
                Ok(config) => match env@.proposal(proposal_id) {
                    Err(error) => r == Err::<(u32, u32, bool), VaultError>(error),
                    Ok(proposal) => {
                        let votes = proposal.approvals.len() + proposal.abstentions.len();
                        let needed = crate::thresholds::needed_quorum(config);
                        r == Ok::<(u32, u32, bool), VaultError>(
                            (
                                crate::math::clamp_u32(votes as int),
                                config.quorum,
                                votes >= needed,
                            ),
                        )
                    },
                },
            },
    {
        let config = storage::get_config(env)?;
        let proposal = storage::get_proposal(env, proposal_id)?;
        let votes: u128 = proposal.approvals.len() as u128 + proposal.abstentions.len() as u128;
        let needed: u32 = Self::effective_quorum(&config);
        Ok((count_u32(votes), config.quorum, votes >= needed as u128))
    }

    /// Lets an address veto. Only admins may decide that.
    pub fn add_veto_address(env: &mut Env, admin: Address, addr: Address) -> (r: Result<
        (),
        VaultError,
    >)
        requires
            old(env)@.authorized(admin),
        ensures
            (final(env)@, r) == old(env)@.add_veto(admin, addr),
    {
        if storage::get_role(env, &admin) != Role::Admin {
            return Err(VaultError::InsufficientRole);
        }
        let mut config = storage::get_config(env)?;
        if list_contains(&config.veto_addresses, &addr) {
            return Err(VaultError::AddressAlreadyOnList);
        }
        config.veto_addresses.push(addr);
        storage::set_config(env, &config);
        storage::extend_instance_ttl(env);
        Ok(())
    }

    /// Lets an address veto no longer. Only admins may decide that.
    pub fn remove_veto_address(env: &mut Env, admin: Address, addr: Address) -> (r: Result<
        (),
        VaultError,
    >)
        requires
            old(env)@.authorized(admin),
        ensures
            (final(env)@, r) == old(env)@.remove_veto(admin, addr),
    {
        if storage::get_role(env, &admin) != Role::Admin {
            return Err(VaultError::InsufficientRole);
        }
        let mut config = storage::get_config(env)?;
        if !list_contains(&config.veto_addresses, &addr) {
            return Err(VaultError::AddressNotOnList);
        }
        config.veto_addresses = list_without(&config.veto_addresses, &addr);
        storage::set_config(env, &config);
        storage::extend_instance_ttl(env);
        Ok(())
    }
}

/// Tracks the roles of several addresses.
fn track_roles(env: &mut Env, addrs: &Vec<Address>)
    ensures
        final(env)@ == old(env)@.track_roles(addrs@),
        final(env)@.audit == old(env)@.audit,
{
    let mut i: usize = 0;
    while i < addrs.len()
        invariant
            i <= addrs.len(),
            env@ == old(env)@.track_roles(addrs@.take(i as int)),
            env@.audit == old(env)@.audit,
        decreases addrs.len() - i,
    {
        assert(addrs@.take(i + 1).drop_last() =~= addrs@.take(i as int));
        storage::add_role_index_address(env, &addrs[i]);
        i += 1;
    }
    assert(addrs@.take(addrs@.len() as int) =~= addrs@);
}

/// Changes the configuration, keeps it alive and audits the change.
fn change_config(env: &mut Env, admin: Address, config: &Config, action: AuditAction)
    requires
        old(env)@.audit.next_id < u64::MAX,
    ensures
        final(env)@ == old(env)@.change_config(admin, config@, action),
{
    storage::set_config(env, config);
    storage::extend_instance_ttl(env);
    storage::create_audit_entry(env, action, &admin, 0);
    env.publish(Event::ConfigUpdated { admin });
}

/// Decides whether an amount may be withdrawn from a pool.
fn check_withdrawal(env: &Env, admin: &Address, pool: i128, amount: i128) -> (r: Result<
    (),
    VaultError,
>)
    ensures
        r == crate::errors::unless(env@.withdrawal_refusal(*admin, pool, amount)),
{
    if storage::get_role(env, admin) != Role::Admin {
        return Err(VaultError::Unauthorized);
    }
    if amount <= 0 {
        return Err(VaultError::InvalidAmount);
    }
    if amount > pool {
        return Err(VaultError::InsufficientBalance);
    }
    Ok(())
}

} // verus!
