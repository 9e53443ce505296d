//! Stored blueprints of proposals.

use vstd::prelude::*;

use crate::env::{Action, Env, EnvModel, Event};
use crate::errors::VaultError;
use crate::math::sum_exceeds;
use crate::primitives::{copy_list, Address, Symbol, Texts};
use crate::proposals::{new_unlock_ledger, Outcome};
use crate::storage;
use crate::table::Table;
use crate::types::{
    ConditionLogic, Config, ConfigModel, Priority, Proposal, ProposalModel, ProposalStatus,
    ProposalTemplate, Role, TemplateOverrides,
};
use crate::VaultDAO;

verus! {

/// How long a proposal from a template lasts where no deadline is configured, in ledgers.
pub const TEMPLATE_EXPIRY_LEDGERS: u64 = 100_000;

/// Whether an amount lies within bounds, where a bound that is not positive stands for none.
pub open spec fn within(amount: i128, min_amount: i128, max_amount: i128) -> bool {
    &&& min_amount > 0 ==> amount >= min_amount
    &&& max_amount > 0 ==> amount <= max_amount
}

/// Whether the amounts of a template are accepted.
pub open spec fn amounts_valid(amount: i128, min_amount: i128, max_amount: i128) -> bool {
    &&& amount > 0
    &&& min_amount > 0 && max_amount > 0 ==> min_amount <= max_amount
    &&& within(amount, min_amount, max_amount)
}

/// What is proposed from a template: its contents, except for what is overridden.
pub ghost struct TemplateTerms {
    pub recipient: Address,
    pub amount: i128,
    pub memo: Symbol,
    pub priority: Priority,
}

/// What is proposed from a template.
pub open spec fn template_terms(template: ProposalTemplate, overrides: TemplateOverrides) -> 
    TemplateTerms {
    TemplateTerms {
        recipient: if overrides.override_recipient {
            overrides.recipient
        } else {
            template.recipient
        },
        amount: if overrides.override_amount {
            overrides.amount
        } else {
            template.amount
        },
        memo: if overrides.override_memo {
            overrides.memo
        } else {
            template.memo
        },
        priority: if overrides.override_priority {
            overrides.priority
        } else {
            Priority::Normal
        },
    }
}

impl EnvModel {
    /// The state after a template was stored.
    pub open spec fn keep_template(self, template: ProposalTemplate) -> EnvModel {
        self.with_template(template).act(Action::ExtendInstanceTtl)
    }

    /// Why a template cannot be created, if it cannot.
    pub open spec fn template_refusal(
        self,
        creator: Address,
        name: Symbol,
        amount: i128,
        min_amount: i128,
        max_amount: i128,
    ) -> Option<VaultError> {
        if self.role(creator) != Role::Admin {
            Some(VaultError::InsufficientRole)
        } else if self.template_name_exists(name) {
            Some(VaultError::AlreadyInitialized)
        } else if !amounts_valid(amount, min_amount, max_amount) {
            Some(VaultError::TemplateValidationFailed)
        } else {
            None
        }
    }

    /// What creating a template leaves behind. Names are unique.
    pub open spec fn create_template(
        self,
        creator: Address,
        name: Symbol,
        description: Symbol,
        recipient: Address,
        token: Address,
        amount: i128,
        memo: Symbol,
        min_amount: i128,
        max_amount: i128,
    ) -> Outcome<u64> {
        let id = self.programs.next_template_id;
        match self.template_refusal(creator, name, amount, min_amount, max_amount) {
            Some(error) => (self, Err(error)),
            None => (
                self.bump_next_template_id().with_template(
                    ProposalTemplate {
                        id,
                        name,
                        description,
                        recipient,
                        token,
                        amount,
                        memo,
                        creator,
                        version: 1,
                        is_active: true,
                        created_at: self.now(),
                        updated_at: self.now(),
                        min_amount,
                        max_amount,
                    },
                ).with_template_name(name, id).act(Action::ExtendInstanceTtl).publish(
                    Event::TemplateCreated { template_id: id, name, creator },
                ),
                Ok(id),
            ),
        }
    }

    /// What updating a template leaves behind.
    pub open spec fn update_template(
        self,
        caller: Address,
        template_id: u64,
        description: Symbol,
        recipient: Address,
        amount: i128,
        memo: Symbol,
        min_amount: i128,
        max_amount: i128,
    ) -> Outcome<()> {
        match self.template(template_id) {
            Err(error) => (self, Err(error)),
            Ok(template) => if caller != template.creator && self.role(caller) != Role::Admin {
                (self, Err(VaultError::Unauthorized))
            } else if !amounts_valid(amount, min_amount, max_amount) {
                (self, Err(VaultError::TemplateValidationFailed))
            } else {
                let version = (template.version + 1) as u32;
                (
                    self.keep_template(
                        ProposalTemplate {
                            description,
                            recipient,
                            amount,
                            memo,
                            min_amount,
                            max_amount,
                            version,
                            updated_at: self.now(),
                            ..template
                        },
                    ).publish(
                        Event::TemplateUpdated {
                            template_id,
                            name: template.name,
                            version,
                            caller,
                        },
                    ),
                    Ok(()),
                )
            },
        }
    }

    /// What deactivating a template leaves behind.
    pub open spec fn deactivate_template(self, admin: Address, template_id: u64) -> Outcome<()> {
        if self.role(admin) != Role::Admin {
            (self, Err(VaultError::InsufficientRole))
        } else {
            match self.template(template_id) {
                Err(error) => (self, Err(error)),
                Ok(template) => (
                    self.keep_template(
                        ProposalTemplate { is_active: false, updated_at: self.now(), ..template },
                    ).publish(
                        Event::TemplateStatusChanged {
                            template_id,
                            name: template.name,
                            active: false,
                            admin,
                        },
                    ),
                    Ok(()),
                ),
            }
        }
    }

    /// What activating or deactivating a template leaves behind.
    pub open spec fn switch_template(self, admin: Address, template_id: u64, is_active: bool) -> 
        Outcome<()> {
        if self.role(admin) != Role::Admin {
            (self, Err(VaultError::InsufficientRole))
        } else {
            match self.template(template_id) {
                Err(error) => (self, Err(error)),
                Ok(template) => (
                    self.keep_template(
                        ProposalTemplate {
                            is_active,
                            updated_at: self.now(),
                            version: (template.version + 1) as u32,
                            ..template
                        },
                    ),
                    Ok(()),
                ),
            }
        }
    }

    /// Why an amount is more than may be spent, if it is, without regard to reputation.
    pub open spec fn plain_spending_refusal(self, config: ConfigModel, amount: i128) -> Option<
        VaultError,
    > {
        if amount <= 0 {
            Some(VaultError::InvalidAmount)
        } else if amount > config.spending_limit {
            Some(VaultError::ExceedsProposalLimit)
        } else if self.daily_spent(self.day_number()) + amount > config.daily_limit {
            Some(VaultError::ExceedsDailyLimit)
        } else if self.weekly_spent(self.week_number()) + amount > config.weekly_limit {
            Some(VaultError::ExceedsWeeklyLimit)
        } else {
            None
        }
    }

    /// Whether proposing from a template, where the limits allow it, stays within the limits of
    /// integers.
    pub open spec fn template_proposal_fits(
        self,
        template_id: u64,
        overrides: TemplateOverrides,
    ) -> bool {
        &&& self.has_room()
        &&& self.template(template_id) matches Ok(template) ==> {
            let amount = template_terms(template, overrides).amount;
            self.config() matches Ok(config) ==> (self.plain_spending_refusal(
                config,
                amount,
            ) is None ==> config.delays_fit(amount, self.now()))
        }
    }

    /// A new proposal from a template.
    pub open spec fn template_proposal(
        self,
        config: ConfigModel,
        proposer: Address,
        token: Address,
        terms: TemplateTerms,
    ) -> ProposalModel {
        ProposalModel {
            id: self.proposals.next_id,
            proposer,
            recipient: terms.recipient,
            token,
            amount: terms.amount,
            memo: terms.memo,
            metadata: Map::empty(),
            tags: Seq::empty(),
            approvals: Seq::empty(),
            abstentions: Seq::empty(),
            attachments: Seq::empty(),
            status: ProposalStatus::Pending,
            priority: terms.priority,
            conditions: Seq::empty(),
            condition_logic: ConditionLogic::And,
            created_at: self.now(),
            expires_at: (self.now() + if config.default_voting_deadline > 0 {
                config.default_voting_deadline
            } else {
                TEMPLATE_EXPIRY_LEDGERS
            }) as u64,
            unlock_ledger: crate::proposals::unlock_ledger(config, terms.amount, self.now()),
            execution_time: None,
            insurance_amount: 0,
            stake_amount: 0,
            gas_limit: 0,
            gas_used: 0,
            snapshot_ledger: self.now(),
            snapshot_signers: config.signers,
            depends_on: Seq::empty(),
            is_swap: false,
            voting_deadline: 0,
        }
    }

    /// What proposing from a template leaves behind.
    pub open spec fn propose_from_template(
        self,
        proposer: Address,
        template_id: u64,
        overrides: TemplateOverrides,
    ) -> Outcome<u64> {
        match self.template(template_id) {
            Err(error) => (self, Err(error)),
            Ok(template) => {
                let terms = template_terms(template, overrides);
                if !template.is_active {
                    (self, Err(VaultError::TemplateInactive))
                } else if !self.may_propose(proposer) {
                    (self, Err(VaultError::InsufficientRole))
                } else if !within(terms.amount, template.min_amount, template.max_amount) {
                    (self, Err(VaultError::TemplateValidationFailed))
                } else {
                    match self.config() {
                        Err(error) => (self, Err(error)),
                        Ok(config) => if !self.velocity_allows(proposer, config.velocity_limit) {
                            (self, Err(VaultError::VelocityLimitExceeded))
                        } else {
                            let counted = self.count_velocity(proposer, config.velocity_limit);
                            match self.plain_spending_refusal(config, terms.amount) {
                                Some(error) => (counted, Err(error)),
                                None => (
                                    counted.create_from_template(
                                        counted.template_proposal(
                                            config,
                                            proposer,
                                            template.token,
                                            terms,
                                        ),
                                        template_id,
                                        template.name,
                                    ),
                                    Ok(self.proposals.next_id),
                                ),
                            }
                        },
                    }
                }
            },
        }
    }

    /// The state after a proposal from a template was created.
    #[verifier::opaque]
    pub open spec fn create_from_template(
        self,
        proposal: ProposalModel,
        template_id: u64,
        name: Symbol,
    ) -> EnvModel {
        self.reserve_spending(proposal.amount).bump_proposal_id().with_proposal(
            proposal,
        ).estimate_cost(proposal).act(Action::ExtendInstanceTtl).publish(
            Event::ProposalFromTemplate {
                proposal_id: proposal.id,
                template_id,
                name,
                proposer: proposal.proposer,
            },
        )
    }
}

/// Whatever is overridden, the amount proposed from a template lies within its bounds.
pub proof fn law_templates_bound_the_amount(
    env: EnvModel,
    proposer: Address,
    template_id: u64,
    overrides: TemplateOverrides,
)
    requires
        env.propose_from_template(proposer, template_id, overrides).1 is Ok,
    ensures
        ({
            let template = env.template(template_id)->Ok_0;
            let amount = template_terms(template, overrides).amount;
            &&& template.is_active
            &&& within(amount, template.min_amount, template.max_amount)
            &&& amount > 0
        }),
{
}

/// Creates a proposal from a template.
fn create_from_template(env: &mut Env, proposal: &Proposal, template_id: u64, name: Symbol)
    requires
        proposal.id == old(env)@.proposals.next_id < u64::MAX,
        crate::math::fits_i128(old(env)@.daily_spent(old(env)@.day_number()) + proposal.amount),
        crate::math::fits_i128(old(env)@.weekly_spent(old(env)@.week_number()) + proposal.amount),
    ensures
        final(env)@ == old(env)@.create_from_template(proposal@, template_id, name),
{
    proof {
        reveal(EnvModel::create_from_template);
    }
    let today: u64 = storage::get_day_number(env);
    let week: u64 = storage::get_week_number(env);
    storage::add_daily_spent(env, today, proposal.amount);
    storage::add_weekly_spent(env, week, proposal.amount);
    let _ = storage::increment_proposal_id(env);
    storage::set_proposal(env, proposal);
    let _ = VaultDAO::persist_execution_fee_estimate(env, proposal);
    storage::extend_instance_ttl(env);
    env.publish(
        Event::ProposalFromTemplate {
            proposal_id: proposal.id,
            template_id,
            name,
            proposer: proposal.proposer,
        },
    );
}

/// Decides whether an amount may be spent, without regard to reputation.
pub(crate) fn check_plain_spending(env: &Env, config: &Config, amount: i128) -> (r: Result<(), VaultError>)
    ensures
        r == crate::errors::unless(env@.plain_spending_refusal(config@, amount)),
{
    if amount <= 0 {
        return Err(VaultError::InvalidAmount);
    }
    if amount > config.spending_limit {
        return Err(VaultError::ExceedsProposalLimit);
    }
    let spent_today: i128 = storage::get_daily_spent(env, storage::get_day_number(env));
    if sum_exceeds(spent_today, amount, config.daily_limit) {
        return Err(VaultError::ExceedsDailyLimit);
    }
    let spent_week: i128 = storage::get_weekly_spent(env, storage::get_week_number(env));
    if sum_exceeds(spent_week, amount, config.weekly_limit) {
        return Err(VaultError::ExceedsWeeklyLimit);
    }
    Ok(())
}

impl VaultDAO {
    /// Creates a template. Only admins may, and names are unique.
    pub fn create_template(
        env: &mut Env,
        creator: Address,
        name: Symbol,
        description: Symbol,
        recipient: Address,
        token: Address,
        amount: i128,
        memo: Symbol,
        min_amount: i128,
        max_amount: i128,
    ) -> (r: Result<u64, VaultError>)
        requires
            old(env)@.authorized(creator),
            old(env)@.has_room(),
        ensures
            (final(env)@, r) == old(env)@.create_template(
                creator,
                name,
                description,
                recipient,
                token,
                amount,
                memo,
                min_amount,
                max_amount,
            ),
    {
        if storage::get_role(env, &creator) != Role::Admin {
            return Err(VaultError::InsufficientRole);
        }
        if storage::template_name_exists(env, &name) {
            return Err(VaultError::AlreadyInitialized);
        }
        if !Self::validate_template_params(env, amount, min_amount, max_amount) {
            return Err(VaultError::TemplateValidationFailed);
        }
        let template_id: u64 = storage::increment_template_id(env);
        let current_ledger: u64 = env.now();
        let template = ProposalTemplate {
            id: template_id,
            name,
            description,
            recipient,
            token,
            amount,
            memo,
            creator,
            version: 1,
            is_active: true,
            created_at: current_ledger,
            updated_at: current_ledger,
            min_amount,
            max_amount,
        };
        storage::set_template(env, &template);
        storage::set_template_name_mapping(env, &name, template_id);
        storage::extend_instance_ttl(env);
        env.publish(Event::TemplateCreated { template_id, name, creator });
        Ok(template_id)
    }

    /// Updates a template, which gets the next version. Its creator and admins may.
    pub fn update_template(
        env: &mut Env,
        caller: Address,
        template_id: u64,
        description: Symbol,
        recipient: Address,
        amount: i128,
        memo: Symbol,
        min_amount: i128,
        max_amount: i128,
    ) -> (r: Result<(), VaultError>)
        requires
            old(env)@.authorized(caller),
            old(env)@.template_fits(template_id),
        ensures
            (final(env)@, r) == old(env)@.update_template(
                caller,
                template_id,
                description,
                recipient,
                amount,
                memo,
                min_amount,
                max_amount,
            ),
    {
        let mut template = storage::get_template(env, template_id)?;
        if caller != template.creator && storage::get_role(env, &caller) != Role::Admin {
            return Err(VaultError::Unauthorized);
        }
        if !Self::validate_template_params(env, amount, min_amount, max_amount) {
            return Err(VaultError::TemplateValidationFailed);
        }
        template.description = description;
        template.recipient = recipient;
        template.amount = amount;
        template.memo = memo;
        template.min_amount = min_amount;
        template.max_amount = max_amount;
        template.version = template.version + 1;
        template.updated_at = env.now();
        storage::set_template(env, &template);
        storage::extend_instance_ttl(env);
        env.publish(
            Event::TemplateUpdated {
                template_id,
                name: template.name,
                version: template.version,
                caller,
            },
        );
        Ok(())
    }

    /// Deactivates a template. Only admins may.
    pub fn deactivate_template(env: &mut Env, admin: Address, template_id: u64) -> (r: Result<
        (),
        VaultError,
    >)
        requires
            old(env)@.authorized(admin),
        ensures
            (final(env)@, r) == old(env)@.deactivate_template(admin, template_id),
    {
        if storage::get_role(env, &admin) != Role::Admin {
            return Err(VaultError::InsufficientRole);
        }
        let mut template = storage::get_template(env, template_id)?;
        template.is_active = false;
        template.updated_at = env.now();
        storage::set_template(env, &template);
        storage::extend_instance_ttl(env);
        env.publish(
            Event::TemplateStatusChanged {
                template_id,
                name: template.name,
                active: false,
                admin,
            },
        );
        Ok(())
    }

    /// Activates or deactivates a template, which gets the next version. Only admins may.
    pub fn set_template_status(
        env: &mut Env,
        admin: Address,
        template_id: u64,
        is_active: bool,
    ) -> (r: Result<(), VaultError>)
        requires
            old(env)@.authorized(admin),
            old(env)@.template_fits(template_id),
        ensures
            (final(env)@, r) == old(env)@.switch_template(admin, template_id, is_active),
    {
        if storage::get_role(env, &admin) != Role::Admin {
            return Err(VaultError::InsufficientRole);
        }
        let mut template = storage::get_template(env, template_id)?;
        template.is_active = is_active;
        template.updated_at = env.now();
        template.version = template.version + 1;
        storage::set_template(env, &template);
        storage::extend_instance_ttl(env);
        Ok(())
    }

    /// The template with an identifier.
    pub fn get_template(env: &Env, template_id: u64) -> (r: Result<ProposalTemplate, VaultError>)
        ensures
            r == env@.template(template_id),
    {
        storage::get_template(env, template_id)
    }

    /// The template with a name.
    pub fn get_template_id_by_name(env: &Env, name: Symbol) -> (r: Option<u64>)
        ensures
            r == env@.template_id(name),
    {
        storage::get_template_id_by_name(env, &name)
    }

    /// Proposes a transfer from a template, parts of which can be overridden. Treasurers and
    /// admins may.
    pub fn create_from_template(
        env: &mut Env,
        proposer: Address,
        template_id: u64,
        overrides: TemplateOverrides,
    ) -> (r: Result<u64, VaultError>)
        requires
            old(env)@.authorized(proposer),
            old(env)@.template_proposal_fits(template_id, overrides),
        ensures
            (final(env)@, r) == old(env)@.propose_from_template(proposer, template_id, overrides),
    {
        let template = storage::get_template(env, template_id)?;
        if !template.is_active {
            return Err(VaultError::TemplateInactive);
        }
        let role = storage::get_role(env, &proposer);
        if role != Role::Treasurer && role != Role::Admin {
            return Err(VaultError::InsufficientRole);
        }
        let recipient = if overrides.override_recipient {
            overrides.recipient
        } else {
            template.recipient
        };
        let amount: i128 = if overrides.override_amount {
            overrides.amount
        } else {
            template.amount
        };
        let memo = if overrides.override_memo {
            overrides.memo
        } else {
            template.memo
        };
        let priority = if overrides.override_priority {
            overrides.priority
        } else {
            Priority::Normal
        };
        if template.min_amount > 0 && amount < template.min_amount {
            return Err(VaultError::TemplateValidationFailed);
        }
        if template.max_amount > 0 && amount > template.max_amount {
            return Err(VaultError::TemplateValidationFailed);
        }
        let config = storage::get_config(env)?;
        if !storage::check_and_update_velocity(env, &proposer, &config.velocity_limit) {
            return Err(VaultError::VelocityLimitExceeded);
        }
        let ghost counted = env@;
        check_plain_spending(env, &config, amount)?;
        let proposal_id: u64 = storage::get_next_proposal_id(env);
        let current_ledger: u64 = env.now();
        let lifetime: u64 = if config.default_voting_deadline > 0 {
            config.default_voting_deadline
        } else {
            TEMPLATE_EXPIRY_LEDGERS
        };
        let proposal = Proposal {
            id: proposal_id,
            proposer,
            recipient,
            token: template.token,
            amount,
            memo,
            metadata: Table::new(),
            tags: Vec::new(),
            approvals: Vec::new(),
            abstentions: Vec::new(),
            attachments: Texts::new(),
            status: ProposalStatus::Pending,
            priority,
            conditions: Vec::new(),
            condition_logic: ConditionLogic::And,
            created_at: current_ledger,
            expires_at: current_ledger + lifetime,
            unlock_ledger: new_unlock_ledger(&config, amount, current_ledger),
            execution_time: None,
            insurance_amount: 0,
            stake_amount: 0,
            gas_limit: 0,
            gas_used: 0,
            snapshot_ledger: current_ledger,
            snapshot_signers: copy_list(&config.signers),
            depends_on: Vec::new(),
            is_swap: false,
            voting_deadline: 0,
        };
        assert(proposal@ == counted.template_proposal(
            config@,
            proposer,
            template.token,
            template_terms(template, overrides),
        ));
        create_from_template(env, &proposal, template_id, template.name);
        Ok(proposal_id)
    }

    /// Whether the amounts of a template are accepted.
    pub fn validate_template_params(
        _env: &Env,
        amount: i128,
        min_amount: i128,
        max_amount: i128,
    ) -> (r: bool)
        ensures
            r == amounts_valid(amount, min_amount, max_amount),
    {
        if amount <= 0 {
            return false;
        }
        if min_amount > 0 && max_amount > 0 && min_amount > max_amount {
            return false;
        }
        if min_amount > 0 && amount < min_amount {
            return false;
        }
        if max_amount > 0 && amount > max_amount {
            return false;
        }
        true
    }
}

} // verus!
