//! Transfers that other vaults admit, proposed and executed together.

use vstd::prelude::*;

use crate::constants::PROPOSAL_EXPIRY_LEDGERS;
use crate::env::{Action, Env, EnvModel, Event};
use crate::errors::VaultError;
use crate::math::{count_u32, sat_add};
use crate::primitives::{copy_list, list_contains, Address, Symbol, Texts, CROSS_VAULT_HALF};
use crate::proposals::{new_unlock_ledger, new_voting_deadline, Outcome, ProposalTerms};
use crate::storage;
use crate::table::Table;
use crate::types::{
    Condition, ConditionLogic, Config, ConfigModel, CrossVaultConfig, CrossVaultConfigModel,
    CrossVaultProposal, CrossVaultProposalModel, CrossVaultStatus, Priority, Proposal,
    ProposalModel, ProposalStatus, Role, TransferRequestModel, VaultAction,
};
use crate::VaultDAO;

verus! {

/// What a proposal for transfers towards other places asks for.
#[derive(Debug)]
pub struct LinkRequest {
    pub proposer: Address,
    pub recipient: Address,
    pub token: Address,
    pub amount: i128,
    pub memo: Symbol,
    pub priority: Priority,
    pub conditions: Vec<Condition>,
    pub condition_logic: ConditionLogic,
    pub insurance_amount: i128,
}

impl View for LinkRequest {
    type V = TransferRequestModel;

    open spec fn view(&self) -> TransferRequestModel {
        TransferRequestModel {
            proposer: self.proposer,
            recipient: self.recipient,
            token: self.token,
            amount: self.amount,
            memo: self.memo,
            priority: self.priority,
            conditions: self.conditions@,
            condition_logic: self.condition_logic,
            insurance_amount: self.insurance_amount,
            depends_on: Seq::empty(),
            execution_time: None,
        }
    }
}

/// What actions pay together.
pub open spec fn actions_total(actions: Seq<VaultAction>) -> int
    decreases actions.len(),
{
    if actions.len() == 0 {
        0
    } else {
        actions_total(actions.drop_last()) + actions.last().amount
    }
}

/// Whether every action pays something.
pub open spec fn actions_pay(actions: Seq<VaultAction>) -> bool {
    forall|i: int| 0 <= i < actions.len() ==> (#[trigger] actions[i]).amount > 0
}

/// How many outcomes are good.
pub open spec fn successes(outcomes: Seq<bool>) -> nat
    decreases outcomes.len(),
{
    if outcomes.len() == 0 {
        0
    } else {
        successes(outcomes.drop_last()) + if outcomes.last() {
            1nat
        } else {
            0nat
        }
    }
}

/// Whether a vault with some rules for other vaults admits a coordinator.
pub open spec fn admits(rules: Option<CrossVaultConfigModel>, coordinator: Address) -> bool {
    rules matches Some(config) && config.enabled && config.authorized_coordinators.contains(
        coordinator,
    )
}

/// How executing actions together ended: the state, and the outcome of each.
pub ghost struct Relay {
    pub env: EnvModel,
    pub outcomes: Seq<bool>,
}

/// The views of rules that vaults answered with.
pub open spec fn rules_view(rules: Seq<Option<CrossVaultConfig>>) -> Seq<
    Option<CrossVaultConfigModel>,
> {
    rules.map_values(|config: Option<CrossVaultConfig>| crate::table::opt_view(config))
}

impl EnvModel {
    /// A new proposal for transfers towards other places.
    pub open spec fn link_proposal(self, config: ConfigModel, request: TransferRequestModel) -> 
        ProposalModel {
        ProposalModel {
            gas_limit: 0,
            ..self.new_proposal(
                config,
                request,
                ProposalTerms {
                    id: self.proposals.next_id,
                    insurance: request.insurance_amount,
                    stake: 0,
                    unlock_ledger: crate::proposals::unlock_ledger(
                        config,
                        request.amount,
                        self.now(),
                    ),
                    expires_at: (self.now() + PROPOSAL_EXPIRY_LEDGERS) as u64,
                },
            )
        }
    }

    /// The state after a proposal for transfers towards other places was stored and queued.
    pub open spec fn file_link(self, proposal: ProposalModel) -> EnvModel {
        self.bump_proposal_id().with_proposal(proposal).queue_push(
            proposal.priority.spec_code(),
            proposal.id,
        )
    }

    /// What setting the rules for other vaults leaves behind.
    pub open spec fn change_cross_vault_config(
        self,
        admin: Address,
        rules: CrossVaultConfigModel,
    ) -> Outcome<()> {
        match self.config() {
            Err(error) => (self, Err(error)),
            Ok(_) => if self.role(admin) != Role::Admin {
                (self, Err(VaultError::Unauthorized))
            } else {
                (
                    self.with_cross_vault_config(rules).publish(
                        Event::CrossVaultConfigSet { admin },
                    ),
                    Ok(()),
                )
            },
        }
    }

    /// Why actions towards other vaults cannot be proposed, if they cannot.
    pub open spec fn cross_vault_refusal(self, proposer: Address, actions: Seq<VaultAction>) -> 
        Option<VaultError> {
        match self.config() {
            Err(error) => Some(error),
            Ok(_) => if !self.may_propose(proposer) {
                Some(VaultError::InsufficientRole)
            } else if actions.len() == 0 || !actions_pay(actions) {
                Some(VaultError::InvalidAmount)
            } else {
                None
            },
        }
    }

    /// Whether proposing actions towards other vaults, where it is allowed, stays within the
    /// limits of integers.
    pub open spec fn cross_vault_fits(self, proposer: Address, actions: Seq<VaultAction>) -> bool {
        &&& self.has_room()
        &&& self.cross_vault_refusal(proposer, actions) is None
            ==> self.access.config->0.delays_fit(
            crate::math::clamp_i128(actions_total(actions)),
            self.now(),
        )
    }

    /// The state after a proposal of actions towards other vaults was created.
    pub open spec fn create_cross_vault(self, proposal: ProposalModel, actions: Seq<VaultAction>) -> 
        EnvModel {
        self.file_link(proposal).with_cross_vault_proposal(
            proposal.id,
            CrossVaultProposalModel {
                actions,
                status: CrossVaultStatus::Pending,
                execution_results: Seq::empty(),
                executed_at: 0,
            },
        ).act(Action::ExtendInstanceTtl).publish(
            Event::CrossVaultProposed {
                proposal_id: proposal.id,
                proposer: proposal.proposer,
                actions: crate::math::clamp_u32(actions.len() as int),
            },
        )
    }

    /// What proposing actions towards other vaults leaves behind. The first action gives the
    /// proposal its recipient and token.
    pub open spec fn propose_cross_vault(
        self,
        proposer: Address,
        actions: Seq<VaultAction>,
        priority: Priority,
        conditions: Seq<Condition>,
        condition_logic: ConditionLogic,
        insurance_amount: i128,
    ) -> Outcome<u64> {
        match self.cross_vault_refusal(proposer, actions) {
            Some(error) => (self, Err(error)),
            None => (
                self.create_cross_vault(
                    self.link_proposal(
                        self.access.config->0,
                        TransferRequestModel {
                            proposer,
                            recipient: actions[0].recipient,
                            token: actions[0].token,
                            amount: crate::math::clamp_i128(actions_total(actions)),
                            memo: Symbol::spec_short(CROSS_VAULT_HALF),
                            priority,
                            conditions,
                            condition_logic,
                            insurance_amount,
                            depends_on: Seq::empty(),
                            execution_time: None,
                        },
                    ),
                    actions,
                ),
                Ok(self.proposals.next_id),
            ),
        }
    }

    /// What executing actions in order leads to, given the rules of each vault and whether each
    /// transfer goes through. An action is skipped where its vault does not admit this one.
    pub open spec fn relay(
        self,
        actions: Seq<VaultAction>,
        rules: Seq<Option<CrossVaultConfigModel>>,
        transferred: Seq<bool>,
    ) -> Relay
        decreases actions.len(),
    {
        if actions.len() == 0 {
            Relay { env: self, outcomes: Seq::empty() }
        } else {
            let i = actions.len() - 1;
            let before = self.relay(actions.drop_last(), rules, transferred);
            if admits(rules[i], self.ledger.contract) {
                Relay {
                    env: before.env.act(
                        Action::TriedTransfer {
                            token: actions[i].token,
                            to: actions[i].recipient,
                            amount: actions[i].amount,
                            done: transferred[i],
                        },
                    ),
                    outcomes: before.outcomes.push(transferred[i]),
                }
            } else {
                Relay { env: before.env, outcomes: before.outcomes.push(false) }
            }
        }
    }

    /// Why a proposal of actions towards other vaults cannot be executed, if it cannot.
    pub open spec fn cross_vault_block(self, proposal: ProposalModel, proposal_id: u64) -> Option<
        VaultError,
    > {
        if proposal.status != ProposalStatus::Approved {
            Some(VaultError::ProposalNotApproved)
        } else if proposal.unlock_ledger > 0 && self.now() <= proposal.unlock_ledger {
            Some(VaultError::TimelockNotExpired)
        } else {
            match self.cross_vault_proposal(proposal_id) {
                None => Some(VaultError::ProposalNotFound),
                Some(cv) => if cv.status != CrossVaultStatus::Pending && cv.status
                    != CrossVaultStatus::Approved {
                    Some(VaultError::ProposalAlreadyExecuted)
                } else {
                    None
                },
            }
        }
    }

    /// What executing a proposal of actions towards other vaults leaves behind.
    pub open spec fn execute_cross_vault(
        self,
        executor: Address,
        proposal_id: u64,
        rules: Seq<Option<CrossVaultConfigModel>>,
        transferred: Seq<bool>,
    ) -> Outcome<()> {
        match self.proposal(proposal_id) {
            Err(error) => (self, Err(error)),
            Ok(proposal) => match self.cross_vault_block(proposal, proposal_id) {
                Some(error) => (self, Err(error)),
                None => {
                    let cv = self.cross_vault_proposal(proposal_id)->0;
                    let relay = self.relay(cv.actions, rules, transferred);
                    (
                        relay.env.with_cross_vault_proposal(
                            proposal_id,
                            CrossVaultProposalModel {
                                status: if successes(relay.outcomes) == cv.actions.len() {
                                    CrossVaultStatus::Executed
                                } else {
                                    CrossVaultStatus::Failed
                                },
                                execution_results: relay.outcomes,
                                executed_at: self.now(),
                                ..cv
                            },
                        ).with_proposal(
                            ProposalModel { status: ProposalStatus::Executed, ..proposal },
                        ).publish(
                            Event::CrossVaultExecuted {
                                proposal_id,
                                executor,
                                succeeded: successes(relay.outcomes) as u32,
                            },
                        ),
                        Ok(()),
                    )
                },
            },
        }
    }

    /// Whether there is an answer for each action of a proposal.
    pub open spec fn cross_vault_answered(
        self,
        proposal_id: u64,
        rules: nat,
        transferred: nat,
    ) -> bool {
        self.cross_vault_proposal(proposal_id) matches Some(cv) ==> {
            &&& cv.actions.len() <= rules
            &&& cv.actions.len() <= transferred
            &&& cv.actions.len() <= u32::MAX
        }
    }
}

/// There is one outcome per action, and a skipped action has a bad one.
proof fn lemma_relay(
    env: EnvModel,
    actions: Seq<VaultAction>,
    rules: Seq<Option<CrossVaultConfigModel>>,
    transferred: Seq<bool>,
)
    ensures
        ({
            let relay = env.relay(actions, rules, transferred);
            &&& relay.env == (EnvModel { actions: relay.env.actions, ..env })
            &&& relay.outcomes.len() == actions.len()
            &&& forall|i: int|
                0 <= i < actions.len() ==> #[trigger] relay.outcomes[i] == (admits(
                    rules[i],
                    env.ledger.contract,
                ) && transferred[i])
        }),
    decreases actions.len(),
{
    if actions.len() > 0 {
        lemma_relay(env, actions.drop_last(), rules, transferred);
    }
}

/// All outcomes are good exactly when there are as many good ones as outcomes.
pub(crate) proof fn lemma_successes(outcomes: Seq<bool>)
    ensures
        successes(outcomes) <= outcomes.len(),
        successes(outcomes) == outcomes.len() <==> forall|i: int|
            0 <= i < outcomes.len() ==> #[trigger] outcomes[i],
    decreases outcomes.len(),
{
    if outcomes.len() > 0 {
        let rest = outcomes.drop_last();
        lemma_successes(rest);
        if successes(outcomes) == outcomes.len() {
            assert forall|i: int| 0 <= i < outcomes.len() implies #[trigger] outcomes[i] by {
                if i < rest.len() {
                    assert(rest[i]);
                }
            }
        }
        if forall|i: int| 0 <= i < outcomes.len() ==> #[trigger] outcomes[i] {
            assert forall|i: int| 0 <= i < rest.len() implies #[trigger] rest[i] by {
                assert(outcomes[i]);
            }
            assert(outcomes[outcomes.len() - 1]);
        }
    }
}

/// An executed proposal records one outcome per action, good only where the vault of the action
/// admits this one and the transfer went through. It counts as executed exactly when all are
/// good, and is never executed again.
pub proof fn law_cross_vault_outcomes_are_recorded(
    env: EnvModel,
    executor: Address,
    proposal_id: u64,
    rules: Seq<Option<CrossVaultConfigModel>>,
    transferred: Seq<bool>,
)
    requires
        env.proposal(proposal_id) matches Ok(proposal) && proposal.id == proposal_id,
        env.execute_cross_vault(executor, proposal_id, rules, transferred).1 is Ok,
    ensures
        ({
            let before = env.cross_vault_proposal(proposal_id)->0;
            let after = env.execute_cross_vault(executor, proposal_id, rules, transferred).0;
            let cv = after.cross_vault_proposal(proposal_id)->0;
            &&& cv.actions == before.actions
            &&& cv.execution_results.len() == cv.actions.len()
            &&& forall|i: int|
                0 <= i < cv.actions.len() ==> #[trigger] cv.execution_results[i] == (admits(
                    rules[i],
                    env.ledger.contract,
                ) && transferred[i])
            &&& cv.status == CrossVaultStatus::Executed <==> forall|i: int|
                0 <= i < cv.execution_results.len() ==> #[trigger] cv.execution_results[i]
            &&& after.execute_cross_vault(executor, proposal_id, rules, transferred) == (
                after,
                Err::<(), _>(VaultError::ProposalNotApproved),
            )
        }),
{
    let cv = env.cross_vault_proposal(proposal_id)->0;
    lemma_relay(env, cv.actions, rules, transferred);
    lemma_successes(env.relay(cv.actions, rules, transferred).outcomes);
}

/// Makes a proposal for transfers towards other places.
pub(crate) fn new_link_proposal(env: &Env, config: &Config, request: LinkRequest) -> (r: Proposal)
    requires
        config@.delays_fit(request.amount, env@.now()),
    ensures
        r@ == env@.link_proposal(config@, request@),
{
    let current_ledger: u64 = env.now();
    let proposal = Proposal {
        id: storage::get_next_proposal_id(env),
        proposer: request.proposer,
        recipient: request.recipient,
        token: request.token,
        amount: request.amount,
        memo: request.memo,
        metadata: Table::new(),
        tags: Vec::new(),
        approvals: Vec::new(),
        abstentions: Vec::new(),
        attachments: Texts::new(),
        status: ProposalStatus::Pending,
        priority: request.priority,
        conditions: request.conditions,
        condition_logic: request.condition_logic,
        created_at: current_ledger,
        expires_at: current_ledger + PROPOSAL_EXPIRY_LEDGERS,
        unlock_ledger: new_unlock_ledger(config, request.amount, current_ledger),
        execution_time: None,
        insurance_amount: request.insurance_amount,
        stake_amount: 0,
        gas_limit: 0,
        gas_used: 0,
        snapshot_ledger: current_ledger,
        snapshot_signers: copy_list(&config.signers),
        depends_on: Vec::new(),
        is_swap: false,
        voting_deadline: new_voting_deadline(config, current_ledger),
    };
    assert(proposal@ == env@.link_proposal(config@, request@));
    proposal
}

/// Stores a proposal for transfers towards other places and queues it.
pub(crate) fn file_link(env: &mut Env, proposal: &Proposal)
    requires
        old(env)@.proposals.next_id < u64::MAX,
    ensures
        final(env)@ == old(env)@.file_link(proposal@),
{
    let _: u64 = storage::increment_proposal_id(env);
    storage::set_proposal(env, proposal);
    storage::add_to_priority_queue(env, proposal.priority.code(), proposal.id);
}

/// What actions pay together, held at the largest amount, or that one of them pays nothing.
pub(crate) fn total_of_actions(actions: &Vec<VaultAction>) -> (r: Option<i128>)
    ensures
        r == if actions_pay(actions@) {
            Some(crate::math::clamp_i128(actions_total(actions@)))
        } else {
            None
        },
{
    let mut total: i128 = 0;
    let mut i: usize = 0;
    while i < actions.len()
        invariant
            i <= actions.len(),
            forall|j: int| 0 <= j < i ==> (#[trigger] actions@[j]).amount > 0,
            total == crate::math::clamp_i128(actions_total(actions@.take(i as int))),
            actions_total(actions@.take(i as int)) >= 0,
        decreases actions.len() - i,
    {
        if actions[i].amount <= 0 {
            return None;
        }
        assert(actions@.take(i + 1).drop_last() =~= actions@.take(i as int));
        total = sat_add(total, actions[i].amount);
        i += 1;
    }
    assert(actions@.take(actions@.len() as int) =~= actions@);
    Some(total)
}

/// Executes actions in order, and lists the outcome of each and how many are good.
fn relay_actions(
    env: &mut Env,
    actions: &Vec<VaultAction>,
    rules: &Vec<Option<CrossVaultConfig>>,
    transferred: &Vec<bool>,
) -> (r: (Vec<bool>, u32))
    requires
        actions@.len() <= rules@.len(),
        actions@.len() <= transferred@.len(),
        actions@.len() <= u32::MAX,
    ensures
        ({
            let relay = old(env)@.relay(actions@, rules_view(rules@), transferred@);
            &&& final(env)@ == relay.env
            &&& r.0@ == relay.outcomes
            &&& r.1 == successes(relay.outcomes)
        }),
{
    let ghost start = env@;
    let mut results: Vec<bool> = Vec::new();
    let mut success_count: u32 = 0;
    let mut i: usize = 0;
    while i < actions.len()
        invariant
            i <= actions.len(),
            start == old(env)@,
            actions@.len() <= rules@.len(),
            actions@.len() <= transferred@.len(),
            actions@.len() <= u32::MAX,
            success_count <= i,
            env@.ledger == start.ledger,
            ({
                let relay = start.relay(
                    actions@.take(i as int),
                    rules_view(rules@),
                    transferred@,
                );
                &&& env@ == relay.env
                &&& results@ == relay.outcomes
                &&& success_count == successes(relay.outcomes)
            }),
        decreases actions.len() - i,
    {
        let action = actions[i];
        let ghost before = results@;
        assert(actions@.take(i + 1).drop_last() =~= actions@.take(i as int));
        let mut ok = false;
        if VaultDAO::coordinates(env, &rules[i]) {
            ok = transferred[i];
            env.act(
                Action::TriedTransfer {
                    token: action.token,
                    to: action.recipient,
                    amount: action.amount,
                    done: ok,
                },
            );
        }
        results.push(ok);
        assert(results@.drop_last() =~= before);
        if ok {
            success_count += 1;
        }
        i += 1;
    }
    assert(actions@.take(actions@.len() as int) =~= actions@);
    (results, success_count)
}

impl VaultDAO {
    /// Sets the rules for other vaults. Only admins may.
    pub fn set_cross_vault_config(env: &mut Env, admin: Address, config: CrossVaultConfig) -> (r:
        Result<(), VaultError>)
        requires
            old(env)@.authorized(admin),
        ensures
            (final(env)@, r) == old(env)@.change_cross_vault_config(admin, config@),
    {
        let _ = storage::get_config(env)?;
        if storage::get_role(env, &admin) != Role::Admin {
            return Err(VaultError::Unauthorized);
        }
        storage::set_cross_vault_config(env, &config);
        env.publish(Event::CrossVaultConfigSet { admin });
        Ok(())
    }

    /// The rules for other vaults.
    pub fn get_cross_vault_config(env: &Env) -> (r: Option<CrossVaultConfig>)
        ensures
            crate::table::opt_view(r) == env@.cross_vault_config(),
    {
        storage::get_cross_vault_config(env)
    }

    /// Proposes actions towards other vaults. Treasurers and admins may.
    pub fn propose_cross_vault(
        env: &mut Env,
        proposer: Address,
        actions: Vec<VaultAction>,
        priority: Priority,
        conditions: Vec<Condition>,
        condition_logic: ConditionLogic,
        insurance_amount: i128,
    ) -> (r: Result<u64, VaultError>)
        requires
            old(env)@.authorized(proposer),
            old(env)@.cross_vault_fits(proposer, actions@),
        ensures
            (final(env)@, r) == old(env)@.propose_cross_vault(
                proposer,
                actions@,
                priority,
                conditions@,
                condition_logic,
                insurance_amount,
            ),
    {
        let config = storage::get_config(env)?;
        let role = storage::get_role(env, &proposer);
        if role != Role::Treasurer && role != Role::Admin {
            return Err(VaultError::InsufficientRole);
        }
        if actions.len() == 0 {
            return Err(VaultError::InvalidAmount);
        }
        let total_amount: i128 = match total_of_actions(&actions) {
            Some(total) => total,
            None => return Err(VaultError::InvalidAmount),
        };
        let request = LinkRequest {
            proposer,
            recipient: actions[0].recipient,
            token: actions[0].token,
            amount: total_amount,
            memo: Symbol::short(CROSS_VAULT_HALF),
            priority,
            conditions,
            condition_logic,
            insurance_amount,
        };
        let proposal = new_link_proposal(env, &config, request);
        file_link(env, &proposal);
        let action_count: u32 = count_u32(actions.len() as u128);
        let cv = CrossVaultProposal {
            actions,
            status: CrossVaultStatus::Pending,
            execution_results: Vec::new(),
            executed_at: 0,
        };
        storage::set_cross_vault_proposal(env, proposal.id, &cv);
        storage::extend_instance_ttl(env);
        env.publish(
            Event::CrossVaultProposed {
                proposal_id: proposal.id,
                proposer,
                actions: action_count,
            },
        );
        Ok(proposal.id)
    }

    /// Whether a vault that answered with its rules admits this one as coordinator.
    pub fn coordinates(env: &Env, rules: &Option<CrossVaultConfig>) -> (r: bool)
        ensures
            r == admits(crate::table::opt_view(*rules), env@.ledger.contract),
    {
        match rules {
            Some(config) => config.enabled && list_contains(
                &config.authorized_coordinators,
                &env.ledger.contract,
            ),
            None => false,
        }
    }

    /// Decides whether a proposal of actions towards other vaults may be executed.
    pub fn start_cross_vault(env: &Env, proposal_id: u64) -> (r: Result<
        (Proposal, CrossVaultProposal),
        VaultError,
    >)
        ensures
            match env@.proposal(proposal_id) {
                Err(error) => r matches Err(e) && e == error,
                Ok(proposal) => match env@.cross_vault_block(proposal, proposal_id) {
                    Some(error) => r matches Err(e) && e == error,
                    None => r matches Ok(started) && started.0@ == proposal
                        && env@.cross_vault_proposal(proposal_id) == Some(started.1@),
                },
            },
    {
        let proposal = storage::get_proposal(env, proposal_id)?;
        if proposal.status != ProposalStatus::Approved {
            return Err(VaultError::ProposalNotApproved);
        }
        if proposal.unlock_ledger > 0 && env.now() <= proposal.unlock_ledger {
            return Err(VaultError::TimelockNotExpired);
        }
        let cv = match storage::get_cross_vault_proposal(env, proposal_id) {
            Some(cv) => cv,
            None => return Err(VaultError::ProposalNotFound),
        };
        if cv.status != CrossVaultStatus::Pending && cv.status != CrossVaultStatus::Approved {
            return Err(VaultError::ProposalAlreadyExecuted);
        }
        Ok((proposal, cv))
    }

    /// Executes an approved proposal of actions towards other vaults, given the rules that the
    /// vault of each action answered with and whether each transfer went through. An action
    /// that fails does not stop the others.
    pub fn execute_cross_vault(
        env: &mut Env,
        executor: Address,
        proposal_id: u64,
        rules: &Vec<Option<CrossVaultConfig>>,
        transferred: &Vec<bool>,
    ) -> (r: Result<(), VaultError>)
        requires
            old(env)@.authorized(executor),
            old(env)@.cross_vault_answered(proposal_id, rules@.len(), transferred@.len()),
        ensures
            (final(env)@, r) == old(env)@.execute_cross_vault(
                executor,
                proposal_id,
                rules_view(rules@),
                transferred@,
            ),
    {
        let (mut proposal, mut cv) = Self::start_cross_vault(env, proposal_id)?;
        proof {
            lemma_relay(env@, cv@.actions, rules_view(rules@), transferred@);
        }
        let (results, success_count) = relay_actions(env, &cv.actions, rules, transferred);
        cv.status = if success_count as u64 == cv.actions.len() as u64 {
            CrossVaultStatus::Executed
        } else {
            CrossVaultStatus::Failed
        };
        cv.execution_results = results;
        cv.executed_at = env.now();
        proposal.status = ProposalStatus::Executed;
        storage::set_cross_vault_proposal(env, proposal_id, &cv);
        storage::set_proposal(env, &proposal);
        env.publish(
            Event::CrossVaultExecuted { proposal_id, executor, succeeded: success_count },
        );
        Ok(())
    }

    /// The actions of a proposal towards other vaults.
    pub fn get_cross_vault_proposal(env: &Env, proposal_id: u64) -> (r: Option<
        CrossVaultProposal,
    >)
        ensures
            crate::table::opt_view(r) == env@.cross_vault_proposal(proposal_id),
    {
        storage::get_cross_vault_proposal(env, proposal_id)
    }
}

} // verus!
