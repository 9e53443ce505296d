//! Proposals for operations on exchanges and farms.

use vstd::prelude::*;

use crate::costs::publish_metrics;
use crate::env::{Action, Env, EnvModel, Event};
use crate::errors::VaultError;
use crate::math::divide;
use crate::primitives::{copy_list, list_contains, Address, Symbol, Texts, SWAP_HALF};
use crate::proposals::{calculate_expiration_ledger, new_voting_deadline, Outcome};
use crate::storage;
use crate::table::Table;
use crate::types::{
    Condition, ConditionLogic, ConfigModel, DexConfig, DexConfigModel, Priority, Proposal,
    ProposalModel, ProposalStatus, Role, SwapProposal, SwapResult,
};
use crate::VaultDAO;

verus! {

/// The price impact that a swap is taken to have, in basis points.
pub const SWAP_PRICE_IMPACT_BPS: u32 = 100;

/// The exchange or farm that an operation goes to.
pub open spec fn venue(operation: SwapProposal) -> Address {
    match operation {
        SwapProposal::Swap(dex, _, _, _, _) => dex,
        SwapProposal::AddLiquidity(dex, _, _, _, _) => dex,
        SwapProposal::RemoveLiquidity(dex, _, _) => dex,
        SwapProposal::StakeLp(farm, _, _) => farm,
        SwapProposal::UnstakeLp(farm, _, _) => farm,
        SwapProposal::ClaimRewards(farm) => farm,
    }
}

/// What a swap brings: the amount less the price impact.
pub open spec fn swap_yield(amount_in: i128) -> int {
    crate::math::quotient(amount_in * 99, 100)
}

/// What a proposal for an exchange is made with.
pub ghost struct SwapRequest {
    pub proposer: Address,
    pub operation: SwapProposal,
    pub priority: Priority,
    pub conditions: Seq<Condition>,
    pub condition_logic: ConditionLogic,
    pub insurance_amount: i128,
}

impl EnvModel {
    /// What setting the exchange rules leaves behind.
    pub open spec fn set_dex(self, admin: Address, rules: DexConfigModel) -> Outcome<()> {
        if self.role(admin) != Role::Admin {
            (self, Err(VaultError::Unauthorized))
        } else {
            (
                self.with_dex_config(rules).publish(Event::DexConfigUpdated { admin }),
                Ok(()),
            )
        }
    }

    /// Why an operation is refused, if it is.
    pub open spec fn swap_refusal(self, proposer: Address, operation: SwapProposal) -> Option<
        VaultError,
    > {
        match self.config() {
            Err(error) => Some(error),
            Ok(_) => if !self.may_propose(proposer) {
                Some(VaultError::InsufficientRole)
            } else {
                match self.dex_config() {
                    Some(rules) => if rules.enabled_dexs.contains(venue(operation)) {
                        None
                    } else {
                        Some(VaultError::DexError)
                    },
                    None => Some(VaultError::DexError),
                }
            },
        }
    }

    /// Whether proposing an operation, where it is allowed, stays within the limits of
    /// integers.
    pub open spec fn swap_proposal_fits(
        self,
        proposer: Address,
        operation: SwapProposal,
        priority: Priority,
    ) -> bool {
        &&& self.has_room()
        &&& self.swap_refusal(proposer, operation) is None ==> {
            let config = self.access.config->0;
            &&& self.reputation(proposer).proposals_created < u32::MAX
            &&& crate::proposals::expiration_ledger(config, priority, self.now()) <= u64::MAX
            &&& config.deadline_fits(self.now())
        }
    }

    /// A new proposal for an exchange.
    pub open spec fn swap_proposal(self, config: ConfigModel, request: SwapRequest) -> 
        ProposalModel {
        ProposalModel {
            id: self.proposals.next_id,
            proposer: request.proposer,
            recipient: self.ledger.contract,
            token: self.ledger.contract,
            amount: 0,
            memo: Symbol::spec_short(SWAP_HALF),
            metadata: Map::empty(),
            tags: Seq::empty(),
            approvals: Seq::empty(),
            abstentions: Seq::empty(),
            attachments: Seq::empty(),
            status: ProposalStatus::Pending,
            priority: request.priority,
            conditions: request.conditions,
            condition_logic: request.condition_logic,
            created_at: self.now(),
            expires_at: crate::proposals::expiration_ledger(
                config,
                request.priority,
                self.now(),
            ) as u64,
            unlock_ledger: 0,
            execution_time: None,
            insurance_amount: request.insurance_amount,
            stake_amount: 0,
            gas_limit: 0,
            gas_used: 0,
            snapshot_ledger: self.now(),
            snapshot_signers: config.signers,
            depends_on: Seq::empty(),
            is_swap: true,
            voting_deadline: crate::proposals::voting_deadline(config, self.now()),
        }
    }

    /// The state after a proposal for an exchange was created.
    #[verifier::opaque]
    pub open spec fn create_swap(self, proposal: ProposalModel, operation: SwapProposal) -> EnvModel {
        self.bump_proposal_id().with_proposal(proposal).estimate_cost(proposal).with_swap(
            proposal.id,
            operation,
        ).queue_push(proposal.priority.spec_code(), proposal.id).publish(
            Event::ProposalCreated {
                proposal_id: proposal.id,
                proposer: proposal.proposer,
                recipient: self.ledger.contract,
                token: self.ledger.contract,
                amount: 0,
                insurance: 0,
            },
        ).reputation_on_propose(proposal.proposer).count_proposal().publish_metrics()
    }

    /// What proposing an operation leaves behind.
    pub open spec fn propose_swap(self, request: SwapRequest) -> Outcome<u64> {
        match self.swap_refusal(request.proposer, request.operation) {
            Some(error) => (self, Err(error)),
            None => (
                self.create_swap(
                    self.swap_proposal(self.access.config->0, request),
                    request.operation,
                ),
                Ok(self.proposals.next_id),
            ),
        }
    }

    /// The outcome of an operation, or that the rules do not allow it.
    pub open spec fn swap_outcome(self, rules: DexConfigModel, operation: SwapProposal) -> Result<
        SwapResult,
        VaultError,
    > {
        match operation {
            SwapProposal::Swap(dex, _, _, amount_in, least_out) => if !rules.enabled_dexs.contains(
                dex,
            ) || SWAP_PRICE_IMPACT_BPS > rules.max_price_impact_bps || swap_yield(amount_in)
                < least_out {
                Err(VaultError::DexError)
            } else {
                Ok(
                    SwapResult {
                        amount_in,
                        amount_out: swap_yield(amount_in) as i128,
                        price_impact_bps: SWAP_PRICE_IMPACT_BPS,
                        executed_at: self.now(),
                    },
                )
            },
            _ => Ok(
                SwapResult {
                    amount_in: 1000,
                    amount_out: 990,
                    price_impact_bps: SWAP_PRICE_IMPACT_BPS,
                    executed_at: self.now(),
                },
            ),
        }
    }

    /// The outcome of the operation of an approved proposal, or why it cannot be executed.
    pub open spec fn swap_execution(self, proposal: ProposalModel, proposal_id: u64) -> Result<
        SwapResult,
        VaultError,
    > {
        if proposal.unlock_ledger > 0 && self.now() < proposal.unlock_ledger {
            Err(VaultError::TimelockNotExpired)
        } else if self.dex_config() is None || self.swap(proposal_id) is None {
            Err(VaultError::DexError)
        } else {
            self.swap_outcome(self.dex_config()->0, self.swap(proposal_id)->0)
        }
    }

    /// The state after the operation of a proposal was executed.
    pub open spec fn swap_executed(
        self,
        executor: Address,
        proposal: ProposalModel,
        proposal_id: u64,
        result: SwapResult,
    ) -> EnvModel {
        let executed = ProposalModel { status: ProposalStatus::Executed, ..proposal };
        self.with_swap_result(proposal_id, result).with_proposal(executed).act(
            Action::ExtendInstanceTtl,
        ).publish(
            Event::ProposalExecuted {
                proposal_id,
                executor,
                recipient: self.ledger.contract,
                token: self.ledger.contract,
                amount: 0,
                ledger: self.now(),
            },
        ).reputation_on_execution(proposal.proposer, proposal.approvals).count_execution(
            proposal.gas_used,
            crate::math::clamp_u64(self.now() - proposal.created_at),
        )
    }

    /// What executing a proposal for an exchange leaves behind.
    pub open spec fn execute_swap(self, executor: Address, proposal_id: u64) -> Outcome<()> {
        match self.proposal(proposal_id) {
            Err(error) => (self, Err(error)),
            Ok(proposal) => if !proposal.is_swap {
                (self, Err(VaultError::DexError))
            } else if proposal.status != ProposalStatus::Approved {
                (self, Err(VaultError::ProposalNotApproved))
            } else if self.now() > proposal.expires_at {
                (
                    self.with_proposal(
                        ProposalModel { status: ProposalStatus::Expired, ..proposal },
                    ).count_expiry().publish(
                        Event::ProposalExpired {
                            proposal_id,
                            expires_at: proposal.expires_at,
                        },
                    ),
                    Err(VaultError::ProposalExpired),
                )
            } else {
                match self.swap_execution(proposal, proposal_id) {
                    Err(error) => (self, Err(error)),
                    Ok(result) => (
                        self.swap_executed(executor, proposal, proposal_id, result),
                        Ok(()),
                    ),
                }
            },
        }
    }

    /// Whether the operation of a proposal, where it may be executed, can be computed and
    /// counted for the proposer.
    pub open spec fn swap_execution_fits(self, proposal_id: u64) -> bool {
        self.proposal(proposal_id) matches Ok(proposal) ==> (self.dex_config() matches Some(rules)
            ==> (self.swap(proposal_id) matches Some(operation) ==> {
            let begins = proposal.is_swap && proposal.status == ProposalStatus::Approved
                && self.now() <= proposal.expires_at && (proposal.unlock_ledger == 0
                || self.now() >= proposal.unlock_ledger);
            begins ==> {
                &&& swap_fits(rules, operation)
                &&& self.swap_outcome(rules, operation) is Ok ==> self.reputation(
                    proposal.proposer,
                ).proposals_executed < u32::MAX
            }
        }))
    }
}

/// Whether the yield of an operation, where the rules allow it, can be computed.
pub open spec fn swap_fits(rules: DexConfigModel, operation: SwapProposal) -> bool {
    operation matches SwapProposal::Swap(dex, _, _, amount_in, _) ==> (
    rules.enabled_dexs.contains(dex) && SWAP_PRICE_IMPACT_BPS <= rules.max_price_impact_bps
        ==> crate::math::fits_i128(amount_in * 99))
}

/// A swap that goes through brings at least what its proposal asks for.
pub proof fn law_swaps_keep_the_minimum(
    env: EnvModel,
    rules: DexConfigModel,
    dex: Address,
    token_in: Address,
    token_out: Address,
    amount_in: i128,
    least_out: i128,
)
    requires
        crate::math::fits_i128(amount_in * 99),
        env.swap_outcome(
            rules,
            SwapProposal::Swap(dex, token_in, token_out, amount_in, least_out),
        ) is Ok,
    ensures
        env.swap_outcome(
            rules,
            SwapProposal::Swap(dex, token_in, token_out, amount_in, least_out),
        )->Ok_0.amount_out >= least_out,
        rules.enabled_dexs.contains(dex),
{
}

/// The exchange or farm that an operation goes to.
pub(crate) fn venue_of(operation: &SwapProposal) -> (r: Address)
    ensures
        r == venue(*operation),
{
    match operation {
        SwapProposal::Swap(dex, _, _, _, _) => *dex,
        SwapProposal::AddLiquidity(dex, _, _, _, _) => *dex,
        SwapProposal::RemoveLiquidity(dex, _, _) => *dex,
        SwapProposal::StakeLp(farm, _, _) => *farm,
        SwapProposal::UnstakeLp(farm, _, _) => *farm,
        SwapProposal::ClaimRewards(farm) => *farm,
    }
}

/// Creates a proposal for an exchange.
fn create_swap(env: &mut Env, proposal: &Proposal, operation: &SwapProposal)
    requires
        proposal.id == old(env)@.proposals.next_id < u64::MAX,
        old(env)@.reputation(proposal.proposer).proposals_created < u32::MAX,
    ensures
        final(env)@ == old(env)@.create_swap(proposal@, *operation),
{
    proof {
        reveal(EnvModel::create_swap);
    }
    let _ = storage::increment_proposal_id(env);
    storage::set_proposal(env, proposal);
    let _ = VaultDAO::persist_execution_fee_estimate(env, proposal);
    storage::set_swap_proposal(env, proposal.id, operation);
    storage::add_to_priority_queue(env, proposal.priority.code(), proposal.id);
    let contract = env.ledger.contract;
    env.publish(
        Event::ProposalCreated {
            proposal_id: proposal.id,
            proposer: proposal.proposer,
            recipient: contract,
            token: contract,
            amount: 0,
            insurance: 0,
        },
    );
    VaultDAO::update_reputation_on_propose(env, &proposal.proposer);
    storage::metrics_on_proposal(env);
    publish_metrics(env);
}

impl VaultDAO {
    /// Sets the exchange rules. Only admins may.
    pub fn set_dex_config(env: &mut Env, admin: Address, dex_config: DexConfig) -> (r: Result<
        (),
        VaultError,
    >)
        requires
            old(env)@.authorized(admin),
        ensures
            (final(env)@, r) == old(env)@.set_dex(admin, dex_config@),
    {
        if storage::get_role(env, &admin) != Role::Admin {
            return Err(VaultError::Unauthorized);
        }
        storage::set_dex_config(env, &dex_config);
        env.publish(Event::DexConfigUpdated { admin });
        Ok(())
    }

    /// The exchange rules, if any.
    pub fn get_dex_config(env: &Env) -> (r: Option<DexConfig>)
        ensures
            crate::table::opt_view(r) == env@.dex_config(),
    {
        storage::get_dex_config(env)
    }

    /// Proposes an operation on an enabled exchange or farm. Treasurers and admins may.
    pub fn propose_swap(
        env: &mut Env,
        proposer: Address,
        swap_op: SwapProposal,
        priority: Priority,
        conditions: Vec<Condition>,
        condition_logic: ConditionLogic,
        insurance_amount: i128,
    ) -> (r: Result<u64, VaultError>)
        requires
            old(env)@.authorized(proposer),
            old(env)@.swap_proposal_fits(proposer, swap_op, priority),
        ensures
            (final(env)@, r) == old(env)@.propose_swap(
                (SwapRequest {
                    proposer,
                    operation: swap_op,
                    priority,
                    conditions: conditions@,
                    condition_logic,
                    insurance_amount,
                }),
            ),
    {
        let ghost request = SwapRequest {
            proposer,
            operation: swap_op,
            priority,
            conditions: conditions@,
            condition_logic,
            insurance_amount,
        };
        let config = storage::get_config(env)?;
        let role = storage::get_role(env, &proposer);
        if role != Role::Treasurer && role != Role::Admin {
            return Err(VaultError::InsufficientRole);
        }
        let rules = match storage::get_dex_config(env) {
            Some(rules) => rules,
            None => return Err(VaultError::DexError),
        };
        if !list_contains(&rules.enabled_dexs, &venue_of(&swap_op)) {
            return Err(VaultError::DexError);
        }
        let current_ledger: u64 = env.now();
        let proposal_id: u64 = storage::get_next_proposal_id(env);
        let contract = env.ledger.contract;
        let proposal = Proposal {
            id: proposal_id,
            proposer,
            recipient: contract,
            token: contract,
            amount: 0,
            memo: Symbol::short(SWAP_HALF),
            metadata: Table::new(),
            tags: Vec::new(),
            approvals: Vec::new(),
            abstentions: Vec::new(),
            attachments: Texts::new(),
            status: ProposalStatus::Pending,
            priority,
            conditions,
            condition_logic,
            created_at: current_ledger,
            expires_at: calculate_expiration_ledger(&config, &priority, current_ledger),
            unlock_ledger: 0,
            execution_time: None,
            insurance_amount,
            stake_amount: 0,
            gas_limit: 0,
            gas_used: 0,
            snapshot_ledger: current_ledger,
            snapshot_signers: copy_list(&config.signers),
            depends_on: Vec::new(),
            is_swap: true,
            voting_deadline: new_voting_deadline(&config, current_ledger),
        };
        assert(proposal@ == old(env)@.swap_proposal(config@, request));
        create_swap(env, &proposal, &swap_op);
        Ok(proposal_id)
    }

    /// Executes an approved proposal for an exchange.
    pub fn execute_swap(env: &mut Env, executor: Address, proposal_id: u64) -> (r: Result<
        (),
        VaultError,
    >)
        requires
            old(env)@.authorized(executor),
            old(env)@.swap_execution_fits(proposal_id),
        ensures
            (final(env)@, r) == old(env)@.execute_swap(executor, proposal_id),
    {
        let mut proposal = storage::get_proposal(env, proposal_id)?;
        if !proposal.is_swap {
            return Err(VaultError::DexError);
        }
        if proposal.status != ProposalStatus::Approved {
            return Err(VaultError::ProposalNotApproved);
        }
        let current_ledger: u64 = env.now();
        if current_ledger > proposal.expires_at {
            proposal.status = ProposalStatus::Expired;
            storage::set_proposal(env, &proposal);
            storage::metrics_on_expiry(env);
            env.publish(
                Event::ProposalExpired { proposal_id, expires_at: proposal.expires_at },
            );
            return Err(VaultError::ProposalExpired);
        }
        if proposal.unlock_ledger > 0 && current_ledger < proposal.unlock_ledger {
            return Err(VaultError::TimelockNotExpired);
        }
        let rules = match storage::get_dex_config(env) {
            Some(rules) => rules,
            None => return Err(VaultError::DexError),
        };
        let operation = match storage::get_swap_proposal(env, proposal_id) {
            Some(operation) => operation,
            None => return Err(VaultError::DexError),
        };
        let result = Self::perform_swap(env, &rules, &operation)?;
        storage::set_swap_result(env, proposal_id, &result);
        proposal.status = ProposalStatus::Executed;
        storage::set_proposal(env, &proposal);
        storage::extend_instance_ttl(env);
        let contract = env.ledger.contract;
        env.publish(
            Event::ProposalExecuted {
                proposal_id,
                executor,
                recipient: contract,
                token: contract,
                amount: 0,
                ledger: current_ledger,
            },
        );
        Self::update_reputation_on_execution(env, &proposal);
        let execution_time: u64 = current_ledger.saturating_sub(proposal.created_at);
        storage::metrics_on_execution(env, proposal.gas_used, execution_time);
        Ok(())
    }

    /// The outcome of an operation. A swap is taken to have a price impact of one percent.
    pub fn perform_swap(env: &Env, dex_config: &DexConfig, swap_proposal: &SwapProposal) -> (r:
        Result<SwapResult, VaultError>)
        requires
            swap_fits(dex_config@, *swap_proposal),
        ensures
            r == env@.swap_outcome(dex_config@, *swap_proposal),
    {
        match swap_proposal {
            SwapProposal::Swap(dex, _, _, amount_in, least_out) => {
                if !list_contains(&dex_config.enabled_dexs, dex) {
                    return Err(VaultError::DexError);
                }
                if SWAP_PRICE_IMPACT_BPS > dex_config.max_price_impact_bps {
                    return Err(VaultError::DexError);
                }
                let amount_out: i128 = divide(*amount_in * 99, 100);
                if amount_out < *least_out {
                    return Err(VaultError::DexError);
                }
                Ok(
                    SwapResult {
                        amount_in: *amount_in,
                        amount_out,
                        price_impact_bps: SWAP_PRICE_IMPACT_BPS,
                        executed_at: env.now(),
                    },
                )
            },
            _ => Ok(
                SwapResult {
                    amount_in: 1000,
                    amount_out: 990,
                    price_impact_bps: SWAP_PRICE_IMPACT_BPS,
                    executed_at: env.now(),
                },
            ),
        }
    }

    /// The outcome of a swap, if it was executed.
    pub fn get_swap_result(env: &Env, proposal_id: u64) -> (r: Option<SwapResult>)
        ensures
            r == env@.swap_result(proposal_id),
    {
        storage::get_swap_result(env, proposal_id)
    }
}

} // verus!
