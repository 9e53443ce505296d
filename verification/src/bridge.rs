//! Transfers over a bridge to other chains.

use vstd::prelude::*;

use crate::cross_vault::{file_link, new_link_proposal, LinkRequest};
use crate::env::{Action, Env, EnvModel, Event};
use crate::errors::VaultError;
use crate::math::sat_add;
use crate::primitives::{Address, Symbol, BRIDGE_HALF};
use crate::proposals::Outcome;
use crate::storage;
use crate::types::{
    BridgeConfig, BridgeConfigModel, Condition, ConditionLogic, CrossChainAsset,
    CrossChainProposal, CrossChainProposalModel, CrossVaultStatus, Priority, ProposalModel,
    ProposalStatus, Role, TransferRequestModel,
};
use crate::VaultDAO;

verus! {

/// Assets that one proposal can send over the bridge.
pub const MAX_CROSS_VAULT_ACTIONS: usize = 5;

/// What assets amount to together.
pub open spec fn assets_total(assets: Seq<CrossChainAsset>) -> int
    decreases assets.len(),
{
    if assets.len() == 0 {
        0
    } else {
        assets_total(assets.drop_last()) + assets.last().amount
    }
}

/// Whether there is something of every asset.
pub open spec fn assets_positive(assets: Seq<CrossChainAsset>) -> bool {
    forall|i: int| 0 <= i < assets.len() ==> (#[trigger] assets[i]).amount > 0
}

/// The outcomes of sending assets: none is good without an adapter.
pub open spec fn bridge_outcomes(
    assets: Seq<CrossChainAsset>,
    adapters: Seq<Address>,
    transferred: Seq<bool>,
) -> Seq<bool> {
    Seq::new(assets.len(), |i: int| adapters.len() > 0 && transferred[i])
}

impl EnvModel {
    /// What configuring the bridge leaves behind.
    pub open spec fn change_bridge_config(self, admin: Address, bridge: BridgeConfigModel) -> 
        Outcome<()> {
        if self.role(admin) != Role::Admin {
            (self, Err(VaultError::Unauthorized))
        } else {
            (
                self.with_bridge_config(bridge).act(Action::ExtendInstanceTtl).publish(
                    Event::BridgeConfigUpdated { admin },
                ),
                Ok(()),
            )
        }
    }

    /// Whether a bridge is configured and enabled.
    pub open spec fn bridge_enabled(self) -> bool {
        self.bridge_config() matches Some(bridge) && bridge.enabled
    }

    /// Why a transfer over the bridge cannot be proposed, if it cannot.
    pub open spec fn bridge_refusal(self, proposer: Address, assets: Seq<CrossChainAsset>) -> 
        Option<VaultError> {
        if !self.bridge_enabled() {
            Some(VaultError::BridgeError)
        } else {
            match self.config() {
                Err(error) => Some(error),
                Ok(_) => if !self.may_propose(proposer) {
                    Some(VaultError::InsufficientRole)
                } else if assets.len() == 0 {
                    Some(VaultError::InvalidAmount)
                } else if assets.len() > MAX_CROSS_VAULT_ACTIONS {
                    Some(VaultError::BridgeError)
                } else if !assets_positive(assets) {
                    Some(VaultError::InvalidAmount)
                } else {
                    None
                },
            }
        }
    }

    /// Whether proposing a transfer over the bridge, where it is allowed, stays within the
    /// limits of integers.
    pub open spec fn bridge_transfer_fits(
        self,
        proposer: Address,
        assets: Seq<CrossChainAsset>,
    ) -> bool {
        &&& self.has_room()
        &&& self.bridge_refusal(proposer, assets) is None ==> self.access.config->0.delays_fit(
            crate::math::clamp_i128(assets_total(assets)),
            self.now(),
        )
    }

    /// The state after a proposal for a transfer over the bridge was created.
    pub open spec fn create_bridge_transfer(
        self,
        proposal: ProposalModel,
        assets: Seq<CrossChainAsset>,
    ) -> EnvModel {
        self.file_link(proposal).with_cross_chain_proposal(
            proposal.id,
            CrossChainProposalModel {
                assets,
                status: CrossVaultStatus::Pending,
                execution_results: Seq::empty(),
                executed_at: 0,
            },
        ).act(Action::ExtendInstanceTtl).publish(
            Event::BridgeProposed {
                proposal_id: proposal.id,
                proposer: proposal.proposer,
                assets: assets.len() as u32,
            },
        )
    }

    /// What proposing a transfer over the bridge leaves behind. The first asset gives the
    /// proposal its token.
    pub open spec fn propose_bridge_transfer(
        self,
        proposer: Address,
        assets: Seq<CrossChainAsset>,
        priority: Priority,
        conditions: Seq<Condition>,
        condition_logic: ConditionLogic,
        insurance_amount: i128,
    ) -> Outcome<u64> {
        match self.bridge_refusal(proposer, assets) {
            Some(error) => (self, Err(error)),
            None => (
                self.create_bridge_transfer(
                    self.link_proposal(
                        self.access.config->0,
                        TransferRequestModel {
                            proposer,
                            recipient: self.ledger.contract,
                            token: assets[0].token,
                            amount: crate::math::clamp_i128(assets_total(assets)),
                            memo: Symbol::spec_short(BRIDGE_HALF),
                            priority,
                            conditions,
                            condition_logic,
                            insurance_amount,
                            depends_on: Seq::empty(),
                            execution_time: None,
                        },
                    ),
                    assets,
                ),
                Ok(self.proposals.next_id),
            ),
        }
    }

    /// The state after sending assets to an adapter was tried in order.
    pub open spec fn send_assets(
        self,
        assets: Seq<CrossChainAsset>,
        adapters: Seq<Address>,
        transferred: Seq<bool>,
    ) -> EnvModel
        decreases assets.len(),
    {
        if assets.len() == 0 || adapters.len() == 0 {
            self
        } else {
            let i = assets.len() - 1;
            self.send_assets(assets.drop_last(), adapters, transferred).act(
                Action::TriedTransfer {
                    token: assets[i].token,
                    to: adapters[0],
                    amount: assets[i].amount,
                    done: transferred[i],
                },
            )
        }
    }

    /// Why a transfer over the bridge cannot be executed, if it cannot.
    pub open spec fn bridge_block(self, proposal: ProposalModel, proposal_id: u64) -> Option<
        VaultError,
    > {
        if proposal.status != ProposalStatus::Approved {
            Some(VaultError::ProposalNotApproved)
        } else if proposal.unlock_ledger > 0 && self.now() < proposal.unlock_ledger {
            Some(VaultError::TimelockNotExpired)
        } else {
            match self.cross_chain_proposal(proposal_id) {
                None => Some(VaultError::ProposalNotFound),
                Some(cc) => if cc.status != CrossVaultStatus::Pending {
                    Some(VaultError::ProposalAlreadyExecuted)
                } else if !self.bridge_enabled() {
                    Some(VaultError::BridgeError)
                } else {
                    None
                },
            }
        }
    }

    /// What sending the assets of a proposal over the bridge leaves behind.
    pub open spec fn run_bridge(
        self,
        executor: Address,
        proposal_id: u64,
        transferred: Seq<bool>,
    ) -> Outcome<()> {
        match self.proposal(proposal_id) {
            Err(error) => (self, Err(error)),
            Ok(proposal) => match self.bridge_block(proposal, proposal_id) {
                Some(error) => (self, Err(error)),
                None => {
                    let cc = self.cross_chain_proposal(proposal_id)->0;
                    let adapters = self.bridge_config()->0.bridge_adapters;
                    let outcomes = bridge_outcomes(cc.assets, adapters, transferred);
                    let succeeded = crate::cross_vault::successes(outcomes);
                    (
                        self.send_assets(
                            cc.assets,
                            adapters,
                            transferred,
                        ).with_cross_chain_proposal(
                            proposal_id,
                            CrossChainProposalModel {
                                status: if succeeded == cc.assets.len() {
                                    CrossVaultStatus::Executed
                                } else {
                                    CrossVaultStatus::Failed
                                },
                                execution_results: outcomes,
                                executed_at: self.now(),
                                ..cc
                            },
                        ).with_proposal(
                            ProposalModel { status: ProposalStatus::Executed, ..proposal },
                        ).act(Action::ExtendInstanceTtl).publish(
                            Event::BridgeExecuted {
                                proposal_id,
                                executor,
                                succeeded: succeeded as u32,
                            },
                        ),
                        Ok(()),
                    )
                },
            },
        }
    }

    /// What executing a transfer over the bridge leaves behind. Meanwhile its lock is held.
    pub open spec fn execute_bridge(
        self,
        executor: Address,
        proposal_id: u64,
        transferred: Seq<bool>,
    ) -> Outcome<()> {
        if self.bridge_locked(proposal_id) {
            (self, Err(VaultError::BridgeError))
        } else {
            let (after, r) = self.with_bridge_lock(proposal_id).run_bridge(
                executor,
                proposal_id,
                transferred,
            );
            (after.without_bridge_lock(proposal_id), r)
        }
    }

    /// Whether there is an answer for each asset of a proposal.
    pub open spec fn bridge_answered(self, proposal_id: u64, transferred: nat) -> bool {
        self.cross_chain_proposal(proposal_id) matches Some(cc) ==> {
            &&& cc.assets.len() <= transferred
            &&& cc.assets.len() <= u32::MAX
        }
    }
}

/// Sending assets asks for transfers and changes nothing else.
proof fn lemma_send_frame(
    env: EnvModel,
    assets: Seq<CrossChainAsset>,
    adapters: Seq<Address>,
    transferred: Seq<bool>,
)
    ensures
        env.send_assets(assets, adapters, transferred) == (EnvModel {
            actions: env.send_assets(assets, adapters, transferred).actions,
            ..env
        }),
    decreases assets.len(),
{
    if assets.len() > 0 && adapters.len() > 0 {
        lemma_send_frame(env, assets.drop_last(), adapters, transferred);
    }
}

/// A call for a proposal whose lock is held is refused; every other call gives the lock back,
/// whether it succeeds or not.
pub proof fn law_bridge_locks_are_given_back(
    env: EnvModel,
    executor: Address,
    proposal_id: u64,
    transferred: Seq<bool>,
)
    ensures
        env.bridge_locked(proposal_id) ==> env.execute_bridge(executor, proposal_id, transferred)
            == (env, Err::<(), _>(VaultError::BridgeError)),
        !env.bridge_locked(proposal_id) ==> !env.execute_bridge(
            executor,
            proposal_id,
            transferred,
        ).0.bridge_locked(proposal_id),
{
}

/// While a transfer over the bridge is executed, executing the same proposal again is refused.
pub proof fn law_bridge_refuses_nested_calls(
    env: EnvModel,
    executor: Address,
    proposal_id: u64,
    transferred: Seq<bool>,
)
    ensures
        env.with_bridge_lock(proposal_id).execute_bridge(executor, proposal_id, transferred).1
            == Err::<(), _>(VaultError::BridgeError),
{
}

/// A transfer over the bridge is executed once. It counts as executed exactly when every asset
/// was sent, and records one outcome per asset.
pub proof fn law_bridge_outcomes_are_recorded(
    env: EnvModel,
    executor: Address,
    proposal_id: u64,
    transferred: Seq<bool>,
)
    requires
        env.proposal(proposal_id) matches Ok(proposal) && proposal.id == proposal_id,
        env.execute_bridge(executor, proposal_id, transferred).1 is Ok,
    ensures
        ({
            let after = env.execute_bridge(executor, proposal_id, transferred).0;
            let cc = after.cross_chain_proposal(proposal_id)->0;
            &&& cc.execution_results.len() == cc.assets.len()
            &&& cc.status == CrossVaultStatus::Executed <==> forall|i: int|
                0 <= i < cc.execution_results.len() ==> #[trigger] cc.execution_results[i]
            &&& after.execute_bridge(executor, proposal_id, transferred).1 == Err::<(), _>(
                VaultError::ProposalNotApproved,
            )
        }),
{
    let cc = env.cross_chain_proposal(proposal_id)->0;
    let adapters = env.bridge_config()->0.bridge_adapters;
    lemma_send_frame(env.with_bridge_lock(proposal_id), cc.assets, adapters, transferred);
    crate::cross_vault::lemma_successes(bridge_outcomes(cc.assets, adapters, transferred));
    let after = env.execute_bridge(executor, proposal_id, transferred).0;
    let settled = after.cross_chain_proposal(proposal_id)->0;
    assert(settled.assets == cc.assets);
    assert(settled.execution_results == bridge_outcomes(cc.assets, adapters, transferred));
    assert(after.proposal(proposal_id)->Ok_0.status == ProposalStatus::Executed);
}

/// What assets amount to together, held at the largest amount, or that there is nothing of one.
pub(crate) fn total_of_assets(assets: &Vec<CrossChainAsset>) -> (r: Option<i128>)
    ensures
        r == if assets_positive(assets@) {
            Some(crate::math::clamp_i128(assets_total(assets@)))
        } else {
            None
        },
{
    let mut total: i128 = 0;
    let mut i: usize = 0;
    while i < assets.len()
        invariant
            i <= assets.len(),
            forall|j: int| 0 <= j < i ==> (#[trigger] assets@[j]).amount > 0,
            total == crate::math::clamp_i128(assets_total(assets@.take(i as int))),
            assets_total(assets@.take(i as int)) >= 0,
        decreases assets.len() - i,
    {
        if assets[i].amount <= 0 {
            return None;
        }
        assert(assets@.take(i + 1).drop_last() =~= assets@.take(i as int));
        total = sat_add(total, assets[i].amount);
        i += 1;
    }
    assert(assets@.take(assets@.len() as int) =~= assets@);
    Some(total)
}

/// Tries to send assets to the first adapter in order, and lists the outcome of each and how
/// many are good.
fn send_assets(
    env: &mut Env,
    assets: &Vec<CrossChainAsset>,
    adapters: &Vec<Address>,
    transferred: &Vec<bool>,
) -> (r: (Vec<bool>, u32))
    requires
        assets@.len() <= transferred@.len(),
        assets@.len() <= u32::MAX,
    ensures
        final(env)@ == old(env)@.send_assets(assets@, adapters@, transferred@),
        r.0@ == bridge_outcomes(assets@, adapters@, transferred@),
        r.1 == crate::cross_vault::successes(r.0@),
{
    let ghost start = env@;
    let mut results: Vec<bool> = Vec::new();
    let mut success_count: u32 = 0;
    let mut i: usize = 0;
    while i < assets.len()
        invariant
            i <= assets.len(),
            start == old(env)@,
            assets@.len() <= transferred@.len(),
            assets@.len() <= u32::MAX,
            success_count <= i,
            env@ == start.send_assets(assets@.take(i as int), adapters@, transferred@),
            results@ =~= bridge_outcomes(assets@.take(i as int), adapters@, transferred@),
            success_count == crate::cross_vault::successes(results@),
        decreases assets.len() - i,
    {
        let asset = assets[i];
        let ghost before = results@;
        assert(assets@.take(i + 1).drop_last() =~= assets@.take(i as int));
        let mut ok = false;
        if adapters.len() > 0 {
            ok = transferred[i];
            env.act(
                Action::TriedTransfer {
                    token: asset.token,
                    to: adapters[0],
                    amount: asset.amount,
                    done: ok,
                },
            );
        }
        results.push(ok);
        assert(results@.drop_last() =~= before);
        if ok {
            success_count += 1;
        }
        i += 1;
    }
    assert(assets@.take(assets@.len() as int) =~= assets@);
    (results, success_count)
}

impl VaultDAO {
    /// Configures the bridge. Only admins may.
    pub fn set_bridge_config(env: &mut Env, admin: Address, config: BridgeConfig) -> (r: Result<
        (),
        VaultError,
    >)
        requires
            old(env)@.authorized(admin),
        ensures
            (final(env)@, r) == old(env)@.change_bridge_config(admin, config@),
    {
        if storage::get_role(env, &admin) != Role::Admin {
            return Err(VaultError::Unauthorized);
        }
        storage::set_bridge_config(env, &config);
        storage::extend_instance_ttl(env);
        env.publish(Event::BridgeConfigUpdated { admin });
        Ok(())
    }

    /// The bridge.
    pub fn get_bridge_config(env: &Env) -> (r: Option<BridgeConfig>)
        ensures
            crate::table::opt_view(r) == env@.bridge_config(),
    {
        storage::get_bridge_config(env)
    }

    /// Proposes a transfer of 1 to 5 assets over the bridge. Treasurers and admins may.
    pub fn propose_bridge_transfer(
        env: &mut Env,
        proposer: Address,
        assets: Vec<CrossChainAsset>,
        priority: Priority,
        conditions: Vec<Condition>,
        condition_logic: ConditionLogic,
        insurance_amount: i128,
    ) -> (r: Result<u64, VaultError>)
        requires
            old(env)@.authorized(proposer),
            old(env)@.bridge_transfer_fits(proposer, assets@),
        ensures
            (final(env)@, r) == old(env)@.propose_bridge_transfer(
                proposer,
                assets@,
                priority,
                conditions@,
                condition_logic,
                insurance_amount,
            ),
    {
        let bridge = match storage::get_bridge_config(env) {
            Some(bridge) => bridge,
            None => return Err(VaultError::BridgeError),
        };
        if !bridge.enabled {
            return Err(VaultError::BridgeError);
        }
        let config = storage::get_config(env)?;
        let role = storage::get_role(env, &proposer);
        if role != Role::Treasurer && role != Role::Admin {
            return Err(VaultError::InsufficientRole);
        }
        if assets.len() == 0 {
            return Err(VaultError::InvalidAmount);
        }
        if assets.len() > MAX_CROSS_VAULT_ACTIONS {
            return Err(VaultError::BridgeError);
        }
        let total_amount: i128 = match total_of_assets(&assets) {
            Some(total) => total,
            None => return Err(VaultError::InvalidAmount),
        };
        let request = LinkRequest {
            proposer,
            recipient: env.ledger.contract,
            token: assets[0].token,
            amount: total_amount,
            memo: Symbol::short(BRIDGE_HALF),
            priority,
            conditions,
            condition_logic,
            insurance_amount,
        };
        let proposal = new_link_proposal(env, &config, request);
        file_link(env, &proposal);
        let asset_count: u32 = assets.len() as u32;
        let cc = CrossChainProposal {
            assets,
            status: CrossVaultStatus::Pending,
            execution_results: Vec::new(),
            executed_at: 0,
        };
        storage::set_cross_chain_proposal(env, proposal.id, &cc);
        storage::extend_instance_ttl(env);
        env.publish(
            Event::BridgeProposed { proposal_id: proposal.id, proposer, assets: asset_count },
        );
        Ok(proposal.id)
    }

    /// Executes an approved transfer over the bridge, given whether each asset was transferred
    /// to the adapter. Meanwhile the proposal is locked, so that a nested call is refused.
    pub fn execute_bridge_proposal(
        env: &mut Env,
        executor: Address,
        proposal_id: u64,
        transferred: &Vec<bool>,
    ) -> (r: Result<(), VaultError>)
        requires
            old(env)@.authorized(executor),
            old(env)@.bridge_answered(proposal_id, transferred@.len()),
        ensures
            (final(env)@, r) == old(env)@.execute_bridge(executor, proposal_id, transferred@),
    {
        if !storage::acquire_bridge_lock(env, proposal_id) {
            return Err(VaultError::BridgeError);
        }
        let result = Self::execute_bridge_proposal_inner(env, &executor, proposal_id, transferred);
        storage::release_bridge_lock(env, proposal_id);
        result
    }

    /// Sends the assets of an approved transfer to the first adapter of the bridge, given
    /// whether each was transferred.
    pub fn execute_bridge_proposal_inner(
        env: &mut Env,
        executor: &Address,
        proposal_id: u64,
        transferred: &Vec<bool>,
    ) -> (r: Result<(), VaultError>)
        requires
            old(env)@.bridge_answered(proposal_id, transferred@.len()),
        ensures
            (final(env)@, r) == old(env)@.run_bridge(*executor, proposal_id, transferred@),
    {
        let mut proposal = storage::get_proposal(env, proposal_id)?;
        if proposal.status != ProposalStatus::Approved {
            return Err(VaultError::ProposalNotApproved);
        }
        let current_ledger: u64 = env.now();
        if proposal.unlock_ledger > 0 && current_ledger < proposal.unlock_ledger {
            return Err(VaultError::TimelockNotExpired);
        }
        let mut cc = match storage::get_cross_chain_proposal(env, proposal_id) {
            Some(cc) => cc,
            None => return Err(VaultError::ProposalNotFound),
        };
        if cc.status != CrossVaultStatus::Pending {
            return Err(VaultError::ProposalAlreadyExecuted);
        }
        let bridge = match storage::get_bridge_config(env) {
            Some(bridge) => bridge,
            None => return Err(VaultError::BridgeError),
        };
        if !bridge.enabled {
            return Err(VaultError::BridgeError);
        }
        let (results, success_count) = send_assets(
            env,
            &cc.assets,
            &bridge.bridge_adapters,
            transferred,
        );
        cc.status = if success_count as u64 == cc.assets.len() as u64 {
            CrossVaultStatus::Executed
        } else {
            CrossVaultStatus::Failed
        };
        cc.execution_results = results;
        cc.executed_at = current_ledger;
        proposal.status = ProposalStatus::Executed;
        storage::set_cross_chain_proposal(env, proposal_id, &cc);
        storage::set_proposal(env, &proposal);
        storage::extend_instance_ttl(env);
        env.publish(
            Event::BridgeExecuted { proposal_id, executor: *executor, succeeded: success_count },
        );
        Ok(())
    }

    /// The assets of a proposal for a transfer over the bridge.
    pub fn get_cross_chain_proposal(env: &Env, proposal_id: u64) -> (r: Option<
        CrossChainProposal,
    >)
        ensures
            crate::table::opt_view(r) == env@.cross_chain_proposal(proposal_id),
    {
        storage::get_cross_chain_proposal(env, proposal_id)
    }
}

} // verus!
