//! What holds of exchanges, other vaults, the bridge and the oracle.

use vstd::prelude::*;

use crate::books::{is_admin, is_treasurer, ledger_of, listed, moved, movements};
use crate::dex::SwapRequest;
use crate::env::{Action, EnvModel, LinksModel};
use crate::errors::VaultError;
use crate::primitives::Address;
use crate::proposal_laws::payable_from;
use crate::types::{
    BridgeConfigModel, Condition, ConditionLogic, CrossChainAsset, CrossChainProposalModel,
    CrossVaultConfigModel, CrossVaultProposalModel, CrossVaultStatus, DexConfigModel, Observation,
    Priority, ProposalModel, ProposalStatus, SwapProposal, VaultAction, VaultOracleConfig,
    VaultPriceData,
};

verus! {

broadcast use crate::books::lemma_movements_push;

/// An admin sets the rules for exchanges, other vaults, the bridge and the oracle, as given.
pub proof fn law_links_are_configured_by_admins(
    env: EnvModel,
    admin: Address,
    dex: DexConfigModel,
    vaults: CrossVaultConfigModel,
    bridge: BridgeConfigModel,
    oracle: VaultOracleConfig,
)
    requires
        env.access.config is Some,
    ensures
        ({
            let (after, r) = env.set_dex(admin, dex);
            &&& r is Ok <==> is_admin(env, admin)
            &&& r is Err ==> after == env && r == Err::<(), _>(VaultError::Unauthorized)
            &&& r is Ok ==> after.links == (LinksModel { dex_config: Some(dex), ..env.links })
        }),
        ({
            let (after, r) = env.change_cross_vault_config(admin, vaults);
            &&& r is Ok <==> is_admin(env, admin)
            &&& r is Err ==> after == env && r == Err::<(), _>(VaultError::Unauthorized)
            &&& r is Ok ==> after.links == (LinksModel {
                cross_vault_config: Some(vaults),
                ..env.links
            })
        }),
        ({
            let (after, r) = env.change_bridge_config(admin, bridge);
            &&& r is Ok <==> is_admin(env, admin)
            &&& r is Err ==> after == env && r == Err::<(), _>(VaultError::Unauthorized)
            &&& r is Ok ==> after.links == (LinksModel { bridge_config: Some(bridge), ..env.links })
        }),
        ({
            let (after, r) = env.set_oracle(admin, oracle);
            &&& r is Ok <==> is_admin(env, admin)
            &&& r is Err ==> after == env && r == Err::<(), _>(VaultError::InsufficientRole)
            &&& r is Ok ==> after.links == (LinksModel { oracle_config: Some(oracle), ..env.links })
        }),
{
}

/// The price of an asset is the oracle's answer, where there is an oracle, it has an answer, and
/// the answer is not older than allowed.
pub proof fn law_prices_are_fresh(
    env: EnvModel,
    asset: Address,
    amount: i128,
    answer: Option<VaultPriceData>,
)
    ensures
        ({
            let (after, r) = env.asset_price(asset, answer);
            let oracle = env.links.oracle_config;
            let fresh = answer is Some && oracle is Some && ledger_of(env)
                - answer->0.timestamp <= oracle->0.max_staleness;
            &&& r is Ok <==> fresh
            &&& r is Ok ==> r == Ok::<i128, VaultError>(answer->0.price) && after == env
            &&& oracle is None ==> r == Err::<i128, _>(VaultError::NotInitialized)
            &&& oracle is Some && answer is None ==> r == Err::<i128, _>(VaultError::InvalidAmount)
            &&& oracle is Some && answer is Some && !fresh ==> r == Err::<i128, _>(
                VaultError::ConditionsNotMet,
            )
        }),
        ({
            let oracle = env.links.oracle_config;
            let fresh = answer is Some && oracle is Some && ledger_of(env)
                - answer->0.timestamp <= oracle->0.max_staleness;
            let r = env.usd_value(asset, amount, answer).1;
            &&& amount == 0 ==> r == Ok::<i128, VaultError>(0)
            &&& amount > 0 && fresh && answer->0.price >= 0 && amount * answer->0.price
                <= i128::MAX ==> r == Ok::<i128, VaultError>(
                (amount * answer->0.price / 10_000_000) as i128,
            )
            &&& amount != 0 && !fresh ==> r is Err
        }),
{
    if let Some(data) = answer {
        if amount > 0 && data.price >= 0 {
            assert(amount * data.price >= 0) by (nonlinear_arith)
                requires
                    amount > 0,
                    data.price >= 0,
            ;
        }
    }
}

/// The value of several holdings is the sum of the values of each.
pub proof fn law_portfolios_add_up(
    env: EnvModel,
    assets: Seq<Address>,
    holdings: Seq<Observation>,
    asset: Address,
    held: Observation,
)
    requires
        assets.len() == holdings.len(),
        held.balance > 0,
        env.valuation(assets, holdings).1 is Ok,
        env.usd_value(asset, held.balance, held.price).1 is Ok,
        i128::MIN <= env.valuation(assets, holdings).1->Ok_0 + env.usd_value(
            asset,
            held.balance,
            held.price,
        ).1->Ok_0 <= i128::MAX,
    ensures
        env.valuation(assets.push(asset), holdings.push(held)).1 == Ok::<i128, VaultError>(
            (env.valuation(assets, holdings).1->Ok_0 + env.usd_value(
                asset,
                held.balance,
                held.price,
            ).1->Ok_0) as i128,
        ),
        env.valuation(seq![], seq![]).1 == Ok::<i128, VaultError>(0),
{
    assert(assets.push(asset).drop_last() =~= assets);
    lemma_valuation_prefix(env, assets, holdings, holdings.push(held));
    lemma_valuation_frame(env, assets, holdings);
}

/// What some assets are worth depends on what is held of them.
proof fn lemma_valuation_prefix(
    env: EnvModel,
    assets: Seq<Address>,
    a: Seq<Observation>,
    b: Seq<Observation>,
)
    requires
        assets.len() <= a.len(),
        assets.len() <= b.len(),
        forall|i: int| 0 <= i < assets.len() ==> a[i] == #[trigger] b[i],
    ensures
        env.valuation(assets, a) == env.valuation(assets, b),
    decreases assets.len(),
{
    if assets.len() > 0 {
        lemma_valuation_prefix(env, assets.drop_last(), a, b);
        assert(a[assets.len() - 1] == b[assets.len() - 1]);
    }
}

/// Valuing publishes at most something.
proof fn lemma_valuation_frame(env: EnvModel, assets: Seq<Address>, holdings: Seq<Observation>)
    ensures
        ({
            let after = env.valuation(assets, holdings).0;
            after == (EnvModel { actions: after.actions, ..env })
        }),
    decreases assets.len(),
{
    if assets.len() > 0 {
        lemma_valuation_frame(env, assets.drop_last(), holdings);
    }
}

/// The exchange or farm of an operation.
pub open spec fn goes_to(operation: SwapProposal) -> Address {
    match operation {
        SwapProposal::Swap(dex, _, _, _, _) => dex,
        SwapProposal::AddLiquidity(dex, _, _, _, _) => dex,
        SwapProposal::RemoveLiquidity(dex, _, _) => dex,
        SwapProposal::StakeLp(farm, _, _) => farm,
        SwapProposal::UnstakeLp(farm, _, _) => farm,
        SwapProposal::ClaimRewards(farm) => farm,
    }
}

/// A treasurer or an admin proposes an operation on an exchange that is enabled. It is stored with
/// its proposal, which is pending and queued.
pub proof fn law_operations_go_to_enabled_exchanges(env: EnvModel, request: SwapRequest)
    requires
        env.access.config is Some,
        env.proposals.next_id < u64::MAX,
    ensures
        ({
            let (after, r) = env.propose_swap(request);
            let id = env.proposals.next_id;
            let entitled = is_treasurer(env, request.proposer);
            let enabled = env.links.dex_config is Some
                && env.links.dex_config->0.enabled_dexs.contains(goes_to(request.operation));
            &&& r is Ok <==> entitled && enabled
            &&& r is Err ==> after == env
            &&& !entitled ==> r == Err::<u64, _>(VaultError::InsufficientRole)
            &&& entitled && !enabled ==> r == Err::<u64, _>(VaultError::DexError)
            &&& moved(env, after, seq![])
            &&& r is Ok ==> {
                let record = after.proposals.records[id];
                &&& r == Ok::<u64, VaultError>(id)
                &&& after.proposals.next_id == id + 1
                &&& after.proposals.records == env.proposals.records.insert(id, record)
                &&& after.links.swap_proposals == env.links.swap_proposals.insert(
                    id,
                    request.operation,
                )
                &&& record.id == id
                &&& record.proposer == request.proposer
                &&& record.is_swap
                &&& record.amount == 0
                &&& record.status == ProposalStatus::Pending
                &&& record.approvals.len() == 0
                &&& record.abstentions.len() == 0
                &&& record.snapshot_signers == env.access.config->0.signers
                &&& record.conditions == request.conditions
                &&& record.priority == request.priority
                &&& listed(after.proposals.queues, request.priority.spec_code()) == listed(
                    env.proposals.queues,
                    request.priority.spec_code(),
                ).push(id)
            }
        }),
{
    reveal(EnvModel::create_swap);
}

/// An approved operation whose timelock has passed is executed once. A swap goes through on an
/// enabled exchange where the impact of one percent is allowed, brings 99 percent of what it puts
/// in, and at least the minimum that was asked for.
pub proof fn law_swaps_bring_what_was_asked_for(
    env: EnvModel,
    executor: Address,
    id: u64,
    dex: Address,
    token_in: Address,
    token_out: Address,
    amount_in: i128,
    least_out: i128,
)
    requires
        env.proposals.records.contains_key(id),
        env.proposals.records[id].id == id,
        env.links.swap_proposals.contains_key(id),
        env.links.swap_proposals[id] == SwapProposal::Swap(
            dex,
            token_in,
            token_out,
            amount_in,
            least_out,
        ),
        0 <= amount_in,
        amount_in * 99 <= i128::MAX,
    ensures
        ({
            let before = env.proposals.records[id];
            let (after, r) = env.execute_swap(executor, id);
            let rules = env.links.dex_config->0;
            let out = amount_in * 99 / 100;
            let ready = before.is_swap && before.status == ProposalStatus::Approved && ledger_of(
                env,
            ) <= before.expires_at && (before.unlock_ledger == 0 || ledger_of(env)
                >= before.unlock_ledger);
            &&& r is Ok <==> {
                &&& ready
                &&& env.links.dex_config is Some
                &&& rules.enabled_dexs.contains(dex)
                &&& rules.max_price_impact_bps >= 100
                &&& out >= least_out
            }
            &&& before.is_swap && before.status != ProposalStatus::Approved ==> r == Err::<(), _>(
                VaultError::ProposalNotApproved,
            )
            &&& !before.is_swap ==> r == Err::<(), _>(VaultError::DexError)
            &&& ready && r is Err ==> r == Err::<(), _>(VaultError::DexError) && after == env
            &&& r is Ok ==> {
                let record = after.proposals.records[id];
                let result = after.links.swap_results[id];
                &&& after.proposals.records == env.proposals.records.insert(id, record)
                &&& record == (ProposalModel {
                    status: ProposalStatus::Executed,
                    attachments: record.attachments,
                    ..before
                })
                &&& after.links.swap_results == env.links.swap_results.insert(id, result)
                &&& result.amount_in == amount_in
                &&& result.amount_out == out
                &&& result.amount_out >= least_out
                &&& result.price_impact_bps == 100
                &&& result.executed_at == ledger_of(env)
                &&& moved(env, after, seq![])
            }
        }),
{
    let before = env.proposal(id)->Ok_0;
    let marked = env.with_swap_result(
        id,
        env.swap_outcome(env.links.dex_config->0, env.links.swap_proposals[id])->Ok_0,
    ).with_proposal(ProposalModel { status: ProposalStatus::Executed, ..before }).act(
        Action::ExtendInstanceTtl,
    ).publish(
        crate::env::Event::ProposalExecuted {
            proposal_id: id,
            executor,
            recipient: env.ledger.contract,
            token: env.ledger.contract,
            amount: 0,
            ledger: env.now(),
        },
    );
    let rewarded = marked.reward_proposer(before.proposer);
    assert(movements(rewarded.actions) == movements(env.actions));
    crate::execution::lemma_rewards_frame(rewarded, before.approvals);
    crate::transfer_laws::lemma_rewards_move_nothing(rewarded, before.approvals);
}

/// The amounts of actions added up.
pub open spec fn actions_sum(actions: Seq<VaultAction>) -> int {
    actions.fold_left(0int, |sum: int, action: VaultAction| sum + action.amount)
}

/// Sums add up action by action.
proof fn lemma_actions_sum(actions: Seq<VaultAction>)
    ensures
        actions_sum(actions) == crate::cross_vault::actions_total(actions),
    decreases actions.len(),
{
    if actions.len() > 0 {
        lemma_actions_sum(actions.drop_last());
    }
}

/// The amounts of assets added up.
pub open spec fn assets_sum(assets: Seq<CrossChainAsset>) -> int {
    assets.fold_left(0int, |sum: int, asset: CrossChainAsset| sum + asset.amount)
}

/// Sums add up asset by asset.
proof fn lemma_assets_sum(assets: Seq<CrossChainAsset>)
    ensures
        assets_sum(assets) == crate::bridge::assets_total(assets),
    decreases assets.len(),
{
    if assets.len() > 0 {
        lemma_assets_sum(assets.drop_last());
    }
}

/// Whether a proposal of transfers elsewhere was stored: pending, without votes, locked as its
/// total asks for, and queued.
pub open spec fn link_stored(
    before: EnvModel,
    after: EnvModel,
    proposer: Address,
    amount: int,
    priority: Priority,
    conditions: Seq<Condition>,
) -> bool {
    let config = before.access.config->0;
    let id = before.proposals.next_id;
    let record = after.proposals.records[id];
    &&& after.proposals.next_id == id + 1
    &&& after.proposals.records == before.proposals.records.insert(id, record)
    &&& record.id == id
    &&& record.proposer == proposer
    &&& record.amount == amount
    &&& record.status == ProposalStatus::Pending
    &&& record.approvals.len() == 0
    &&& record.abstentions.len() == 0
    &&& record.snapshot_signers == config.signers
    &&& record.unlock_ledger == payable_from(before, config, amount as i128)
    &&& record.expires_at == ledger_of(before) + 120_960
    &&& record.priority == priority
    &&& record.conditions == conditions
    &&& listed(after.proposals.queues, priority.spec_code()) == listed(
        before.proposals.queues,
        priority.spec_code(),
    ).push(id)
}

/// A treasurer or an admin proposes actions towards other vaults, each for a positive amount. The
/// proposal is over their sum, and nothing moves before it is executed.
pub proof fn law_actions_are_proposed_over_their_sum(
    env: EnvModel,
    proposer: Address,
    actions: Seq<VaultAction>,
    priority: Priority,
    conditions: Seq<Condition>,
    logic: ConditionLogic,
    insurance: i128,
)
    requires
        env.access.config is Some,
        env.cross_vault_fits(proposer, actions),
        actions_sum(actions) <= i128::MAX,
    ensures
        ({
            let (after, r) = env.propose_cross_vault(
                proposer,
                actions,
                priority,
                conditions,
                logic,
                insurance,
            );
            let id = env.proposals.next_id;
            let entitled = is_treasurer(env, proposer);
            let paying = actions.len() > 0 && forall|i: int|
                0 <= i < actions.len() ==> (#[trigger] actions[i]).amount > 0;
            &&& r is Ok <==> entitled && paying
            &&& r is Err ==> after == env
            &&& !entitled ==> r == Err::<u64, _>(VaultError::InsufficientRole)
            &&& entitled && !paying ==> r == Err::<u64, _>(VaultError::InvalidAmount)
            &&& moved(env, after, seq![])
            &&& r is Ok ==> {
                &&& r == Ok::<u64, VaultError>(id)
                &&& link_stored(env, after, proposer, actions_sum(actions), priority, conditions)
                &&& after.proposals.records[id].recipient == actions[0].recipient
                &&& after.proposals.records[id].token == actions[0].token
                &&& after.links == (LinksModel {
                    cross_vault_proposals: env.links.cross_vault_proposals.insert(
                        id,
                        CrossVaultProposalModel {
                            actions,
                            status: CrossVaultStatus::Pending,
                            execution_results: seq![],
                            executed_at: 0,
                        },
                    ),
                    ..env.links
                })
            }
        }),
{
    lemma_actions_sum(actions);
    lemma_sum_positive(actions);
}

/// Positive amounts have a sum that is not negative.
proof fn lemma_sum_positive(actions: Seq<VaultAction>)
    ensures
        crate::cross_vault::actions_pay(actions) ==> crate::cross_vault::actions_total(actions)
            >= 0,
    decreases actions.len(),
{
    if actions.len() > 0 && crate::cross_vault::actions_pay(actions) {
        let rest = actions.drop_last();
        assert forall|i: int| 0 <= i < rest.len() implies (#[trigger] rest[i]).amount > 0 by {
            assert(actions[i].amount > 0);
        }
        lemma_sum_positive(rest);
        assert(actions[actions.len() - 1].amount > 0);
    }
}

/// Positive amounts of assets have a sum that is not negative.
proof fn lemma_assets_positive(assets: Seq<CrossChainAsset>)
    ensures
        crate::bridge::assets_positive(assets) ==> crate::bridge::assets_total(assets) >= 0,
    decreases assets.len(),
{
    if assets.len() > 0 && crate::bridge::assets_positive(assets) {
        let rest = assets.drop_last();
        assert forall|i: int| 0 <= i < rest.len() implies (#[trigger] rest[i]).amount > 0 by {
            assert(assets[i].amount > 0);
        }
        lemma_assets_positive(rest);
        assert(assets[assets.len() - 1].amount > 0);
    }
}

/// Whether a vault that answered with its rules lets a coordinator act.
pub open spec fn lets_act(rules: Option<CrossVaultConfigModel>, coordinator: Address) -> bool {
    rules is Some && rules->0.enabled && rules->0.authorized_coordinators.contains(coordinator)
}

/// The transfers that are tried for actions: for each whose vault lets this one act, its amount to
/// its recipient.
pub open spec fn tried_for(
    actions: Seq<VaultAction>,
    rules: Seq<Option<CrossVaultConfigModel>>,
    transferred: Seq<bool>,
    vault: Address,
) -> Seq<Action>
    decreases actions.len(),
{
    if actions.len() == 0 {
        seq![]
    } else {
        let i = actions.len() - 1;
        let earlier = tried_for(actions.drop_last(), rules, transferred, vault);
        if lets_act(rules[i], vault) {
            earlier.push(
                Action::TriedTransfer {
                    token: actions[i].token,
                    to: actions[i].recipient,
                    amount: actions[i].amount,
                    done: transferred[i],
                },
            )
        } else {
            earlier
        }
    }
}

/// What executing actions tries.
proof fn lemma_relayed(
    env: EnvModel,
    actions: Seq<VaultAction>,
    rules: Seq<Option<CrossVaultConfigModel>>,
    transferred: Seq<bool>,
)
    ensures
        ({
            let relay = env.relay(actions, rules, transferred);
            &&& movements(relay.env.actions) =~= movements(env.actions) + tried_for(
                actions,
                rules,
                transferred,
                env.ledger.contract,
            )
            &&& relay.env == (EnvModel { actions: relay.env.actions, ..env })
        }),
    decreases actions.len(),
{
    if actions.len() > 0 {
        lemma_relayed(env, actions.drop_last(), rules, transferred);
    }
}

/// An approved proposal towards other vaults is executed once, after its timelock. Each action
/// whose vault lets this one act is tried, for its amount to its recipient, and no other; and the
/// proposal is executed whatever came of them.
pub proof fn law_actions_are_tried_where_vaults_agree(
    env: EnvModel,
    executor: Address,
    id: u64,
    rules: Seq<Option<CrossVaultConfigModel>>,
    transferred: Seq<bool>,
)
    requires
        env.proposals.records.contains_key(id),
        env.proposals.records[id].id == id,
        env.links.cross_vault_proposals.contains_key(id),
    ensures
        ({
            let before = env.proposals.records[id];
            let cv = env.links.cross_vault_proposals[id];
            let (after, r) = env.execute_cross_vault(executor, id, rules, transferred);
            let approved = before.status == ProposalStatus::Approved;
            let released = before.unlock_ledger == 0 || ledger_of(env) > before.unlock_ledger;
            let open = cv.status == CrossVaultStatus::Pending || cv.status
                == CrossVaultStatus::Approved;
            &&& r is Ok <==> approved && released && open
            &&& r is Err ==> after == env
            &&& !approved ==> r == Err::<(), _>(VaultError::ProposalNotApproved)
            &&& approved && !released ==> r == Err::<(), _>(VaultError::TimelockNotExpired)
            &&& approved && released && !open ==> r == Err::<(), _>(
                VaultError::ProposalAlreadyExecuted,
            )
            &&& r is Ok ==> {
                let record = after.proposals.records[id];
                &&& moved(
                    env,
                    after,
                    tried_for(cv.actions, rules, transferred, env.ledger.contract),
                )
                &&& after.proposals.records == env.proposals.records.insert(id, record)
                &&& record == (ProposalModel {
                    status: ProposalStatus::Executed,
                    attachments: record.attachments,
                    ..before
                })
                &&& after.links.cross_vault_proposals[id].executed_at == ledger_of(env)
            }
        }),
{
    lemma_relayed(env, env.links.cross_vault_proposals[id].actions, rules, transferred);
}

/// A treasurer or an admin proposes to send one to five assets over a bridge that is enabled, each
/// with a positive amount. The proposal is over their sum.
pub proof fn law_assets_are_proposed_over_their_sum(
    env: EnvModel,
    proposer: Address,
    assets: Seq<CrossChainAsset>,
    priority: Priority,
    conditions: Seq<Condition>,
    logic: ConditionLogic,
    insurance: i128,
)
    requires
        env.access.config is Some,
        env.bridge_transfer_fits(proposer, assets),
        assets_sum(assets) <= i128::MAX,
    ensures
        ({
            let (after, r) = env.propose_bridge_transfer(
                proposer,
                assets,
                priority,
                conditions,
                logic,
                insurance,
            );
            let id = env.proposals.next_id;
            let enabled = env.links.bridge_config is Some && env.links.bridge_config->0.enabled;
            let entitled = is_treasurer(env, proposer);
            let paying = forall|i: int|
                0 <= i < assets.len() ==> (#[trigger] assets[i]).amount > 0;
            &&& r is Ok <==> enabled && entitled && 1 <= assets.len() <= 5 && paying
            &&& r is Err ==> after == env
            &&& !enabled ==> r == Err::<u64, _>(VaultError::BridgeError)
            &&& enabled && !entitled ==> r == Err::<u64, _>(VaultError::InsufficientRole)
            &&& enabled && entitled && assets.len() > 5 ==> r == Err::<u64, _>(
                VaultError::BridgeError,
            )
            &&& moved(env, after, seq![])
            &&& r is Ok ==> {
                &&& r == Ok::<u64, VaultError>(id)
                &&& link_stored(env, after, proposer, assets_sum(assets), priority, conditions)
                &&& after.proposals.records[id].token == assets[0].token
                &&& after.links == (LinksModel {
                    cross_chain_proposals: env.links.cross_chain_proposals.insert(
                        id,
                        CrossChainProposalModel {
                            assets,
                            status: CrossVaultStatus::Pending,
                            execution_results: seq![],
                            executed_at: 0,
                        },
                    ),
                    ..env.links
                })
            }
        }),
{
    lemma_assets_sum(assets);
    lemma_assets_positive(assets);
}

/// The transfers of assets to the first adapter of the bridge.
pub open spec fn sent_to(
    assets: Seq<CrossChainAsset>,
    adapters: Seq<Address>,
    transferred: Seq<bool>,
) -> Seq<Action> {
    if adapters.len() == 0 {
        seq![]
    } else {
        Seq::new(
            assets.len(),
            |i: int|
                Action::TriedTransfer {
                    token: assets[i].token,
                    to: adapters[0],
                    amount: assets[i].amount,
                    done: transferred[i],
                },
        )
    }
}

/// What sending assets tries.
proof fn lemma_sent(
    env: EnvModel,
    assets: Seq<CrossChainAsset>,
    adapters: Seq<Address>,
    transferred: Seq<bool>,
)
    ensures
        ({
            let after = env.send_assets(assets, adapters, transferred);
            &&& movements(after.actions) =~= movements(env.actions) + sent_to(
                assets,
                adapters,
                transferred,
            )
            &&& after == (EnvModel { actions: after.actions, ..env })
        }),
    decreases assets.len(),
{
    if assets.len() > 0 && adapters.len() > 0 {
        lemma_sent(env, assets.drop_last(), adapters, transferred);
        assert(sent_to(assets, adapters, transferred) =~= sent_to(
            assets.drop_last(),
            adapters,
            transferred,
        ).push(
            Action::TriedTransfer {
                token: assets[assets.len() - 1].token,
                to: adapters[0],
                amount: assets[assets.len() - 1].amount,
                done: transferred[assets.len() - 1],
            },
        ));
    }
}

/// An approved transfer over the bridge is executed once, after its timelock, while the bridge is
/// enabled: every asset goes to the first adapter, for its amount, where there is an adapter, and
/// nothing else moves. A good outcome is recorded for exactly the assets that were sent.
pub proof fn law_assets_go_to_the_first_adapter(
    env: EnvModel,
    executor: Address,
    id: u64,
    transferred: Seq<bool>,
)
    requires
        env.proposals.records.contains_key(id),
        env.proposals.records[id].id == id,
        env.links.cross_chain_proposals.contains_key(id),
        !env.links.bridge_locks.contains_key(id),
    ensures
        ({
            let before = env.proposals.records[id];
            let cc = env.links.cross_chain_proposals[id];
            let bridge = env.links.bridge_config->0;
            let (after, r) = env.execute_bridge(executor, id, transferred);
            let approved = before.status == ProposalStatus::Approved;
            let released = before.unlock_ledger == 0 || ledger_of(env) >= before.unlock_ledger;
            let open = cc.status == CrossVaultStatus::Pending;
            let enabled = env.links.bridge_config is Some && bridge.enabled;
            &&& r is Ok <==> approved && released && open && enabled
            &&& r is Err ==> after.proposals == env.proposals && moved(env, after, seq![])
            &&& !approved ==> r == Err::<(), _>(VaultError::ProposalNotApproved)
            &&& approved && !released ==> r == Err::<(), _>(VaultError::TimelockNotExpired)
            &&& r is Ok ==> {
                let record = after.proposals.records[id];
                let done = after.links.cross_chain_proposals[id];
                &&& moved(env, after, sent_to(cc.assets, bridge.bridge_adapters, transferred))
                &&& after.proposals.records == env.proposals.records.insert(id, record)
                &&& record == (ProposalModel {
                    status: ProposalStatus::Executed,
                    attachments: record.attachments,
                    ..before
                })
                &&& done.assets == cc.assets
                &&& done.execution_results.len() == cc.assets.len()
                &&& forall|i: int|
                    0 <= i < cc.assets.len() ==> #[trigger] done.execution_results[i] == (
                    bridge.bridge_adapters.len() > 0 && transferred[i])
                &&& done.executed_at == ledger_of(env)
            }
        }),
{
    let locked = env.with_bridge_lock(id);
    let cc = env.links.cross_chain_proposals[id];
    if env.links.bridge_config is Some {
        lemma_sent(locked, cc.assets, env.links.bridge_config->0.bridge_adapters, transferred);
    }
}

} // verus!
