use vault_dao::env::{Action, Env, Event, Ledger};
use vault_dao::errors::VaultError;
use vault_dao::primitives::{Address, Symbol, BRIDGE_HALF, CROSS_VAULT_HALF};
use vault_dao::types::{
    BridgeConfig, ConditionLogic, CrossChainAsset, CrossVaultConfig, CrossVaultStatus, DexConfig,
    InitConfig, Observation, Priority, ProposalStatus, RecoveryConfig, RetryConfig, Role,
    StakingConfig, SwapProposal, ThresholdStrategy, VaultAction, VaultOracleConfig,
    VaultPriceData, VelocityConfig,
};
use vault_dao::VaultDAO;

const ADMIN: Address = Address { contract: false, hi: 0, lo: 1 };
const SIGNER: Address = Address { contract: false, hi: 0, lo: 2 };
const OTHER_SIGNER: Address = Address { contract: false, hi: 0, lo: 3 };
const TREASURER: Address = Address { contract: false, hi: 0, lo: 4 };
const MEMBER: Address = Address { contract: false, hi: 0, lo: 5 };
const RECIPIENT: Address = Address { contract: false, hi: 0, lo: 6 };
const TOKEN: Address = Address { contract: true, hi: 0, lo: 7 };
const VAULT: Address = Address { contract: true, hi: 0, lo: 8 };

fn init_config() -> InitConfig {
    InitConfig {
        signers: vec![ADMIN, SIGNER, OTHER_SIGNER],
        threshold: 2,
        quorum: 0,
        quorum_percentage: 0,
        spending_limit: 1_000,
        daily_limit: 5_000,
        weekly_limit: 10_000,
        timelock_threshold: 900,
        timelock_delay: 200,
        velocity_limit: VelocityConfig { limit: 100, window: 3_600 },
        threshold_strategy: ThresholdStrategy::Fixed,
        pre_execution_hooks: vec![],
        post_execution_hooks: vec![],
        default_voting_deadline: 0,
        veto_addresses: vec![],
        retry_config: RetryConfig {
            enabled: false,
            max_retries: 0,
            initial_backoff_ledgers: 0,
        },
        recovery_config: RecoveryConfig { guardians: vec![], threshold: 0, delay: 0 },
        staking_config: StakingConfig::default(),
    }
}

/// A vault with three signers, two of whom have to approve, and everyone's authorization.
fn vault_with(init: InitConfig) -> Env {
    let mut env = Env::new(Ledger { sequence: 100, timestamp: 1_000_000, contract: VAULT });
    for who in [ADMIN, SIGNER, OTHER_SIGNER, TREASURER, MEMBER, RECIPIENT] {
        env.authorize(who);
    }
    assert_eq!(VaultDAO::initialize(&mut env, ADMIN, init), Ok(()));
    assert_eq!(VaultDAO::set_role(&mut env, ADMIN, TREASURER, Role::Treasurer), Ok(()));
    env
}

fn vault() -> Env {
    vault_with(init_config())
}

const DEX: Address = Address { contract: true, hi: 0, lo: 60 };
const OTHER_VAULT: Address = Address { contract: true, hi: 0, lo: 61 };
const ADAPTER: Address = Address { contract: true, hi: 0, lo: 62 };

fn approve(env: &mut Env, id: u64) {
    VaultDAO::approve_proposal(env, ADMIN, id).unwrap();
    VaultDAO::approve_proposal(env, SIGNER, id).unwrap();
}

fn swap(env: &mut Env, amount_in: i128, least_out: i128) -> Result<u64, VaultError> {
    VaultDAO::propose_swap(
        env,
        TREASURER,
        SwapProposal::Swap(DEX, TOKEN, OTHER_VAULT, amount_in, least_out),
        Priority::Normal,
        vec![],
        ConditionLogic::And,
        0,
    )
}

fn action(amount: i128) -> VaultAction {
    VaultAction {
        vault_address: OTHER_VAULT,
        recipient: RECIPIENT,
        token: TOKEN,
        amount,
        memo: Symbol::empty(),
    }
}

fn propose_actions(env: &mut Env, amounts: Vec<i128>) -> Result<u64, VaultError> {
    VaultDAO::propose_cross_vault(
        env,
        TREASURER,
        amounts.into_iter().map(action).collect(),
        Priority::Normal,
        vec![],
        ConditionLogic::And,
        0,
    )
}

fn asset(amount: i128) -> CrossChainAsset {
    CrossChainAsset { token: TOKEN, amount, target_chain: Symbol::short(5) }
}

fn propose_assets(env: &mut Env, amounts: Vec<i128>) -> Result<u64, VaultError> {
    VaultDAO::propose_bridge_transfer(
        env,
        TREASURER,
        amounts.into_iter().map(asset).collect(),
        Priority::Normal,
        vec![],
        ConditionLogic::And,
        0,
    )
}

fn quote(price: i128, timestamp: u64) -> Option<VaultPriceData> {
    Some(VaultPriceData { price, timestamp })
}

#[test]
fn swaps_go_to_enabled_exchanges() {
    let mut env = vault();
    assert_eq!(swap(&mut env, 100, 0), Err(VaultError::DexError));
    let rules = DexConfig { enabled_dexs: vec![OTHER_VAULT], max_price_impact_bps: 100 };
    assert_eq!(
        VaultDAO::set_dex_config(&mut env, MEMBER, rules),
        Err(VaultError::Unauthorized)
    );
    let rules = DexConfig { enabled_dexs: vec![OTHER_VAULT], max_price_impact_bps: 100 };
    VaultDAO::set_dex_config(&mut env, ADMIN, rules).unwrap();
    assert_eq!(swap(&mut env, 100, 0), Err(VaultError::DexError));
    let rules = DexConfig { enabled_dexs: vec![DEX], max_price_impact_bps: 100 };
    VaultDAO::set_dex_config(&mut env, ADMIN, rules).unwrap();
    assert_eq!(swap(&mut env, 100, 0), Ok(1));
    assert!(VaultDAO::get_proposal(&env, 1).unwrap().is_swap);
}

#[test]
fn swaps_keep_their_minimum() {
    let mut env = vault();
    let rules = DexConfig { enabled_dexs: vec![DEX], max_price_impact_bps: 100 };
    VaultDAO::set_dex_config(&mut env, ADMIN, rules).unwrap();
    let good = swap(&mut env, 1_001, 990).unwrap();
    let bad = swap(&mut env, 1_000, 991).unwrap();
    assert_eq!(
        VaultDAO::execute_swap(&mut env, MEMBER, good),
        Err(VaultError::ProposalNotApproved)
    );
    approve(&mut env, good);
    approve(&mut env, bad);
    assert_eq!(VaultDAO::execute_swap(&mut env, MEMBER, good), Ok(()));
    let result = VaultDAO::get_swap_result(&env, good).unwrap();
    assert_eq!((result.amount_in, result.amount_out), (1_001, 990));
    assert_eq!(VaultDAO::execute_swap(&mut env, MEMBER, bad), Err(VaultError::DexError));
}

#[test]
fn a_swap_has_to_fit_only_where_the_rules_allow_it() {
    let mut env = vault();
    let rules = |impact: u32| DexConfig { enabled_dexs: vec![DEX], max_price_impact_bps: impact };
    VaultDAO::set_dex_config(&mut env, ADMIN, rules(100)).unwrap();
    let id = swap(&mut env, i128::MAX, 0).unwrap();
    assert!(env.swap_execution_fits(id));
    approve(&mut env, id);
    assert!(!env.swap_execution_fits(id));
    VaultDAO::set_dex_config(&mut env, ADMIN, rules(99)).unwrap();
    assert!(env.swap_execution_fits(id));
    assert_eq!(VaultDAO::execute_swap(&mut env, MEMBER, id), Err(VaultError::DexError));
}

#[test]
fn prices_may_not_be_stale() {
    let mut env = vault();
    assert_eq!(
        VaultDAO::get_asset_price(&mut env, TOKEN, quote(5, 100)),
        Err(VaultError::NotInitialized)
    );
    let oracle = VaultOracleConfig { address: OTHER_VAULT, max_staleness: 10 };
    assert_eq!(
        VaultDAO::update_oracle_config(&mut env, MEMBER, oracle),
        Err(VaultError::InsufficientRole)
    );
    VaultDAO::set_oracle_config(&mut env, ADMIN, oracle).unwrap();
    assert_eq!(
        VaultDAO::get_asset_price(&mut env, TOKEN, None),
        Err(VaultError::InvalidAmount)
    );
    assert_eq!(VaultDAO::get_asset_price(&mut env, TOKEN, quote(5, 90)), Ok(5));
    assert_eq!(
        VaultDAO::get_asset_price(&mut env, TOKEN, quote(5, 89)),
        Err(VaultError::ConditionsNotMet)
    );
    assert_eq!(
        env.actions.last(),
        Some(&Action::Publish(Event::OraclePriceStale { asset: TOKEN, timestamp: 89, now: 100 }))
    );
}

#[test]
fn amounts_are_valued_at_their_price() {
    let mut env = vault();
    let oracle = VaultOracleConfig { address: OTHER_VAULT, max_staleness: 10 };
    VaultDAO::update_oracle_config(&mut env, ADMIN, oracle).unwrap();
    assert_eq!(VaultDAO::convert_to_usd(&mut env, TOKEN, 0, None), Ok(0));
    let scale = vault_dao::oracle::PRICE_SCALE;
    assert_eq!(
        VaultDAO::convert_to_usd(&mut env, TOKEN, 30, quote(2 * scale, 100)),
        Ok(60)
    );
    assert_eq!(
        VaultDAO::convert_to_usd(&mut env, TOKEN, 30, quote(2, 50)),
        Err(VaultError::RetryError)
    );
    let holdings = vec![
        Observation { balance: 10, price: quote(3 * scale, 100) },
        Observation { balance: 0, price: None },
        Observation { balance: 4, price: quote(scale, 100) },
    ];
    assert_eq!(
        VaultDAO::get_portfolio_valuation(&mut env, vec![TOKEN, DEX, OTHER_VAULT], &holdings),
        Ok(34)
    );
    let stale = vec![Observation { balance: 10, price: quote(3, 1) }];
    assert_eq!(
        VaultDAO::get_portfolio_valuation(&mut env, vec![TOKEN], &stale),
        Err(VaultError::RetryError)
    );
}

#[test]
fn cross_vault_proposals_sum_their_actions() {
    let mut env = vault();
    assert_eq!(propose_actions(&mut env, vec![]), Err(VaultError::InvalidAmount));
    assert_eq!(propose_actions(&mut env, vec![1, 0]), Err(VaultError::InvalidAmount));
    let id = propose_actions(&mut env, vec![400, 500]).unwrap();
    let proposal = VaultDAO::get_proposal(&env, id).unwrap();
    assert_eq!((proposal.amount, proposal.unlock_ledger), (900, 300));
    assert_eq!(proposal.memo, Symbol::short(CROSS_VAULT_HALF));
    assert_eq!(
        VaultDAO::get_cross_vault_proposal(&env, id).unwrap().status,
        CrossVaultStatus::Pending
    );
    assert_eq!(VaultDAO::get_today_spent(&env), 0);
}

#[test]
fn cross_vault_actions_need_admission() {
    let mut env = vault();
    let id = propose_actions(&mut env, vec![10, 20, 30, 40]).unwrap();
    let admitted = || {
        Some(CrossVaultConfig { enabled: true, authorized_coordinators: vec![VAULT] })
    };
    let rules = vec![
        admitted(),
        None,
        Some(CrossVaultConfig { enabled: false, authorized_coordinators: vec![VAULT] }),
        admitted(),
    ];
    let transferred = vec![true, true, true, false];
    assert!(VaultDAO::coordinates(&env, &rules[0]));
    assert!(!VaultDAO::coordinates(&env, &rules[1]));
    assert_eq!(
        VaultDAO::execute_cross_vault(&mut env, MEMBER, id, &rules, &transferred),
        Err(VaultError::ProposalNotApproved)
    );
    approve(&mut env, id);
    env.actions.clear();
    assert_eq!(
        VaultDAO::execute_cross_vault(&mut env, MEMBER, id, &rules, &transferred),
        Ok(())
    );
    let cv = VaultDAO::get_cross_vault_proposal(&env, id).unwrap();
    assert_eq!(cv.execution_results, vec![true, false, false, false]);
    assert_eq!(cv.status, CrossVaultStatus::Failed);
    assert_eq!(VaultDAO::get_proposal(&env, id).unwrap().status, ProposalStatus::Executed);
    let tried = env.actions.iter().filter(|a| matches!(a, Action::TriedTransfer { .. })).count();
    assert_eq!(tried, 2);
    assert_eq!(
        VaultDAO::execute_cross_vault(&mut env, MEMBER, id, &rules, &transferred),
        Err(VaultError::ProposalNotApproved)
    );
}

#[test]
fn cross_vault_timelocks_end_after_their_ledger() {
    let mut env = vault();
    let id = propose_actions(&mut env, vec![900]).unwrap();
    approve(&mut env, id);
    let rules = vec![Some(CrossVaultConfig {
        enabled: true,
        authorized_coordinators: vec![VAULT],
    })];
    env.ledger.sequence = 300;
    assert_eq!(
        VaultDAO::execute_cross_vault(&mut env, MEMBER, id, &rules, &vec![true]),
        Err(VaultError::TimelockNotExpired)
    );
    env.ledger.sequence = 301;
    assert_eq!(
        VaultDAO::execute_cross_vault(&mut env, MEMBER, id, &rules, &vec![true]),
        Ok(())
    );
    assert_eq!(
        VaultDAO::get_cross_vault_proposal(&env, id).unwrap().status,
        CrossVaultStatus::Executed
    );
}

#[test]
fn rules_for_other_vaults_are_set_by_admins() {
    let mut env = vault();
    let rules = || CrossVaultConfig { enabled: true, authorized_coordinators: vec![OTHER_VAULT] };
    assert_eq!(
        VaultDAO::set_cross_vault_config(&mut env, SIGNER, rules()),
        Err(VaultError::Unauthorized)
    );
    assert_eq!(VaultDAO::set_cross_vault_config(&mut env, ADMIN, rules()), Ok(()));
    assert!(VaultDAO::get_cross_vault_config(&env).unwrap().enabled);
    let id = VaultDAO::propose_transfer(
        &mut env,
        TREASURER,
        RECIPIENT,
        TOKEN,
        10,
        Symbol::empty(),
        Priority::Normal,
        vec![],
        ConditionLogic::And,
        0,
    )
    .unwrap();
    approve(&mut env, id);
    assert_eq!(
        VaultDAO::execute_cross_vault(&mut env, MEMBER, id, &vec![], &vec![]),
        Err(VaultError::ProposalNotFound)
    );
}

#[test]
fn bridge_transfers_need_an_enabled_bridge() {
    let mut env = vault();
    assert_eq!(propose_assets(&mut env, vec![10]), Err(VaultError::BridgeError));
    let off = BridgeConfig { enabled: false, bridge_adapters: vec![ADAPTER] };
    VaultDAO::set_bridge_config(&mut env, ADMIN, off).unwrap();
    assert_eq!(propose_assets(&mut env, vec![10]), Err(VaultError::BridgeError));
    let on = BridgeConfig { enabled: true, bridge_adapters: vec![ADAPTER] };
    assert_eq!(
        VaultDAO::set_bridge_config(&mut env, MEMBER, on),
        Err(VaultError::Unauthorized)
    );
    let on = BridgeConfig { enabled: true, bridge_adapters: vec![ADAPTER] };
    VaultDAO::set_bridge_config(&mut env, ADMIN, on).unwrap();
    assert_eq!(propose_assets(&mut env, vec![]), Err(VaultError::InvalidAmount));
    assert_eq!(propose_assets(&mut env, vec![1; 6]), Err(VaultError::BridgeError));
    assert_eq!(propose_assets(&mut env, vec![1, -1]), Err(VaultError::InvalidAmount));
    let id = propose_assets(&mut env, vec![10, 20]).unwrap();
    let proposal = VaultDAO::get_proposal(&env, id).unwrap();
    assert_eq!((proposal.amount, proposal.recipient), (30, VAULT));
    assert_eq!(proposal.memo, Symbol::short(BRIDGE_HALF));
}

#[test]
fn bridge_transfers_are_sent_to_the_first_adapter() {
    let mut env = vault();
    let on = BridgeConfig { enabled: true, bridge_adapters: vec![ADAPTER, DEX] };
    VaultDAO::set_bridge_config(&mut env, ADMIN, on).unwrap();
    let id = propose_assets(&mut env, vec![10, 20]).unwrap();
    assert_eq!(
        VaultDAO::execute_bridge_proposal(&mut env, MEMBER, id, &vec![true, true]),
        Err(VaultError::ProposalNotApproved)
    );
    approve(&mut env, id);
    assert_eq!(
        VaultDAO::execute_bridge_proposal(&mut env, MEMBER, id, &vec![true, true]),
        Ok(())
    );
    assert!(env.actions.contains(&Action::TriedTransfer {
        token: TOKEN,
        to: ADAPTER,
        amount: 20,
        done: true,
    }));
    let cc = VaultDAO::get_cross_chain_proposal(&env, id).unwrap();
    assert_eq!(cc.status, CrossVaultStatus::Executed);
    assert_eq!(cc.execution_results, vec![true, true]);
    assert!(!env.links.bridge_locks.contains(&id));
}

#[test]
fn bridge_transfers_without_an_adapter_fail() {
    let mut env = vault();
    let on = BridgeConfig { enabled: true, bridge_adapters: vec![] };
    VaultDAO::set_bridge_config(&mut env, ADMIN, on).unwrap();
    let id = propose_assets(&mut env, vec![10]).unwrap();
    approve(&mut env, id);
    VaultDAO::execute_bridge_proposal(&mut env, MEMBER, id, &vec![true]).unwrap();
    let cc = VaultDAO::get_cross_chain_proposal(&env, id).unwrap();
    assert_eq!(cc.status, CrossVaultStatus::Failed);
    assert_eq!(cc.execution_results, vec![false]);
}

#[test]
fn nested_bridge_calls_are_refused() {
    let mut env = vault();
    let on = BridgeConfig { enabled: true, bridge_adapters: vec![ADAPTER] };
    VaultDAO::set_bridge_config(&mut env, ADMIN, on).unwrap();
    let id = propose_assets(&mut env, vec![10]).unwrap();
    approve(&mut env, id);
    assert!(vault_dao::storage::acquire_bridge_lock(&mut env, id));
    assert!(!vault_dao::storage::acquire_bridge_lock(&mut env, id));
    assert_eq!(
        VaultDAO::execute_bridge_proposal(&mut env, MEMBER, id, &vec![true]),
        Err(VaultError::BridgeError)
    );
    vault_dao::storage::release_bridge_lock(&mut env, id);
    assert_eq!(
        VaultDAO::execute_bridge_proposal(&mut env, MEMBER, id, &vec![true]),
        Ok(())
    );
}
