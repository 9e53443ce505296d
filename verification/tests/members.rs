use vault_dao::env::{Action, Env, Event, Ledger};
use vault_dao::errors::VaultError;
use vault_dao::math::{
    count_u32, divide, floor_sqrt, reduce, sat_add, sat_mul, sat_mul_u64, sat_sub, sum_exceeds,
};
use vault_dao::primitives::{Address, Symbol};
use vault_dao::types::{
    AuditAction, ConditionLogic, FeeStructure, FeeTier, InitConfig, InsuranceConfig,
    NotificationPreferences, Priority, RecoveryConfig, ReputationConfig, RetryConfig, Role,
    StakingConfig, ThresholdStrategy, TimeWeightedConfig, TokenLock, VelocityConfig,
};
use vault_dao::VaultDAO;

const ADMIN: Address = Address { contract: false, hi: 0, lo: 1 };
const SIGNER: Address = Address { contract: false, hi: 0, lo: 2 };
const OTHER_SIGNER: Address = Address { contract: false, hi: 0, lo: 3 };
const TREASURER: Address = Address { contract: false, hi: 0, lo: 4 };
const MEMBER: Address = Address { contract: false, hi: 0, lo: 5 };
const RECIPIENT: Address = Address { contract: false, hi: 0, lo: 6 };
const TOKEN: Address = Address { contract: true, hi: 0, lo: 7 };
const VAULT: Address = Address { contract: true, hi: 0, lo: 8 };

fn init_config() -> InitConfig {
    InitConfig {
        signers: vec![ADMIN, SIGNER, OTHER_SIGNER],
        threshold: 2,
        quorum: 0,
        quorum_percentage: 0,
        spending_limit: 1_000,
        daily_limit: 5_000,
        weekly_limit: 10_000,
        timelock_threshold: 900,
        timelock_delay: 200,
        velocity_limit: VelocityConfig { limit: 100, window: 3_600 },
        threshold_strategy: ThresholdStrategy::Fixed,
        pre_execution_hooks: vec![],
        post_execution_hooks: vec![],
        default_voting_deadline: 0,
        veto_addresses: vec![],
        retry_config: RetryConfig {
            enabled: false,
            max_retries: 0,
            initial_backoff_ledgers: 0,
        },
        recovery_config: RecoveryConfig { guardians: vec![], threshold: 0, delay: 0 },
        staking_config: StakingConfig::default(),
    }
}

/// A vault with three signers, two of whom have to approve, and everyone's authorization.
fn vault_with(init: InitConfig) -> Env {
    let mut env = Env::new(Ledger { sequence: 100, timestamp: 1_000_000, contract: VAULT });
    for who in [ADMIN, SIGNER, OTHER_SIGNER, TREASURER, MEMBER, RECIPIENT] {
        env.authorize(who);
    }
    assert_eq!(VaultDAO::initialize(&mut env, ADMIN, init), Ok(()));
    assert_eq!(VaultDAO::set_role(&mut env, ADMIN, TREASURER, Role::Treasurer), Ok(()));
    env
}

fn vault() -> Env {
    vault_with(init_config())
}

const DAY: u64 = 17_280;

fn locking() -> Env {
    let mut env = vault();
    let rules = TimeWeightedConfig {
        enabled: true,
        min_lock_duration: 10,
        max_lock_duration: 400 * DAY,
        early_unlock_penalty_bps: 1_000,
        apply_decay: false,
    };
    VaultDAO::set_time_weighted_config(&mut env, ADMIN, rules).unwrap();
    env
}

fn propose(env: &mut Env, amount: i128) -> u64 {
    VaultDAO::propose_transfer(
        env,
        TREASURER,
        RECIPIENT,
        TOKEN,
        amount,
        Symbol::empty(),
        Priority::Normal,
        vec![],
        ConditionLogic::And,
        0,
    )
    .unwrap()
}

fn fees(tiers: Vec<FeeTier>) -> FeeStructure {
    FeeStructure {
        enabled: true,
        base_fee_bps: 200,
        tiers,
        reputation_discount_threshold: 500,
        reputation_discount_percentage: 25,
        treasury: OTHER_SIGNER,
    }
}

#[test]
fn longer_locks_have_larger_multipliers() {
    assert_eq!(TokenLock::calculate_multiplier(0), 10_000);
    assert_eq!(TokenLock::calculate_multiplier(30 * DAY - 1), 10_000);
    assert_eq!(TokenLock::calculate_multiplier(30 * DAY), 15_000);
    assert_eq!(TokenLock::calculate_multiplier(90 * DAY), 20_000);
    assert_eq!(TokenLock::calculate_multiplier(180 * DAY), 30_000);
    assert_eq!(TokenLock::calculate_multiplier(365 * DAY), 30_000);
    assert_eq!(TokenLock::calculate_multiplier(365 * DAY + 1), 40_000);
}

#[test]
fn locks_are_checked() {
    let mut env = vault();
    assert_eq!(
        VaultDAO::lock_tokens(&mut env, MEMBER, TOKEN, 100, 50),
        Err(VaultError::Unauthorized)
    );
    let mut env = locking();
    assert_eq!(
        VaultDAO::lock_tokens(&mut env, MEMBER, TOKEN, 0, 50),
        Err(VaultError::InvalidAmount)
    );
    assert_eq!(
        VaultDAO::lock_tokens(&mut env, MEMBER, TOKEN, 100, 9),
        Err(VaultError::InvalidAmount)
    );
    assert_eq!(
        VaultDAO::lock_tokens(&mut env, MEMBER, TOKEN, 100, 400 * DAY + 1),
        Err(VaultError::InvalidAmount)
    );
    assert_eq!(VaultDAO::lock_tokens(&mut env, MEMBER, TOKEN, 100, 30 * DAY), Ok(()));
    assert_eq!(
        VaultDAO::lock_tokens(&mut env, MEMBER, TOKEN, 100, 50),
        Err(VaultError::AlreadyApproved)
    );
    assert_eq!(VaultDAO::get_voting_power(&env, MEMBER), 150);
    assert_eq!(VaultDAO::get_voting_power(&env, SIGNER), 1);
    assert!(env
        .actions
        .contains(&Action::TransferToVault { token: TOKEN, from: MEMBER, amount: 100 }));
}

#[test]
fn locked_tokens_come_back_once() {
    let mut env = locking();
    VaultDAO::lock_tokens(&mut env, MEMBER, TOKEN, 100, 50).unwrap();
    assert_eq!(
        VaultDAO::unlock_tokens(&mut env, MEMBER),
        Err(VaultError::TimelockNotExpired)
    );
    env.ledger.sequence = 150;
    assert_eq!(VaultDAO::unlock_tokens(&mut env, MEMBER), Ok(100));
    assert_eq!(
        VaultDAO::unlock_tokens(&mut env, MEMBER),
        Err(VaultError::ProposalNotPending)
    );
    assert_eq!(
        VaultDAO::unlock_tokens(&mut env, SIGNER),
        Err(VaultError::ProposalNotFound)
    );
    assert_eq!(VaultDAO::lock_tokens(&mut env, MEMBER, TOKEN, 5, 50), Ok(()));
}

#[test]
fn early_unlocks_cost_a_penalty() {
    let mut env = locking();
    VaultDAO::lock_tokens(&mut env, MEMBER, TOKEN, 105, 50).unwrap();
    assert_eq!(VaultDAO::unlock_early(&mut env, MEMBER), Ok(95));
    assert_eq!(VaultDAO::get_insurance_pool(&env, TOKEN), 10);
    assert_eq!(
        env.actions.last(),
        Some(&Action::Publish(Event::EarlyUnlock { owner: MEMBER, returned: 95, penalty: 10 }))
    );
    VaultDAO::lock_tokens(&mut env, MEMBER, TOKEN, 105, 50).unwrap();
    env.ledger.sequence = 150;
    assert_eq!(VaultDAO::unlock_early(&mut env, MEMBER), Ok(105));
}

#[test]
fn locks_are_extended_by_what_remains() {
    let mut env = locking();
    VaultDAO::lock_tokens(&mut env, MEMBER, TOKEN, 100, 50).unwrap();
    env.ledger.sequence = 120;
    assert_eq!(
        VaultDAO::extend_lock(&mut env, MEMBER, 400 * DAY - 29),
        Err(VaultError::InvalidAmount)
    );
    assert!(!env.extension_fits(MEMBER, u64::MAX));
    assert_eq!(VaultDAO::extend_lock(&mut env, MEMBER, 30 * DAY), Ok(()));
    let lock = VaultDAO::get_token_lock(&env, MEMBER).unwrap();
    assert_eq!(lock.duration, 30 * DAY + 30);
    assert_eq!(lock.unlock_at, 150 + 30 * DAY);
    assert_eq!(lock.power_multiplier_bps, 15_000);
    assert_eq!(
        VaultDAO::extend_lock(&mut env, SIGNER, 5),
        Err(VaultError::ProposalNotFound)
    );
}

#[test]
fn decayed_power_falls_with_time() {
    let lock = TokenLock {
        owner: MEMBER,
        token: TOKEN,
        amount: 1_000,
        locked_at: 0,
        duration: 100,
        unlock_at: 100,
        is_active: true,
        power_multiplier_bps: 20_000,
    };
    assert_eq!(lock.calculate_voting_power(), 2_000);
    assert_eq!(lock.calculate_decayed_power(0), 2_000);
    assert_eq!(lock.calculate_decayed_power(75), 500);
    assert_eq!(lock.calculate_decayed_power(100), 0);
    let mut env = locking();
    let mut rules = VaultDAO::get_time_weighted_config(&env);
    rules.apply_decay = true;
    assert_eq!(
        VaultDAO::set_time_weighted_config(&mut env, MEMBER, rules),
        Err(VaultError::InsufficientRole)
    );
    VaultDAO::set_time_weighted_config(&mut env, ADMIN, rules).unwrap();
    VaultDAO::lock_tokens(&mut env, MEMBER, TOKEN, 100, 50).unwrap();
    env.ledger.sequence = 125;
    assert_eq!(VaultDAO::get_voting_power(&env, MEMBER), 50);
    env.ledger.sequence = 150;
    assert_eq!(VaultDAO::get_voting_power(&env, MEMBER), 1);
}

#[test]
fn reputation_decays_towards_its_floor() {
    let mut env = vault();
    let rules = ReputationConfig { decay_half_life_ledgers: 10, decay_min_score: 100 };
    assert_eq!(
        VaultDAO::set_reputation_config(&mut env, MEMBER, rules),
        Err(VaultError::Unauthorized)
    );
    VaultDAO::set_reputation_config(&mut env, ADMIN, rules).unwrap();
    let mut rep = VaultDAO::get_reputation(&mut env, MEMBER);
    rep.score = 501;
    rep.last_decay_ledger = 100;
    env.members.reputation.insert(MEMBER, rep);
    env.ledger.sequence = 109;
    assert_eq!(vault_dao::reputation::current_reputation(&env, &MEMBER).score, 501);
    env.ledger.sequence = 110;
    assert_eq!(vault_dao::reputation::current_reputation(&env, &MEMBER).score, 300);
    env.ledger.sequence = 125;
    assert_eq!(vault_dao::reputation::current_reputation(&env, &MEMBER).score, 200);
    env.ledger.sequence = 1_000;
    assert_eq!(vault_dao::reputation::current_reputation(&env, &MEMBER).score, 100);
}

#[test]
fn rejections_cost_reputation_and_insurance() {
    let mut env = vault();
    let rules = InsuranceConfig {
        enabled: true,
        min_amount: 0,
        min_insurance_bps: 0,
        slash_percentage: 40,
    };
    VaultDAO::set_insurance_config(&mut env, ADMIN, rules).unwrap();
    assert_eq!(VaultDAO::get_insurance_config(&env), rules);
    let id = VaultDAO::propose_transfer(
        &mut env,
        TREASURER,
        RECIPIENT,
        TOKEN,
        100,
        Symbol::empty(),
        Priority::Normal,
        vec![],
        ConditionLogic::And,
        9,
    )
    .unwrap();
    VaultDAO::cancel_proposal(&mut env, ADMIN, id, Symbol::empty()).unwrap();
    assert_eq!(VaultDAO::get_insurance_pool(&env, TOKEN), 3);
    assert!(env
        .actions
        .contains(&Action::Transfer { token: TOKEN, to: TREASURER, amount: 6 }));
    assert_eq!(VaultDAO::get_metrics(&env).rejected_count, 1);
}

#[test]
fn slashed_stakes_go_to_the_pool() {
    let mut env = vault();
    let mut rules = StakingConfig::default();
    rules.enabled = true;
    rules.base_stake_bps = 1_000;
    rules.max_stake_amount = 100;
    rules.slash_percentage = 30;
    VaultDAO::update_staking_config(&mut env, ADMIN, rules).unwrap();
    let id = propose(&mut env, 200);
    VaultDAO::cancel_proposal(&mut env, ADMIN, id, Symbol::empty()).unwrap();
    assert_eq!(VaultDAO::get_stake_pool_balance(&env, TOKEN), 6);
    let record = VaultDAO::get_stake_record(&mut env, id).unwrap();
    assert_eq!((record.slashed, record.slashed_amount), (true, 6));
    assert!(env
        .actions
        .contains(&Action::Transfer { token: TOKEN, to: TREASURER, amount: 14 }));
}

#[test]
fn fees_have_tiers_and_discounts() {
    let mut env = vault();
    let tiers = vec![
        FeeTier { min_volume: 100, fee_bps: 150 },
        FeeTier { min_volume: 1_000, fee_bps: 100 },
    ];
    assert_eq!(
        VaultDAO::set_fee_structure(&mut env, MEMBER, fees(vec![])),
        Err(VaultError::Unauthorized)
    );
    VaultDAO::set_fee_structure(&mut env, ADMIN, fees(tiers)).unwrap();
    let calc = VaultDAO::calculate_fee(&env, MEMBER, TOKEN, 10_000);
    assert_eq!((calc.base_fee, calc.discount, calc.final_fee), (200, 50, 150));
    assert!(calc.reputation_discount_applied);
    assert_eq!(
        VaultDAO::collect_and_distribute_fee(&mut env, &MEMBER, &TOKEN, 500),
        Ok(8)
    );
    assert_eq!(VaultDAO::calculate_fee(&env, MEMBER, TOKEN, 10_000).fee_bps, 150);
    assert_eq!(VaultDAO::get_fees_collected(&env, TOKEN), 8);
    assert_eq!(
        VaultDAO::withdraw_fees(&mut env, MEMBER, TOKEN, RECIPIENT),
        Err(VaultError::Unauthorized)
    );
    assert_eq!(VaultDAO::withdraw_fees(&mut env, ADMIN, TOKEN, RECIPIENT), Ok(8));
    assert_eq!(VaultDAO::withdraw_fees(&mut env, ADMIN, TOKEN, RECIPIENT), Ok(0));
}

#[test]
fn fee_structures_are_checked() {
    let mut env = vault();
    let mut bad = fees(vec![]);
    bad.base_fee_bps = 10_001;
    assert_eq!(
        VaultDAO::set_fee_structure(&mut env, ADMIN, bad),
        Err(VaultError::InvalidAmount)
    );
    let bad = fees(vec![
        FeeTier { min_volume: 100, fee_bps: 150 },
        FeeTier { min_volume: 100, fee_bps: 100 },
    ]);
    assert_eq!(
        VaultDAO::set_fee_structure(&mut env, ADMIN, bad),
        Err(VaultError::InvalidAmount)
    );
    assert!(!VaultDAO::get_fee_structure(&env).enabled);
    assert_eq!(VaultDAO::calculate_fee(&env, MEMBER, TOKEN, 10_000).final_fee, 0);
}

#[test]
fn preferences_are_kept_per_address() {
    let mut env = vault();
    let mut prefs = NotificationPreferences::default();
    assert_eq!(VaultDAO::get_notification_preferences(&env, MEMBER), prefs);
    prefs.notify_on_expiry = false;
    VaultDAO::set_notification_preferences(&mut env, MEMBER, prefs).unwrap();
    assert_eq!(VaultDAO::get_notification_preferences(&env, MEMBER), prefs);
    assert!(VaultDAO::get_notification_preferences(&env, SIGNER).notify_on_expiry);
}

#[test]
fn participation_is_counted() {
    let mut env = vault();
    let id = propose(&mut env, 10);
    VaultDAO::approve_proposal(&mut env, SIGNER, id).unwrap();
    assert_eq!(VaultDAO::get_participation(&env, SIGNER), (1, 0, 1, 100));
}

#[test]
fn metrics_rate_and_average() {
    let mut metrics = vault_dao::types::VaultMetrics::default();
    assert_eq!(metrics.success_rate_bps(), 0);
    assert_eq!(metrics.avg_execution_time_ledgers(), 0);
    metrics.executed_count = 2;
    metrics.rejected_count = 1;
    metrics.total_execution_time_ledgers = 25;
    assert_eq!(metrics.success_rate_bps(), 6_666);
    assert_eq!(metrics.avg_execution_time_ledgers(), 12);
}

#[test]
fn the_audit_chain_is_linked() {
    let mut env = vault();
    let id = propose(&mut env, 10);
    VaultDAO::approve_proposal(&mut env, SIGNER, id).unwrap();
    assert_eq!(VaultDAO::get_audit_entry_count(&env), 4);
    let first = VaultDAO::get_audit_entry(&env, 1).unwrap();
    assert_eq!((first.action, first.prev_hash), (AuditAction::Initialize, 0));
    assert_eq!(first.hash, 56 * 31 * 31 + 100);
    let second = VaultDAO::get_audit_entry(&env, 2).unwrap();
    assert_eq!(second.prev_hash, first.hash);
    assert!(VaultDAO::verify_audit_chain(&env, 1, 4));
    assert_eq!(VaultDAO::verify_audit_trail(&env, 2, 4), Ok(true));
    assert_eq!(VaultDAO::verify_audit_trail(&env, 3, 5), Ok(false));
    assert_eq!(VaultDAO::verify_audit_trail(&env, 0, 2), Ok(false));
    assert_eq!(VaultDAO::verify_audit_trail_full(&env), Ok(None));
    let page: Vec<u64> =
        VaultDAO::get_audit_trail(&env, 1, 2).into_iter().map(|e| e.id).collect();
    assert_eq!(page, vec![2, 3]);
}

#[test]
fn tampered_audit_entries_are_found() {
    let mut env = vault();
    propose(&mut env, 10);
    let mut entry = VaultDAO::get_audit_entry(&env, 2).unwrap();
    entry.target = 77;
    env.audit.entries.insert(2, entry);
    assert_eq!(VaultDAO::verify_audit_trail_full(&env), Ok(Some(2)));
    assert!(!VaultDAO::verify_audit_chain(&env, 1, 3));
    assert!(VaultDAO::verify_audit_chain(&env, 1, 1));
    env.audit.entries.remove(&1);
    assert_eq!(VaultDAO::verify_audit_trail_full(&env), Err(VaultError::ProposalNotFound));
}

#[test]
fn arithmetic_stops_at_the_limits() {
    assert_eq!(sat_add(i128::MAX, 1), i128::MAX);
    assert_eq!(sat_sub(i128::MIN, 1), i128::MIN);
    assert_eq!(sat_mul(i128::MAX, -2), i128::MIN);
    assert_eq!(sat_mul_u64(u64::MAX, 2), u64::MAX);
    assert_eq!(count_u32(1 << 40), u32::MAX);
    assert_eq!(reduce(5, 9), 0);
    assert_eq!(reduce(9, 5), 4);
    assert!(sum_exceeds(i128::MAX, 1, i128::MAX));
    assert!(!sum_exceeds(3, 4, 7));
    assert_eq!(divide(-7, 2), -3);
    assert_eq!(divide(7, 2), 3);
    assert_eq!(floor_sqrt(24), 4);
    assert_eq!(floor_sqrt(25), 5);
}

#[test]
fn room_is_left_below_the_largest_numbers() {
    let mut env = vault();
    assert!(env.has_room());
    env.proposals.next_id = u64::MAX - 1_000;
    assert!(env.has_room());
    env.proposals.next_id = u64::MAX - 999;
    assert!(!env.has_room());
}
