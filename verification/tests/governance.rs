use vault_dao::env::{Action, Env, Event, Ledger};
use vault_dao::errors::VaultError;
use vault_dao::primitives::Address;
use vault_dao::types::{
    InitConfig, Priority, RecoveryConfig, RetryConfig, Role, StakingConfig, ThresholdStrategy,
    VelocityConfig, VotingStrategy,
};
use vault_dao::types::{ConditionLogic, ProposalStatus};
use vault_dao::primitives::Symbol;
use vault_dao::VaultDAO;

const ADMIN: Address = Address { contract: false, hi: 0, lo: 1 };
const SIGNER: Address = Address { contract: false, hi: 0, lo: 2 };
const OTHER_SIGNER: Address = Address { contract: false, hi: 0, lo: 3 };
const TREASURER: Address = Address { contract: false, hi: 0, lo: 4 };
const MEMBER: Address = Address { contract: false, hi: 0, lo: 5 };
const RECIPIENT: Address = Address { contract: false, hi: 0, lo: 6 };
const TOKEN: Address = Address { contract: true, hi: 0, lo: 7 };
const VAULT: Address = Address { contract: true, hi: 0, lo: 8 };

fn init_config() -> InitConfig {
    InitConfig {
        signers: vec![ADMIN, SIGNER, OTHER_SIGNER],
        threshold: 2,
        quorum: 0,
        quorum_percentage: 0,
        spending_limit: 1_000,
        daily_limit: 5_000,
        weekly_limit: 10_000,
        timelock_threshold: 900,
        timelock_delay: 200,
        velocity_limit: VelocityConfig { limit: 100, window: 3_600 },
        threshold_strategy: ThresholdStrategy::Fixed,
        pre_execution_hooks: vec![],
        post_execution_hooks: vec![],
        default_voting_deadline: 0,
        veto_addresses: vec![],
        retry_config: RetryConfig {
            enabled: false,
            max_retries: 0,
            initial_backoff_ledgers: 0,
        },
        recovery_config: RecoveryConfig { guardians: vec![], threshold: 0, delay: 0 },
        staking_config: StakingConfig::default(),
    }
}

/// A vault with three signers, two of whom have to approve, and everyone's authorization.
fn vault_with(init: InitConfig) -> Env {
    let mut env = Env::new(Ledger { sequence: 100, timestamp: 1_000_000, contract: VAULT });
    for who in [ADMIN, SIGNER, OTHER_SIGNER, TREASURER, MEMBER, RECIPIENT] {
        env.authorize(who);
    }
    assert_eq!(VaultDAO::initialize(&mut env, ADMIN, init), Ok(()));
    assert_eq!(VaultDAO::set_role(&mut env, ADMIN, TREASURER, Role::Treasurer), Ok(()));
    env
}

fn vault() -> Env {
    vault_with(init_config())
}

fn initialized_with(init: InitConfig) -> Result<(), VaultError> {
    let mut env = Env::new(Ledger { sequence: 100, timestamp: 1_000_000, contract: VAULT });
    env.authorize(ADMIN);
    VaultDAO::initialize(&mut env, ADMIN, init)
}

fn propose(env: &mut Env, amount: i128) -> Result<u64, VaultError> {
    VaultDAO::propose_transfer(
        env,
        TREASURER,
        RECIPIENT,
        TOKEN,
        amount,
        Symbol::empty(),
        Priority::Normal,
        vec![],
        ConditionLogic::And,
        0,
    )
}

/// A vault that was never initialized.
fn fresh() -> Env {
    let mut env = Env::new(Ledger { sequence: 100, timestamp: 1_000_000, contract: VAULT });
    env.authorize(MEMBER);
    env
}

#[test]
fn initialization_stores_the_configuration() {
    let mut env = vault();
    let config = VaultDAO::get_config(&mut env).unwrap();
    assert_eq!(config.signers, vec![ADMIN, SIGNER, OTHER_SIGNER]);
    assert_eq!(config.threshold, 2);
    assert_eq!(config.weekly_limit, 10_000);
    assert_eq!(VaultDAO::get_role(&env, ADMIN), Role::Admin);
    assert_eq!(VaultDAO::get_role(&env, SIGNER), Role::Member);
    assert_eq!(VaultDAO::get_voting_strategy(&env), VotingStrategy::Simple);
    assert!(env
        .actions
        .contains(&Action::Publish(Event::Initialized { admin: ADMIN, threshold: 2 })));
}

#[test]
fn a_vault_is_initialized_once() {
    let mut env = vault();
    assert_eq!(
        VaultDAO::initialize(&mut env, ADMIN, init_config()),
        Err(VaultError::AlreadyInitialized)
    );
}

#[test]
fn initialization_refuses_bad_configurations() {
    let mut init = init_config();
    init.signers = vec![];
    assert_eq!(initialized_with(init), Err(VaultError::NoSigners));

    let mut init = init_config();
    init.threshold = 0;
    assert_eq!(initialized_with(init), Err(VaultError::ThresholdTooLow));

    let mut init = init_config();
    init.threshold = 4;
    assert_eq!(initialized_with(init), Err(VaultError::ThresholdTooHigh));

    let mut init = init_config();
    init.quorum = 4;
    assert_eq!(initialized_with(init), Err(VaultError::QuorumTooHigh));

    let mut init = init_config();
    init.daily_limit = 0;
    assert_eq!(initialized_with(init), Err(VaultError::InvalidAmount));

    let mut init = init_config();
    init.threshold = 3;
    init.quorum = 3;
    assert_eq!(initialized_with(init), Ok(()));
}

#[test]
fn a_fresh_vault_is_not_initialized() {
    let mut env = Env::new(Ledger { sequence: 1, timestamp: 0, contract: VAULT });
    env.authorize(ADMIN);
    assert_eq!(VaultDAO::get_config(&mut env).err(), Some(VaultError::NotInitialized));
    assert_eq!(
        VaultDAO::set_role(&mut env, ADMIN, SIGNER, Role::Admin),
        Err(VaultError::NotInitialized)
    );
    assert!(env.has_room());
}

#[test]
fn the_threshold_stays_within_the_signers() {
    let mut env = vault();
    assert_eq!(VaultDAO::update_threshold(&mut env, MEMBER, 1), Err(VaultError::Unauthorized));
    assert_eq!(VaultDAO::update_threshold(&mut env, ADMIN, 0), Err(VaultError::ThresholdTooLow));
    assert_eq!(VaultDAO::update_threshold(&mut env, ADMIN, 4), Err(VaultError::ThresholdTooHigh));
    assert_eq!(VaultDAO::update_threshold(&mut env, ADMIN, 3), Ok(()));
    assert_eq!(VaultDAO::get_config(&mut env).unwrap().threshold, 3);
    assert_eq!(
        VaultDAO::remove_signer(&mut env, ADMIN, SIGNER),
        Err(VaultError::CannotRemoveSigner)
    );
}

#[test]
fn limits_have_to_be_ordered() {
    let mut env = vault();
    assert_eq!(
        VaultDAO::update_limits(&mut fresh(), MEMBER, 100, 1_000, 5_000),
        Err(VaultError::NotInitialized)
    );
    assert_eq!(
        VaultDAO::update_limits(&mut env, MEMBER, 1, 2, 3),
        Err(VaultError::Unauthorized)
    );
    assert_eq!(
        VaultDAO::update_limits(&mut env, ADMIN, 0, 2, 3),
        Err(VaultError::InvalidAmount)
    );
    assert_eq!(
        VaultDAO::update_limits(&mut env, ADMIN, 3, 2, 4),
        Err(VaultError::InvalidAmount)
    );
    assert_eq!(
        VaultDAO::update_limits(&mut env, ADMIN, 2, 4, 3),
        Err(VaultError::InvalidAmount)
    );
    assert_eq!(VaultDAO::update_limits(&mut env, ADMIN, 2, 2, 2), Ok(()));
    let config = VaultDAO::get_config(&mut env).unwrap();
    assert_eq!((config.spending_limit, config.daily_limit, config.weekly_limit), (2, 2, 2));
}

#[test]
fn the_quorum_stays_within_the_signers() {
    let mut env = vault();
    assert_eq!(VaultDAO::update_quorum(&mut env, SIGNER, 1), Err(VaultError::Unauthorized));
    assert_eq!(VaultDAO::update_quorum(&mut env, ADMIN, 4), Err(VaultError::QuorumTooHigh));
    assert_eq!(VaultDAO::update_quorum(&mut env, ADMIN, 3), Ok(()));
    assert_eq!(VaultDAO::get_quorum(&env).0, 3);
    assert!(env.actions.contains(&Action::Publish(Event::QuorumUpdated {
        admin: ADMIN,
        old_quorum: 0,
        new_quorum: 3
    })));
}

#[test]
fn signers_are_removed_down_to_the_threshold() {
    let mut env = vault();
    assert_eq!(
        VaultDAO::remove_signer(&mut env, MEMBER, SIGNER),
        Err(VaultError::Unauthorized)
    );
    assert_eq!(
        VaultDAO::remove_signer(&mut env, ADMIN, MEMBER),
        Err(VaultError::SignerNotFound)
    );
    assert_eq!(VaultDAO::remove_signer(&mut env, ADMIN, SIGNER), Ok(()));
    assert_eq!(VaultDAO::get_signers(&mut env), Ok(vec![ADMIN, OTHER_SIGNER]));
    assert_eq!(VaultDAO::is_signer(&env, SIGNER), Ok(false));
    assert_eq!(
        VaultDAO::remove_signer(&mut env, ADMIN, OTHER_SIGNER),
        Err(VaultError::CannotRemoveSigner)
    );
}

#[test]
fn roles_are_assigned_and_listed() {
    let mut env = vault();
    assert_eq!(
        VaultDAO::set_role(&mut env, TREASURER, MEMBER, Role::Admin),
        Err(VaultError::Unauthorized)
    );
    assert_eq!(VaultDAO::set_role(&mut env, ADMIN, MEMBER, Role::Treasurer), Ok(()));
    assert_eq!(VaultDAO::get_role(&env, MEMBER), Role::Treasurer);
    let listed: Vec<(Address, Role)> = VaultDAO::get_role_assignments(&env)
        .into_iter()
        .map(|a| (a.addr, a.role))
        .collect();
    assert_eq!(
        listed,
        vec![
            (ADMIN, Role::Admin),
            (SIGNER, Role::Member),
            (OTHER_SIGNER, Role::Member),
            (TREASURER, Role::Treasurer),
            (MEMBER, Role::Treasurer),
        ]
    );
}

#[test]
fn veto_addresses_are_kept_without_duplicates() {
    let mut env = vault();
    assert_eq!(
        VaultDAO::add_veto_address(&mut env, MEMBER, MEMBER),
        Err(VaultError::InsufficientRole)
    );
    assert_eq!(VaultDAO::add_veto_address(&mut env, ADMIN, MEMBER), Ok(()));
    assert_eq!(
        VaultDAO::add_veto_address(&mut env, ADMIN, MEMBER),
        Err(VaultError::AddressAlreadyOnList)
    );
    assert_eq!(VaultDAO::remove_veto_address(&mut env, ADMIN, MEMBER), Ok(()));
    assert_eq!(
        VaultDAO::remove_veto_address(&mut env, ADMIN, MEMBER),
        Err(VaultError::AddressNotOnList)
    );
}

#[test]
fn pools_pay_out_no_more_than_they_hold() {
    let mut env = vault();
    env.treasury.insurance_pool.insert(TOKEN, 50);
    env.treasury.stake_pool.insert(TOKEN, 30);
    assert_eq!(
        VaultDAO::withdraw_insurance_pool(&mut env, MEMBER, TOKEN, RECIPIENT, 10),
        Err(VaultError::Unauthorized)
    );
    assert_eq!(
        VaultDAO::withdraw_insurance_pool(&mut env, ADMIN, TOKEN, RECIPIENT, 0),
        Err(VaultError::InvalidAmount)
    );
    assert_eq!(
        VaultDAO::withdraw_insurance_pool(&mut env, ADMIN, TOKEN, RECIPIENT, 51),
        Err(VaultError::InsufficientBalance)
    );
    assert_eq!(
        VaultDAO::withdraw_insurance_pool(&mut env, ADMIN, TOKEN, RECIPIENT, 20),
        Ok(())
    );
    assert_eq!(VaultDAO::get_insurance_pool(&env, TOKEN), 30);
    assert_eq!(VaultDAO::withdraw_stake_pool(&mut env, ADMIN, TOKEN, RECIPIENT, 30), Ok(()));
    assert_eq!(VaultDAO::get_stake_pool_balance(&env, TOKEN), 0);
    assert_eq!(
        env.actions.last(),
        Some(&Action::Transfer { token: TOKEN, to: RECIPIENT, amount: 30 })
    );
}

#[test]
fn only_pending_proposals_get_another_deadline() {
    let mut env = vault();
    let id = propose(&mut env, 100).unwrap();
    assert_eq!(
        VaultDAO::extend_voting_deadline(&mut env, MEMBER, id, 900),
        Err(VaultError::Unauthorized)
    );
    assert_eq!(
        VaultDAO::extend_voting_deadline(&mut env, ADMIN, 77, 900),
        Err(VaultError::ProposalNotFound)
    );
    assert_eq!(VaultDAO::extend_voting_deadline(&mut env, ADMIN, id, 900), Ok(()));
    assert_eq!(VaultDAO::get_proposal(&env, id).unwrap().voting_deadline, 900);
    assert_eq!(VaultDAO::approve_proposal(&mut env, ADMIN, id), Ok(()));
    assert_eq!(VaultDAO::approve_proposal(&mut env, SIGNER, id), Ok(()));
    assert_eq!(VaultDAO::get_proposal(&env, id).unwrap().status, ProposalStatus::Approved);
    assert_eq!(
        VaultDAO::extend_voting_deadline(&mut env, ADMIN, id, 950),
        Err(VaultError::ProposalNotPending)
    );
}

#[test]
fn strategies_and_staking_rules_are_set_by_admins() {
    let mut env = vault();
    assert_eq!(
        VaultDAO::update_voting_strategy(&mut env, SIGNER, VotingStrategy::Quadratic),
        Err(VaultError::Unauthorized)
    );
    assert_eq!(
        VaultDAO::update_voting_strategy(&mut env, ADMIN, VotingStrategy::Quadratic),
        Ok(())
    );
    assert_eq!(VaultDAO::get_voting_strategy(&env), VotingStrategy::Quadratic);
    let mut rules = StakingConfig::default();
    rules.enabled = true;
    assert_eq!(
        VaultDAO::update_staking_config(&mut env, MEMBER, rules),
        Err(VaultError::Unauthorized)
    );
    assert_eq!(VaultDAO::update_staking_config(&mut env, ADMIN, rules), Ok(()));
    assert_eq!(VaultDAO::get_staking_config(&mut env), rules);
}

#[test]
fn the_quorum_status_counts_votes_of_all_kinds() {
    let mut env = vault();
    VaultDAO::update_quorum(&mut env, ADMIN, 2).unwrap();
    let id = propose(&mut env, 100).unwrap();
    assert_eq!(VaultDAO::get_quorum_status(&env, id), Ok((0, 2, false)));
    VaultDAO::abstain_proposal(&mut env, SIGNER, id).unwrap();
    VaultDAO::approve_proposal(&mut env, ADMIN, id).unwrap();
    assert_eq!(VaultDAO::get_quorum_status(&env, id), Ok((2, 2, true)));
    let mut init = init_config();
    init.quorum_percentage = 50;
    let mut other = vault_with(init);
    let shared = propose(&mut other, 100).unwrap();
    VaultDAO::abstain_proposal(&mut other, SIGNER, shared).unwrap();
    assert_eq!(VaultDAO::get_quorum_status(&other, shared), Ok((1, 0, false)));
    assert_eq!(
        VaultDAO::get_quorum_status(&env, 9),
        Err(VaultError::ProposalNotFound)
    );
}

#[test]
fn spending_of_the_day_is_reported() {
    let mut env = vault();
    propose(&mut env, 300).unwrap();
    let day = env.ledger.timestamp / 86_400;
    assert_eq!(VaultDAO::get_today_spent(&env), 300);
    assert_eq!(VaultDAO::get_daily_spent(&env, day), 300);
    assert_eq!(VaultDAO::get_daily_spent(&env, day + 1), 0);
}

#[test]
fn errors_have_their_codes() {
    assert_eq!(VaultError::AlreadyInitialized.code(), 1);
    assert_eq!(VaultError::NotInitialized.code(), 2);
    assert_eq!(VaultError::Unauthorized.code(), 10);
    assert_eq!(VaultError::ProposalNotFound.code(), 20);
    assert_eq!(VaultError::InvalidAmount.code(), 40);
    assert_eq!(VaultError::InsufficientBalance.code(), 70);
    assert_eq!(VaultError::RetryError.code(), 168);
    assert_eq!(VaultError::SubscriptionNotActive.code(), 244);
    assert_eq!(VaultError::CircularDependency.code(), 300);
    assert_eq!(VaultError::BridgeError.code(), 400);
}
