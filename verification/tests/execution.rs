use vault_dao::env::{Action, Env, Event, Ledger};
use vault_dao::errors::VaultError;
use vault_dao::primitives::{Address, Symbol};
use vault_dao::types::{
    Condition, ConditionLogic, ExecutionAnswers, FeeStructure, FeeTier, GasConfig, InitConfig,
    Observation, Priority, ProposalStatus, RecoveryConfig, RetryConfig, Role, StakingConfig,
    ThresholdStrategy, VaultOracleConfig, VaultPriceData, VelocityConfig,
};
use vault_dao::VaultDAO;

const ADMIN: Address = Address { contract: false, hi: 0, lo: 1 };
const SIGNER: Address = Address { contract: false, hi: 0, lo: 2 };
const OTHER_SIGNER: Address = Address { contract: false, hi: 0, lo: 3 };
const TREASURER: Address = Address { contract: false, hi: 0, lo: 4 };
const MEMBER: Address = Address { contract: false, hi: 0, lo: 5 };
const RECIPIENT: Address = Address { contract: false, hi: 0, lo: 6 };
const TOKEN: Address = Address { contract: true, hi: 0, lo: 7 };
const VAULT: Address = Address { contract: true, hi: 0, lo: 8 };

fn init_config() -> InitConfig {
    InitConfig {
        signers: vec![ADMIN, SIGNER, OTHER_SIGNER],
        threshold: 2,
        quorum: 0,
        quorum_percentage: 0,
        spending_limit: 1_000,
        daily_limit: 5_000,
        weekly_limit: 10_000,
        timelock_threshold: 900,
        timelock_delay: 200,
        velocity_limit: VelocityConfig { limit: 100, window: 3_600 },
        threshold_strategy: ThresholdStrategy::Fixed,
        pre_execution_hooks: vec![],
        post_execution_hooks: vec![],
        default_voting_deadline: 0,
        veto_addresses: vec![],
        retry_config: RetryConfig {
            enabled: false,
            max_retries: 0,
            initial_backoff_ledgers: 0,
        },
        recovery_config: RecoveryConfig { guardians: vec![], threshold: 0, delay: 0 },
        staking_config: StakingConfig::default(),
    }
}

/// A vault with three signers, two of whom have to approve, and everyone's authorization.
fn vault_with(init: InitConfig) -> Env {
    let mut env = Env::new(Ledger { sequence: 100, timestamp: 1_000_000, contract: VAULT });
    for who in [ADMIN, SIGNER, OTHER_SIGNER, TREASURER, MEMBER, RECIPIENT] {
        env.authorize(who);
    }
    assert_eq!(VaultDAO::initialize(&mut env, ADMIN, init), Ok(()));
    assert_eq!(VaultDAO::set_role(&mut env, ADMIN, TREASURER, Role::Treasurer), Ok(()));
    env
}

fn vault() -> Env {
    vault_with(init_config())
}

fn propose_with(
    env: &mut Env,
    amount: i128,
    conditions: Vec<Condition>,
    logic: ConditionLogic,
    insurance: i128,
) -> u64 {
    VaultDAO::propose_transfer(
        env,
        TREASURER,
        RECIPIENT,
        TOKEN,
        amount,
        Symbol::empty(),
        Priority::Normal,
        conditions,
        logic,
        insurance,
    )
    .unwrap()
}

fn approve(env: &mut Env, id: u64) {
    VaultDAO::approve_proposal(env, ADMIN, id).unwrap();
    VaultDAO::approve_proposal(env, SIGNER, id).unwrap();
}

fn approved(env: &mut Env, amount: i128) -> u64 {
    let id = propose_with(env, amount, vec![], ConditionLogic::And, 0);
    approve(env, id);
    id
}

fn paid(balance: i128) -> ExecutionAnswers {
    ExecutionAnswers { observations: vec![], balance, transferred: true }
}

fn seen(observations: Vec<Observation>) -> ExecutionAnswers {
    ExecutionAnswers { observations, balance: 1_000_000, transferred: true }
}

fn status(env: &Env, id: u64) -> ProposalStatus {
    VaultDAO::get_proposal(env, id).unwrap().status
}

fn nothing() -> Observation {
    Observation { balance: 0, price: None }
}

#[test]
fn an_approved_proposal_is_executed_once() {
    let mut env = vault();
    let id = approved(&mut env, 100);
    assert_eq!(VaultDAO::execute_proposal(&mut env, MEMBER, id, &paid(100)), Ok(()));
    assert_eq!(status(&env, id), ProposalStatus::Executed);
    assert!(env.actions.contains(&Action::TriedTransfer {
        token: TOKEN,
        to: RECIPIENT,
        amount: 100,
        done: true,
    }));
    assert_eq!(VaultDAO::get_metrics(&env).executed_count, 1);
    assert_eq!(
        VaultDAO::execute_proposal(&mut env, MEMBER, id, &paid(100)),
        Err(VaultError::ProposalAlreadyExecuted)
    );
}

#[test]
fn executions_reward_proposer_and_approvers() {
    let mut env = vault();
    let id = approved(&mut env, 100);
    VaultDAO::execute_proposal(&mut env, MEMBER, id, &paid(100)).unwrap();
    assert_eq!(VaultDAO::get_reputation(&mut env, TREASURER).score, 510);
    assert_eq!(VaultDAO::get_reputation(&mut env, ADMIN).score, 507);
    assert_eq!(VaultDAO::get_reputation(&mut env, OTHER_SIGNER).score, 500);
}

#[test]
fn only_approved_proposals_are_executed() {
    let mut env = vault();
    let id = propose_with(&mut env, 100, vec![], ConditionLogic::And, 0);
    assert_eq!(
        VaultDAO::execute_proposal(&mut env, MEMBER, id, &paid(100)),
        Err(VaultError::ProposalNotApproved)
    );
    assert_eq!(
        VaultDAO::execute_proposal(&mut env, MEMBER, 99, &paid(100)),
        Err(VaultError::ProposalNotFound)
    );
    VaultDAO::cancel_proposal(&mut env, TREASURER, id, Symbol::empty()).unwrap();
    assert_eq!(
        VaultDAO::execute_proposal(&mut env, MEMBER, id, &paid(100)),
        Err(VaultError::ProposalAlreadyCancelled)
    );
}

#[test]
fn timelocks_are_waited_for() {
    let mut env = vault();
    let id = approved(&mut env, 900);
    env.ledger.sequence = 299;
    assert_eq!(
        VaultDAO::execute_proposal(&mut env, MEMBER, id, &paid(900)),
        Err(VaultError::TimelockNotExpired)
    );
    env.ledger.sequence = 300;
    assert_eq!(VaultDAO::execute_proposal(&mut env, MEMBER, id, &paid(900)), Ok(()));
}

#[test]
fn expired_proposals_are_not_executed() {
    let mut env = vault();
    let id = approved(&mut env, 100);
    env.ledger.sequence = 100 + 120_961;
    assert_eq!(
        VaultDAO::execute_proposal(&mut env, MEMBER, id, &paid(100)),
        Err(VaultError::ProposalExpired)
    );
    assert_eq!(status(&env, id), ProposalStatus::Expired);
}

#[test]
fn dependencies_are_executed_first() {
    let mut env = vault();
    let first = approved(&mut env, 10);
    let second = VaultDAO::propose_transfer_with_deps(
        &mut env,
        TREASURER,
        RECIPIENT,
        TOKEN,
        20,
        Symbol::empty(),
        Priority::Normal,
        vec![],
        ConditionLogic::And,
        0,
        vec![first],
    )
    .unwrap();
    approve(&mut env, second);
    assert_eq!(VaultDAO::get_executable_proposals(&env), vec![first]);
    assert_eq!(
        VaultDAO::execute_proposal(&mut env, MEMBER, second, &paid(100)),
        Err(VaultError::ProposalNotApproved)
    );
    VaultDAO::execute_proposal(&mut env, MEMBER, first, &paid(100)).unwrap();
    assert_eq!(VaultDAO::get_executable_proposals(&env), vec![second]);
    assert_eq!(VaultDAO::execute_proposal(&mut env, MEMBER, second, &paid(100)), Ok(()));
}

#[test]
fn a_failed_execution_keeps_the_proposal() {
    let mut env = vault();
    let id = approved(&mut env, 100);
    assert_eq!(
        VaultDAO::execute_proposal(&mut env, MEMBER, id, &paid(99)),
        Err(VaultError::InsufficientBalance)
    );
    assert_eq!(status(&env, id), ProposalStatus::Approved);
    assert_eq!(VaultDAO::get_proposals_by_priority(&env, Priority::Normal), vec![id]);
    let failed = ExecutionAnswers { observations: vec![], balance: 500, transferred: false };
    assert_eq!(
        VaultDAO::execute_proposal(&mut env, MEMBER, id, &failed),
        Err(VaultError::InsufficientBalance)
    );
    assert_eq!(status(&env, id), ProposalStatus::Approved);
    assert!(env.actions.contains(&Action::Publish(Event::ExecutionRolledBack {
        proposal_id: id,
        error: 70,
    })));
}

#[test]
fn retries_back_off_and_end() {
    let mut init = init_config();
    init.retry_config =
        RetryConfig { enabled: true, max_retries: 3, initial_backoff_ledgers: 10 };
    let mut env = vault_with(init);
    let id = approved(&mut env, 100);
    assert_eq!(VaultDAO::execute_proposal(&mut env, MEMBER, id, &paid(0)), Ok(()));
    let state = VaultDAO::get_retry_state(&env, id).unwrap();
    assert_eq!((state.retry_count, state.next_retry_ledger), (1, 110));
    assert!(env.actions.contains(&Action::Publish(Event::RetryScheduled {
        proposal_id: id,
        retry_count: 1,
        next_ledger: 110,
        error: 70,
    })));
    assert_eq!(
        VaultDAO::execute_proposal(&mut env, MEMBER, id, &paid(0)),
        Err(VaultError::RetryError)
    );
    env.ledger.sequence = 110;
    assert_eq!(VaultDAO::execute_proposal(&mut env, MEMBER, id, &paid(0)), Ok(()));
    assert_eq!(VaultDAO::get_retry_state(&env, id).unwrap().next_retry_ledger, 130);
    env.ledger.sequence = 130;
    assert_eq!(VaultDAO::execute_proposal(&mut env, MEMBER, id, &paid(0)), Ok(()));
    assert_eq!(VaultDAO::get_retry_state(&env, id).unwrap().next_retry_ledger, 170);
    env.ledger.sequence = 170;
    assert_eq!(
        VaultDAO::execute_proposal(&mut env, MEMBER, id, &paid(500)),
        Err(VaultError::RetryError)
    );
}

#[test]
fn backoffs_are_capped() {
    let mut env = vault();
    let rules = RetryConfig { enabled: true, max_retries: 50, initial_backoff_ledgers: 100_000 };
    VaultDAO::schedule_retry(&mut env, 1, &rules, 100, &VaultError::ConditionsNotMet).unwrap();
    assert_eq!(VaultDAO::get_retry_state(&env, 1).unwrap().next_retry_ledger, 100_100);
    VaultDAO::schedule_retry(&mut env, 1, &rules, 100, &VaultError::ConditionsNotMet).unwrap();
    assert_eq!(VaultDAO::get_retry_state(&env, 1).unwrap().next_retry_ledger, 121_060);
    assert!(VaultDAO::is_retryable_error(&VaultError::InsufficientBalance));
    assert!(VaultDAO::is_retryable_error(&VaultError::ConditionsNotMet));
    assert!(!VaultDAO::is_retryable_error(&VaultError::Unauthorized));
}

#[test]
fn retries_end_at_their_number() {
    let mut env = vault();
    let rules = RetryConfig { enabled: true, max_retries: 1, initial_backoff_ledgers: 1 };
    VaultDAO::schedule_retry(&mut env, 1, &rules, 100, &VaultError::ConditionsNotMet).unwrap();
    assert_eq!(
        VaultDAO::schedule_retry(&mut env, 1, &rules, 100, &VaultError::ConditionsNotMet),
        Err(VaultError::RetryError)
    );
    assert_eq!(
        env.actions.last(),
        Some(&Action::Publish(Event::RetriesExhausted { proposal_id: 1, retry_count: 2 }))
    );
}

#[test]
fn conditions_hold_together_or_one_by_one() {
    let mut env = vault();
    let conditions = vec![Condition::DateAfter(100), Condition::BalanceAbove(50)];
    let both = propose_with(&mut env, 10, conditions.clone(), ConditionLogic::And, 0);
    let one = propose_with(&mut env, 10, conditions, ConditionLogic::Or, 0);
    approve(&mut env, both);
    approve(&mut env, one);
    let rich = Observation { balance: 51, price: None };
    assert_eq!(
        VaultDAO::execute_proposal(&mut env, MEMBER, both, &seen(vec![nothing(), rich])),
        Err(VaultError::ProposalNotApproved)
    );
    assert_eq!(
        VaultDAO::execute_proposal(&mut env, MEMBER, one, &seen(vec![nothing(), nothing()])),
        Err(VaultError::ProposalNotApproved)
    );
    assert_eq!(
        VaultDAO::execute_proposal(&mut env, MEMBER, one, &seen(vec![nothing(), rich])),
        Ok(())
    );
    env.ledger.sequence = 101;
    assert_eq!(
        VaultDAO::execute_proposal(&mut env, MEMBER, both, &seen(vec![nothing(), rich])),
        Ok(())
    );
}

#[test]
fn price_conditions_ask_the_oracle() {
    let mut env = vault();
    let oracle = VaultOracleConfig { address: VAULT, max_staleness: 20 };
    VaultDAO::update_oracle_config(&mut env, ADMIN, oracle).unwrap();
    let conditions = vec![Condition::PriceAbove(TOKEN, 7)];
    let id = propose_with(&mut env, 10, conditions, ConditionLogic::And, 0);
    approve(&mut env, id);
    let quote = |price: i128, timestamp: u64| Observation {
        balance: 0,
        price: Some(VaultPriceData { price, timestamp }),
    };
    assert_eq!(
        VaultDAO::execute_proposal(&mut env, MEMBER, id, &seen(vec![quote(6, 95)])),
        Err(VaultError::ProposalNotApproved)
    );
    assert_eq!(
        VaultDAO::execute_proposal(&mut env, MEMBER, id, &seen(vec![quote(8, 79)])),
        Err(VaultError::ConditionsNotMet)
    );
    assert_eq!(
        VaultDAO::execute_proposal(&mut env, MEMBER, id, &seen(vec![nothing()])),
        Err(VaultError::ProposalNotApproved)
    );
    assert_eq!(
        VaultDAO::execute_proposal(&mut env, MEMBER, id, &seen(vec![quote(7, 80)])),
        Ok(())
    );
}

#[test]
fn dates_and_low_prices_are_conditions_too() {
    let mut env = vault();
    let oracle = VaultOracleConfig { address: VAULT, max_staleness: 20 };
    VaultDAO::update_oracle_config(&mut env, ADMIN, oracle).unwrap();
    let conditions = vec![Condition::DateBefore(101), Condition::PriceBelow(TOKEN, 5)];
    let id = propose_with(&mut env, 10, conditions, ConditionLogic::And, 0);
    approve(&mut env, id);
    let cheap = Observation {
        balance: 0,
        price: Some(VaultPriceData { price: 5, timestamp: 100 }),
    };
    let dear = Observation {
        balance: 0,
        price: Some(VaultPriceData { price: 6, timestamp: 100 }),
    };
    assert_eq!(
        VaultDAO::execute_proposal(&mut env, MEMBER, id, &seen(vec![nothing(), dear])),
        Err(VaultError::ProposalNotApproved)
    );
    assert_eq!(
        VaultDAO::execute_proposal(&mut env, MEMBER, id, &seen(vec![nothing(), cheap])),
        Ok(())
    );
}

#[test]
fn costs_over_the_limit_fail() {
    let mut env = vault();
    let rules = GasConfig {
        enabled: true,
        default_gas_limit: 100,
        base_cost: 60,
        condition_cost: 20,
    };
    VaultDAO::set_gas_config(&mut env, ADMIN, rules).unwrap();
    let id = approved(&mut env, 10);
    assert_eq!(VaultDAO::execute_proposal(&mut env, MEMBER, id, &paid(10)), Ok(()));
    assert_eq!(VaultDAO::get_proposal(&env, id).unwrap().gas_used, 80);
    let conditions = vec![Condition::DateAfter(0), Condition::DateAfter(0)];
    let id = propose_with(&mut env, 10, conditions, ConditionLogic::And, 0);
    approve(&mut env, id);
    assert_eq!(
        VaultDAO::execute_proposal(&mut env, MEMBER, id, &seen(vec![nothing(), nothing()])),
        Err(VaultError::ExceedsProposalLimit)
    );
    assert_eq!(
        env.actions.last(),
        Some(&Action::Publish(Event::GasLimitExceeded { proposal_id: id, used: 120, limit: 100 }))
    );
}

#[test]
fn insurance_and_stake_come_back() {
    let mut env = vault();
    let mut rules = StakingConfig::default();
    rules.enabled = true;
    rules.base_stake_bps = 1_000;
    rules.max_stake_amount = 100;
    VaultDAO::update_staking_config(&mut env, ADMIN, rules).unwrap();
    let id = propose_with(&mut env, 200, vec![], ConditionLogic::And, 15);
    approve(&mut env, id);
    assert_eq!(
        VaultDAO::execute_proposal(&mut env, MEMBER, id, &paid(214)),
        Err(VaultError::InsufficientBalance)
    );
    VaultDAO::execute_proposal(&mut env, MEMBER, id, &paid(215)).unwrap();
    assert!(env
        .actions
        .contains(&Action::Transfer { token: TOKEN, to: TREASURER, amount: 15 }));
    assert!(env
        .actions
        .contains(&Action::Transfer { token: TOKEN, to: TREASURER, amount: 20 }));
    assert!(VaultDAO::get_stake_record(&mut env, id).unwrap().refunded);
}

#[test]
fn fees_are_taken_off_the_transfer() {
    let mut env = vault();
    let fees = FeeStructure {
        enabled: true,
        base_fee_bps: 100,
        tiers: vec![FeeTier { min_volume: 500, fee_bps: 50 }],
        reputation_discount_threshold: 900,
        reputation_discount_percentage: 20,
        treasury: OTHER_SIGNER,
    };
    VaultDAO::set_fee_structure(&mut env, ADMIN, fees).unwrap();
    let id = approved(&mut env, 800);
    VaultDAO::execute_proposal(&mut env, MEMBER, id, &paid(808)).unwrap();
    assert!(env
        .actions
        .contains(&Action::Transfer { token: TOKEN, to: OTHER_SIGNER, amount: 8 }));
    assert!(env.actions.contains(&Action::TriedTransfer {
        token: TOKEN,
        to: RECIPIENT,
        amount: 792,
        done: true,
    }));
    assert_eq!(VaultDAO::get_fees_collected(&env, TOKEN), 8);
    assert_eq!(VaultDAO::get_user_volume(&env, TREASURER, TOKEN), 800);
    let calc = VaultDAO::calculate_fee(&env, TREASURER, TOKEN, 1_000);
    assert_eq!((calc.base_fee, calc.final_fee, calc.fee_bps), (5, 5, 50));
}

#[test]
fn hooks_are_called_around_an_execution() {
    let mut env = vault();
    let before = Address { contract: true, hi: 0, lo: 50 };
    let after = Address { contract: true, hi: 0, lo: 51 };
    VaultDAO::register_pre_hook(&mut env, ADMIN, before).unwrap();
    VaultDAO::register_post_hook(&mut env, ADMIN, after).unwrap();
    let id = approved(&mut env, 10);
    env.actions.clear();
    VaultDAO::execute_proposal(&mut env, MEMBER, id, &paid(10)).unwrap();
    let place = |wanted: &Action| env.actions.iter().position(|a| a == wanted).unwrap();
    let pre = place(&Action::CallHook { hook: before, proposal_id: id, is_pre: true });
    let pay = place(&Action::TriedTransfer {
        token: TOKEN,
        to: RECIPIENT,
        amount: 10,
        done: true,
    });
    let post = place(&Action::CallHook { hook: after, proposal_id: id, is_pre: false });
    assert!(pre < pay && pay < post);
}

#[test]
fn withdrawn_approvals_of_the_quorum_block_execution() {
    let mut env = vault();
    let id = approved(&mut env, 10);
    VaultDAO::update_quorum(&mut env, ADMIN, 3).unwrap();
    assert_eq!(
        VaultDAO::execute_proposal(&mut env, MEMBER, id, &paid(10)),
        Err(VaultError::QuorumNotReached)
    );
    VaultDAO::update_quorum(&mut env, ADMIN, 2).unwrap();
    assert_eq!(VaultDAO::execute_proposal(&mut env, MEMBER, id, &paid(10)), Ok(()));
}

#[test]
fn no_more_than_a_batch_is_executed_in_one_call() {
    let mut env = vault();
    let answers = vec![paid(0), paid(0), paid(0), paid(0), paid(0), paid(0)];
    let half = VaultDAO::batch_execute_proposals(&mut env, MEMBER, vec![9; 6], &answers);
    assert_eq!(half, Ok((vec![], 6)));
    let more = (0..11).map(|_| paid(0)).collect();
    let whole = VaultDAO::batch_execute_proposals(&mut env, MEMBER, vec![9; 11], &more);
    assert_eq!(whole, Err(VaultError::BatchTooLarge));
}

#[test]
fn several_proposals_are_executed_in_one_call() {
    let mut env = vault();
    let first = approved(&mut env, 10);
    let second = propose_with(&mut env, 20, vec![], ConditionLogic::And, 0);
    let third = approved(&mut env, 30);
    let answers = vec![paid(10), paid(20), paid(30)];
    assert_eq!(
        VaultDAO::batch_execute_proposals(&mut env, MEMBER, vec![first, second, third], &answers),
        Ok((vec![first, third], 1))
    );
    assert_eq!(status(&env, first), ProposalStatus::Executed);
    assert_eq!(status(&env, second), ProposalStatus::Pending);
    assert_eq!(
        env.actions.last(),
        Some(&Action::Publish(Event::BatchExecuted { executor: MEMBER, executed: 2, failed: 1 }))
    );
}

#[test]
fn a_repeated_proposal_is_executed_and_reported_once() {
    let mut env = vault();
    let first = approved(&mut env, 10);
    let second = approved(&mut env, 20);
    let ids = vec![second, first, second];
    let answers = vec![paid(20), paid(10), paid(20)];
    assert_eq!(
        VaultDAO::batch_execute_proposals(&mut env, MEMBER, ids, &answers),
        Ok((vec![second, first], 1))
    );
    assert_eq!(status(&env, first), ProposalStatus::Executed);
    assert_eq!(status(&env, second), ProposalStatus::Executed);
}

#[test]
fn a_fee_has_to_fit_only_where_it_is_collected() {
    let mut env = vault();
    let fees = |percentage: u32| FeeStructure {
        enabled: true,
        base_fee_bps: 100,
        tiers: vec![],
        reputation_discount_threshold: 0,
        reputation_discount_percentage: percentage,
        treasury: OTHER_SIGNER,
    };
    let id = approved(&mut env, 800);
    vault_dao::storage::set_fees_collected(&mut env, &TOKEN, i128::MAX - 7);
    VaultDAO::set_fee_structure(&mut env, ADMIN, fees(0)).unwrap();
    assert!(!env.execute_fits(MEMBER, id, &paid(900)));
    assert!(env.execute_fits(MEMBER, 99, &paid(900)));
    VaultDAO::set_fee_structure(&mut env, ADMIN, fees(25)).unwrap();
    assert!(env.execute_fits(MEMBER, id, &paid(900)));
    VaultDAO::execute_proposal(&mut env, MEMBER, id, &paid(900)).unwrap();
    assert_eq!(VaultDAO::get_fees_collected(&env, TOKEN), i128::MAX - 1);
}

#[test]
fn a_fee_has_to_fit_only_where_conditions_are_met() {
    let mut env = vault();
    let fees = FeeStructure {
        enabled: true,
        base_fee_bps: 100,
        tiers: vec![],
        reputation_discount_threshold: 1_001,
        reputation_discount_percentage: 0,
        treasury: OTHER_SIGNER,
    };
    VaultDAO::set_fee_structure(&mut env, ADMIN, fees).unwrap();
    vault_dao::storage::set_fees_collected(&mut env, &TOKEN, i128::MAX);
    let conditions = vec![Condition::BalanceAbove(50)];
    let id = propose_with(&mut env, 100, conditions, ConditionLogic::And, 0);
    approve(&mut env, id);
    let rich = seen(vec![Observation { balance: 51, price: None }]);
    assert!(!env.execute_fits(MEMBER, id, &rich));
    let poor = seen(vec![nothing()]);
    assert!(env.execute_fits(MEMBER, id, &poor));
    assert_eq!(
        VaultDAO::execute_proposal(&mut env, MEMBER, id, &poor),
        Err(VaultError::ProposalNotApproved)
    );
}

#[test]
fn expired_proposals_of_a_call_are_marked() {
    let mut env = vault();
    let id = approved(&mut env, 10);
    env.ledger.sequence = 130_000;
    assert_eq!(
        VaultDAO::batch_execute_proposals(&mut env, MEMBER, vec![id], &vec![paid(10)]),
        Ok((vec![], 1))
    );
    assert_eq!(status(&env, id), ProposalStatus::Expired);
}

#[test]
fn a_recorded_batch_is_executed_as_a_whole() {
    let mut env = vault();
    let details = |amount: i128| vault_dao::types::TransferDetails {
        recipient: RECIPIENT,
        token: TOKEN,
        amount,
        memo: Symbol::empty(),
    };
    let ids = VaultDAO::batch_propose_transfers(
        &mut env,
        TREASURER,
        vec![details(10), details(20)],
        Priority::Normal,
        vec![],
        ConditionLogic::And,
        0,
    )
    .unwrap();
    for id in &ids {
        approve(&mut env, *id);
    }
    assert_eq!(
        VaultDAO::execute_proposal_batch(&mut env, MEMBER, 1, &vec![true, true]),
        Ok(())
    );
    assert_eq!(status(&env, ids[1]), ProposalStatus::Executed);
    assert_eq!(
        VaultDAO::execute_proposal_batch(&mut env, MEMBER, 1, &vec![true, true]),
        Err(VaultError::InvalidAmount)
    );
}

#[test]
fn a_recorded_batch_that_fails_is_rolled_back() {
    let mut env = vault();
    let details = |amount: i128| vault_dao::types::TransferDetails {
        recipient: RECIPIENT,
        token: TOKEN,
        amount,
        memo: Symbol::empty(),
    };
    let ids = VaultDAO::batch_propose_transfers(
        &mut env,
        TREASURER,
        vec![details(10), details(20)],
        Priority::Normal,
        vec![],
        ConditionLogic::And,
        0,
    )
    .unwrap();
    for id in &ids {
        approve(&mut env, *id);
    }
    assert_eq!(
        VaultDAO::execute_proposal_batch(&mut env, MEMBER, 1, &vec![true, false]),
        Ok(())
    );
    assert_eq!(status(&env, ids[0]), ProposalStatus::Pending);
    assert_eq!(status(&env, ids[1]), ProposalStatus::Approved);
    assert!(env
        .actions
        .contains(&Action::TakeBack { token: TOKEN, from: RECIPIENT, amount: 10 }));
    let batch = env.programs.proposal_batches.fetch(&1).unwrap();
    assert_eq!(batch.status, vault_dao::types::BatchStatus::RolledBack);
    assert_eq!((batch.executed_count, batch.failed_count), (1, 1));
}

#[test]
fn an_executed_transfer_is_reversed_by_an_admin() {
    let mut env = vault();
    let id = approved(&mut env, 100);
    VaultDAO::execute_proposal(&mut env, MEMBER, id, &paid(100)).unwrap();
    assert_eq!(
        VaultDAO::rollback_execution(&mut env, MEMBER, id),
        Err(VaultError::InsufficientRole)
    );
    assert_eq!(VaultDAO::rollback_execution(&mut env, ADMIN, id), Ok(()));
    assert_eq!(
        env.actions.last(),
        Some(&Action::TransferToVault { token: TOKEN, from: RECIPIENT, amount: 100 })
    );
    assert_eq!(
        VaultDAO::rollback_execution(&mut env, ADMIN, id),
        Err(VaultError::ProposalNotFound)
    );
}
