use vault_dao::env::{Action, Env, Event, Ledger};
use vault_dao::errors::VaultError;
use vault_dao::primitives::{Address, Symbol, BATCH_HALF};
use vault_dao::types::{
    Condition, ConditionLogic, GasConfig, InitConfig, InsuranceConfig, ListMode, Priority,
    ProposalStatus, RecoveryConfig, RetryConfig, Role, StakingConfig, ThresholdStrategy,
    TransferDetails, VelocityConfig,
};
use vault_dao::VaultDAO;

const ADMIN: Address = Address { contract: false, hi: 0, lo: 1 };
const SIGNER: Address = Address { contract: false, hi: 0, lo: 2 };
const OTHER_SIGNER: Address = Address { contract: false, hi: 0, lo: 3 };
const TREASURER: Address = Address { contract: false, hi: 0, lo: 4 };
const MEMBER: Address = Address { contract: false, hi: 0, lo: 5 };
const RECIPIENT: Address = Address { contract: false, hi: 0, lo: 6 };
const TOKEN: Address = Address { contract: true, hi: 0, lo: 7 };
const VAULT: Address = Address { contract: true, hi: 0, lo: 8 };

fn init_config() -> InitConfig {
    InitConfig {
        signers: vec![ADMIN, SIGNER, OTHER_SIGNER],
        threshold: 2,
        quorum: 0,
        quorum_percentage: 0,
        spending_limit: 1_000,
        daily_limit: 5_000,
        weekly_limit: 10_000,
        timelock_threshold: 900,
        timelock_delay: 200,
        velocity_limit: VelocityConfig { limit: 100, window: 3_600 },
        threshold_strategy: ThresholdStrategy::Fixed,
        pre_execution_hooks: vec![],
        post_execution_hooks: vec![],
        default_voting_deadline: 0,
        veto_addresses: vec![],
        retry_config: RetryConfig {
            enabled: false,
            max_retries: 0,
            initial_backoff_ledgers: 0,
        },
        recovery_config: RecoveryConfig { guardians: vec![], threshold: 0, delay: 0 },
        staking_config: StakingConfig::default(),
    }
}

/// A vault with three signers, two of whom have to approve, and everyone's authorization.
fn vault_with(init: InitConfig) -> Env {
    let mut env = Env::new(Ledger { sequence: 100, timestamp: 1_000_000, contract: VAULT });
    for who in [ADMIN, SIGNER, OTHER_SIGNER, TREASURER, MEMBER, RECIPIENT] {
        env.authorize(who);
    }
    assert_eq!(VaultDAO::initialize(&mut env, ADMIN, init), Ok(()));
    assert_eq!(VaultDAO::set_role(&mut env, ADMIN, TREASURER, Role::Treasurer), Ok(()));
    env
}

fn vault() -> Env {
    vault_with(init_config())
}

fn propose_as(env: &mut Env, proposer: Address, amount: i128, insurance: i128) -> Result<u64, VaultError> {
    VaultDAO::propose_transfer(
        env,
        proposer,
        RECIPIENT,
        TOKEN,
        amount,
        Symbol::empty(),
        Priority::Normal,
        vec![],
        ConditionLogic::And,
        insurance,
    )
}

fn propose(env: &mut Env, amount: i128) -> Result<u64, VaultError> {
    propose_as(env, TREASURER, amount, 0)
}

fn propose_scheduled(env: &mut Env, amount: i128, time: u64) -> Result<u64, VaultError> {
    VaultDAO::propose_scheduled_transfer(
        env,
        TREASURER,
        RECIPIENT,
        TOKEN,
        amount,
        Symbol::empty(),
        Priority::Normal,
        vec![],
        ConditionLogic::And,
        0,
        time,
    )
}

fn propose_after(env: &mut Env, depends_on: Vec<u64>) -> Result<u64, VaultError> {
    VaultDAO::propose_transfer_with_deps(
        env,
        TREASURER,
        RECIPIENT,
        TOKEN,
        10,
        Symbol::empty(),
        Priority::Normal,
        vec![],
        ConditionLogic::And,
        0,
        depends_on,
    )
}

fn details(amount: i128) -> TransferDetails {
    TransferDetails { recipient: RECIPIENT, token: TOKEN, amount, memo: Symbol::short(9) }
}

fn propose_batch(env: &mut Env, amounts: Vec<i128>, insurance: i128) -> Result<Vec<u64>, VaultError> {
    VaultDAO::batch_propose_transfers(
        env,
        TREASURER,
        amounts.into_iter().map(details).collect(),
        Priority::Low,
        vec![],
        ConditionLogic::And,
        insurance,
    )
}

fn trust(env: &mut Env, who: Address, score: u32) {
    let mut rep = VaultDAO::get_reputation(env, who);
    rep.score = score;
    env.members.reputation.insert(who, rep);
}

#[test]
fn a_proposal_is_stored_and_queued() {
    let mut env = vault();
    let id = propose(&mut env, 500).unwrap();
    assert_eq!(id, 1);
    let proposal = VaultDAO::get_proposal(&env, id).unwrap();
    assert_eq!(proposal.proposer, TREASURER);
    assert_eq!(proposal.amount, 500);
    assert_eq!(proposal.status, ProposalStatus::Pending);
    assert_eq!(proposal.created_at, 100);
    assert_eq!(proposal.expires_at, 100 + 120_960);
    assert_eq!(proposal.unlock_ledger, 0);
    assert_eq!(proposal.snapshot_signers, vec![ADMIN, SIGNER, OTHER_SIGNER]);
    assert_eq!(VaultDAO::get_proposals_by_priority(&env, Priority::Normal), vec![1]);
    assert_eq!(VaultDAO::get_metrics(&env).total_proposals, 1);
    assert!(env.actions.contains(&Action::Publish(Event::ProposalCreated {
        proposal_id: 1,
        proposer: TREASURER,
        recipient: RECIPIENT,
        token: TOKEN,
        amount: 500,
        insurance: 0,
    })));
    assert_eq!(propose(&mut env, 1), Ok(2));
}

#[test]
fn members_may_not_propose() {
    let mut env = vault();
    assert_eq!(propose_as(&mut env, MEMBER, 10, 0), Err(VaultError::InsufficientRole));
    assert_eq!(propose_as(&mut env, SIGNER, 10, 0), Err(VaultError::InsufficientRole));
    assert_eq!(propose_as(&mut env, ADMIN, 10, 0), Ok(1));
}

#[test]
fn amounts_are_positive_and_within_the_proposal_limit() {
    let mut env = vault();
    assert_eq!(propose(&mut env, 0), Err(VaultError::InvalidAmount));
    assert_eq!(propose(&mut env, -5), Err(VaultError::InvalidAmount));
    assert_eq!(propose(&mut env, 1_001), Err(VaultError::ExceedsProposalLimit));
    assert_eq!(propose(&mut env, 1_000), Ok(1));
}

#[test]
fn the_day_and_the_week_have_limits() {
    let mut env = vault();
    for _ in 0..5 {
        propose(&mut env, 1_000).unwrap();
    }
    assert_eq!(propose(&mut env, 1), Err(VaultError::ExceedsDailyLimit));
    env.ledger.timestamp += 86_400;
    for _ in 0..5 {
        propose(&mut env, 1_000).unwrap();
    }
    env.ledger.timestamp += 86_400;
    let week = env.ledger.timestamp / 604_800;
    if week == 1_000_000 / 604_800 {
        assert_eq!(propose(&mut env, 1), Err(VaultError::ExceedsWeeklyLimit));
    }
    env.ledger.timestamp += 604_800;
    assert_eq!(propose(&mut env, 1_000), Ok(11));
}

#[test]
fn good_reputation_raises_the_limits() {
    let mut env = vault();
    trust(&mut env, TREASURER, 800);
    assert_eq!(propose(&mut env, 2_000), Ok(1));
    assert_eq!(propose(&mut env, 2_001), Err(VaultError::ExceedsProposalLimit));
    trust(&mut env, TREASURER, 900);
    assert_eq!(propose(&mut env, 3_000), Ok(2));
    assert_eq!(propose(&mut env, 2_501), Err(VaultError::ExceedsDailyLimit));
    assert_eq!(propose(&mut env, 2_500), Ok(3));
}

#[test]
fn the_velocity_limit_counts_within_its_window() {
    let mut init = init_config();
    init.velocity_limit = VelocityConfig { limit: 2, window: 60 };
    let mut env = vault_with(init);
    assert_eq!(propose(&mut env, 1), Ok(1));
    env.ledger.timestamp += 30;
    assert_eq!(propose(&mut env, 1), Ok(2));
    assert_eq!(propose(&mut env, 1), Err(VaultError::VelocityLimitExceeded));
    env.ledger.timestamp += 30;
    assert_eq!(propose(&mut env, 1), Ok(3));
}

#[test]
fn lists_of_recipients_are_respected() {
    let mut env = vault();
    VaultDAO::set_list_mode(&mut env, ADMIN, ListMode::Whitelist).unwrap();
    assert_eq!(propose(&mut env, 1), Err(VaultError::RecipientNotWhitelisted));
    VaultDAO::add_to_whitelist(&mut env, ADMIN, RECIPIENT).unwrap();
    assert_eq!(propose(&mut env, 1), Ok(1));
    VaultDAO::set_list_mode(&mut env, ADMIN, ListMode::Blacklist).unwrap();
    assert_eq!(propose(&mut env, 1), Ok(2));
    VaultDAO::add_to_blacklist(&mut env, ADMIN, RECIPIENT).unwrap();
    assert_eq!(propose(&mut env, 1), Err(VaultError::RecipientBlacklisted));
    VaultDAO::set_list_mode(&mut env, ADMIN, ListMode::Disabled).unwrap();
    assert_eq!(propose(&mut env, 1), Ok(3));
}

#[test]
fn insurance_is_demanded_and_collected() {
    let mut env = vault();
    let rules = InsuranceConfig {
        enabled: true,
        min_amount: 100,
        min_insurance_bps: 500,
        slash_percentage: 50,
    };
    VaultDAO::set_insurance_config(&mut env, ADMIN, rules).unwrap();
    assert_eq!(propose_as(&mut env, TREASURER, 99, 0), Ok(1));
    assert_eq!(
        propose_as(&mut env, TREASURER, 1_000, 49),
        Err(VaultError::InsuranceInsufficient)
    );
    assert_eq!(propose_as(&mut env, TREASURER, 1_000, 50), Ok(2));
    assert!(env
        .actions
        .contains(&Action::TransferToVault { token: TOKEN, from: TREASURER, amount: 50 }));
    assert_eq!(VaultDAO::get_proposal(&env, 2).unwrap().insurance_amount, 50);
    trust(&mut env, TREASURER, 750);
    assert_eq!(
        propose_as(&mut env, TREASURER, 1_000, 24),
        Err(VaultError::InsuranceInsufficient)
    );
    assert_eq!(propose_as(&mut env, TREASURER, 1_000, 25), Ok(3));
}

#[test]
fn negative_insurance_is_none() {
    let mut env = vault();
    let id = propose_as(&mut env, TREASURER, 10, -7).unwrap();
    assert_eq!(VaultDAO::get_proposal(&env, id).unwrap().insurance_amount, 0);
}

#[test]
fn stakes_are_a_capped_share() {
    let mut init = init_config();
    init.staking_config = StakingConfig {
        enabled: true,
        min_amount: 100,
        base_stake_bps: 1_000,
        max_stake_amount: 80,
        reputation_discount_threshold: 700,
        reputation_discount_percentage: 50,
        slash_percentage: 50,
    };
    let rules = init.staking_config;
    let mut env = vault_with(init);
    VaultDAO::update_staking_config(&mut env, ADMIN, rules).unwrap();
    let id = propose(&mut env, 500).unwrap();
    assert_eq!(VaultDAO::get_proposal(&env, id).unwrap().stake_amount, 50);
    let record = VaultDAO::get_stake_record(&mut env, id).unwrap();
    assert_eq!((record.amount, record.refunded, record.slashed), (50, false, false));
    let id = propose(&mut env, 1_000).unwrap();
    assert_eq!(VaultDAO::get_proposal(&env, id).unwrap().stake_amount, 80);
    let id = propose(&mut env, 99).unwrap();
    assert_eq!(VaultDAO::get_proposal(&env, id).unwrap().stake_amount, 0);
    trust(&mut env, TREASURER, 700);
    let id = propose(&mut env, 500).unwrap();
    assert_eq!(VaultDAO::get_proposal(&env, id).unwrap().stake_amount, 25);
}

#[test]
fn amounts_from_the_threshold_on_are_locked() {
    let mut env = vault();
    let below = propose(&mut env, 899).unwrap();
    let at = propose(&mut env, 900).unwrap();
    assert_eq!(VaultDAO::get_proposal(&env, below).unwrap().unlock_ledger, 0);
    assert_eq!(VaultDAO::get_proposal(&env, at).unwrap().unlock_ledger, 300);
}

#[test]
fn scheduled_executions_lie_ahead_of_the_timelock() {
    let mut env = vault();
    assert_eq!(propose_scheduled(&mut env, 10, 100), Err(VaultError::TimelockNotExpired));
    assert_eq!(propose_scheduled(&mut env, 900, 299), Err(VaultError::TimelockNotExpired));
    let id = propose_scheduled(&mut env, 900, 300).unwrap();
    assert_eq!(VaultDAO::get_proposal(&env, id).unwrap().execution_time, Some(300));
    assert_eq!(VaultDAO::validate_execution_time(5, 4, 5), Ok(()));
    assert_eq!(
        VaultDAO::validate_execution_time(4, 4, 0),
        Err(VaultError::TimelockNotExpired)
    );
}

#[test]
fn dependencies_exist_and_are_not_circular() {
    let mut env = vault();
    let first = propose(&mut env, 10).unwrap();
    assert_eq!(propose_after(&mut env, vec![first]), Ok(2));
    assert_eq!(propose_after(&mut env, vec![77]), Err(VaultError::ProposalNotFound));
    let next = env.proposals.next_id;
    assert_eq!(propose_after(&mut env, vec![next]), Err(VaultError::CircularDependency));
}

#[test]
fn dependencies_that_lead_back_are_circular() {
    let mut env = vault();
    let first = propose(&mut env, 10).unwrap();
    let second = propose_after(&mut env, vec![first]).unwrap();
    assert_eq!(
        VaultDAO::validate_dependencies(&env, first, &vec![second]),
        Err(VaultError::CircularDependency)
    );
    assert_eq!(VaultDAO::validate_dependencies(&env, 9, &vec![second]), Ok(()));
    assert_eq!(
        VaultDAO::validate_dependencies(&env, 9, &vec![second, second]),
        Err(VaultError::CircularDependency)
    );
}

#[test]
fn estimated_costs_count_the_steps() {
    let mut env = vault();
    let rules = GasConfig {
        enabled: true,
        default_gas_limit: 9_000,
        base_cost: 100,
        condition_cost: 30,
    };
    VaultDAO::set_gas_config(&mut env, ADMIN, rules).unwrap();
    let id = VaultDAO::propose_transfer(
        &mut env,
        TREASURER,
        RECIPIENT,
        TOKEN,
        10,
        Symbol::empty(),
        Priority::High,
        vec![Condition::DateAfter(1), Condition::BalanceAbove(5)],
        ConditionLogic::Or,
        3,
    )
    .unwrap();
    let estimate = VaultDAO::get_execution_fee_estimate(&env, id).unwrap();
    assert_eq!(estimate.operation_count, 4);
    assert_eq!(estimate.resource_fee, 120);
    assert_eq!(estimate.total_fee, 220);
    assert_eq!(VaultDAO::get_proposal(&env, id).unwrap().gas_limit, 9_000);
    assert_eq!(VaultDAO::estimate_execution_fee(&mut env, id), Ok(estimate));
    assert_eq!(
        VaultDAO::estimate_execution_fee(&mut env, 50),
        Err(VaultError::ProposalNotFound)
    );
}

#[test]
fn batches_of_proposals_share_their_insurance() {
    let mut env = vault();
    let ids = propose_batch(&mut env, vec![100, 200, 300], 10).unwrap();
    assert_eq!(ids, vec![1, 2, 3]);
    for (id, share) in ids.into_iter().zip([3, 3, 4]) {
        let proposal = VaultDAO::get_proposal(&env, id).unwrap();
        assert_eq!(proposal.insurance_amount, share);
        assert_eq!(proposal.expires_at, 100 + 2 * 120_960);
        assert_eq!(proposal.memo, Symbol::short(BATCH_HALF));
    }
    assert_eq!(VaultDAO::get_today_spent(&env), 600);
    assert!(env
        .actions
        .contains(&Action::TransferToVault { token: TOKEN, from: TREASURER, amount: 10 }));
    let batch = env.programs.proposal_batches.fetch(&1).unwrap();
    assert_eq!(batch.proposal_ids, vec![1, 2, 3]);
}

#[test]
fn batches_of_proposals_are_limited() {
    let mut env = vault();
    assert_eq!(propose_batch(&mut env, vec![1; 11], 0), Err(VaultError::BatchTooLarge));
    assert_eq!(propose_batch(&mut env, vec![1, 0], 0), Err(VaultError::InvalidAmount));
    assert_eq!(
        propose_batch(&mut env, vec![1, 1_001], 0),
        Err(VaultError::ExceedsProposalLimit)
    );
    assert_eq!(
        propose_batch(&mut env, vec![1_000; 6], 0),
        Err(VaultError::ExceedsDailyLimit)
    );
    assert_eq!(propose_batch(&mut env, vec![1; 10], 0).unwrap().len(), 10);
}

#[test]
fn expirations_follow_deadline_and_priority() {
    let mut env = vault();
    let config = VaultDAO::get_config(&mut env).unwrap();
    let expiry = |p: Priority| {
        vault_dao::proposals::calculate_expiration_ledger(&config, &p, 1_000)
    };
    assert_eq!(expiry(Priority::Low), 1_000 + 241_920);
    assert_eq!(expiry(Priority::Normal), 121_960);
    assert_eq!(expiry(Priority::High), 121_960);
    assert_eq!(expiry(Priority::Critical), 121_960);
    let mut init = init_config();
    init.default_voting_deadline = 200_000;
    let mut env = vault_with(init);
    let config = VaultDAO::get_config(&mut env).unwrap();
    assert_eq!(
        vault_dao::proposals::calculate_expiration_ledger(&config, &Priority::Normal, 5),
        200_005
    );
    let id = propose(&mut env, 5).unwrap();
    assert_eq!(VaultDAO::get_proposal(&env, id).unwrap().voting_deadline, 200_100);
}
