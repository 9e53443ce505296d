use vault_dao::env::{Action, Env, Ledger};
use vault_dao::errors::VaultError;
use vault_dao::primitives::{Address, Symbol};
use vault_dao::types::{
    ConditionLogic, ExecutionAnswers, InitConfig, InsuranceConfig, ListMode, Milestone, Priority,
    ProposalStatus, RecoveryConfig, RetryConfig, Role, StakingConfig, SubscriptionTier,
    ThresholdStrategy, TransferDetails, VelocityConfig,
};
use vault_dao::voting::Vote;
use vault_dao::VaultDAO;

const ADMIN: Address = Address { contract: false, hi: 0, lo: 1 };
const SIGNER: Address = Address { contract: false, hi: 0, lo: 2 };
const OTHER_SIGNER: Address = Address { contract: false, hi: 0, lo: 3 };
const TREASURER: Address = Address { contract: false, hi: 0, lo: 4 };
const MEMBER: Address = Address { contract: false, hi: 0, lo: 5 };
const RECIPIENT: Address = Address { contract: false, hi: 0, lo: 6 };
const TOKEN: Address = Address { contract: true, hi: 0, lo: 7 };
const VAULT: Address = Address { contract: true, hi: 0, lo: 8 };

fn init_config() -> InitConfig {
    InitConfig {
        signers: vec![ADMIN, SIGNER, OTHER_SIGNER],
        threshold: 2,
        quorum: 0,
        quorum_percentage: 0,
        spending_limit: 1_000,
        daily_limit: 5_000,
        weekly_limit: 10_000,
        timelock_threshold: 900,
        timelock_delay: 200,
        velocity_limit: VelocityConfig { limit: 100, window: 3_600 },
        threshold_strategy: ThresholdStrategy::Fixed,
        pre_execution_hooks: vec![],
        post_execution_hooks: vec![],
        default_voting_deadline: 0,
        veto_addresses: vec![],
        retry_config: RetryConfig {
            enabled: false,
            max_retries: 0,
            initial_backoff_ledgers: 0,
        },
        recovery_config: RecoveryConfig { guardians: vec![], threshold: 0, delay: 0 },
        staking_config: StakingConfig::default(),
    }
}

/// A vault with three signers, two of whom have to approve, and everyone's authorization.
fn vault_with(init: InitConfig) -> Env {
    let mut env = Env::new(Ledger { sequence: 100, timestamp: 1_000_000, contract: VAULT });
    for who in [ADMIN, SIGNER, OTHER_SIGNER, TREASURER, MEMBER, RECIPIENT] {
        env.authorize(who);
    }
    assert_eq!(VaultDAO::initialize(&mut env, ADMIN, init), Ok(()));
    assert_eq!(VaultDAO::set_role(&mut env, ADMIN, TREASURER, Role::Treasurer), Ok(()));
    env
}

fn vault() -> Env {
    vault_with(init_config())
}

fn propose(env: &mut Env, amount: i128) -> Result<u64, VaultError> {
    assert!(env.propose_fits(TREASURER, amount, 0));
    VaultDAO::propose_transfer(
        env,
        TREASURER,
        RECIPIENT,
        TOKEN,
        amount,
        Symbol::empty(),
        Priority::Normal,
        vec![],
        ConditionLogic::And,
        0,
    )
}

fn answers() -> ExecutionAnswers {
    ExecutionAnswers { observations: vec![], balance: 1_000_000, transferred: true }
}

fn vetoed() -> (Env, u64) {
    let mut init = init_config();
    init.veto_addresses = vec![MEMBER];
    let mut env = vault_with(init);
    let id = propose(&mut env, 100).unwrap();
    VaultDAO::approve_proposal(&mut env, ADMIN, id).unwrap();
    VaultDAO::approve_proposal(&mut env, SIGNER, id).unwrap();
    VaultDAO::veto_proposal(&mut env, MEMBER, id).unwrap();
    (env, id)
}

#[test]
fn vetoed_proposals_are_blocked() {
    let (mut env, id) = vetoed();
    assert_eq!(VaultDAO::get_proposal(&env, id).unwrap().status, ProposalStatus::Vetoed);
    assert_eq!(VaultDAO::get_proposals_by_priority(&env, Priority::Normal), Vec::<u64>::new());
    assert_eq!(VaultDAO::get_today_spent(&env), 0);
    assert_eq!(
        VaultDAO::execute_proposal(&mut env, SIGNER, id, &answers()),
        Err(VaultError::ProposalNotApproved)
    );
}

#[test]
fn closed_proposals_stay_closed() {
    let (mut env, id) = vetoed();
    assert_eq!(
        VaultDAO::approve_proposal(&mut env, OTHER_SIGNER, id),
        Err(VaultError::ProposalNotPending)
    );
    assert_eq!(
        VaultDAO::abstain_proposal(&mut env, OTHER_SIGNER, id),
        Err(VaultError::ProposalNotPending)
    );
    assert_eq!(
        VaultDAO::cancel_proposal(&mut env, TREASURER, id, Symbol::empty()),
        Err(VaultError::ProposalNotPending)
    );
    assert_eq!(
        VaultDAO::amend_proposal(&mut env, TREASURER, id, MEMBER, 5, Symbol::empty()),
        Err(VaultError::ProposalNotPending)
    );
    assert_eq!(
        VaultDAO::change_priority(&mut env, TREASURER, id, Priority::High),
        Err(VaultError::ProposalNotPending)
    );
    assert_eq!(VaultDAO::veto_proposal(&mut env, MEMBER, id), Ok(()));
    assert_eq!(VaultDAO::get_proposal(&env, id).unwrap().status, ProposalStatus::Vetoed);
}

#[test]
fn recipients_are_screened() {
    let mut env = vault();
    VaultDAO::set_list_mode(&mut env, ADMIN, ListMode::Whitelist).unwrap();
    assert_eq!(propose(&mut env, 10), Err(VaultError::RecipientNotWhitelisted));
    VaultDAO::add_to_whitelist(&mut env, ADMIN, RECIPIENT).unwrap();
    assert_eq!(propose(&mut env, 10), Ok(1));
    VaultDAO::set_list_mode(&mut env, ADMIN, ListMode::Blacklist).unwrap();
    VaultDAO::add_to_blacklist(&mut env, ADMIN, RECIPIENT).unwrap();
    assert_eq!(propose(&mut env, 10), Err(VaultError::RecipientBlacklisted));
}

#[test]
fn returned_stakes_are_settled() {
    let mut env = vault();
    let mut rules = StakingConfig::default();
    rules.enabled = true;
    rules.base_stake_bps = 1_000;
    rules.max_stake_amount = 100;
    VaultDAO::update_staking_config(&mut env, ADMIN, rules).unwrap();
    let id = propose(&mut env, 200).unwrap();
    let proposal = VaultDAO::get_proposal(&env, id).unwrap();
    vault_dao::guarantees::return_stake(&mut env, &proposal);
    vault_dao::guarantees::return_stake(&mut env, &proposal);
    VaultDAO::slash_stake_on_rejection(&mut env, &proposal);
    let paid = Action::Transfer { token: TOKEN, to: TREASURER, amount: 20 };
    assert_eq!(env.actions.iter().filter(|action| **action == paid).count(), 1);
    assert_eq!(VaultDAO::get_stake_pool_balance(&env, TOKEN), 0);
}

#[test]
fn the_largest_amounts_are_refused_by_the_limits() {
    let mut env = vault();
    let rules = InsuranceConfig {
        enabled: true,
        min_amount: 0,
        min_insurance_bps: 500,
        slash_percentage: 10,
    };
    VaultDAO::set_insurance_config(&mut env, ADMIN, rules).unwrap();
    assert_eq!(propose(&mut env, i128::MAX), Err(VaultError::ExceedsProposalLimit));
    let transfer = |amount: i128| TransferDetails {
        recipient: RECIPIENT,
        token: TOKEN,
        amount,
        memo: Symbol::empty(),
    };
    let transfers = vec![transfer(i128::MAX), transfer(i128::MAX)];
    assert!(env.batch_propose_fits(TREASURER, &transfers, Priority::Normal, 0));
    assert_eq!(
        VaultDAO::batch_propose_transfers(
            &mut env,
            TREASURER,
            transfers,
            Priority::Normal,
            vec![],
            ConditionLogic::And,
            0
        ),
        Err(VaultError::ExceedsProposalLimit)
    );
}

#[test]
fn the_longest_delay_locks_only_large_amounts() {
    let mut init = init_config();
    init.timelock_delay = u64::MAX;
    let mut env = vault_with(init);
    assert_eq!(propose(&mut env, 899), Ok(1));
    assert!(env.vote_fits(SIGNER, 1, Vote::Approve));
    assert!(!env.propose_fits(TREASURER, 900, 0));
}

#[test]
fn a_timelock_matters_only_to_the_deciding_vote() {
    let mut env = vault();
    let id = propose(&mut env, 900).unwrap();
    env.access.config.as_mut().unwrap().timelock_delay = u64::MAX;
    assert!(env.vote_fits(ADMIN, id, Vote::Approve));
    assert_eq!(VaultDAO::approve_proposal(&mut env, ADMIN, id), Ok(()));
    assert!(!env.vote_fits(SIGNER, id, Vote::Approve));
    assert!(env.vote_fits(SIGNER, id, Vote::Abstain));
    assert!(env.vote_fits(ADMIN, id, Vote::Approve));
    assert_eq!(
        VaultDAO::approve_proposal(&mut env, ADMIN, id),
        Err(VaultError::AlreadyApproved)
    );
    assert!(env.vote_fits(MEMBER, id, Vote::Approve));
    assert_eq!(
        VaultDAO::approve_proposal(&mut env, MEMBER, id),
        Err(VaultError::NotASigner)
    );
}

#[test]
fn the_longest_durations_are_refused_with_bad_amounts() {
    let mut env = vault();
    let milestones = vec![Milestone {
        id: 1,
        percentage: 100,
        release_ledger: 0,
        is_completed: false,
        completion_ledger: 0,
    }];
    assert!(!env.escrow_creation_fits(5, &milestones, u64::MAX));
    assert!(env.escrow_creation_fits(0, &milestones, u64::MAX));
    assert_eq!(
        VaultDAO::create_escrow(
            &mut env,
            MEMBER,
            RECIPIENT,
            TOKEN,
            0,
            milestones,
            u64::MAX,
            ADMIN
        ),
        Err(VaultError::InvalidAmount)
    );
    assert!(!env.subscription_fits(5, u64::MAX));
    assert!(env.subscription_fits(0, u64::MAX));
    assert_eq!(
        VaultDAO::create_subscription(
            &mut env,
            MEMBER,
            RECIPIENT,
            SubscriptionTier::Basic,
            TOKEN,
            0,
            u64::MAX,
            true
        ),
        Err(VaultError::InvalidAmount)
    );
    assert!(!env.schedule_fits(TREASURER, RECIPIENT, 5, u64::MAX));
    assert!(env.schedule_fits(MEMBER, RECIPIENT, 5, u64::MAX));
    assert_eq!(
        VaultDAO::schedule_payment(
            &mut env,
            MEMBER,
            RECIPIENT,
            TOKEN,
            5,
            Symbol::empty(),
            u64::MAX
        ),
        Err(VaultError::InsufficientRole)
    );
    assert!(!env.stream_creation_fits(TREASURER, RECIPIENT, 1, 5, u64::MAX));
    assert!(env.stream_creation_fits(TREASURER, RECIPIENT, 0, 5, u64::MAX));
}

#[test]
fn batches_of_proposals_keep_the_daily_limit() {
    let mut env = vault();
    let transfer = |amount: i128| TransferDetails {
        recipient: RECIPIENT,
        token: TOKEN,
        amount,
        memo: Symbol::empty(),
    };
    let batch = |env: &mut Env, amounts: Vec<i128>| {
        VaultDAO::batch_propose_transfers(
            env,
            TREASURER,
            amounts.into_iter().map(transfer).collect(),
            Priority::Normal,
            vec![],
            ConditionLogic::And,
            0,
        )
    };
    assert_eq!(batch(&mut env, vec![1_000; 6]), Err(VaultError::ExceedsDailyLimit));
    assert_eq!(batch(&mut env, vec![5, 0]), Err(VaultError::InvalidAmount));
    assert_eq!(batch(&mut env, vec![1_000; 5]), Ok(vec![1, 2, 3, 4, 5]));
    assert_eq!(VaultDAO::get_today_spent(&env), 5_000);
    assert_eq!(batch(&mut env, vec![1]), Err(VaultError::ExceedsDailyLimit));
}
