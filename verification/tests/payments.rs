use vault_dao::env::{Action, Env, Event, Ledger};
use vault_dao::errors::VaultError;
use vault_dao::primitives::{Address, Symbol};
use vault_dao::types::{
    BatchOperation, BatchStatus, EscrowStatus, InitConfig, Milestone, RecoveryConfig, RetryConfig,
    Role, StakingConfig, StreamStatus, SubscriptionStatus, SubscriptionTier, ThresholdStrategy,
    VelocityConfig,
};
use vault_dao::VaultDAO;

const ADMIN: Address = Address { contract: false, hi: 0, lo: 1 };
const SIGNER: Address = Address { contract: false, hi: 0, lo: 2 };
const OTHER_SIGNER: Address = Address { contract: false, hi: 0, lo: 3 };
const TREASURER: Address = Address { contract: false, hi: 0, lo: 4 };
const MEMBER: Address = Address { contract: false, hi: 0, lo: 5 };
const RECIPIENT: Address = Address { contract: false, hi: 0, lo: 6 };
const TOKEN: Address = Address { contract: true, hi: 0, lo: 7 };
const VAULT: Address = Address { contract: true, hi: 0, lo: 8 };

fn init_config() -> InitConfig {
    InitConfig {
        signers: vec![ADMIN, SIGNER, OTHER_SIGNER],
        threshold: 2,
        quorum: 0,
        quorum_percentage: 0,
        spending_limit: 1_000,
        daily_limit: 5_000,
        weekly_limit: 10_000,
        timelock_threshold: 900,
        timelock_delay: 200,
        velocity_limit: VelocityConfig { limit: 100, window: 3_600 },
        threshold_strategy: ThresholdStrategy::Fixed,
        pre_execution_hooks: vec![],
        post_execution_hooks: vec![],
        default_voting_deadline: 0,
        veto_addresses: vec![],
        retry_config: RetryConfig {
            enabled: false,
            max_retries: 0,
            initial_backoff_ledgers: 0,
        },
        recovery_config: RecoveryConfig { guardians: vec![], threshold: 0, delay: 0 },
        staking_config: StakingConfig::default(),
    }
}

/// A vault with three signers, two of whom have to approve, and everyone's authorization.
fn vault_with(init: InitConfig) -> Env {
    let mut env = Env::new(Ledger { sequence: 100, timestamp: 1_000_000, contract: VAULT });
    for who in [ADMIN, SIGNER, OTHER_SIGNER, TREASURER, MEMBER, RECIPIENT] {
        env.authorize(who);
    }
    assert_eq!(VaultDAO::initialize(&mut env, ADMIN, init), Ok(()));
    assert_eq!(VaultDAO::set_role(&mut env, ADMIN, TREASURER, Role::Treasurer), Ok(()));
    env
}

fn vault() -> Env {
    vault_with(init_config())
}

fn schedule(env: &mut Env, amount: i128, interval: u64) -> Result<u64, VaultError> {
    VaultDAO::schedule_payment(
        env,
        TREASURER,
        RECIPIENT,
        TOKEN,
        amount,
        Symbol::empty(),
        interval,
    )
}

fn stream(env: &mut Env, rate: i128, total: i128, seconds: u64) -> Result<u64, VaultError> {
    VaultDAO::create_stream(env, TREASURER, RECIPIENT, TOKEN, rate, total, seconds)
}

fn milestone(id: u64, percentage: u32, release_ledger: u64) -> Milestone {
    Milestone { id, percentage, release_ledger, is_completed: false, completion_ledger: 0 }
}

fn escrow(env: &mut Env, amount: i128, milestones: Vec<Milestone>) -> Result<u64, VaultError> {
    VaultDAO::create_escrow(env, MEMBER, RECIPIENT, TOKEN, amount, milestones, 1_000, ADMIN)
}

fn halves() -> Vec<Milestone> {
    vec![milestone(1, 50, 0), milestone(2, 50, 200)]
}

fn subscribe(env: &mut Env, amount: i128, interval: u64, auto: bool) -> Result<u64, VaultError> {
    VaultDAO::create_subscription(
        env,
        MEMBER,
        RECIPIENT,
        SubscriptionTier::Basic,
        TOKEN,
        amount,
        interval,
        auto,
    )
}

fn operation(amount: i128) -> BatchOperation {
    BatchOperation { recipient: RECIPIENT, token: TOKEN, amount }
}

#[test]
fn recurring_payments_are_checked_on_creation() {
    let mut env = vault();
    assert_eq!(schedule(&mut env, 0, 720), Err(VaultError::InvalidAmount));
    assert_eq!(schedule(&mut env, 10, 719), Err(VaultError::IntervalTooShort));
    assert_eq!(schedule(&mut env, 10, 720), Ok(1));
    assert_eq!(
        VaultDAO::schedule_payment(
            &mut env,
            MEMBER,
            RECIPIENT,
            TOKEN,
            10,
            Symbol::empty(),
            720
        ),
        Err(VaultError::InsufficientRole)
    );
    assert_eq!(VaultDAO::get_recurring_payment(&env, 1).unwrap().next_payment_ledger, 820);
}

#[test]
fn recurring_payments_are_made_when_due() {
    let mut env = vault();
    let id = schedule(&mut env, 400, 1_000).unwrap();
    assert_eq!(
        VaultDAO::execute_recurring_payment(&mut env, id, 400),
        Err(VaultError::TimelockNotExpired)
    );
    env.ledger.sequence = 1_100;
    assert_eq!(
        VaultDAO::execute_recurring_payment(&mut env, id, 399),
        Err(VaultError::InsufficientBalance)
    );
    assert_eq!(VaultDAO::execute_recurring_payment(&mut env, id, 400), Ok(()));
    let payment = VaultDAO::get_recurring_payment(&env, id).unwrap();
    assert_eq!((payment.payment_count, payment.next_payment_ledger), (1, 2_100));
    assert_eq!(VaultDAO::get_today_spent(&env), 400);
    assert!(env
        .actions
        .contains(&Action::Transfer { token: TOKEN, to: RECIPIENT, amount: 400 }));
    assert_eq!(
        VaultDAO::execute_recurring_payment(&mut env, 9, 400),
        Err(VaultError::ProposalNotFound)
    );
}

#[test]
fn recurring_payments_keep_the_limits() {
    let mut env = vault();
    let id = schedule(&mut env, 5_001, 1_000).unwrap();
    env.ledger.sequence = 1_100;
    assert_eq!(
        VaultDAO::execute_recurring_payment(&mut env, id, 9_999),
        Err(VaultError::ExceedsDailyLimit)
    );
}

#[test]
fn stopped_recurring_payments_are_refused() {
    let mut env = vault();
    let id = schedule(&mut env, 10, 720).unwrap();
    assert_eq!(
        VaultDAO::stop_recurring_payment(&mut env, MEMBER, id),
        Err(VaultError::Unauthorized)
    );
    assert_eq!(VaultDAO::stop_recurring_payment(&mut env, ADMIN, id), Ok(()));
    env.ledger.sequence = 5_000;
    assert_eq!(
        VaultDAO::execute_recurring_payment(&mut env, id, 10),
        Err(VaultError::ProposalNotFound)
    );
}

#[test]
fn recurring_payments_are_listed_by_pages() {
    let mut env = vault();
    for _ in 0..5 {
        schedule(&mut env, 10, 720).unwrap();
    }
    assert_eq!(VaultDAO::list_recurring_payment_ids(&mut env, 1, 2), vec![2, 3]);
    assert_eq!(VaultDAO::list_recurring_payment_ids(&mut env, 4, 10), vec![5]);
    assert_eq!(VaultDAO::list_recurring_payment_ids(&mut env, 0, 0), Vec::<u64>::new());
    assert_eq!(VaultDAO::list_recurring_payments(&mut env, 3, 50).len(), 2);
}

#[test]
fn streams_are_checked_on_creation() {
    let mut env = vault();
    assert_eq!(stream(&mut env, 0, 100, 10), Err(VaultError::InvalidAmount));
    assert_eq!(stream(&mut env, 1, 0, 10), Err(VaultError::InvalidAmount));
    assert_eq!(stream(&mut env, 1, 100, 0), Err(VaultError::InvalidAmount));
    assert_eq!(
        VaultDAO::create_stream(&mut env, MEMBER, RECIPIENT, TOKEN, 1, 100, 10),
        Err(VaultError::InsufficientRole)
    );
    assert_eq!(stream(&mut env, 2, 100, 60), Ok(1));
    assert!(env
        .actions
        .contains(&Action::TransferToVault { token: TOKEN, from: TREASURER, amount: 100 }));
}

#[test]
fn streams_flow_second_by_second_up_to_their_total() {
    let mut env = vault();
    let id = stream(&mut env, 2, 100, 60).unwrap();
    assert_eq!(
        VaultDAO::claim_stream(&mut env, RECIPIENT, id, true),
        Err(VaultError::InvalidAmount)
    );
    env.ledger.timestamp += 10;
    assert_eq!(
        VaultDAO::claim_stream(&mut env, MEMBER, id, true),
        Err(VaultError::Unauthorized)
    );
    assert_eq!(
        VaultDAO::claim_stream(&mut env, RECIPIENT, id, false),
        Err(VaultError::InsufficientBalance)
    );
    assert_eq!(VaultDAO::claim_stream(&mut env, RECIPIENT, id, true), Ok(20));
    env.ledger.timestamp += 1_000;
    assert_eq!(VaultDAO::claim_stream(&mut env, RECIPIENT, id, true), Ok(80));
    let stream = VaultDAO::get_stream(&env, id).unwrap();
    assert_eq!((stream.claimed_amount, stream.status), (100, StreamStatus::Completed));
    assert_eq!(
        VaultDAO::cancel_stream(&mut env, TREASURER, id, true),
        Err(VaultError::ProposalAlreadyExecuted)
    );
}

#[test]
fn paused_streams_do_not_flow() {
    let mut env = vault();
    let id = stream(&mut env, 1, 100, 100).unwrap();
    env.ledger.timestamp += 10;
    assert_eq!(
        VaultDAO::pause_stream(&mut env, RECIPIENT, id),
        Err(VaultError::Unauthorized)
    );
    VaultDAO::pause_stream(&mut env, TREASURER, id).unwrap();
    assert_eq!(
        VaultDAO::pause_stream(&mut env, TREASURER, id),
        Err(VaultError::ProposalNotPending)
    );
    env.ledger.timestamp += 50;
    VaultDAO::resume_stream(&mut env, ADMIN, id).unwrap();
    assert_eq!(
        VaultDAO::resume_stream(&mut env, ADMIN, id),
        Err(VaultError::ProposalNotPending)
    );
    env.ledger.timestamp += 5;
    assert_eq!(VaultDAO::claim_stream(&mut env, RECIPIENT, id, true), Ok(15));
}

#[test]
fn cancelled_streams_return_what_was_not_claimed() {
    let mut env = vault();
    let id = stream(&mut env, 1, 100, 100).unwrap();
    env.ledger.timestamp += 30;
    VaultDAO::claim_stream(&mut env, RECIPIENT, id, true).unwrap();
    env.ledger.timestamp += 10;
    assert_eq!(
        VaultDAO::cancel_stream(&mut env, MEMBER, id, true),
        Err(VaultError::Unauthorized)
    );
    assert_eq!(VaultDAO::cancel_stream(&mut env, TREASURER, id, true), Ok(70));
    assert!(env.actions.contains(&Action::TriedTransfer {
        token: TOKEN,
        to: TREASURER,
        amount: 70,
        done: true,
    }));
    assert_eq!(
        VaultDAO::cancel_stream(&mut env, TREASURER, id, true),
        Err(VaultError::ProposalAlreadyCancelled)
    );
    assert_eq!(
        VaultDAO::claim_stream(&mut env, RECIPIENT, id, true),
        Err(VaultError::InvalidAmount)
    );
}

#[test]
fn escrows_are_divided_by_their_milestones() {
    let mut env = vault();
    assert_eq!(escrow(&mut env, 0, halves()), Err(VaultError::InvalidAmount));
    assert_eq!(escrow(&mut env, 10, vec![]), Err(VaultError::InvalidAmount));
    assert_eq!(
        escrow(&mut env, 10, vec![milestone(1, 60, 0), milestone(2, 50, 0)]),
        Err(VaultError::InvalidAmount)
    );
    assert_eq!(
        escrow(&mut env, 10, vec![milestone(1, 100, 0), milestone(2, 0, 0)]),
        Err(VaultError::InvalidAmount)
    );
    assert_eq!(escrow(&mut env, 1_000, halves()), Ok(1));
    assert!(env
        .actions
        .contains(&Action::TransferToVault { token: TOKEN, from: MEMBER, amount: 1_000 }));
    assert_eq!(VaultDAO::get_escrow_info(&env, 1).unwrap().expires_at, 1_100);
    assert_eq!(VaultDAO::get_funder_escrows(&env, MEMBER), vec![1]);
    assert_eq!(VaultDAO::get_recipient_escrows(&env, RECIPIENT), vec![1]);
}

#[test]
fn milestones_are_completed_in_their_time() {
    let mut env = vault();
    let id = escrow(&mut env, 1_000, halves()).unwrap();
    assert_eq!(VaultDAO::complete_milestone(&mut env, MEMBER, id, 1), Ok(()));
    assert_eq!(
        VaultDAO::complete_milestone(&mut env, MEMBER, id, 1),
        Err(VaultError::AlreadyApproved)
    );
    assert_eq!(
        VaultDAO::complete_milestone(&mut env, MEMBER, id, 2),
        Err(VaultError::TimelockNotExpired)
    );
    assert_eq!(
        VaultDAO::complete_milestone(&mut env, MEMBER, id, 3),
        Err(VaultError::ProposalNotFound)
    );
    assert_eq!(VaultDAO::get_escrow_info(&env, id).unwrap().amount_to_release(), 500);
    env.ledger.sequence = 200;
    VaultDAO::complete_milestone(&mut env, MEMBER, id, 2).unwrap();
    assert_eq!(
        VaultDAO::get_escrow_info(&env, id).unwrap().status,
        EscrowStatus::MilestonesComplete
    );
    assert_eq!(
        VaultDAO::complete_milestone(&mut env, MEMBER, id, 2),
        Err(VaultError::ProposalNotPending)
    );
}

#[test]
fn completed_escrows_pay_their_recipient() {
    let mut env = vault();
    let id = escrow(&mut env, 1_001, halves()).unwrap();
    assert_eq!(
        VaultDAO::release_escrow(&mut env, RECIPIENT, id),
        Err(VaultError::ConditionsNotMet)
    );
    env.ledger.sequence = 200;
    VaultDAO::complete_milestone(&mut env, MEMBER, id, 1).unwrap();
    VaultDAO::complete_milestone(&mut env, MEMBER, id, 2).unwrap();
    assert_eq!(
        VaultDAO::release_escrow(&mut env, SIGNER, id),
        Err(VaultError::Unauthorized)
    );
    assert_eq!(VaultDAO::release_escrow_funds(&mut env, id), Ok(1_001));
    assert!(env
        .actions
        .contains(&Action::Transfer { token: TOKEN, to: RECIPIENT, amount: 1_001 }));
    let escrow = VaultDAO::get_escrow_info(&env, id).unwrap();
    assert_eq!((escrow.status, escrow.finalized_at), (EscrowStatus::Released, 200));
    env.ledger.sequence = 2_000;
    assert_eq!(
        VaultDAO::release_escrow(&mut env, MEMBER, id),
        Err(VaultError::ProposalAlreadyExecuted)
    );
}

#[test]
fn expired_escrows_pay_their_funder() {
    let mut env = vault();
    let id = escrow(&mut env, 1_000, halves()).unwrap();
    env.ledger.sequence = 1_100;
    assert_eq!(
        VaultDAO::complete_milestone(&mut env, MEMBER, id, 1),
        Err(VaultError::ProposalExpired)
    );
    assert_eq!(VaultDAO::release_escrow(&mut env, MEMBER, id), Ok(1_000));
    assert!(env
        .actions
        .contains(&Action::Transfer { token: TOKEN, to: MEMBER, amount: 1_000 }));
    assert_eq!(VaultDAO::get_escrow_info(&env, id).unwrap().status, EscrowStatus::Refunded);
}

#[test]
fn disputed_escrows_wait_for_an_admin() {
    let mut env = vault();
    let id = escrow(&mut env, 1_000, halves()).unwrap();
    assert_eq!(
        VaultDAO::dispute_escrow(&mut env, RECIPIENT, id, Symbol::short(1)),
        Err(VaultError::Unauthorized)
    );
    VaultDAO::dispute_escrow(&mut env, MEMBER, id, Symbol::short(1)).unwrap();
    assert_eq!(
        VaultDAO::dispute_escrow(&mut env, MEMBER, id, Symbol::short(1)),
        Err(VaultError::ProposalNotPending)
    );
    env.ledger.sequence = 2_000;
    assert_eq!(
        VaultDAO::release_escrow(&mut env, MEMBER, id),
        Err(VaultError::ConditionsNotMet)
    );
    assert_eq!(
        VaultDAO::resolve_escrow_dispute(&mut env, MEMBER, id, true),
        Err(VaultError::Unauthorized)
    );
    assert_eq!(VaultDAO::resolve_escrow_dispute(&mut env, ADMIN, id, true), Ok(()));
    let escrow = VaultDAO::get_escrow_info(&env, id).unwrap();
    assert_eq!((escrow.status, escrow.released_amount), (EscrowStatus::Released, 1_000));
    assert!(env
        .actions
        .contains(&Action::Transfer { token: TOKEN, to: RECIPIENT, amount: 1_000 }));
    assert_eq!(
        VaultDAO::resolve_escrow_dispute(&mut env, ADMIN, id, false),
        Err(VaultError::ProposalNotPending)
    );
}

#[test]
fn subscriptions_are_paid_at_once() {
    let mut env = vault();
    assert_eq!(subscribe(&mut env, 0, 10, true), Err(VaultError::InvalidAmount));
    assert_eq!(subscribe(&mut env, 5, 0, true), Err(VaultError::IntervalTooShort));
    assert_eq!(subscribe(&mut env, 5, 10, true), Ok(1));
    assert!(env
        .actions
        .contains(&Action::TransferToVault { token: TOKEN, from: MEMBER, amount: 5 }));
    assert!(env
        .actions
        .contains(&Action::Transfer { token: TOKEN, to: RECIPIENT, amount: 5 }));
    assert_eq!(VaultDAO::get_subscriptions_by_subscriber(&env, MEMBER), vec![1]);
    assert_eq!(VaultDAO::get_subscription(&env, 1).unwrap().next_renewal_ledger, 110);
    let mut fresh = Env::new(Ledger { sequence: 1, timestamp: 0, contract: VAULT });
    fresh.authorize(MEMBER);
    assert_eq!(subscribe(&mut fresh, 5, 10, true), Err(VaultError::NotInitialized));
}

#[test]
fn subscriptions_are_renewed_when_due() {
    let mut env = vault();
    let auto = subscribe(&mut env, 5, 10, true).unwrap();
    let manual = subscribe(&mut env, 5, 10, false).unwrap();
    assert_eq!(
        VaultDAO::renew_subscription(&mut env, MEMBER, auto),
        Err(VaultError::RenewalNotDue)
    );
    assert_eq!(
        VaultDAO::renew_subscription(&mut env, MEMBER, 9),
        Err(VaultError::SubscriptionNotFound)
    );
    env.ledger.sequence = 112;
    assert_eq!(VaultDAO::renew_subscription(&mut env, SIGNER, auto), Ok(()));
    let sub = VaultDAO::get_subscription(&env, auto).unwrap();
    assert_eq!((sub.total_payments, sub.next_renewal_ledger), (2, 122));
    assert_eq!(
        VaultDAO::renew_subscription(&mut env, SIGNER, manual),
        Err(VaultError::NotSubscriberOrAdmin)
    );
    assert_eq!(VaultDAO::renew_subscription(&mut env, MEMBER, manual), Ok(()));
    assert_eq!(
        VaultDAO::renew_subscription(&mut env, MEMBER, manual),
        Err(VaultError::RenewalNotDue)
    );
}

#[test]
fn subscriptions_change_from_the_next_renewal_on() {
    let mut env = vault();
    let id = subscribe(&mut env, 5, 10, true).unwrap();
    assert_eq!(
        VaultDAO::upgrade_subscription(&mut env, SIGNER, id, SubscriptionTier::Premium, 9),
        Err(VaultError::NotSubscriberOrAdmin)
    );
    assert_eq!(
        VaultDAO::upgrade_subscription(&mut env, MEMBER, id, SubscriptionTier::Premium, 0),
        Err(VaultError::InvalidAmount)
    );
    env.actions.clear();
    VaultDAO::upgrade_subscription(&mut env, MEMBER, id, SubscriptionTier::Premium, 9).unwrap();
    assert!(!env.actions.iter().any(|a| matches!(a, Action::Transfer { .. })));
    env.ledger.sequence = 110;
    VaultDAO::renew_subscription(&mut env, MEMBER, id).unwrap();
    assert!(env
        .actions
        .contains(&Action::Transfer { token: TOKEN, to: RECIPIENT, amount: 9 }));
}

#[test]
fn cancelled_subscriptions_end() {
    let mut env = vault();
    let id = subscribe(&mut env, 5, 10, true).unwrap();
    assert_eq!(
        VaultDAO::cancel_subscription(&mut env, SIGNER, id),
        Err(VaultError::NotSubscriberOrAdmin)
    );
    assert_eq!(VaultDAO::cancel_subscription(&mut env, ADMIN, id), Ok(()));
    env.ledger.sequence = 500;
    assert_eq!(
        VaultDAO::renew_subscription(&mut env, MEMBER, id),
        Err(VaultError::SubscriptionAlreadyCancelled)
    );
    assert_eq!(
        VaultDAO::cancel_subscription(&mut env, MEMBER, id),
        Err(VaultError::SubscriptionAlreadyCancelled)
    );
    assert_eq!(
        VaultDAO::upgrade_subscription(&mut env, MEMBER, id, SubscriptionTier::Basic, 1),
        Err(VaultError::SubscriptionNotActive)
    );
    let id = subscribe(&mut env, 5, 10, true).unwrap();
    let mut sub = VaultDAO::get_subscription(&env, id).unwrap();
    sub.status = SubscriptionStatus::Suspended;
    env.payments.subscriptions.insert(id, sub);
    env.ledger.sequence = 900;
    assert_eq!(
        VaultDAO::renew_subscription(&mut env, MEMBER, id),
        Err(VaultError::SubscriptionNotActive)
    );
}

#[test]
fn batches_hold_one_to_thirty_two_operations() {
    let mut env = vault();
    assert_eq!(
        VaultDAO::create_batch(&mut env, MEMBER, vec![], Symbol::empty()),
        Err(VaultError::BatchTooLarge)
    );
    assert_eq!(
        VaultDAO::create_batch(&mut env, MEMBER, vec![operation(1); 33], Symbol::empty()),
        Err(VaultError::BatchTooLarge)
    );
    assert_eq!(
        VaultDAO::create_batch(
            &mut env,
            MEMBER,
            vec![operation(1), operation(0)],
            Symbol::empty()
        ),
        Err(VaultError::InvalidAmount)
    );
    assert_eq!(
        VaultDAO::create_batch(&mut env, MEMBER, vec![operation(1); 32], Symbol::empty()),
        Ok(1)
    );
    assert_eq!(VaultDAO::get_batch(&env, 1).unwrap().created_at, 1_000_000);
    assert_eq!(VaultDAO::estimate_batch_gas(&vec![operation(1); 3]), 250_000);
}

#[test]
fn batches_that_fit_the_day_are_completed() {
    let mut env = vault();
    let operations = vec![operation(2_000), operation(3_000)];
    let id = VaultDAO::create_batch(&mut env, MEMBER, operations, Symbol::empty()).unwrap();
    assert_eq!(
        VaultDAO::execute_batch(&mut env, MEMBER, id),
        Err(VaultError::InsufficientRole)
    );
    let result = VaultDAO::execute_batch(&mut env, TREASURER, id).unwrap();
    assert_eq!((result.success, result.successful_ops, result.failed_ops), (true, 2, 0));
    assert_eq!(VaultDAO::get_batch(&env, id).unwrap().status, BatchStatus::Completed);
    assert_eq!(VaultDAO::get_today_spent(&env), 5_000);
    assert_eq!(VaultDAO::get_batch_result(&env, id), Ok(result));
    assert_eq!(
        VaultDAO::execute_batch(&mut env, TREASURER, id),
        Err(VaultError::ProposalNotPending)
    );
    assert_eq!(
        env.actions.last(),
        Some(&Action::Publish(Event::BatchExecuted {
            executor: TREASURER,
            executed: 2,
            failed: 0
        }))
    );
}

#[test]
fn batches_stop_at_the_daily_limit() {
    let mut env = vault();
    let operations = vec![operation(2_000), operation(3_001), operation(1)];
    let id = VaultDAO::create_batch(&mut env, MEMBER, operations, Symbol::empty()).unwrap();
    let result = VaultDAO::execute_batch(&mut env, ADMIN, id).unwrap();
    assert_eq!((result.success, result.successful_ops, result.failed_ops), (false, 1, 2));
    assert_eq!(VaultDAO::get_batch(&env, id).unwrap().status, BatchStatus::RolledBack);
    assert_eq!(VaultDAO::get_today_spent(&env), 0);
    assert_eq!(
        vault_dao::storage::get_rollback_state(&env, id),
        vec![(RECIPIENT, 2_000)]
    );
    assert_eq!(VaultDAO::get_batch(&env, 7).err(), Some(VaultError::ProposalNotFound));
}
