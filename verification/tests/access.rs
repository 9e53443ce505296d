use vault_dao::env::{Action, Env, Event, Ledger};
use vault_dao::errors::VaultError;
use vault_dao::primitives::{Address, Symbol};
use vault_dao::types::{
    ConditionLogic, InitConfig, ListMode, Permission, Priority, ProposalStatus, RecoveryConfig,
    RecoveryStatus, RetryConfig, Role, StakingConfig, ThresholdStrategy, VelocityConfig,
};
use vault_dao::VaultDAO;

const ADMIN: Address = Address { contract: false, hi: 0, lo: 1 };
const SIGNER: Address = Address { contract: false, hi: 0, lo: 2 };
const OTHER_SIGNER: Address = Address { contract: false, hi: 0, lo: 3 };
const TREASURER: Address = Address { contract: false, hi: 0, lo: 4 };
const MEMBER: Address = Address { contract: false, hi: 0, lo: 5 };
const RECIPIENT: Address = Address { contract: false, hi: 0, lo: 6 };
const TOKEN: Address = Address { contract: true, hi: 0, lo: 7 };
const VAULT: Address = Address { contract: true, hi: 0, lo: 8 };

fn init_config() -> InitConfig {
    InitConfig {
        signers: vec![ADMIN, SIGNER, OTHER_SIGNER],
        threshold: 2,
        quorum: 0,
        quorum_percentage: 0,
        spending_limit: 1_000,
        daily_limit: 5_000,
        weekly_limit: 10_000,
        timelock_threshold: 900,
        timelock_delay: 200,
        velocity_limit: VelocityConfig { limit: 100, window: 3_600 },
        threshold_strategy: ThresholdStrategy::Fixed,
        pre_execution_hooks: vec![],
        post_execution_hooks: vec![],
        default_voting_deadline: 0,
        veto_addresses: vec![],
        retry_config: RetryConfig {
            enabled: false,
            max_retries: 0,
            initial_backoff_ledgers: 0,
        },
        recovery_config: RecoveryConfig { guardians: vec![], threshold: 0, delay: 0 },
        staking_config: StakingConfig::default(),
    }
}

/// A vault with three signers, two of whom have to approve, and everyone's authorization.
fn vault_with(init: InitConfig) -> Env {
    let mut env = Env::new(Ledger { sequence: 100, timestamp: 1_000_000, contract: VAULT });
    for who in [ADMIN, SIGNER, OTHER_SIGNER, TREASURER, MEMBER, RECIPIENT] {
        env.authorize(who);
    }
    assert_eq!(VaultDAO::initialize(&mut env, ADMIN, init), Ok(()));
    assert_eq!(VaultDAO::set_role(&mut env, ADMIN, TREASURER, Role::Treasurer), Ok(()));
    env
}

fn vault() -> Env {
    vault_with(init_config())
}

fn propose(env: &mut Env, amount: i128) -> u64 {
    VaultDAO::propose_transfer(
        env,
        TREASURER,
        RECIPIENT,
        TOKEN,
        amount,
        Symbol::empty(),
        Priority::Normal,
        vec![],
        ConditionLogic::And,
        0,
    )
    .unwrap()
}

fn guarded() -> Env {
    let mut init = init_config();
    init.recovery_config =
        RecoveryConfig { guardians: vec![MEMBER, RECIPIENT], threshold: 2, delay: 40 };
    vault_with(init)
}

#[test]
fn roles_come_with_permissions() {
    let env = vault();
    assert!(VaultDAO::has_permission(&env, ADMIN, Permission::ManageRoles));
    assert!(VaultDAO::has_permission(&env, TREASURER, Permission::ManageEscrow));
    assert!(!VaultDAO::has_permission(&env, TREASURER, Permission::ManageConfig));
    assert!(!VaultDAO::has_permission(&env, TREASURER, Permission::ManageRoles));
    assert!(VaultDAO::has_permission(&env, MEMBER, Permission::ViewMetrics));
    assert!(!VaultDAO::has_permission(&env, MEMBER, Permission::CreateProposal));
}

#[test]
fn granted_permissions_last_until_their_ledger_has_passed() {
    let mut env = vault();
    assert_eq!(
        VaultDAO::grant_permission(&mut env, MEMBER, MEMBER, Permission::CreateProposal, None),
        Err(VaultError::Unauthorized)
    );
    VaultDAO::grant_permission(&mut env, ADMIN, MEMBER, Permission::CreateProposal, Some(120))
        .unwrap();
    env.ledger.sequence = 120;
    assert_eq!(
        VaultDAO::check_permission_entry(&env, MEMBER, Permission::CreateProposal),
        Ok(())
    );
    env.ledger.sequence = 121;
    assert_eq!(
        VaultDAO::check_permission_entry(&env, MEMBER, Permission::CreateProposal),
        Err(VaultError::ProposalExpired)
    );
    assert_eq!(
        VaultDAO::check_permission_entry(&env, MEMBER, Permission::ManageRoles),
        Err(VaultError::Unauthorized)
    );
    VaultDAO::grant_permission(&mut env, ADMIN, MEMBER, Permission::CreateProposal, None)
        .unwrap();
    assert!(VaultDAO::has_permission(&env, MEMBER, Permission::CreateProposal));
    assert_eq!(VaultDAO::get_permissions(&env, MEMBER).len(), 1);
}

#[test]
fn revoked_permissions_are_gone() {
    let mut env = vault();
    VaultDAO::grant_permission(&mut env, ADMIN, MEMBER, Permission::CreateProposal, None)
        .unwrap();
    VaultDAO::grant_permission(&mut env, ADMIN, MEMBER, Permission::ManageEscrow, None).unwrap();
    assert_eq!(
        VaultDAO::revoke_permission(&mut env, ADMIN, MEMBER, Permission::ManageConfig),
        Err(VaultError::Unauthorized)
    );
    VaultDAO::revoke_permission(&mut env, ADMIN, MEMBER, Permission::CreateProposal).unwrap();
    assert!(!VaultDAO::has_permission(&env, MEMBER, Permission::CreateProposal));
    assert!(VaultDAO::has_permission(&env, MEMBER, Permission::ManageEscrow));
}

#[test]
fn delegated_permissions_end_at_their_ledger() {
    let mut env = vault();
    assert_eq!(
        VaultDAO::delegate_permission(&mut env, MEMBER, SIGNER, Permission::ManageRoles, 200),
        Err(VaultError::Unauthorized)
    );
    VaultDAO::delegate_permission(&mut env, ADMIN, MEMBER, Permission::ManageRoles, 200).unwrap();
    env.ledger.sequence = 199;
    assert!(VaultDAO::has_permission(&env, MEMBER, Permission::ManageRoles));
    env.ledger.sequence = 200;
    assert!(!VaultDAO::has_permission(&env, MEMBER, Permission::ManageRoles));
}

#[test]
fn chains_of_delegated_permissions_have_a_largest_depth() {
    let mut env = vault();
    let p = Permission::ManageRoles;
    VaultDAO::delegate_permission(&mut env, ADMIN, SIGNER, p, 900).unwrap();
    VaultDAO::delegate_permission(&mut env, SIGNER, OTHER_SIGNER, p, 900).unwrap();
    assert_eq!(VaultDAO::delegation_depth(&env, &OTHER_SIGNER, &p, 0), 2);
    VaultDAO::delegate_permission(&mut env, OTHER_SIGNER, ADMIN, p, 900).unwrap();
    assert_eq!(VaultDAO::delegation_depth(&env, &OTHER_SIGNER, &p, 0), 3);
    assert_eq!(
        VaultDAO::delegate_permission(&mut env, OTHER_SIGNER, MEMBER, p, 900),
        Err(VaultError::InsufficientRole)
    );
}

#[test]
fn permissions_need_an_initialized_vault() {
    let mut env = Env::new(Ledger { sequence: 1, timestamp: 0, contract: VAULT });
    env.authorize(ADMIN);
    assert_eq!(
        VaultDAO::grant_permission(&mut env, ADMIN, MEMBER, Permission::ManageRoles, None),
        Err(VaultError::NotInitialized)
    );
    assert_eq!(
        VaultDAO::check_permission_entry(&env, MEMBER, Permission::ViewMetrics),
        Err(VaultError::NotInitialized)
    );
    assert_eq!(
        VaultDAO::delegate_permission(&mut env, ADMIN, MEMBER, Permission::ViewMetrics, 5),
        Err(VaultError::NotInitialized)
    );
}

#[test]
fn recipients_are_listed_once() {
    let mut env = vault();
    assert_eq!(
        VaultDAO::set_list_mode(&mut env, MEMBER, ListMode::Blacklist),
        Err(VaultError::Unauthorized)
    );
    VaultDAO::add_to_whitelist(&mut env, ADMIN, RECIPIENT).unwrap();
    assert_eq!(
        VaultDAO::add_to_whitelist(&mut env, ADMIN, RECIPIENT),
        Err(VaultError::AddressAlreadyOnList)
    );
    assert!(VaultDAO::is_whitelisted(&env, RECIPIENT));
    VaultDAO::remove_from_whitelist(&mut env, ADMIN, RECIPIENT).unwrap();
    assert_eq!(
        VaultDAO::remove_from_whitelist(&mut env, ADMIN, RECIPIENT),
        Err(VaultError::AddressNotOnList)
    );
    VaultDAO::add_to_blacklist(&mut env, ADMIN, RECIPIENT).unwrap();
    assert!(VaultDAO::is_blacklisted(&env, RECIPIENT));
    assert_eq!(
        VaultDAO::add_to_blacklist(&mut env, ADMIN, RECIPIENT),
        Err(VaultError::AddressAlreadyOnList)
    );
    VaultDAO::remove_from_blacklist(&mut env, ADMIN, RECIPIENT).unwrap();
    assert_eq!(
        VaultDAO::remove_from_blacklist(&mut env, MEMBER, RECIPIENT),
        Err(VaultError::Unauthorized)
    );
    assert_eq!(VaultDAO::get_list_mode(&env), ListMode::Disabled);
}

#[test]
fn guardians_recover_a_vault_after_the_delay() {
    let mut env = guarded();
    assert_eq!(
        VaultDAO::initiate_recovery(&mut env, ADMIN, vec![MEMBER], 1),
        Err(VaultError::Unauthorized)
    );
    assert_eq!(
        VaultDAO::initiate_recovery(&mut env, MEMBER, vec![], 1),
        Err(VaultError::NoSigners)
    );
    assert_eq!(
        VaultDAO::initiate_recovery(&mut env, MEMBER, vec![MEMBER], 0),
        Err(VaultError::ThresholdTooLow)
    );
    assert_eq!(
        VaultDAO::initiate_recovery(&mut env, MEMBER, vec![MEMBER], 2),
        Err(VaultError::ThresholdTooHigh)
    );
    VaultDAO::update_quorum(&mut env, ADMIN, 3).unwrap();
    let id = VaultDAO::initiate_recovery(&mut env, MEMBER, vec![MEMBER, RECIPIENT], 2).unwrap();
    assert_eq!(VaultDAO::approve_recovery(&mut env, ADMIN, id), Err(VaultError::Unauthorized));
    VaultDAO::approve_recovery(&mut env, MEMBER, id).unwrap();
    assert_eq!(
        VaultDAO::approve_recovery(&mut env, MEMBER, id),
        Err(VaultError::AlreadyApproved)
    );
    assert_eq!(
        VaultDAO::execute_recovery(&mut env, id),
        Err(VaultError::ProposalNotApproved)
    );
    VaultDAO::approve_recovery(&mut env, RECIPIENT, id).unwrap();
    assert_eq!(
        VaultDAO::get_recovery_proposal(&env, id).unwrap().execution_after,
        140
    );
    assert_eq!(
        VaultDAO::execute_recovery(&mut env, id),
        Err(VaultError::TimelockNotExpired)
    );
    env.ledger.sequence = 140;
    assert_eq!(VaultDAO::execute_recovery(&mut env, id), Ok(()));
    let config = VaultDAO::get_config(&mut env).unwrap();
    assert_eq!(config.signers, vec![MEMBER, RECIPIENT]);
    assert_eq!((config.threshold, config.quorum), (2, 2));
    assert_eq!(
        VaultDAO::execute_recovery(&mut env, id),
        Err(VaultError::ProposalNotApproved)
    );
}

#[test]
fn admins_cancel_a_recovery() {
    let mut env = guarded();
    let id = VaultDAO::initiate_recovery(&mut env, MEMBER, vec![MEMBER], 1).unwrap();
    assert_eq!(
        VaultDAO::cancel_recovery(&mut env, MEMBER, id),
        Err(VaultError::InsufficientRole)
    );
    assert_eq!(VaultDAO::cancel_recovery(&mut env, ADMIN, id), Ok(()));
    assert_eq!(
        VaultDAO::cancel_recovery(&mut env, ADMIN, id),
        Err(VaultError::ProposalNotPending)
    );
    assert_eq!(
        VaultDAO::approve_recovery(&mut env, MEMBER, id),
        Err(VaultError::ProposalNotPending)
    );
    assert_eq!(
        VaultDAO::get_recovery_proposal(&env, id).unwrap().status,
        RecoveryStatus::Cancelled
    );
    let rules = RecoveryConfig { guardians: vec![SIGNER], threshold: 1, delay: 0 };
    VaultDAO::set_recovery_config(&mut env, ADMIN, rules).unwrap();
    assert_eq!(VaultDAO::get_recovery_config(&env).unwrap().guardians, vec![SIGNER]);
}

#[test]
fn vetoes_block_and_refund() {
    let mut env = vault();
    VaultDAO::add_veto_address(&mut env, ADMIN, MEMBER).unwrap();
    let id = propose(&mut env, 100);
    assert_eq!(VaultDAO::veto_proposal(&mut env, SIGNER, id), Err(VaultError::Unauthorized));
    assert_eq!(VaultDAO::veto_proposal(&mut env, MEMBER, 9), Err(VaultError::ProposalNotFound));
    assert_eq!(VaultDAO::veto_proposal(&mut env, MEMBER, id), Ok(()));
    assert_eq!(VaultDAO::get_proposal(&env, id).unwrap().status, ProposalStatus::Vetoed);
    assert_eq!(VaultDAO::get_today_spent(&env), 0);
    assert_eq!(
        VaultDAO::get_proposals_by_priority(&env, Priority::Normal),
        Vec::<u64>::new()
    );
    assert_eq!(VaultDAO::veto_proposal(&mut env, MEMBER, id), Ok(()));
    assert_eq!(
        VaultDAO::approve_proposal(&mut env, ADMIN, id),
        Err(VaultError::ProposalNotPending)
    );
}

#[test]
fn proposers_cancel_and_admins_reject() {
    let mut env = vault();
    let id = propose(&mut env, 100);
    assert_eq!(
        VaultDAO::cancel_proposal(&mut env, MEMBER, id, Symbol::short(9)),
        Err(VaultError::Unauthorized)
    );
    assert_eq!(VaultDAO::cancel_proposal(&mut env, TREASURER, id, Symbol::short(9)), Ok(()));
    assert_eq!(
        VaultDAO::cancel_proposal(&mut env, TREASURER, id, Symbol::short(9)),
        Err(VaultError::ProposalAlreadyCancelled)
    );
    let record = VaultDAO::get_cancellation_record(&env, id).unwrap();
    assert_eq!((record.cancelled_by, record.refunded_amount), (TREASURER, 100));
    assert_eq!(VaultDAO::get_cancellation_history(&env), vec![id]);
    assert_eq!(VaultDAO::get_today_spent(&env), 0);

    let id = propose(&mut env, 100);
    assert_eq!(VaultDAO::cancel_proposal(&mut env, ADMIN, id, Symbol::short(9)), Ok(()));
    assert_eq!(VaultDAO::get_proposal(&env, id).unwrap().status, ProposalStatus::Rejected);
    assert_eq!(VaultDAO::get_reputation(&mut env, TREASURER).score, 480);
    assert_eq!(VaultDAO::get_today_spent(&env), 100);
    assert_eq!(
        VaultDAO::cancel_proposal(&mut env, ADMIN, id, Symbol::short(9)),
        Err(VaultError::ProposalNotPending)
    );
}

#[test]
fn amended_proposals_are_voted_on_anew() {
    let mut env = vault();
    let id = propose(&mut env, 100);
    VaultDAO::approve_proposal(&mut env, ADMIN, id).unwrap();
    let amend = |env: &mut Env, who: Address, amount: i128| {
        VaultDAO::amend_proposal(env, who, id, MEMBER, amount, Symbol::short(3))
    };
    assert_eq!(amend(&mut env, ADMIN, 50), Err(VaultError::Unauthorized));
    assert_eq!(amend(&mut env, TREASURER, 0), Err(VaultError::InvalidAmount));
    assert_eq!(amend(&mut env, TREASURER, 1_001), Err(VaultError::ExceedsProposalLimit));
    assert_eq!(amend(&mut env, TREASURER, 700), Ok(()));
    let proposal = VaultDAO::get_proposal(&env, id).unwrap();
    assert_eq!((proposal.recipient, proposal.amount), (MEMBER, 700));
    assert_eq!(proposal.approvals, Vec::<Address>::new());
    assert_eq!(VaultDAO::get_today_spent(&env), 700);
    assert_eq!(amend(&mut env, TREASURER, 200), Ok(()));
    assert_eq!(VaultDAO::get_today_spent(&env), 200);
    let history = VaultDAO::get_proposal_amendments(&env, id);
    assert_eq!(history.len(), 2);
    assert_eq!((history[1].old_amount, history[1].new_amount), (700, 200));
    VaultDAO::approve_proposal(&mut env, ADMIN, id).unwrap();
    VaultDAO::approve_proposal(&mut env, SIGNER, id).unwrap();
    assert_eq!(amend(&mut env, TREASURER, 10), Err(VaultError::ProposalNotPending));
}

#[test]
fn amendments_keep_the_daily_limit() {
    let mut env = vault();
    for _ in 0..4 {
        propose(&mut env, 1_000);
    }
    let id = propose(&mut env, 900);
    let amend = |env: &mut Env, amount: i128| {
        VaultDAO::amend_proposal(env, TREASURER, id, RECIPIENT, amount, Symbol::empty())
    };
    assert_eq!(amend(&mut env, 1_000), Ok(()));
    propose_nothing_more(&mut env);
}

fn propose_nothing_more(env: &mut Env) {
    assert_eq!(VaultDAO::get_today_spent(env), 5_000);
    let id = 5;
    VaultDAO::amend_proposal(env, TREASURER, id, RECIPIENT, 400, Symbol::empty()).unwrap();
    let other = VaultDAO::propose_transfer(
        env,
        TREASURER,
        RECIPIENT,
        TOKEN,
        600,
        Symbol::empty(),
        Priority::Normal,
        vec![],
        ConditionLogic::And,
        0,
    );
    assert_eq!(other, Ok(6));
    assert_eq!(
        VaultDAO::amend_proposal(env, TREASURER, id, RECIPIENT, 401, Symbol::empty()),
        Err(VaultError::ExceedsDailyLimit)
    );
}

#[test]
fn priorities_move_between_queues() {
    let mut env = vault();
    let id = propose(&mut env, 100);
    assert_eq!(
        VaultDAO::change_priority(&mut env, MEMBER, id, Priority::Critical),
        Err(VaultError::Unauthorized)
    );
    VaultDAO::change_priority(&mut env, TREASURER, id, Priority::Critical).unwrap();
    assert_eq!(VaultDAO::get_proposals_by_priority(&env, Priority::Critical), vec![id]);
    assert_eq!(
        VaultDAO::get_proposals_by_priority(&env, Priority::Normal),
        Vec::<u64>::new()
    );
}

#[test]
fn proposals_are_listed_by_pages() {
    let mut env = vault();
    for _ in 0..4 {
        propose(&mut env, 10);
    }
    assert_eq!(VaultDAO::list_proposal_ids(&mut env, 1, 2), vec![2, 3]);
    assert_eq!(VaultDAO::list_proposal_ids(&mut env, 9, 2), Vec::<u64>::new());
    assert_eq!(VaultDAO::list_proposal_ids(&mut env, 0, 0), Vec::<u64>::new());
    let ids: Vec<u64> =
        VaultDAO::list_proposals(&mut env, 0, 3).into_iter().map(|p| p.id).collect();
    assert_eq!(ids, vec![1, 2, 3]);
}

#[test]
fn permissions_are_announced() {
    let mut env = vault();
    VaultDAO::grant_permission(&mut env, ADMIN, MEMBER, Permission::ManageEscrow, None).unwrap();
    assert_eq!(
        env.actions.last(),
        Some(&Action::Publish(Event::PermissionGranted {
            admin: ADMIN,
            target: MEMBER,
            permission: 7
        }))
    );
}
