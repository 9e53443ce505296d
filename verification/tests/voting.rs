use vault_dao::env::{Action, Env, Event, Ledger};
use vault_dao::errors::VaultError;
use vault_dao::primitives::{Address, Symbol};
use vault_dao::types::{
    AmountTier, ConditionLogic, InitConfig, InsuranceConfig, Priority, ProposalStatus,
    RecoveryConfig, RetryConfig, Role, StakingConfig, ThresholdStrategy, TimeBasedThreshold,
    TokenLock, VelocityConfig, VotingStrategy,
};
use vault_dao::VaultDAO;

const ADMIN: Address = Address { contract: false, hi: 0, lo: 1 };
const SIGNER: Address = Address { contract: false, hi: 0, lo: 2 };
const OTHER_SIGNER: Address = Address { contract: false, hi: 0, lo: 3 };
const TREASURER: Address = Address { contract: false, hi: 0, lo: 4 };
const MEMBER: Address = Address { contract: false, hi: 0, lo: 5 };
const RECIPIENT: Address = Address { contract: false, hi: 0, lo: 6 };
const TOKEN: Address = Address { contract: true, hi: 0, lo: 7 };
const VAULT: Address = Address { contract: true, hi: 0, lo: 8 };

fn init_config() -> InitConfig {
    InitConfig {
        signers: vec![ADMIN, SIGNER, OTHER_SIGNER],
        threshold: 2,
        quorum: 0,
        quorum_percentage: 0,
        spending_limit: 1_000,
        daily_limit: 5_000,
        weekly_limit: 10_000,
        timelock_threshold: 900,
        timelock_delay: 200,
        velocity_limit: VelocityConfig { limit: 100, window: 3_600 },
        threshold_strategy: ThresholdStrategy::Fixed,
        pre_execution_hooks: vec![],
        post_execution_hooks: vec![],
        default_voting_deadline: 0,
        veto_addresses: vec![],
        retry_config: RetryConfig {
            enabled: false,
            max_retries: 0,
            initial_backoff_ledgers: 0,
        },
        recovery_config: RecoveryConfig { guardians: vec![], threshold: 0, delay: 0 },
        staking_config: StakingConfig::default(),
    }
}

/// A vault with three signers, two of whom have to approve, and everyone's authorization.
fn vault_with(init: InitConfig) -> Env {
    let mut env = Env::new(Ledger { sequence: 100, timestamp: 1_000_000, contract: VAULT });
    for who in [ADMIN, SIGNER, OTHER_SIGNER, TREASURER, MEMBER, RECIPIENT] {
        env.authorize(who);
    }
    assert_eq!(VaultDAO::initialize(&mut env, ADMIN, init), Ok(()));
    assert_eq!(VaultDAO::set_role(&mut env, ADMIN, TREASURER, Role::Treasurer), Ok(()));
    env
}

fn vault() -> Env {
    vault_with(init_config())
}

fn propose(env: &mut Env, amount: i128) -> u64 {
    VaultDAO::propose_transfer(
        env,
        TREASURER,
        RECIPIENT,
        TOKEN,
        amount,
        Symbol::empty(),
        Priority::Normal,
        vec![],
        ConditionLogic::And,
        0,
    )
    .unwrap()
}

fn status(env: &Env, id: u64) -> ProposalStatus {
    VaultDAO::get_proposal(env, id).unwrap().status
}

fn lock(owner: Address, amount: i128, multiplier: u32) -> TokenLock {
    TokenLock {
        owner,
        token: TOKEN,
        amount,
        locked_at: 0,
        duration: 1_000,
        unlock_at: 1_100,
        is_active: true,
        power_multiplier_bps: multiplier,
    }
}

#[test]
fn enough_approvals_approve() {
    let mut env = vault();
    let id = propose(&mut env, 100);
    assert_eq!(VaultDAO::approve_proposal(&mut env, ADMIN, id), Ok(()));
    assert_eq!(status(&env, id), ProposalStatus::Pending);
    assert_eq!(VaultDAO::approve_proposal(&mut env, SIGNER, id), Ok(()));
    let proposal = VaultDAO::get_proposal(&env, id).unwrap();
    assert_eq!(proposal.status, ProposalStatus::Approved);
    assert_eq!(proposal.approvals, vec![ADMIN, SIGNER]);
    assert_eq!(proposal.unlock_ledger, 0);
    assert!(env
        .actions
        .contains(&Action::Publish(Event::ProposalReady { proposal_id: id, unlock_ledger: 0 })));
}

#[test]
fn approved_amounts_from_the_threshold_on_are_locked_from_approval() {
    let mut env = vault();
    let id = propose(&mut env, 950);
    env.ledger.sequence = 150;
    VaultDAO::approve_proposal(&mut env, ADMIN, id).unwrap();
    VaultDAO::approve_proposal(&mut env, SIGNER, id).unwrap();
    assert_eq!(VaultDAO::get_proposal(&env, id).unwrap().unlock_ledger, 350);
}

#[test]
fn nobody_votes_twice() {
    let mut env = vault();
    let id = propose(&mut env, 100);
    VaultDAO::approve_proposal(&mut env, ADMIN, id).unwrap();
    assert_eq!(
        VaultDAO::approve_proposal(&mut env, ADMIN, id),
        Err(VaultError::AlreadyApproved)
    );
    assert_eq!(
        VaultDAO::abstain_proposal(&mut env, ADMIN, id),
        Err(VaultError::AlreadyApproved)
    );
    assert_eq!(VaultDAO::get_proposal(&env, id).unwrap().approvals, vec![ADMIN]);
}

#[test]
fn only_signers_of_the_snapshot_vote() {
    let mut env = vault();
    let id = propose(&mut env, 100);
    assert_eq!(VaultDAO::approve_proposal(&mut env, MEMBER, id), Err(VaultError::NotASigner));
    assert_eq!(
        VaultDAO::approve_proposal(&mut env, ADMIN, 44),
        Err(VaultError::ProposalNotFound)
    );
    let mut config = VaultDAO::get_config(&mut env).unwrap();
    config.signers.push(MEMBER);
    vault_dao::storage::set_config(&mut env, &config);
    assert_eq!(
        VaultDAO::approve_proposal(&mut env, MEMBER, id),
        Err(VaultError::VoterNotInSnapshot)
    );
}

#[test]
fn decided_proposals_are_not_voted_on() {
    let mut env = vault();
    let id = propose(&mut env, 100);
    VaultDAO::approve_proposal(&mut env, ADMIN, id).unwrap();
    VaultDAO::approve_proposal(&mut env, SIGNER, id).unwrap();
    assert_eq!(
        VaultDAO::approve_proposal(&mut env, OTHER_SIGNER, id),
        Err(VaultError::ProposalNotPending)
    );
}

#[test]
fn abstentions_count_towards_the_quorum_only() {
    let mut env = vault();
    VaultDAO::update_quorum(&mut env, ADMIN, 3).unwrap();
    let id = propose(&mut env, 100);
    VaultDAO::approve_proposal(&mut env, ADMIN, id).unwrap();
    VaultDAO::approve_proposal(&mut env, SIGNER, id).unwrap();
    assert_eq!(status(&env, id), ProposalStatus::Pending);
    VaultDAO::abstain_proposal(&mut env, OTHER_SIGNER, id).unwrap();
    assert_eq!(status(&env, id), ProposalStatus::Approved);
    assert!(env.actions.contains(&Action::Publish(Event::QuorumReached {
        proposal_id: id,
        quorum_votes: 3,
        required: 3,
    })));

    let id = propose(&mut env, 100);
    VaultDAO::abstain_proposal(&mut env, ADMIN, id).unwrap();
    VaultDAO::abstain_proposal(&mut env, SIGNER, id).unwrap();
    VaultDAO::abstain_proposal(&mut env, OTHER_SIGNER, id).unwrap();
    assert_eq!(status(&env, id), ProposalStatus::Pending);
}

#[test]
fn a_quorum_percentage_is_rounded_up() {
    let mut init = init_config();
    init.quorum_percentage = 67;
    let mut env = vault_with(init);
    let config = VaultDAO::get_config(&mut env).unwrap();
    assert_eq!(VaultDAO::effective_quorum(&config), 3);
    let id = propose(&mut env, 100);
    VaultDAO::approve_proposal(&mut env, ADMIN, id).unwrap();
    VaultDAO::approve_proposal(&mut env, SIGNER, id).unwrap();
    assert_eq!(status(&env, id), ProposalStatus::Pending);
}

#[test]
fn votes_after_the_expiration_expire_the_proposal() {
    let mut env = vault();
    let id = propose(&mut env, 100);
    env.ledger.sequence = 100 + 120_961;
    assert_eq!(
        VaultDAO::approve_proposal(&mut env, ADMIN, id),
        Err(VaultError::ProposalExpired)
    );
    assert_eq!(status(&env, id), ProposalStatus::Expired);
    assert_eq!(VaultDAO::get_today_spent(&env), 0);
    assert_eq!(VaultDAO::get_metrics(&env).expired_count, 1);
}

#[test]
fn votes_after_the_deadline_reject_the_proposal() {
    let mut init = init_config();
    init.default_voting_deadline = 50;
    let mut env = vault_with(init);
    let rules = InsuranceConfig {
        enabled: true,
        min_amount: 0,
        min_insurance_bps: 0,
        slash_percentage: 30,
    };
    VaultDAO::set_insurance_config(&mut env, ADMIN, rules).unwrap();
    let id = VaultDAO::propose_transfer(
        &mut env,
        TREASURER,
        RECIPIENT,
        TOKEN,
        100,
        Symbol::empty(),
        Priority::Normal,
        vec![],
        ConditionLogic::And,
        10,
    )
    .unwrap();
    env.ledger.sequence = 150;
    assert_eq!(VaultDAO::approve_proposal(&mut env, ADMIN, id), Ok(()));
    assert_eq!(status(&env, id), ProposalStatus::Pending);
    env.ledger.sequence = 151;
    assert_eq!(VaultDAO::approve_proposal(&mut env, SIGNER, id), Ok(()));
    assert_eq!(status(&env, id), ProposalStatus::Rejected);
    assert_eq!(VaultDAO::get_insurance_pool(&env, TOKEN), 3);
    assert!(env
        .actions
        .contains(&Action::Transfer { token: TOKEN, to: TREASURER, amount: 7 }));
}

#[test]
fn scheduled_proposals_become_scheduled() {
    let mut env = vault();
    let id = VaultDAO::propose_scheduled_transfer(
        &mut env,
        TREASURER,
        RECIPIENT,
        TOKEN,
        100,
        Symbol::empty(),
        Priority::Normal,
        vec![],
        ConditionLogic::And,
        0,
        500,
    )
    .unwrap();
    VaultDAO::approve_proposal(&mut env, ADMIN, id).unwrap();
    VaultDAO::approve_proposal(&mut env, SIGNER, id).unwrap();
    assert_eq!(status(&env, id), ProposalStatus::Scheduled);
}

#[test]
fn delegates_vote_for_those_whom_they_represent() {
    let mut env = vault();
    assert_eq!(VaultDAO::delegate_voting_power(&mut env, SIGNER, ADMIN, 0), Ok(()));
    let id = propose(&mut env, 100);
    VaultDAO::approve_proposal(&mut env, ADMIN, id).unwrap();
    let proposal = VaultDAO::get_proposal(&env, id).unwrap();
    assert_eq!(proposal.approvals, vec![ADMIN, SIGNER]);
    assert_eq!(proposal.status, ProposalStatus::Approved);
    assert!(env.actions.contains(&Action::Publish(Event::DelegatedVote {
        proposal_id: id,
        voter: SIGNER,
        signer: ADMIN,
    })));
    assert_eq!(
        VaultDAO::approve_proposal(&mut env, SIGNER, id),
        Err(VaultError::ProposalNotPending)
    );
}

#[test]
fn delegated_approvals_are_recorded_under_the_effective_voter() {
    let mut env = vault();
    VaultDAO::delegate_voting_power(&mut env, SIGNER, OTHER_SIGNER, 0).unwrap();
    let id = propose(&mut env, 100);
    VaultDAO::approve_proposal(&mut env, SIGNER, id).unwrap();
    assert_eq!(VaultDAO::get_proposal(&env, id).unwrap().approvals, vec![OTHER_SIGNER]);
    assert!(env.actions.contains(&Action::Publish(Event::DelegatedVote {
        proposal_id: id,
        voter: OTHER_SIGNER,
        signer: SIGNER,
    })));
    assert_eq!(
        VaultDAO::approve_proposal(&mut env, SIGNER, id),
        Err(VaultError::AlreadyApproved)
    );
    VaultDAO::approve_proposal(&mut env, OTHER_SIGNER, id).unwrap();
    assert_eq!(
        VaultDAO::get_proposal(&env, id).unwrap().approvals,
        vec![OTHER_SIGNER, SIGNER]
    );
}

#[test]
fn approvals_follow_the_chain_to_its_end() {
    let mut env = vault();
    VaultDAO::delegate_voting_power(&mut env, SIGNER, ADMIN, 0).unwrap();
    VaultDAO::delegate_voting_power(&mut env, ADMIN, OTHER_SIGNER, 0).unwrap();
    assert_eq!(VaultDAO::get_effective_voter(&env, &SIGNER), OTHER_SIGNER);
    assert_eq!(VaultDAO::get_effective_voter(&env, &OTHER_SIGNER), OTHER_SIGNER);
    let id = propose(&mut env, 100);
    VaultDAO::approve_proposal(&mut env, SIGNER, id).unwrap();
    let approvals = VaultDAO::get_proposal(&env, id).unwrap().approvals;
    assert_eq!(approvals, vec![OTHER_SIGNER, ADMIN]);
    let other = propose(&mut env, 100);
    VaultDAO::abstain_proposal(&mut env, SIGNER, other).unwrap();
    assert_eq!(VaultDAO::get_proposal(&env, other).unwrap().abstentions, vec![SIGNER]);
}

#[test]
fn percentage_quorums_still_hold_at_execution() {
    let mut init = init_config();
    init.quorum_percentage = 100;
    init.threshold = 1;
    let mut env = vault_with(init);
    let id = propose(&mut env, 100);
    VaultDAO::approve_proposal(&mut env, ADMIN, id).unwrap();
    let config = VaultDAO::get_config(&mut env).unwrap();
    let mut proposal = VaultDAO::get_proposal(&env, id).unwrap();
    assert_eq!(
        VaultDAO::ensure_vote_requirements_satisfied(&env, &config, &proposal),
        Err(VaultError::QuorumNotReached)
    );
    proposal.abstentions = vec![SIGNER, OTHER_SIGNER];
    assert_eq!(
        VaultDAO::ensure_vote_requirements_satisfied(&env, &config, &proposal),
        Ok(())
    );
}

#[test]
fn expired_delegations_do_not_count() {
    let mut env = vault();
    VaultDAO::delegate_voting_power(&mut env, SIGNER, ADMIN, 120).unwrap();
    env.ledger.sequence = 121;
    let id = propose(&mut env, 100);
    VaultDAO::approve_proposal(&mut env, ADMIN, id).unwrap();
    assert_eq!(VaultDAO::get_proposal(&env, id).unwrap().approvals, vec![ADMIN]);
}

#[test]
fn delegations_are_not_circular() {
    let mut env = vault();
    assert_eq!(
        VaultDAO::delegate_voting_power(&mut env, SIGNER, SIGNER, 0),
        Err(VaultError::InvalidAmount)
    );
    assert_eq!(
        VaultDAO::delegate_voting_power(&mut env, SIGNER, MEMBER, 0),
        Err(VaultError::NotASigner)
    );
    VaultDAO::delegate_voting_power(&mut env, SIGNER, ADMIN, 0).unwrap();
    VaultDAO::delegate_voting_power(&mut env, ADMIN, OTHER_SIGNER, 0).unwrap();
    assert_eq!(
        VaultDAO::get_delegation_chain(&env, SIGNER),
        Ok(vec![ADMIN, OTHER_SIGNER])
    );
    assert_eq!(
        VaultDAO::delegate_voting_power(&mut env, OTHER_SIGNER, SIGNER, 0),
        Err(VaultError::Unauthorized)
    );
    assert_eq!(VaultDAO::revoke_delegation(&mut env, ADMIN), Ok(()));
    assert_eq!(
        VaultDAO::revoke_delegation(&mut env, ADMIN),
        Err(VaultError::ProposalNotFound)
    );
    assert_eq!(VaultDAO::get_delegation_chain(&env, SIGNER), Ok(vec![ADMIN]));
}

#[test]
fn approvals_raise_reputation() {
    let mut env = vault();
    let id = propose(&mut env, 100);
    VaultDAO::approve_proposal(&mut env, SIGNER, id).unwrap();
    let rep = VaultDAO::get_reputation(&mut env, SIGNER);
    assert_eq!((rep.score, rep.approvals_given, rep.participation_count), (502, 1, 1));
    VaultDAO::abstain_proposal(&mut env, OTHER_SIGNER, id).unwrap();
    let rep = VaultDAO::get_reputation(&mut env, OTHER_SIGNER);
    assert_eq!((rep.score, rep.abstentions_given, rep.participation_count), (500, 1, 1));
}

#[test]
fn thresholds_follow_their_strategy() {
    let mut env = vault();
    let mut config = VaultDAO::get_config(&mut env).unwrap();
    assert_eq!(VaultDAO::calculate_threshold(&env, &config, &10, 0), 2);
    config.threshold_strategy = ThresholdStrategy::Percentage(50);
    assert_eq!(VaultDAO::calculate_threshold(&env, &config, &10, 0), 2);
    config.threshold_strategy = ThresholdStrategy::Percentage(0);
    assert_eq!(VaultDAO::calculate_threshold(&env, &config, &10, 0), 1);
    config.threshold_strategy = ThresholdStrategy::AmountBased(vec![
        AmountTier { amount: 100, approvals: 1 },
        AmountTier { amount: 500, approvals: 3 },
        AmountTier { amount: 200, approvals: 2 },
    ]);
    assert_eq!(VaultDAO::calculate_threshold(&env, &config, &99, 0), 2);
    assert_eq!(VaultDAO::calculate_threshold(&env, &config, &100, 0), 1);
    assert_eq!(VaultDAO::calculate_threshold(&env, &config, &499, 0), 2);
    assert_eq!(VaultDAO::calculate_threshold(&env, &config, &500, 0), 3);
    config.threshold_strategy = ThresholdStrategy::TimeBased(TimeBasedThreshold {
        initial_threshold: 3,
        reduced_threshold: 1,
        reduction_delay: 50,
    });
    assert_eq!(VaultDAO::calculate_threshold(&env, &config, &10, 51), 3);
    assert_eq!(VaultDAO::calculate_threshold(&env, &config, &10, 50), 1);
}

#[test]
fn integer_roots_are_rounded_down() {
    assert_eq!(VaultDAO::isqrt(-4), 0);
    assert_eq!(VaultDAO::isqrt(0), 0);
    assert_eq!(VaultDAO::isqrt(1), 1);
    assert_eq!(VaultDAO::isqrt(15), 3);
    assert_eq!(VaultDAO::isqrt(16), 4);
    assert_eq!(VaultDAO::isqrt(999_999_999_999), 999_999);
    assert_eq!(VaultDAO::isqrt(i128::MAX), 13_043_817_825_332_782_212);
    assert_eq!(VaultDAO::integer_sqrt(99), 9);
}

#[test]
fn quadratic_votes_weigh_the_root_of_locked_tokens() {
    let mut env = vault();
    VaultDAO::update_voting_strategy(&mut env, ADMIN, VotingStrategy::Quadratic).unwrap();
    env.members.token_locks.insert(ADMIN, lock(ADMIN, 100, 10_000));
    assert_eq!(VaultDAO::get_snapshot_voting_power(&env, &ADMIN), 10);
    assert_eq!(VaultDAO::get_snapshot_voting_power(&env, &SIGNER), 1);
    let id = propose(&mut env, 100);
    VaultDAO::approve_proposal(&mut env, ADMIN, id).unwrap();
    assert_eq!(status(&env, id), ProposalStatus::Approved);

    let id = propose(&mut env, 100);
    VaultDAO::approve_proposal(&mut env, SIGNER, id).unwrap();
    VaultDAO::approve_proposal(&mut env, OTHER_SIGNER, id).unwrap();
    assert_eq!(status(&env, id), ProposalStatus::Pending);
}

#[test]
fn conviction_votes_weigh_the_power_of_locked_tokens() {
    let mut env = vault();
    VaultDAO::update_voting_strategy(&mut env, ADMIN, VotingStrategy::Conviction).unwrap();
    env.members.token_locks.insert(ADMIN, lock(ADMIN, 100, 15_000));
    assert_eq!(VaultDAO::get_snapshot_voting_power(&env, &ADMIN), 150);
    assert_eq!(VaultDAO::get_snapshot_voting_power(&env, &SIGNER), 1);
}
