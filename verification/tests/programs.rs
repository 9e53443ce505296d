use vault_dao::env::{Action, Env, Event, Ledger};
use vault_dao::errors::VaultError;
use vault_dao::primitives::{Address, Symbol, Text, Texts};
use vault_dao::types::{
    ConditionLogic, DisputeResolution, DisputeStatus, FundingMilestone, FundingMilestoneStatus,
    FundingRoundConfig, FundingRoundStatus, InitConfig, Milestone, Priority, ProposalStatus,
    RecoveryConfig, RetryConfig, Role, StakingConfig, TemplateOverrides, ThresholdStrategy,
    VelocityConfig,
};
use vault_dao::VaultDAO;

const ADMIN: Address = Address { contract: false, hi: 0, lo: 1 };
const SIGNER: Address = Address { contract: false, hi: 0, lo: 2 };
const OTHER_SIGNER: Address = Address { contract: false, hi: 0, lo: 3 };
const TREASURER: Address = Address { contract: false, hi: 0, lo: 4 };
const MEMBER: Address = Address { contract: false, hi: 0, lo: 5 };
const RECIPIENT: Address = Address { contract: false, hi: 0, lo: 6 };
const TOKEN: Address = Address { contract: true, hi: 0, lo: 7 };
const VAULT: Address = Address { contract: true, hi: 0, lo: 8 };

fn init_config() -> InitConfig {
    InitConfig {
        signers: vec![ADMIN, SIGNER, OTHER_SIGNER],
        threshold: 2,
        quorum: 0,
        quorum_percentage: 0,
        spending_limit: 1_000,
        daily_limit: 5_000,
        weekly_limit: 10_000,
        timelock_threshold: 900,
        timelock_delay: 200,
        velocity_limit: VelocityConfig { limit: 100, window: 3_600 },
        threshold_strategy: ThresholdStrategy::Fixed,
        pre_execution_hooks: vec![],
        post_execution_hooks: vec![],
        default_voting_deadline: 0,
        veto_addresses: vec![],
        retry_config: RetryConfig {
            enabled: false,
            max_retries: 0,
            initial_backoff_ledgers: 0,
        },
        recovery_config: RecoveryConfig { guardians: vec![], threshold: 0, delay: 0 },
        staking_config: StakingConfig::default(),
    }
}

/// A vault with three signers, two of whom have to approve, and everyone's authorization.
fn vault_with(init: InitConfig) -> Env {
    let mut env = Env::new(Ledger { sequence: 100, timestamp: 1_000_000, contract: VAULT });
    for who in [ADMIN, SIGNER, OTHER_SIGNER, TREASURER, MEMBER, RECIPIENT] {
        env.authorize(who);
    }
    assert_eq!(VaultDAO::initialize(&mut env, ADMIN, init), Ok(()));
    assert_eq!(VaultDAO::set_role(&mut env, ADMIN, TREASURER, Role::Treasurer), Ok(()));
    env
}

fn vault() -> Env {
    vault_with(init_config())
}

fn propose(env: &mut Env, amount: i128) -> u64 {
    VaultDAO::propose_transfer(
        env,
        TREASURER,
        RECIPIENT,
        TOKEN,
        amount,
        Symbol::empty(),
        Priority::Normal,
        vec![],
        ConditionLogic::And,
        0,
    )
    .unwrap()
}

fn scheduled(env: &mut Env, time: u64) -> u64 {
    let id = VaultDAO::propose_scheduled_transfer(
        env,
        TREASURER,
        RECIPIENT,
        TOKEN,
        10,
        Symbol::empty(),
        Priority::Normal,
        vec![],
        ConditionLogic::And,
        4,
        time,
    )
    .unwrap();
    VaultDAO::approve_proposal(env, ADMIN, id).unwrap();
    VaultDAO::approve_proposal(env, SIGNER, id).unwrap();
    id
}

fn text(byte: u8, len: usize) -> Text {
    Text { bytes: vec![byte; len] }
}

fn template(env: &mut Env, name: u128, amount: i128, min: i128, max: i128) -> Result<u64, VaultError> {
    VaultDAO::create_template(
        env,
        ADMIN,
        Symbol::short(name),
        Symbol::empty(),
        RECIPIENT,
        TOKEN,
        amount,
        Symbol::empty(),
        min,
        max,
    )
}

fn overrides() -> TemplateOverrides {
    TemplateOverrides {
        override_recipient: false,
        recipient: MEMBER,
        override_amount: false,
        amount: 0,
        override_memo: false,
        memo: Symbol::empty(),
        override_priority: false,
        priority: Priority::High,
    }
}

fn stage(amount: i128) -> FundingMilestone {
    FundingMilestone {
        description: Symbol::empty(),
        amount,
        status: FundingMilestoneStatus::Pending,
        submitted_at: 0,
        verified_at: 0,
        verified_by: None,
    }
}

fn fund(env: &mut Env, total: i128, amounts: Vec<i128>) -> Result<u64, VaultError> {
    VaultDAO::create_funding_round(
        env,
        TREASURER,
        RECIPIENT,
        TOKEN,
        total,
        amounts.into_iter().map(stage).collect(),
    )
}

#[test]
fn templates_have_unique_names_and_sound_amounts() {
    let mut env = vault();
    assert_eq!(template(&mut env, 1, 0, 0, 0), Err(VaultError::TemplateValidationFailed));
    assert_eq!(template(&mut env, 1, 50, 60, 100), Err(VaultError::TemplateValidationFailed));
    assert_eq!(template(&mut env, 1, 50, 60, 40), Err(VaultError::TemplateValidationFailed));
    assert_eq!(template(&mut env, 1, 50, 10, 100), Ok(1));
    assert_eq!(template(&mut env, 1, 50, 10, 100), Err(VaultError::AlreadyInitialized));
    assert_eq!(VaultDAO::get_template_id_by_name(&env, Symbol::short(1)), Some(1));
    assert_eq!(
        VaultDAO::create_template(
            &mut env,
            TREASURER,
            Symbol::short(2),
            Symbol::empty(),
            RECIPIENT,
            TOKEN,
            5,
            Symbol::empty(),
            0,
            0
        ),
        Err(VaultError::InsufficientRole)
    );
}

#[test]
fn templates_are_proposed_from_with_overrides() {
    let mut env = vault();
    template(&mut env, 1, 50, 10, 100).unwrap();
    let id = VaultDAO::create_from_template(&mut env, TREASURER, 1, overrides()).unwrap();
    let proposal = VaultDAO::get_proposal(&env, id).unwrap();
    assert_eq!((proposal.amount, proposal.recipient), (50, RECIPIENT));
    assert_eq!(proposal.expires_at, 100 + 100_000);
    let mut changed = overrides();
    changed.override_amount = true;
    changed.amount = 101;
    assert_eq!(
        VaultDAO::create_from_template(&mut env, TREASURER, 1, changed),
        Err(VaultError::TemplateValidationFailed)
    );
    changed.amount = 100;
    changed.override_recipient = true;
    changed.override_priority = true;
    let id = VaultDAO::create_from_template(&mut env, TREASURER, 1, changed).unwrap();
    let proposal = VaultDAO::get_proposal(&env, id).unwrap();
    assert_eq!((proposal.amount, proposal.recipient), (100, MEMBER));
    assert_eq!(proposal.priority, Priority::High);
    assert_eq!(
        VaultDAO::create_from_template(&mut env, MEMBER, 1, overrides()),
        Err(VaultError::InsufficientRole)
    );
    assert_eq!(
        VaultDAO::create_from_template(&mut env, TREASURER, 9, overrides()),
        Err(VaultError::TemplateNotFound)
    );
}

#[test]
fn inactive_templates_are_not_used() {
    let mut env = vault();
    template(&mut env, 1, 50, 0, 0).unwrap();
    assert_eq!(
        VaultDAO::set_template_status(&mut env, MEMBER, 1, false),
        Err(VaultError::InsufficientRole)
    );
    VaultDAO::set_template_status(&mut env, ADMIN, 1, false).unwrap();
    assert_eq!(
        VaultDAO::create_from_template(&mut env, TREASURER, 1, overrides()),
        Err(VaultError::TemplateInactive)
    );
    VaultDAO::set_template_status(&mut env, ADMIN, 1, true).unwrap();
    assert_eq!(VaultDAO::get_template(&env, 1).unwrap().version, 3);
    assert_eq!(VaultDAO::create_from_template(&mut env, TREASURER, 1, overrides()), Ok(1));
    VaultDAO::deactivate_template(&mut env, ADMIN, 1).unwrap();
    assert!(!VaultDAO::get_template(&env, 1).unwrap().is_active);
}

#[test]
fn templates_are_updated_by_creator_or_admin() {
    let mut env = vault();
    template(&mut env, 1, 50, 0, 0).unwrap();
    let update = |env: &mut Env, who: Address, amount: i128| {
        VaultDAO::update_template(
            env,
            who,
            1,
            Symbol::empty(),
            MEMBER,
            amount,
            Symbol::empty(),
            0,
            60,
        )
    };
    assert_eq!(update(&mut env, MEMBER, 5), Err(VaultError::Unauthorized));
    assert_eq!(update(&mut env, ADMIN, 61), Err(VaultError::TemplateValidationFailed));
    assert_eq!(update(&mut env, ADMIN, 60), Ok(()));
    let template = VaultDAO::get_template(&env, 1).unwrap();
    assert_eq!((template.version, template.amount, template.recipient), (2, 60, MEMBER));
    assert!(VaultDAO::validate_template_params(&env, 5, 0, 5));
    assert!(!VaultDAO::validate_template_params(&env, 6, 0, 5));
}

#[test]
fn comments_are_threaded_and_edited_by_their_author() {
    let mut env = vault();
    let proposal = propose(&mut env, 10);
    assert_eq!(
        VaultDAO::add_comment(&mut env, MEMBER, 9, Symbol::short(1), 0),
        Err(VaultError::ProposalNotFound)
    );
    let first = VaultDAO::add_comment(&mut env, MEMBER, proposal, Symbol::short(1), 0).unwrap();
    assert_eq!(
        VaultDAO::add_comment(&mut env, SIGNER, proposal, Symbol::short(2), 7),
        Err(VaultError::ProposalNotFound)
    );
    let answer =
        VaultDAO::add_comment(&mut env, SIGNER, proposal, Symbol::short(2), first).unwrap();
    assert_eq!(VaultDAO::get_comment(&env, answer).unwrap().parent_id, first);
    assert_eq!(
        VaultDAO::edit_comment(&mut env, SIGNER, first, Symbol::short(3)),
        Err(VaultError::Unauthorized)
    );
    env.ledger.sequence = 120;
    VaultDAO::edit_comment(&mut env, MEMBER, first, Symbol::short(3)).unwrap();
    let comments = VaultDAO::get_proposal_comments(&env, proposal);
    assert_eq!(comments.len(), 2);
    assert_eq!((comments[0].text, comments[0].edited_at), (Symbol::short(3), 120));
}

#[test]
fn attachments_are_bounded() {
    let mut env = vault();
    let id = propose(&mut env, 10);
    assert_eq!(
        VaultDAO::add_attachment(&mut env, MEMBER, id, text(1, 46)),
        Err(VaultError::Unauthorized)
    );
    assert_eq!(
        VaultDAO::add_attachment(&mut env, TREASURER, id, text(1, 45)),
        Err(VaultError::AttachmentHashInvalid)
    );
    assert_eq!(
        VaultDAO::add_attachment(&mut env, TREASURER, id, text(1, 129)),
        Err(VaultError::AttachmentHashInvalid)
    );
    for i in 0..10 {
        assert_eq!(VaultDAO::add_attachment(&mut env, ADMIN, id, text(i, 46)), Ok(()));
    }
    assert_eq!(
        VaultDAO::add_attachment(&mut env, ADMIN, id, text(77, 46)),
        Err(VaultError::TooManyAttachments)
    );
    VaultDAO::remove_attachment(&mut env, ADMIN, id, 0).unwrap();
    assert_eq!(
        VaultDAO::add_attachment(&mut env, ADMIN, id, text(1, 46)),
        Err(VaultError::AttachmentHashInvalid)
    );
    assert_eq!(
        VaultDAO::remove_attachment(&mut env, ADMIN, id, 9),
        Err(VaultError::ProposalNotFound)
    );
    assert_eq!(VaultDAO::get_attachments(&env, id).len(), 9);
    assert_eq!(VaultDAO::get_proposal(&env, id).unwrap().attachments.len(), 9);
}

#[test]
fn metadata_is_bounded() {
    let mut env = vault();
    let id = propose(&mut env, 10);
    let key = Symbol::short(1);
    assert_eq!(
        VaultDAO::set_proposal_metadata(&mut env, TREASURER, id, key, text(1, 0)),
        Err(VaultError::MetadataValueInvalid)
    );
    assert_eq!(
        VaultDAO::set_proposal_metadata(&mut env, TREASURER, id, key, text(1, 257)),
        Err(VaultError::MetadataValueInvalid)
    );
    for i in 0..16 {
        VaultDAO::set_proposal_metadata(&mut env, TREASURER, id, Symbol::short(i), text(1, 256))
            .unwrap();
    }
    assert_eq!(
        VaultDAO::set_proposal_metadata(&mut env, TREASURER, id, Symbol::short(99), text(1, 1)),
        Err(VaultError::ExceedsProposalLimit)
    );
    VaultDAO::set_proposal_metadata(&mut env, TREASURER, id, key, text(9, 2)).unwrap();
    let value = VaultDAO::get_proposal_metadata_value(&env, id, key).unwrap().unwrap();
    assert_eq!(value.bytes, vec![9, 9]);
    VaultDAO::remove_proposal_metadata(&mut env, TREASURER, id, key).unwrap();
    assert!(VaultDAO::get_proposal_metadata_value(&env, id, key).unwrap().is_none());
    assert_eq!(VaultDAO::get_proposal_metadata(&env, id).unwrap().len(), 15);
}

#[test]
fn tags_are_bounded_and_found() {
    let mut env = vault();
    let id = propose(&mut env, 10);
    let other = propose(&mut env, 10);
    assert_eq!(
        VaultDAO::add_proposal_tag(&mut env, TREASURER, id, Symbol::empty()),
        Err(VaultError::MetadataValueInvalid)
    );
    for i in 1..11 {
        VaultDAO::add_proposal_tag(&mut env, TREASURER, id, Symbol::short(i)).unwrap();
    }
    assert_eq!(VaultDAO::add_proposal_tag(&mut env, TREASURER, id, Symbol::short(5)), Ok(()));
    assert_eq!(
        VaultDAO::add_proposal_tag(&mut env, TREASURER, id, Symbol::short(11)),
        Err(VaultError::TooManyTags)
    );
    VaultDAO::add_proposal_tag(&mut env, ADMIN, other, Symbol::short(5)).unwrap();
    assert_eq!(VaultDAO::get_proposals_by_tag(&env, Symbol::short(5)), vec![id, other]);
    VaultDAO::remove_proposal_tag(&mut env, ADMIN, id, Symbol::short(5)).unwrap();
    assert_eq!(VaultDAO::get_proposals_by_tag(&env, Symbol::short(5)), vec![other]);
    assert_eq!(
        VaultDAO::remove_proposal_tag(&mut env, ADMIN, id, Symbol::short(5)),
        Err(VaultError::ProposalNotFound)
    );
    assert_eq!(VaultDAO::get_proposal_tags(&env, id).unwrap().len(), 9);
}

#[test]
fn hooks_are_registered_once() {
    let mut env = vault();
    let hook = Address { contract: true, hi: 0, lo: 50 };
    assert_eq!(
        VaultDAO::register_pre_hook(&mut env, MEMBER, hook),
        Err(VaultError::Unauthorized)
    );
    VaultDAO::register_pre_hook(&mut env, ADMIN, hook).unwrap();
    assert_eq!(
        VaultDAO::register_pre_hook(&mut env, ADMIN, hook),
        Err(VaultError::SignerAlreadyExists)
    );
    assert_eq!(VaultDAO::get_pre_hooks(&env), Ok(vec![hook]));
    VaultDAO::remove_pre_hook(&mut env, ADMIN, hook).unwrap();
    assert_eq!(
        VaultDAO::remove_pre_hook(&mut env, ADMIN, hook),
        Err(VaultError::SignerNotFound)
    );
    VaultDAO::register_post_hook(&mut env, ADMIN, hook).unwrap();
    assert_eq!(VaultDAO::get_post_hooks(&env), Ok(vec![hook]));
    VaultDAO::remove_post_hook(&mut env, ADMIN, hook).unwrap();
    assert_eq!(VaultDAO::get_post_hooks(&env), Ok(vec![]));
}

#[test]
fn funding_rounds_add_up() {
    let mut env = vault();
    assert_eq!(fund(&mut env, 0, vec![1]), Err(VaultError::InvalidAmount));
    assert_eq!(fund(&mut env, 5, vec![]), Err(VaultError::InvalidAmount));
    assert_eq!(fund(&mut env, 5, vec![5, 0]), Err(VaultError::InvalidAmount));
    assert_eq!(fund(&mut env, 5, vec![2, 2]), Err(VaultError::InvalidAmount));
    assert_eq!(
        fund(&mut env, i128::MAX, vec![i128::MAX, i128::MAX]),
        Err(VaultError::InvalidAmount)
    );
    assert_eq!(fund(&mut env, 5, vec![2, 3]), Ok(1));
    assert_eq!(
        VaultDAO::create_funding_round(&mut env, MEMBER, RECIPIENT, TOKEN, 1, vec![stage(1)]),
        Err(VaultError::InsufficientRole)
    );
}

#[test]
fn funding_rounds_follow_their_rules() {
    let mut env = vault();
    let rules = FundingRoundConfig {
        enabled: true,
        min_milestones: 2,
        max_milestones: 3,
        min_milestone_amount: 4,
    };
    assert_eq!(
        VaultDAO::set_funding_round_config(&mut env, MEMBER, rules),
        Err(VaultError::NotASigner)
    );
    VaultDAO::set_funding_round_config(&mut env, SIGNER, rules).unwrap();
    assert_eq!(VaultDAO::get_funding_round_config(&env), Some(rules));
    assert_eq!(fund(&mut env, 10, vec![10]), Err(VaultError::InvalidAmount));
    assert_eq!(fund(&mut env, 20, vec![5, 5, 5, 5]), Err(VaultError::InvalidAmount));
    assert_eq!(fund(&mut env, 10, vec![7, 3]), Err(VaultError::InvalidAmount));
    assert_eq!(fund(&mut env, 10, vec![6, 4]), Ok(1));
    let mut off = rules;
    off.enabled = false;
    VaultDAO::set_funding_round_config(&mut env, SIGNER, off).unwrap();
    assert_eq!(fund(&mut env, 10, vec![6, 4]), Err(VaultError::InvalidAmount));
}

#[test]
fn milestones_are_paid_once_verified() {
    let mut env = vault();
    let id = fund(&mut env, 10, vec![6, 4]).unwrap();
    assert_eq!(
        VaultDAO::submit_milestone(&mut env, RECIPIENT, id, 0),
        Err(VaultError::InvalidAmount)
    );
    assert_eq!(
        VaultDAO::approve_funding_round(&mut env, TREASURER, id),
        Err(VaultError::InsufficientRole)
    );
    VaultDAO::approve_funding_round(&mut env, ADMIN, id).unwrap();
    assert_eq!(
        VaultDAO::approve_funding_round(&mut env, ADMIN, id),
        Err(VaultError::InvalidAmount)
    );
    assert_eq!(
        VaultDAO::submit_milestone(&mut env, MEMBER, id, 0),
        Err(VaultError::Unauthorized)
    );
    assert_eq!(
        VaultDAO::submit_milestone(&mut env, RECIPIENT, id, 2),
        Err(VaultError::InvalidAmount)
    );
    VaultDAO::submit_milestone(&mut env, RECIPIENT, id, 0).unwrap();
    assert_eq!(
        VaultDAO::submit_milestone(&mut env, RECIPIENT, id, 0),
        Err(VaultError::InvalidAmount)
    );
    assert_eq!(
        VaultDAO::verify_milestone(&mut env, SIGNER, id, 0),
        Err(VaultError::InsufficientRole)
    );
    assert_eq!(
        VaultDAO::verify_milestone(&mut env, ADMIN, id, 1),
        Err(VaultError::InvalidAmount)
    );
    assert_eq!(VaultDAO::verify_milestone(&mut env, ADMIN, id, 0), Ok(6));
    assert_eq!(
        VaultDAO::verify_milestone(&mut env, ADMIN, id, 0),
        Err(VaultError::InvalidAmount)
    );
    assert!(env
        .actions
        .contains(&Action::Transfer { token: TOKEN, to: RECIPIENT, amount: 6 }));
    VaultDAO::submit_milestone(&mut env, RECIPIENT, id, 1).unwrap();
    assert_eq!(VaultDAO::verify_milestone(&mut env, ADMIN, id, 1), Ok(4));
    let round = VaultDAO::get_funding_round(&env, id).unwrap();
    assert_eq!((round.status, round.released_amount), (FundingRoundStatus::Completed, 10));
    assert!(round.all_milestones_verified());
    assert_eq!(round.milestones[1].verified_by, Some(ADMIN));
    assert_eq!(
        VaultDAO::cancel_funding_round(&mut env, ADMIN, id),
        Err(VaultError::InvalidAmount)
    );
}

#[test]
fn cancelled_rounds_end() {
    let mut env = vault();
    let id = fund(&mut env, 10, vec![6, 4]).unwrap();
    assert_eq!(
        VaultDAO::cancel_funding_round(&mut env, TREASURER, id),
        Err(VaultError::InsufficientRole)
    );
    assert_eq!(VaultDAO::cancel_funding_round(&mut env, ADMIN, id), Ok(()));
    assert_eq!(
        VaultDAO::approve_funding_round(&mut env, ADMIN, id),
        Err(VaultError::InvalidAmount)
    );
    assert_eq!(VaultDAO::get_proposal_funding_rounds(&env, 0), Vec::<u64>::new());
}

#[test]
fn disputes_are_raised_by_those_concerned() {
    let mut env = vault();
    let id = propose(&mut env, 10);
    let escrow = VaultDAO::create_escrow(
        &mut env,
        MEMBER,
        RECIPIENT,
        TOKEN,
        5,
        vec![Milestone {
            id: 1,
            percentage: 100,
            release_ledger: 0,
            is_completed: false,
            completion_ledger: 0,
        }],
        10,
        ADMIN,
    )
    .unwrap();
    let raise = |env: &mut Env, who: Address, escrow: Option<u64>| {
        VaultDAO::raise_dispute(env, who, id, escrow, Symbol::short(1), Texts::new())
    };
    assert_eq!(raise(&mut env, MEMBER, None), Err(VaultError::NotASigner));
    assert_eq!(raise(&mut env, SIGNER, Some(escrow)), Err(VaultError::Unauthorized));
    assert_eq!(raise(&mut env, SIGNER, Some(8)), Err(VaultError::ProposalNotFound));
    assert_eq!(raise(&mut env, MEMBER, Some(escrow)), Ok(1));
    assert_eq!(raise(&mut env, SIGNER, None), Ok(2));
    assert_eq!(VaultDAO::get_proposal_disputes(&env, id), vec![1, 2]);
    VaultDAO::cancel_proposal(&mut env, TREASURER, id, Symbol::empty()).unwrap();
    assert_eq!(raise(&mut env, SIGNER, None), Err(VaultError::ProposalAlreadyExecuted));
}

#[test]
fn disputes_are_resolved_by_admins_once() {
    let mut env = vault();
    let id = propose(&mut env, 10);
    let dispute = VaultDAO::raise_dispute(
        &mut env,
        SIGNER,
        id,
        None,
        Symbol::short(1),
        Texts::new(),
    )
    .unwrap();
    assert_eq!(
        VaultDAO::resolve_dispute(&mut env, SIGNER, dispute, DisputeResolution::Compromise),
        Err(VaultError::Unauthorized)
    );
    VaultDAO::resolve_dispute(&mut env, ADMIN, dispute, DisputeResolution::Compromise).unwrap();
    let resolved = VaultDAO::get_dispute(&env, dispute).unwrap();
    assert_eq!((resolved.status, resolved.arbitrator), (DisputeStatus::Resolved, ADMIN));
    assert_eq!(
        VaultDAO::resolve_dispute(&mut env, ADMIN, dispute, DisputeResolution::Dismissed),
        Err(VaultError::ProposalAlreadyExecuted)
    );
    assert_eq!(
        env.actions.last(),
        Some(&Action::Publish(Event::DisputeResolved {
            dispute_id: dispute,
            admin: ADMIN,
            resolution: 2
        }))
    );
}

#[test]
fn scheduled_proposals_are_listed_by_time() {
    let mut env = vault();
    let late = scheduled(&mut env, 900);
    let early = scheduled(&mut env, 300);
    let same = scheduled(&mut env, 900);
    let ids = |list: Vec<vault_dao::types::Proposal>| -> Vec<u64> {
        list.into_iter().map(|p| p.id).collect()
    };
    assert_eq!(ids(VaultDAO::get_scheduled_proposals(&env)), vec![early, late, same]);
    assert_eq!(
        ids(VaultDAO::get_scheduled_proposals_in_range(&env, 301, 900)),
        vec![late, same]
    );
    assert_eq!(
        ids(VaultDAO::get_scheduled_proposals_in_range(&env, 300, 899)),
        vec![early]
    );
}

#[test]
fn scheduled_proposals_are_executed_when_due() {
    let mut env = vault();
    let id = scheduled(&mut env, 300);
    assert_eq!(
        VaultDAO::execute_scheduled_proposal(&mut env, MEMBER, id, true, true),
        Err(VaultError::TimelockNotExpired)
    );
    env.ledger.sequence = 300;
    assert_eq!(
        VaultDAO::execute_scheduled_proposal(&mut env, MEMBER, id, false, true),
        Err(VaultError::InsufficientBalance)
    );
    assert_eq!(
        VaultDAO::get_proposal(&env, id).unwrap().status,
        ProposalStatus::Scheduled
    );
    assert_eq!(
        VaultDAO::execute_scheduled_proposal(&mut env, MEMBER, id, true, false),
        Ok(())
    );
    assert_eq!(VaultDAO::get_proposal(&env, id).unwrap().status, ProposalStatus::Executed);
    assert!(env.actions.contains(&Action::TriedTransfer {
        token: TOKEN,
        to: TREASURER,
        amount: 4,
        done: false,
    }));
    assert_eq!(VaultDAO::get_metrics(&env).total_execution_time_ledgers, 200);
    assert_eq!(
        VaultDAO::execute_scheduled_proposal(&mut env, MEMBER, id, true, true),
        Err(VaultError::TimelockNotExpired)
    );
}

#[test]
fn scheduled_proposals_are_cancelled_by_signers_and_proposer() {
    let mut env = vault();
    let id = scheduled(&mut env, 300);
    assert_eq!(
        VaultDAO::cancel_scheduled_proposal(&mut env, MEMBER, id),
        Err(VaultError::Unauthorized)
    );
    assert_eq!(VaultDAO::cancel_scheduled_proposal(&mut env, OTHER_SIGNER, id), Ok(()));
    assert_eq!(
        VaultDAO::cancel_scheduled_proposal(&mut env, TREASURER, id),
        Err(VaultError::TimelockNotExpired)
    );
    assert_eq!(VaultDAO::get_scheduled_proposals(&env).len(), 0);
}

#[test]
fn scheduled_proposals_need_their_approvals_still() {
    let mut env = vault();
    let id = scheduled(&mut env, 300);
    VaultDAO::update_threshold(&mut env, ADMIN, 3).unwrap();
    env.ledger.sequence = 300;
    assert_eq!(
        VaultDAO::execute_scheduled_proposal(&mut env, MEMBER, id, true, true),
        Err(VaultError::ProposalNotApproved)
    );
}

#[test]
fn ledgers_and_times_convert() {
    assert_eq!(VaultDAO::ledger_to_timestamp(12), 60);
    assert_eq!(VaultDAO::timestamp_to_ledger(64), 12);
    assert_eq!(VaultDAO::timestamp_to_ledger(VaultDAO::ledger_to_timestamp(777)), 777);
}

#[test]
fn ranges_filter_the_scheduled_list() {
    let mut env = vault();
    for time in [700, 300, 500, 300] {
        scheduled(&mut env, time);
    }
    let within = |p: &vault_dao::types::Proposal| matches!(p.execution_time, Some(t) if 300 <= t && t <= 500);
    let all: Vec<u64> =
        VaultDAO::get_scheduled_proposals(&env).iter().filter(|p| within(p)).map(|p| p.id).collect();
    let ranged: Vec<u64> = VaultDAO::get_scheduled_proposals_in_range(&env, 300, 500)
        .iter()
        .map(|p| p.id)
        .collect();
    assert_eq!(ranged, all);
    assert_eq!(ranged, vec![2, 4, 3]);
    assert_eq!(VaultDAO::get_scheduled_proposals_in_range(&env, 500, 300).len(), 0);
}
