//! What holds of numbers that others rely on: codes, defaults, bounds and hashes.

use vstd::prelude::*;

use crate::errors::VaultError;
use crate::types::{
    AuditAction, DisputeResolution, GasConfig, InsuranceConfig, NotificationPreferences,
    Permission, Priority, Reputation, ReputationConfig, Role, StakingConfig, StreamStatus,
    SubscriptionTier, TimeWeightedConfig, VaultMetrics,
};

verus! {

/// No two errors are reported under the same number.
pub proof fn law_error_numbers_tell_errors_apart(a: VaultError, b: VaultError)
    requires
        a != b,
    ensures
        a.spec_code() != b.spec_code(),
{
}

/// Errors are reported under numbers that stay the same.
pub proof fn law_error_numbers_are_fixed()
    ensures
        VaultError::AlreadyInitialized.spec_code() == 1,
        VaultError::NotInitialized.spec_code() == 2,
        VaultError::NoSigners.spec_code() == 3,
        VaultError::ThresholdTooLow.spec_code() == 4,
        VaultError::ThresholdTooHigh.spec_code() == 5,
        VaultError::QuorumTooHigh.spec_code() == 6,
        VaultError::QuorumNotReached.spec_code() == 7,
        VaultError::Unauthorized.spec_code() == 10,
        VaultError::NotASigner.spec_code() == 11,
        VaultError::InsufficientRole.spec_code() == 12,
        VaultError::VoterNotInSnapshot.spec_code() == 13,
        VaultError::ProposalNotFound.spec_code() == 20,
        VaultError::ProposalNotPending.spec_code() == 21,
        VaultError::ProposalNotApproved.spec_code() == 22,
        VaultError::ProposalAlreadyExecuted.spec_code() == 23,
        VaultError::ProposalExpired.spec_code() == 24,
        VaultError::ProposalAlreadyCancelled.spec_code() == 25,
        VaultError::AlreadyApproved.spec_code() == 30,
        VaultError::InvalidAmount.spec_code() == 40,
        VaultError::ExceedsProposalLimit.spec_code() == 41,
        VaultError::ExceedsDailyLimit.spec_code() == 42,
        VaultError::ExceedsWeeklyLimit.spec_code() == 43,
        VaultError::VelocityLimitExceeded.spec_code() == 50,
        VaultError::TimelockNotExpired.spec_code() == 60,
        VaultError::InsufficientBalance.spec_code() == 70,
        VaultError::SignerAlreadyExists.spec_code() == 80,
        VaultError::SignerNotFound.spec_code() == 81,
        VaultError::CannotRemoveSigner.spec_code() == 82,
        VaultError::RecipientNotWhitelisted.spec_code() == 90,
        VaultError::RecipientBlacklisted.spec_code() == 91,
        VaultError::AddressAlreadyOnList.spec_code() == 92,
        VaultError::AddressNotOnList.spec_code() == 93,
        VaultError::InsuranceInsufficient.spec_code() == 110,
        VaultError::BatchTooLarge.spec_code() == 130,
        VaultError::ConditionsNotMet.spec_code() == 140,
        VaultError::IntervalTooShort.spec_code() == 150,
        VaultError::DexError.spec_code() == 160,
        VaultError::RetryError.spec_code() == 168,
        VaultError::TemplateNotFound.spec_code() == 210,
        VaultError::TemplateInactive.spec_code() == 211,
        VaultError::TemplateValidationFailed.spec_code() == 212,
        VaultError::AttachmentHashInvalid.spec_code() == 230,
        VaultError::TooManyAttachments.spec_code() == 231,
        VaultError::TooManyTags.spec_code() == 232,
        VaultError::MetadataValueInvalid.spec_code() == 233,
        VaultError::SubscriptionNotFound.spec_code() == 240,
        VaultError::SubscriptionAlreadyCancelled.spec_code() == 241,
        VaultError::RenewalNotDue.spec_code() == 242,
        VaultError::NotSubscriberOrAdmin.spec_code() == 243,
        VaultError::SubscriptionNotActive.spec_code() == 244,
        VaultError::CircularDependency.spec_code() == 300,
        VaultError::DependencyDepthExceeded.spec_code() == 301,
        VaultError::BridgeError.spec_code() == 400,
{
}

/// Roles, priorities and other choices are stored and reported by their position, each by its own.
pub proof fn law_choices_are_told_apart(
    roles: (Role, Role),
    priorities: (Priority, Priority),
    permissions: (Permission, Permission),
    tiers: (SubscriptionTier, SubscriptionTier),
    actions: (AuditAction, AuditAction),
)
    ensures
        roles.0.spec_code() == roles.1.spec_code() <==> roles.0 == roles.1,
        priorities.0.spec_code() == priorities.1.spec_code() <==> priorities.0 == priorities.1,
        permissions.0.spec_code() == permissions.1.spec_code() <==> permissions.0 == permissions.1,
        tiers.0.spec_code() == tiers.1.spec_code() <==> tiers.0 == tiers.1,
        actions.0.spec_code() == actions.1.spec_code() <==> actions.0 == actions.1,
        Role::Member.spec_code() < Role::Treasurer.spec_code() < Role::Admin.spec_code() == 2,
        Priority::Low.spec_code() == 0,
        Priority::Low.spec_code() < Priority::Normal.spec_code() < Priority::High.spec_code()
            < Priority::Critical.spec_code() == 3,
        SubscriptionTier::Basic.spec_code() == 0,
        SubscriptionTier::Basic.spec_code() < SubscriptionTier::Standard.spec_code()
            < SubscriptionTier::Premium.spec_code() < SubscriptionTier::Enterprise.spec_code()
            == 3,
        StreamStatus::Active.spec_code() == 0,
        StreamStatus::Paused.spec_code() == 1,
        StreamStatus::Completed.spec_code() == 2,
        StreamStatus::Cancelled.spec_code() == 3,
        DisputeResolution::InFavorOfProposer.spec_code() == 0,
        DisputeResolution::InFavorOfDisputer.spec_code() == 1,
        DisputeResolution::Compromise.spec_code() == 2,
        DisputeResolution::Dismissed.spec_code() == 3,
{
}

/// What a vault assumes before anything is configured: no insurance, stake, cost limit or lock is
/// asked for, and a newcomer has half of the highest score.
pub proof fn law_defaults_ask_for_nothing()
    ensures
        !InsuranceConfig::spec_default().enabled,
        InsuranceConfig::spec_default().min_insurance_bps == 100,
        InsuranceConfig::spec_default().slash_percentage == 50,
        InsuranceConfig::spec_default().min_amount == 0,
        !StakingConfig::spec_default().enabled,
        StakingConfig::spec_default().slash_percentage <= 100,
        StakingConfig::spec_default().reputation_discount_percentage <= 100,
        !GasConfig::spec_default().enabled,
        GasConfig::spec_default().default_gas_limit == 0,
        GasConfig::spec_default().base_cost == 1_000,
        GasConfig::spec_default().condition_cost == 500,
        !TimeWeightedConfig::spec_default().enabled,
        TimeWeightedConfig::spec_default().min_lock_duration == 17_280,
        TimeWeightedConfig::spec_default().max_lock_duration == 6_307_200,
        TimeWeightedConfig::spec_default().early_unlock_penalty_bps == 1_000,
        Reputation::spec_default().score == 500,
        Reputation::spec_default().proposals_executed == 0,
        Reputation::spec_default().proposals_created == 0,
        Reputation::spec_default().approvals_given == 0,
        ReputationConfig::spec_default().decay_half_life_ledgers == 518_400,
        ReputationConfig::spec_default().decay_min_score == 100,
        NotificationPreferences::spec_default().notify_on_proposal,
        NotificationPreferences::spec_default().notify_on_approval,
        NotificationPreferences::spec_default().notify_on_execution,
        NotificationPreferences::spec_default().notify_on_rejection,
        NotificationPreferences::spec_default().notify_on_expiry,
        VaultMetrics::spec_default().total_proposals == 0,
        VaultMetrics::spec_default().executed_count == 0,
{
}

/// Bounds fit together: a day of ledgers is a day of seconds, proposals last a week of them, and
/// what is bounded is bounded by these numbers.
pub proof fn law_bounds_fit_together()
    ensures
        crate::constants::LEDGER_INTERVAL_SECONDS == 5,
        crate::locks::LEDGERS_PER_DAY * crate::constants::LEDGER_INTERVAL_SECONDS == 86_400,
        crate::constants::PROPOSAL_EXPIRY_LEDGERS == 7 * crate::locks::LEDGERS_PER_DAY,
        crate::constants::MIN_RECURRING_INTERVAL * crate::constants::LEDGER_INTERVAL_SECONDS
            == 3_600,
        crate::retries::MAX_BACKOFF == crate::constants::PROPOSAL_EXPIRY_LEDGERS,
        crate::constants::MAX_BATCH_SIZE == 10,
        crate::batches::MAX_BATCH_OPS == 32,
        crate::bridge::MAX_CROSS_VAULT_ACTIONS == 5,
        crate::delegation::MAX_DELEGATION_DEPTH == 10,
        crate::delegation::MAX_REPRESENTATION_DEPTH == 5,
        crate::permissions::MAX_DELEGATION_DEPTH == 3,
        crate::dependencies::MAX_DEP_DEPTH == 16,
        crate::audit::MAX_AUDIT_PAGE == 50,
        crate::templates::TEMPLATE_EXPIRY_LEDGERS == 100_000,
        crate::batches::BATCH_BASE_GAS == 100_000,
        crate::batches::BATCH_OPERATION_GAS == 50_000,
{
}

/// The hash of an audit entry mixes in, one after the other, the hash before it, its action, the
/// length of an address, its target and its time: each step multiplies by 31 and adds, and wraps
/// around.
pub proof fn law_audit_hashes_mix_everything_in(
    action: AuditAction,
    target: u64,
    timestamp: u64,
    prev_hash: u64,
)
    ensures
        ({
            let word = 0x1_0000_0000_0000_0000int;
            let a = (prev_hash * 31 + action.spec_code()) % word;
            let b = (a * 31 + 56) % word;
            let c = (b * 31 + target) % word;
            let d = (c * 31 + timestamp) % word;
            crate::storage::audit_hash(action, target, timestamp, prev_hash) == d
        }),
{
}

} // verus!
