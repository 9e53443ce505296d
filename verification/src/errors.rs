//! Why a call on a vault was refused.

use vstd::prelude::*;

verus! {

/// Why a call on a vault was refused.
#[derive(Clone, Copy, PartialEq, Eq, Structural, Debug)]
pub enum VaultError {
    /// Vault has already been initialized
    AlreadyInitialized,
    /// Vault has not been initialized yet
    NotInitialized,
    /// No signers provided during initialization
    NoSigners,
    /// Threshold is below the minimum required (must be >= 1)
    ThresholdTooLow,
    /// Threshold exceeds the number of signers
    ThresholdTooHigh,
    /// Quorum exceeds the number of signers
    QuorumTooHigh,
    /// Quorum has not been reached for the proposal
    QuorumNotReached,
    /// Caller is not authorized to perform this action
    Unauthorized,
    /// Address is not a registered signer
    NotASigner,
    /// Caller does not have the required role for this operation
    InsufficientRole,
    /// Voter is not in the voting snapshot
    VoterNotInSnapshot,
    /// Proposal with the given ID does not exist
    ProposalNotFound,
    /// Proposal is not in Pending status
    ProposalNotPending,
    /// Proposal has not been approved yet
    ProposalNotApproved,
    /// Proposal has already been executed
    ProposalAlreadyExecuted,
    /// Proposal has expired and can no longer be executed
    ProposalExpired,
    /// Proposal has been cancelled
    ProposalAlreadyCancelled,
    /// Signer has already approved this proposal
    AlreadyApproved,
    /// Amount is invalid (zero, negative, or exceeds limits)
    InvalidAmount,
    /// Amount exceeds the single-proposal spending limit
    ExceedsProposalLimit,
    /// Amount exceeds the daily spending limit
    ExceedsDailyLimit,
    /// Amount exceeds the weekly spending limit
    ExceedsWeeklyLimit,
    /// Velocity limit has been exceeded
    VelocityLimitExceeded,
    /// Timelock period has not expired yet
    TimelockNotExpired,
    /// Vault has insufficient balance for the transfer
    InsufficientBalance,
    /// Signer already exists in the signer set
    SignerAlreadyExists,
    /// Signer does not exist in the signer set
    SignerNotFound,
    /// Cannot remove signer as it would violate threshold requirements
    CannotRemoveSigner,
    /// Recipient address is not on the whitelist
    RecipientNotWhitelisted,
    /// Recipient address is on the blacklist
    RecipientBlacklisted,
    /// Address is already on the list
    AddressAlreadyOnList,
    /// Address is not on the list
    AddressNotOnList,
    /// Insurance pool has insufficient funds
    InsuranceInsufficient,
    /// Batch size exceeds the maximum allowed
    BatchTooLarge,
    /// Execution conditions have not been met
    ConditionsNotMet,
    /// Recurring payment interval is too short
    IntervalTooShort,
    /// DEX operation failed
    DexError,
    /// Retry operation failed
    RetryError,
    /// Template with the given ID does not exist
    TemplateNotFound,
    /// Template is not in active status
    TemplateInactive,
    /// Template validation failed
    TemplateValidationFailed,
    /// Attachment hash is too short or too long to be a valid CID
    AttachmentHashInvalid,
    /// Proposal has reached the maximum number of attachments
    TooManyAttachments,
    /// Proposal has reached the maximum number of tags (MAX_TAGS = 10)
    TooManyTags,
    /// Metadata value is empty or exceeds the maximum allowed length
    MetadataValueInvalid,
    /// Subscription ID does not exist
    SubscriptionNotFound,
    /// Subscription has already been cancelled
    SubscriptionAlreadyCancelled,
    /// Renewal attempted before next_renewal_ledger has been reached
    RenewalNotDue,
    /// Caller is neither the subscriber nor an Admin
    NotSubscriberOrAdmin,
    /// Subscription is not in Active status (e.g. Cancelled / Suspended)
    SubscriptionNotActive,
    /// Circular dependency detected in proposal dependencies
    CircularDependency,
    /// Dependency graph traversal exceeded max allowed depth
    DependencyDepthExceeded,
    /// Bridge operation failed or is misconfigured
    BridgeError,
}

impl VaultError {
    /// The number under which the error is reported.
    pub open spec fn spec_code(self) -> u32 {
        match self {
            VaultError::AlreadyInitialized => 1,
            VaultError::NotInitialized => 2,
            VaultError::NoSigners => 3,
            VaultError::ThresholdTooLow => 4,
            VaultError::ThresholdTooHigh => 5,
            VaultError::QuorumTooHigh => 6,
            VaultError::QuorumNotReached => 7,
            VaultError::Unauthorized => 10,
            VaultError::NotASigner => 11,
            VaultError::InsufficientRole => 12,
            VaultError::VoterNotInSnapshot => 13,
            VaultError::ProposalNotFound => 20,
            VaultError::ProposalNotPending => 21,
            VaultError::ProposalNotApproved => 22,
            VaultError::ProposalAlreadyExecuted => 23,
            VaultError::ProposalExpired => 24,
            VaultError::ProposalAlreadyCancelled => 25,
            VaultError::AlreadyApproved => 30,
            VaultError::InvalidAmount => 40,
            VaultError::ExceedsProposalLimit => 41,
            VaultError::ExceedsDailyLimit => 42,
            VaultError::ExceedsWeeklyLimit => 43,
            VaultError::VelocityLimitExceeded => 50,
            VaultError::TimelockNotExpired => 60,
            VaultError::InsufficientBalance => 70,
            VaultError::SignerAlreadyExists => 80,
            VaultError::SignerNotFound => 81,
            VaultError::CannotRemoveSigner => 82,
            VaultError::RecipientNotWhitelisted => 90,
            VaultError::RecipientBlacklisted => 91,
            VaultError::AddressAlreadyOnList => 92,
            VaultError::AddressNotOnList => 93,
            VaultError::InsuranceInsufficient => 110,
            VaultError::BatchTooLarge => 130,
            VaultError::ConditionsNotMet => 140,
            VaultError::IntervalTooShort => 150,
            VaultError::DexError => 160,
            VaultError::RetryError => 168,
            VaultError::TemplateNotFound => 210,
            VaultError::TemplateInactive => 211,
            VaultError::TemplateValidationFailed => 212,
            VaultError::AttachmentHashInvalid => 230,
            VaultError::TooManyAttachments => 231,
            VaultError::TooManyTags => 232,
            VaultError::MetadataValueInvalid => 233,
            VaultError::SubscriptionNotFound => 240,
            VaultError::SubscriptionAlreadyCancelled => 241,
            VaultError::RenewalNotDue => 242,
            VaultError::NotSubscriberOrAdmin => 243,
            VaultError::SubscriptionNotActive => 244,
            VaultError::CircularDependency => 300,
            VaultError::DependencyDepthExceeded => 301,
            VaultError::BridgeError => 400,
        }
    }

    /// The number under which the error is reported.
    #[verifier::when_used_as_spec(spec_code)]
    pub fn code(self) -> (r: u32)
        ensures
            r == self.spec_code(),
    {
        match self {
            VaultError::AlreadyInitialized => 1,
            VaultError::NotInitialized => 2,
            VaultError::NoSigners => 3,
            VaultError::ThresholdTooLow => 4,
            VaultError::ThresholdTooHigh => 5,
            VaultError::QuorumTooHigh => 6,
            VaultError::QuorumNotReached => 7,
            VaultError::Unauthorized => 10,
            VaultError::NotASigner => 11,
            VaultError::InsufficientRole => 12,
            VaultError::VoterNotInSnapshot => 13,
            VaultError::ProposalNotFound => 20,
            VaultError::ProposalNotPending => 21,
            VaultError::ProposalNotApproved => 22,
            VaultError::ProposalAlreadyExecuted => 23,
            VaultError::ProposalExpired => 24,
            VaultError::ProposalAlreadyCancelled => 25,
            VaultError::AlreadyApproved => 30,
            VaultError::InvalidAmount => 40,
            VaultError::ExceedsProposalLimit => 41,
            VaultError::ExceedsDailyLimit => 42,
            VaultError::ExceedsWeeklyLimit => 43,
            VaultError::VelocityLimitExceeded => 50,
            VaultError::TimelockNotExpired => 60,
            VaultError::InsufficientBalance => 70,
            VaultError::SignerAlreadyExists => 80,
            VaultError::SignerNotFound => 81,
            VaultError::CannotRemoveSigner => 82,
            VaultError::RecipientNotWhitelisted => 90,
            VaultError::RecipientBlacklisted => 91,
            VaultError::AddressAlreadyOnList => 92,
            VaultError::AddressNotOnList => 93,
            VaultError::InsuranceInsufficient => 110,
            VaultError::BatchTooLarge => 130,
            VaultError::ConditionsNotMet => 140,
            VaultError::IntervalTooShort => 150,
            VaultError::DexError => 160,
            VaultError::RetryError => 168,
            VaultError::TemplateNotFound => 210,
            VaultError::TemplateInactive => 211,
            VaultError::TemplateValidationFailed => 212,
            VaultError::AttachmentHashInvalid => 230,
            VaultError::TooManyAttachments => 231,
            VaultError::TooManyTags => 232,
            VaultError::MetadataValueInvalid => 233,
            VaultError::SubscriptionNotFound => 240,
            VaultError::SubscriptionAlreadyCancelled => 241,
            VaultError::RenewalNotDue => 242,
            VaultError::NotSubscriberOrAdmin => 243,
            VaultError::SubscriptionNotActive => 244,
            VaultError::CircularDependency => 300,
            VaultError::DependencyDepthExceeded => 301,
            VaultError::BridgeError => 400,
        }
    }
}

/// Success, unless there is a reason for refusal.
pub open spec fn unless(refusal: Option<VaultError>) -> Result<(), VaultError> {
    match refusal {
        Some(error) => Err(error),
        None => Ok(()),
    }
}

/// The view of a result.
pub open spec fn res_view<T: View>(result: Result<T, VaultError>) -> Result<T::V, VaultError> {
    match result {
        Ok(value) => Ok(value@),
        Err(error) => Err(error),
    }
}

} // verus!
