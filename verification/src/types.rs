//! The records that a vault keeps.
//!
//! A record without a list is its own mathematical value. A record that holds a list has a
//! model, named after it, in which each list is a sequence.

use vstd::prelude::*;

use crate::primitives::{copy_list, Address, Record, Symbol, Text, Texts};
use crate::table::Table;

verus! {

/// What an address may do in the vault.
#[derive(Clone, Copy, PartialEq, Eq, Structural, Debug)]
pub enum Role {
    /// Read-only access; what an address holds by default.
    Member,
    /// May propose and approve transfers.
    Treasurer,
    /// Full operational control.
    Admin,
}

/// How recipients are screened.
#[derive(Clone, Copy, PartialEq, Eq, Structural, Debug)]
pub enum ListMode {
    /// Every recipient is allowed.
    Disabled,
    /// Only listed recipients are allowed.
    Whitelist,
    /// Listed recipients are refused.
    Blacklist,
}

/// How approvals are weighed against the threshold.
#[derive(Clone, Copy, PartialEq, Eq, Structural, Debug)]
pub enum VotingStrategy {
    /// One approval, one vote.
    Simple,
    /// Counted as `Simple`.
    Weighted,
    /// Each vote weighs the square root of the tokens its owner locked.
    Quadratic,
    /// Counted as `Simple`.
    Conviction,
}

/// Urgency of a proposal.
#[derive(Clone, Copy, PartialEq, Eq, Structural, Debug)]
pub enum Priority {
    Low,
    Normal,
    High,
    Critical,
}

/// Where a proposal stands.
#[derive(Clone, Copy, PartialEq, Eq, Structural, Debug)]
pub enum ProposalStatus {
    /// Waiting for votes.
    Pending,
    /// Approved, waiting for execution.
    Approved,
    Executed,
    Rejected,
    Expired,
    Cancelled,
    Vetoed,
    /// Approved, waiting for its execution ledger.
    Scheduled,
}

/// How the conditions of a proposal combine.
#[derive(Clone, Copy, PartialEq, Eq, Structural, Debug)]
pub enum ConditionLogic {
    And,
    Or,
}

/// Where a streaming payment stands.
#[derive(Clone, Copy, PartialEq, Eq, Structural, Debug)]
pub enum StreamStatus {
    Active,
    Paused,
    Completed,
    Cancelled,
}

/// Where an escrow stands.
#[derive(Clone, Copy, PartialEq, Eq, Structural, Debug)]
pub enum EscrowStatus {
    Active,
    MilestonesComplete,
    Released,
    Refunded,
    Disputed,
}

/// Where a batch stands.
#[derive(Clone, Copy, PartialEq, Eq, Structural, Debug)]
pub enum BatchStatus {
    Pending,
    Executing,
    Completed,
    RolledBack,
}

/// Where a recovery proposal stands.
#[derive(Clone, Copy, PartialEq, Eq, Structural, Debug)]
pub enum RecoveryStatus {
    Pending,
    Approved,
    Executed,
    Cancelled,
}

/// Where a funding round stands.
#[derive(Clone, Copy, PartialEq, Eq, Structural, Debug)]
pub enum FundingRoundStatus {
    Pending,
    Approved,
    Active,
    Completed,
    Cancelled,
}

/// Where a milestone of a funding round stands.
#[derive(Clone, Copy, PartialEq, Eq, Structural, Debug)]
pub enum FundingMilestoneStatus {
    Pending,
    Submitted,
    Verified,
    Rejected,
}

/// Where a cross-vault or cross-chain proposal stands.
#[derive(Clone, Copy, PartialEq, Eq, Structural, Debug)]
pub enum CrossVaultStatus {
    Pending,
    Approved,
    Executed,
    Failed,
}

/// Where a dispute stands.
#[derive(Clone, Copy, PartialEq, Eq, Structural, Debug)]
pub enum DisputeStatus {
    Filed,
    UnderReview,
    Resolved,
    Dismissed,
}

/// How a dispute was settled.
#[derive(Clone, Copy, PartialEq, Eq, Structural, Debug)]
pub enum DisputeResolution {
    InFavorOfProposer,
    InFavorOfDisputer,
    Compromise,
    Dismissed,
}

/// Service level of a subscription.
#[derive(Clone, Copy, PartialEq, Eq, Structural, Debug)]
pub enum SubscriptionTier {
    Basic,
    Standard,
    Premium,
    Enterprise,
}

/// Where a subscription stands.
#[derive(Clone, Copy, PartialEq, Eq, Structural, Debug)]
pub enum SubscriptionStatus {
    Active,
    Cancelled,
    Expired,
    Suspended,
}

/// A single right that can be granted or delegated.
#[derive(Clone, Copy, PartialEq, Eq, Structural, Debug)]
pub enum Permission {
    CreateProposal,
    ApproveProposal,
    ExecuteProposal,
    ManageRoles,
    ManageConfig,
    ViewMetrics,
    ManageRecurring,
    ManageEscrow,
    ManageSubscriptions,
}

/// What an audit entry records.
#[derive(Clone, Copy, PartialEq, Eq, Structural, Debug)]
pub enum AuditAction {
    Initialize,
    ProposeTransfer,
    ApproveProposal,
    AbstainProposal,
    ExecuteProposal,
    RejectProposal,
    SetRole,
    AddSigner,
    RemoveSigner,
    UpdateLimits,
    UpdateThreshold,
}

impl Role {
    /// Position of the variant, counted from zero.
    pub open spec fn spec_code(self) -> u32 {
        match self {
            Role::Member => 0,
            Role::Treasurer => 1,
            Role::Admin => 2,
        }
    }

    /// Position of the variant, counted from zero.
    #[verifier::when_used_as_spec(spec_code)]
    pub fn code(self) -> (r: u32)
        ensures
            r == self.spec_code(),
    {
        match self {
            Role::Member => 0,
            Role::Treasurer => 1,
            Role::Admin => 2,
        }
    }
}

impl Priority {
    /// Position of the variant, counted from zero.
    pub open spec fn spec_code(self) -> u32 {
        match self {
            Priority::Low => 0,
            Priority::Normal => 1,
            Priority::High => 2,
            Priority::Critical => 3,
        }
    }

    /// Position of the variant, counted from zero.
    #[verifier::when_used_as_spec(spec_code)]
    pub fn code(self) -> (r: u32)
        ensures
            r == self.spec_code(),
    {
        match self {
            Priority::Low => 0,
            Priority::Normal => 1,
            Priority::High => 2,
            Priority::Critical => 3,
        }
    }
}

impl StreamStatus {
    /// Position of the variant, counted from zero.
    pub open spec fn spec_code(self) -> u32 {
        match self {
            StreamStatus::Active => 0,
            StreamStatus::Paused => 1,
            StreamStatus::Completed => 2,
            StreamStatus::Cancelled => 3,
        }
    }

    /// Position of the variant, counted from zero.
    #[verifier::when_used_as_spec(spec_code)]
    pub fn code(self) -> (r: u32)
        ensures
            r == self.spec_code(),
    {
        match self {
            StreamStatus::Active => 0,
            StreamStatus::Paused => 1,
            StreamStatus::Completed => 2,
            StreamStatus::Cancelled => 3,
        }
    }
}

impl DisputeResolution {
    /// Position of the variant, counted from zero.
    pub open spec fn spec_code(self) -> u32 {
        match self {
            DisputeResolution::InFavorOfProposer => 0,
            DisputeResolution::InFavorOfDisputer => 1,
            DisputeResolution::Compromise => 2,
            DisputeResolution::Dismissed => 3,
        }
    }

    /// Position of the variant, counted from zero.
    #[verifier::when_used_as_spec(spec_code)]
    pub fn code(self) -> (r: u32)
        ensures
            r == self.spec_code(),
    {
        match self {
            DisputeResolution::InFavorOfProposer => 0,
            DisputeResolution::InFavorOfDisputer => 1,
            DisputeResolution::Compromise => 2,
            DisputeResolution::Dismissed => 3,
        }
    }
}

impl SubscriptionTier {
    /// Position of the variant, counted from zero.
    pub open spec fn spec_code(self) -> u32 {
        match self {
            SubscriptionTier::Basic => 0,
            SubscriptionTier::Standard => 1,
            SubscriptionTier::Premium => 2,
            SubscriptionTier::Enterprise => 3,
        }
    }

    /// Position of the variant, counted from zero.
    #[verifier::when_used_as_spec(spec_code)]
    pub fn code(self) -> (r: u32)
        ensures
            r == self.spec_code(),
    {
        match self {
            SubscriptionTier::Basic => 0,
            SubscriptionTier::Standard => 1,
            SubscriptionTier::Premium => 2,
            SubscriptionTier::Enterprise => 3,
        }
    }
}

impl Permission {
    /// Position of the variant, counted from zero.
    pub open spec fn spec_code(self) -> u32 {
        match self {
            Permission::CreateProposal => 0,
            Permission::ApproveProposal => 1,
            Permission::ExecuteProposal => 2,
            Permission::ManageRoles => 3,
            Permission::ManageConfig => 4,
            Permission::ViewMetrics => 5,
            Permission::ManageRecurring => 6,
            Permission::ManageEscrow => 7,
            Permission::ManageSubscriptions => 8,
        }
    }

    /// Position of the variant, counted from zero.
    #[verifier::when_used_as_spec(spec_code)]
    pub fn code(self) -> (r: u32)
        ensures
            r == self.spec_code(),
    {
        match self {
            Permission::CreateProposal => 0,
            Permission::ApproveProposal => 1,
            Permission::ExecuteProposal => 2,
            Permission::ManageRoles => 3,
            Permission::ManageConfig => 4,
            Permission::ViewMetrics => 5,
            Permission::ManageRecurring => 6,
            Permission::ManageEscrow => 7,
            Permission::ManageSubscriptions => 8,
        }
    }
}

impl AuditAction {
    /// Position of the variant, counted from zero.
    pub open spec fn spec_code(self) -> u64 {
        match self {
            AuditAction::Initialize => 0,
            AuditAction::ProposeTransfer => 1,
            AuditAction::ApproveProposal => 2,
            AuditAction::AbstainProposal => 3,
            AuditAction::ExecuteProposal => 4,
            AuditAction::RejectProposal => 5,
            AuditAction::SetRole => 6,
            AuditAction::AddSigner => 7,
            AuditAction::RemoveSigner => 8,
            AuditAction::UpdateLimits => 9,
            AuditAction::UpdateThreshold => 10,
        }
    }

    /// Position of the variant, counted from zero.
    #[verifier::when_used_as_spec(spec_code)]
    pub fn code(self) -> (r: u64)
        ensures
            r == self.spec_code(),
    {
        match self {
            AuditAction::Initialize => 0,
            AuditAction::ProposeTransfer => 1,
            AuditAction::ApproveProposal => 2,
            AuditAction::AbstainProposal => 3,
            AuditAction::ExecuteProposal => 4,
            AuditAction::RejectProposal => 5,
            AuditAction::SetRole => 6,
            AuditAction::AddSigner => 7,
            AuditAction::RemoveSigner => 8,
            AuditAction::UpdateLimits => 9,
            AuditAction::UpdateThreshold => 10,
        }
    }
}

/// A condition that execution of a proposal waits for.
#[derive(Clone, Copy, PartialEq, Eq, Structural, Debug)]
pub enum Condition {
    /// The vault holds more than this of the proposal's token.
    BalanceAbove(i128),
    /// The ledger has passed this one.
    DateAfter(u64),
    /// The ledger is before this one.
    DateBefore(u64),
    /// The oracle price of the asset is at least this.
    PriceAbove(Address, i128),
    /// The oracle price of the asset is at most this.
    PriceBelow(Address, i128),
}

/// An operation on an exchange or a farm.
#[derive(Clone, Copy, PartialEq, Eq, Structural, Debug)]
pub enum SwapProposal {
    /// Exchange, token in, token out, amount in, least amount out.
    Swap(Address, Address, Address, i128, i128),
    /// Exchange, the two tokens and their amounts.
    AddLiquidity(Address, Address, Address, i128, i128),
    /// Exchange, pool token and amount.
    RemoveLiquidity(Address, Address, i128),
    /// Farm, pool token and amount.
    StakeLp(Address, Address, i128),
    /// Farm, pool token and amount.
    UnstakeLp(Address, Address, i128),
    /// Farm.
    ClaimRewards(Address),
}

/// At most `limit` proposals per proposer within `window` seconds.
#[derive(Clone, Copy, PartialEq, Eq, Structural, Debug)]
pub struct VelocityConfig {
    pub limit: u32,
    pub window: u64,
}

/// How a failed execution is retried.
#[derive(Clone, Copy, PartialEq, Eq, Structural, Debug)]
pub struct RetryConfig {
    pub enabled: bool,
    pub max_retries: u32,
    pub initial_backoff_ledgers: u64,
}

/// What a proposer must stake, and what of it a rejection costs.
#[derive(Clone, Copy, PartialEq, Eq, Structural, Debug)]
pub struct StakingConfig {
    pub enabled: bool,
    pub min_amount: i128,
    pub base_stake_bps: u32,
    pub max_stake_amount: i128,
    pub reputation_discount_threshold: u32,
    pub reputation_discount_percentage: u32,
    pub slash_percentage: u32,
}

/// What insurance a proposal must carry, and what of it a rejection costs.
#[derive(Clone, Copy, PartialEq, Eq, Structural, Debug)]
pub struct InsuranceConfig {
    pub enabled: bool,
    pub min_amount: i128,
    pub min_insurance_bps: u32,
    pub slash_percentage: u32,
}

/// Execution cost model and limit.
#[derive(Clone, Copy, PartialEq, Eq, Structural, Debug)]
pub struct GasConfig {
    pub enabled: bool,
    pub default_gas_limit: u64,
    pub base_cost: u64,
    pub condition_cost: u64,
}

/// Half-life of a reputation score and the floor it decays to.
#[derive(Clone, Copy, PartialEq, Eq, Structural, Debug)]
pub struct ReputationConfig {
    pub decay_half_life_ledgers: u64,
    pub decay_min_score: u32,
}

/// Token locking for voting power.
#[derive(Clone, Copy, PartialEq, Eq, Structural, Debug)]
pub struct TimeWeightedConfig {
    pub enabled: bool,
    pub min_lock_duration: u64,
    pub max_lock_duration: u64,
    pub early_unlock_penalty_bps: u32,
    pub apply_decay: bool,
}

/// What an address wants to be notified of.
#[derive(Clone, Copy, PartialEq, Eq, Structural, Debug)]
pub struct NotificationPreferences {
    pub notify_on_proposal: bool,
    pub notify_on_approval: bool,
    pub notify_on_execution: bool,
    pub notify_on_rejection: bool,
    pub notify_on_expiry: bool,
}

/// Bounds on funding rounds.
#[derive(Clone, Copy, PartialEq, Eq, Structural, Debug)]
pub struct FundingRoundConfig {
    pub enabled: bool,
    pub min_milestones: u32,
    pub max_milestones: u32,
    pub min_milestone_amount: i128,
}

/// The price oracle and how many ledgers old its prices may be.
#[derive(Clone, Copy, PartialEq, Eq, Structural, Debug)]
pub struct VaultOracleConfig {
    pub address: Address,
    pub max_staleness: u32,
}

/// A price and the ledger at which it was recorded.
#[derive(Clone, Copy, PartialEq, Eq, Structural, Debug)]
pub struct VaultPriceData {
    pub price: i128,
    pub timestamp: u64,
}

/// Fee from a traded volume on.
#[derive(Clone, Copy, PartialEq, Eq, Structural, Debug)]
pub struct FeeTier {
    pub min_volume: i128,
    pub fee_bps: u32,
}

/// Approvals needed from an amount on.
#[derive(Clone, Copy, PartialEq, Eq, Structural, Debug)]
pub struct AmountTier {
    pub amount: i128,
    pub approvals: u32,
}

/// A threshold that drops after a delay.
#[derive(Clone, Copy, PartialEq, Eq, Structural, Debug)]
pub struct TimeBasedThreshold {
    pub initial_threshold: u32,
    pub reduced_threshold: u32,
    pub reduction_delay: u64,
}

/// Standing of an address.
#[derive(Clone, Copy, PartialEq, Eq, Structural, Debug)]
pub struct Reputation {
    pub score: u32,
    pub proposals_executed: u32,
    pub proposals_rejected: u32,
    pub proposals_created: u32,
    pub approvals_given: u32,
    pub abstentions_given: u32,
    pub participation_count: u32,
    pub last_participation_ledger: u64,
    pub last_decay_ledger: u64,
}

/// Retries of a failed execution so far.
#[derive(Clone, Copy, PartialEq, Eq, Structural, Debug)]
pub struct RetryState {
    pub retry_count: u32,
    pub next_retry_ledger: u64,
    pub last_retry_ledger: u64,
}

/// A payment that repeats every `interval` ledgers.
#[derive(Clone, Copy, PartialEq, Eq, Structural, Debug)]
pub struct RecurringPayment {
    pub id: u64,
    pub proposer: Address,
    pub recipient: Address,
    pub token: Address,
    pub amount: i128,
    pub memo: Symbol,
    pub interval: u64,
    pub next_payment_ledger: u64,
    pub payment_count: u32,
    pub is_active: bool,
}

/// Tokens that flow to the recipient at `rate` per second.
#[derive(Clone, Copy, PartialEq, Eq, Structural, Debug)]
pub struct StreamingPayment {
    pub id: u64,
    pub sender: Address,
    pub recipient: Address,
    pub token_addr: Address,
    pub rate: i128,
    pub total_amount: i128,
    pub claimed_amount: i128,
    pub start_timestamp: u64,
    pub end_timestamp: u64,
    pub last_update_timestamp: u64,
    pub accumulated_seconds: u64,
    pub status: StreamStatus,
}

/// A comment on a proposal.
#[derive(Clone, Copy, PartialEq, Eq, Structural, Debug)]
pub struct Comment {
    pub id: u64,
    pub proposal_id: u64,
    pub author: Address,
    pub text: Symbol,
    pub parent_id: u64,
    pub created_at: u64,
    pub edited_at: u64,
}

/// A link of the audit chain.
#[derive(Clone, Copy, PartialEq, Eq, Structural, Debug)]
pub struct AuditEntry {
    pub id: u64,
    pub action: AuditAction,
    pub actor: Address,
    pub target: u64,
    pub timestamp: u64,
    pub prev_hash: u64,
    pub hash: u64,
}

/// Who cancelled a proposal, why, when, and what was refunded.
#[derive(Clone, Copy, PartialEq, Eq, Structural, Debug)]
pub struct CancellationRecord {
    pub proposal_id: u64,
    pub cancelled_by: Address,
    pub reason: Symbol,
    pub cancelled_at_ledger: u64,
    pub refunded_amount: i128,
}

/// One change of a pending proposal.
#[derive(Clone, Copy, PartialEq, Eq, Structural, Debug)]
pub struct ProposalAmendment {
    pub proposal_id: u64,
    pub amended_by: Address,
    pub amended_at_ledger: u64,
    pub old_recipient: Address,
    pub new_recipient: Address,
    pub old_amount: i128,
    pub new_amount: i128,
    pub old_memo: Symbol,
    pub new_memo: Symbol,
}

/// Estimated execution cost of a proposal.
#[derive(Clone, Copy, PartialEq, Eq, Structural, Debug)]
pub struct ExecutionFeeEstimate {
    pub base_fee: u64,
    pub resource_fee: u64,
    pub total_fee: u64,
    pub operation_count: u32,
}

/// Protocol fee of a transfer.
#[derive(Clone, Copy, PartialEq, Eq, Structural, Debug)]
pub struct FeeCalculation {
    pub base_fee: i128,
    pub discount: i128,
    pub final_fee: i128,
    pub fee_bps: u32,
    pub reputation_discount_applied: bool,
}

/// The stake locked for a proposal.
#[derive(Clone, Copy, PartialEq, Eq, Structural, Debug)]
pub struct StakeRecord {
    pub proposal_id: u64,
    pub staker: Address,
    pub token: Address,
    pub amount: i128,
    pub locked_at: u64,
    pub refunded: bool,
    pub slashed: bool,
    pub slashed_amount: i128,
    pub released_at: u64,
}

/// Voting power handed to another signer.
#[derive(Clone, Copy, PartialEq, Eq, Structural, Debug)]
pub struct Delegation {
    pub delegator: Address,
    pub delegate: Address,
    pub created_at: u64,
    pub expiry_ledger: u64,
    pub is_active: bool,
}

/// One change of a delegation.
#[derive(Clone, Copy, PartialEq, Eq, Structural, Debug)]
pub struct DelegationHistory {
    pub id: u64,
    pub delegator: Address,
    pub previous_delegate: Address,
    pub new_delegate: Address,
    pub changed_at: u64,
}

/// Outcome of a swap.
#[derive(Clone, Copy, PartialEq, Eq, Structural, Debug)]
pub struct SwapResult {
    pub amount_in: i128,
    pub amount_out: i128,
    pub price_impact_bps: u32,
    pub executed_at: u64,
}

/// A stored proposal blueprint.
#[derive(Clone, Copy, PartialEq, Eq, Structural, Debug)]
pub struct ProposalTemplate {
    pub id: u64,
    pub name: Symbol,
    pub description: Symbol,
    pub recipient: Address,
    pub token: Address,
    pub amount: i128,
    pub memo: Symbol,
    pub creator: Address,
    pub version: u32,
    pub is_active: bool,
    pub created_at: u64,
    pub updated_at: u64,
    pub min_amount: i128,
    pub max_amount: i128,
}

/// What a proposal made from a template changes of it.
#[derive(Clone, Copy, PartialEq, Eq, Structural, Debug)]
pub struct TemplateOverrides {
    pub override_recipient: bool,
    pub recipient: Address,
    pub override_amount: bool,
    pub amount: i128,
    pub override_memo: bool,
    pub memo: Symbol,
    pub override_priority: bool,
    pub priority: Priority,
}

/// A share of an escrow, released on completion.
#[derive(Clone, Copy, PartialEq, Eq, Structural, Debug)]
pub struct Milestone {
    pub id: u64,
    pub percentage: u32,
    pub release_ledger: u64,
    pub is_completed: bool,
    pub completion_ledger: u64,
}

/// One transfer of a batch.
#[derive(Clone, Copy, PartialEq, Eq, Structural, Debug)]
pub struct BatchOperation {
    pub recipient: Address,
    pub token: Address,
    pub amount: i128,
}

/// How a batch of operations went.
#[derive(Clone, Copy, PartialEq, Eq, Structural, Debug)]
pub struct BatchExecutionResult {
    pub batch_id: u64,
    pub success: bool,
    pub successful_ops: u32,
    pub failed_ops: u32,
}

/// How a batch of proposals went.
#[derive(Clone, Copy, PartialEq, Eq, Structural, Debug)]
pub struct ProposalBatchResult {
    pub executed_count: u32,
    pub failed_count: u32,
}

/// A tranche of a funding round.
#[derive(Clone, Copy, PartialEq, Eq, Structural, Debug)]
pub struct FundingMilestone {
    pub description: Symbol,
    pub amount: i128,
    pub status: FundingMilestoneStatus,
    pub submitted_at: u64,
    pub verified_at: u64,
    pub verified_by: Option<Address>,
}

/// A transfer towards another vault.
#[derive(Clone, Copy, PartialEq, Eq, Structural, Debug)]
pub struct VaultAction {
    pub vault_address: Address,
    pub recipient: Address,
    pub token: Address,
    pub amount: i128,
    pub memo: Symbol,
}

/// A transfer towards another chain.
#[derive(Clone, Copy, PartialEq, Eq, Structural, Debug)]
pub struct CrossChainAsset {
    pub token: Address,
    pub amount: i128,
    pub target_chain: Symbol,
}

/// A permission held directly.
#[derive(Clone, Copy, PartialEq, Eq, Structural, Debug)]
pub struct PermissionGrant {
    pub permission: Permission,
    pub granted_by: Address,
    pub granted_at: u64,
    pub expires_at: Option<u64>,
}

/// A permission held through a delegation.
#[derive(Clone, Copy, PartialEq, Eq, Structural, Debug)]
pub struct DelegatedPermission {
    pub permission: Permission,
    pub delegator: Address,
    pub delegatee: Address,
    pub granted_at: u64,
    pub expires_at: u64,
}

/// Tokens locked for voting power.
#[derive(Clone, Copy, PartialEq, Eq, Structural, Debug)]
pub struct TokenLock {
    pub owner: Address,
    pub token: Address,
    pub amount: i128,
    pub locked_at: u64,
    pub duration: u64,
    pub unlock_at: u64,
    pub is_active: bool,
    pub power_multiplier_bps: u32,
}

/// A service paid for every `interval_ledgers`.
#[derive(Clone, Copy, PartialEq, Eq, Structural, Debug)]
pub struct Subscription {
    pub id: u64,
    pub subscriber: Address,
    pub service_provider: Address,
    pub tier: SubscriptionTier,
    pub token: Address,
    pub amount_per_period: i128,
    pub interval_ledgers: u64,
    pub next_renewal_ledger: u64,
    pub created_at: u64,
    pub status: SubscriptionStatus,
    pub total_payments: u32,
    pub last_payment_ledger: u64,
    pub auto_renew: bool,
}

/// An address and its role.
#[derive(Clone, Copy, PartialEq, Eq, Structural, Debug)]
pub struct RoleAssignment {
    pub addr: Address,
    pub role: Role,
}

/// One transfer of a batch proposal.
#[derive(Clone, Copy, PartialEq, Eq, Structural, Debug)]
pub struct TransferDetails {
    pub recipient: Address,
    pub token: Address,
    pub amount: i128,
    pub memo: Symbol,
}

/// Vault-wide counters.
#[derive(Clone, Copy, PartialEq, Eq, Structural, Debug)]
pub struct VaultMetrics {
    pub total_proposals: u64,
    pub executed_count: u64,
    pub rejected_count: u64,
    pub expired_count: u64,
    pub total_execution_time_ledgers: u64,
    pub total_gas_used: u64,
    pub last_updated_ledger: u64,
}

/// What the outside says about one condition of a proposal: the vault's balance of the
/// proposal's token, and the oracle's answer for the condition's asset.
#[derive(Clone, Copy, PartialEq, Eq, Structural, Debug)]
pub struct Observation {
    pub balance: i128,
    pub price: Option<VaultPriceData>,
}

/// How many approvals a proposal needs.
#[derive(Debug)]
pub enum ThresholdStrategy {
    /// The configured threshold.
    Fixed,
    /// A percentage of the signers, rounded up, at least one.
    Percentage(u32),
    /// The approvals of the highest tier that the amount reaches.
    AmountBased(Vec<AmountTier>),
    /// A threshold that drops after a delay.
    TimeBased(TimeBasedThreshold),
}

/// Model of [`ThresholdStrategy`].
#[verifier::ext_equal]
pub ghost enum ThresholdStrategyModel {
    Fixed,
    Percentage(u32),
    AmountBased(Seq<AmountTier>),
    TimeBased(TimeBasedThreshold),
}

impl View for ThresholdStrategy {
    type V = ThresholdStrategyModel;

    open spec fn view(&self) -> ThresholdStrategyModel {
        match self {
            ThresholdStrategy::Fixed => ThresholdStrategyModel::Fixed,
            ThresholdStrategy::Percentage(pct) => ThresholdStrategyModel::Percentage(*pct),
            ThresholdStrategy::AmountBased(tiers) => ThresholdStrategyModel::AmountBased(tiers@),
            ThresholdStrategy::TimeBased(tb) => ThresholdStrategyModel::TimeBased(*tb),
        }
    }
}

impl Record for ThresholdStrategy {
    fn duplicate(&self) -> (copy: Self) {
        match self {
            ThresholdStrategy::Fixed => ThresholdStrategy::Fixed,
            ThresholdStrategy::Percentage(pct) => ThresholdStrategy::Percentage(*pct),
            ThresholdStrategy::AmountBased(tiers) => ThresholdStrategy::AmountBased(
                copy_list(tiers),
            ),
            ThresholdStrategy::TimeBased(tb) => ThresholdStrategy::TimeBased(*tb),
        }
    }
}

/// Guardians who can replace the signers.
#[derive(Debug)]
pub struct RecoveryConfig {
    pub guardians: Vec<Address>,
    pub threshold: u32,
    pub delay: u64,
}

/// Model of [`RecoveryConfig`].
#[verifier::ext_equal]
pub ghost struct RecoveryConfigModel {
    pub guardians: Seq<Address>,
    pub threshold: u32,
    pub delay: u64,
}

impl View for RecoveryConfig {
    type V = RecoveryConfigModel;

    open spec fn view(&self) -> RecoveryConfigModel {
        RecoveryConfigModel {
            guardians: self.guardians@,
            threshold: self.threshold,
            delay: self.delay,
        }
    }
}

impl Record for RecoveryConfig {
    fn duplicate(&self) -> (copy: Self) {
        RecoveryConfig {
            guardians: copy_list(&self.guardians),
            threshold: self.threshold,
            delay: self.delay,
        }
    }
}

/// What a vault is initialized with.
#[derive(Debug)]
pub struct InitConfig {
    pub signers: Vec<Address>,
    pub threshold: u32,
    pub quorum: u32,
    pub quorum_percentage: u32,
    pub spending_limit: i128,
    pub daily_limit: i128,
    pub weekly_limit: i128,
    pub timelock_threshold: i128,
    pub timelock_delay: u64,
    pub velocity_limit: VelocityConfig,
    pub threshold_strategy: ThresholdStrategy,
    pub pre_execution_hooks: Vec<Address>,
    pub post_execution_hooks: Vec<Address>,
    pub default_voting_deadline: u64,
    pub veto_addresses: Vec<Address>,
    pub retry_config: RetryConfig,
    pub recovery_config: RecoveryConfig,
    pub staking_config: StakingConfig,
}

/// Model of [`InitConfig`].
#[verifier::ext_equal]
pub ghost struct InitConfigModel {
    pub signers: Seq<Address>,
    pub threshold: u32,
    pub quorum: u32,
    pub quorum_percentage: u32,
    pub spending_limit: i128,
    pub daily_limit: i128,
    pub weekly_limit: i128,
    pub timelock_threshold: i128,
    pub timelock_delay: u64,
    pub velocity_limit: VelocityConfig,
    pub threshold_strategy: ThresholdStrategyModel,
    pub pre_execution_hooks: Seq<Address>,
    pub post_execution_hooks: Seq<Address>,
    pub default_voting_deadline: u64,
    pub veto_addresses: Seq<Address>,
    pub retry_config: RetryConfig,
    pub recovery_config: RecoveryConfigModel,
    pub staking_config: StakingConfig,
}

impl View for InitConfig {
    type V = InitConfigModel;

    open spec fn view(&self) -> InitConfigModel {
        InitConfigModel {
            signers: self.signers@,
            threshold: self.threshold,
            quorum: self.quorum,
            quorum_percentage: self.quorum_percentage,
            spending_limit: self.spending_limit,
            daily_limit: self.daily_limit,
            weekly_limit: self.weekly_limit,
            timelock_threshold: self.timelock_threshold,
            timelock_delay: self.timelock_delay,
            velocity_limit: self.velocity_limit,
            threshold_strategy: self.threshold_strategy@,
            pre_execution_hooks: self.pre_execution_hooks@,
            post_execution_hooks: self.post_execution_hooks@,
            default_voting_deadline: self.default_voting_deadline,
            veto_addresses: self.veto_addresses@,
            retry_config: self.retry_config,
            recovery_config: self.recovery_config@,
            staking_config: self.staking_config,
        }
    }
}

impl Record for InitConfig {
    fn duplicate(&self) -> (copy: Self) {
        InitConfig {
            signers: copy_list(&self.signers),
            threshold: self.threshold,
            quorum: self.quorum,
            quorum_percentage: self.quorum_percentage,
            spending_limit: self.spending_limit,
            daily_limit: self.daily_limit,
            weekly_limit: self.weekly_limit,
            timelock_threshold: self.timelock_threshold,
            timelock_delay: self.timelock_delay,
            velocity_limit: self.velocity_limit,
            threshold_strategy: self.threshold_strategy.duplicate(),
            pre_execution_hooks: copy_list(&self.pre_execution_hooks),
            post_execution_hooks: copy_list(&self.post_execution_hooks),
            default_voting_deadline: self.default_voting_deadline,
            veto_addresses: copy_list(&self.veto_addresses),
            retry_config: self.retry_config,
            recovery_config: self.recovery_config.duplicate(),
            staking_config: self.staking_config,
        }
    }
}

/// Configuration of a vault.
#[derive(Debug)]
pub struct Config {
    pub signers: Vec<Address>,
    pub threshold: u32,
    pub quorum: u32,
    pub quorum_percentage: u32,
    pub spending_limit: i128,
    pub daily_limit: i128,
    pub weekly_limit: i128,
    pub timelock_threshold: i128,
    pub timelock_delay: u64,
    pub velocity_limit: VelocityConfig,
    pub threshold_strategy: ThresholdStrategy,
    pub pre_execution_hooks: Vec<Address>,
    pub post_execution_hooks: Vec<Address>,
    pub default_voting_deadline: u64,
    pub veto_addresses: Vec<Address>,
    pub retry_config: RetryConfig,
    pub recovery_config: RecoveryConfig,
    pub staking_config: StakingConfig,
}

/// Model of [`Config`].
#[verifier::ext_equal]
pub ghost struct ConfigModel {
    pub signers: Seq<Address>,
    pub threshold: u32,
    pub quorum: u32,
    pub quorum_percentage: u32,
    pub spending_limit: i128,
    pub daily_limit: i128,
    pub weekly_limit: i128,
    pub timelock_threshold: i128,
    pub timelock_delay: u64,
    pub velocity_limit: VelocityConfig,
    pub threshold_strategy: ThresholdStrategyModel,
    pub pre_execution_hooks: Seq<Address>,
    pub post_execution_hooks: Seq<Address>,
    pub default_voting_deadline: u64,
    pub veto_addresses: Seq<Address>,
    pub retry_config: RetryConfig,
    pub recovery_config: RecoveryConfigModel,
    pub staking_config: StakingConfig,
}

impl View for Config {
    type V = ConfigModel;

    open spec fn view(&self) -> ConfigModel {
        ConfigModel {
            signers: self.signers@,
            threshold: self.threshold,
            quorum: self.quorum,
            quorum_percentage: self.quorum_percentage,
            spending_limit: self.spending_limit,
            daily_limit: self.daily_limit,
            weekly_limit: self.weekly_limit,
            timelock_threshold: self.timelock_threshold,
            timelock_delay: self.timelock_delay,
            velocity_limit: self.velocity_limit,
            threshold_strategy: self.threshold_strategy@,
            pre_execution_hooks: self.pre_execution_hooks@,
            post_execution_hooks: self.post_execution_hooks@,
            default_voting_deadline: self.default_voting_deadline,
            veto_addresses: self.veto_addresses@,
            retry_config: self.retry_config,
            recovery_config: self.recovery_config@,
            staking_config: self.staking_config,
        }
    }
}

impl Record for Config {
    fn duplicate(&self) -> (copy: Self) {
        Config {
            signers: copy_list(&self.signers),
            threshold: self.threshold,
            quorum: self.quorum,
            quorum_percentage: self.quorum_percentage,
            spending_limit: self.spending_limit,
            daily_limit: self.daily_limit,
            weekly_limit: self.weekly_limit,
            timelock_threshold: self.timelock_threshold,
            timelock_delay: self.timelock_delay,
            velocity_limit: self.velocity_limit,
            threshold_strategy: self.threshold_strategy.duplicate(),
            pre_execution_hooks: copy_list(&self.pre_execution_hooks),
            post_execution_hooks: copy_list(&self.post_execution_hooks),
            default_voting_deadline: self.default_voting_deadline,
            veto_addresses: copy_list(&self.veto_addresses),
            retry_config: self.retry_config,
            recovery_config: self.recovery_config.duplicate(),
            staking_config: self.staking_config,
        }
    }
}

/// A proposal to spend from the vault.
#[derive(Debug)]
pub struct Proposal {
    pub id: u64,
    pub proposer: Address,
    pub recipient: Address,
    pub token: Address,
    pub amount: i128,
    pub memo: Symbol,
    pub metadata: Table<Symbol, Text>,
    pub tags: Vec<Symbol>,
    pub approvals: Vec<Address>,
    pub abstentions: Vec<Address>,
    pub attachments: Texts,
    pub status: ProposalStatus,
    pub priority: Priority,
    pub conditions: Vec<Condition>,
    pub condition_logic: ConditionLogic,
    pub created_at: u64,
    pub expires_at: u64,
    pub unlock_ledger: u64,
    pub execution_time: Option<u64>,
    pub insurance_amount: i128,
    pub stake_amount: i128,
    pub gas_limit: u64,
    pub gas_used: u64,
    pub snapshot_ledger: u64,
    pub snapshot_signers: Vec<Address>,
    pub depends_on: Vec<u64>,
    pub is_swap: bool,
    pub voting_deadline: u64,
}

/// Model of [`Proposal`].
#[verifier::ext_equal]
pub ghost struct ProposalModel {
    pub id: u64,
    pub proposer: Address,
    pub recipient: Address,
    pub token: Address,
    pub amount: i128,
    pub memo: Symbol,
    pub metadata: Map<Symbol, Seq<u8>>,
    pub tags: Seq<Symbol>,
    pub approvals: Seq<Address>,
    pub abstentions: Seq<Address>,
    pub attachments: Seq<Seq<u8>>,
    pub status: ProposalStatus,
    pub priority: Priority,
    pub conditions: Seq<Condition>,
    pub condition_logic: ConditionLogic,
    pub created_at: u64,
    pub expires_at: u64,
    pub unlock_ledger: u64,
    pub execution_time: Option<u64>,
    pub insurance_amount: i128,
    pub stake_amount: i128,
    pub gas_limit: u64,
    pub gas_used: u64,
    pub snapshot_ledger: u64,
    pub snapshot_signers: Seq<Address>,
    pub depends_on: Seq<u64>,
    pub is_swap: bool,
    pub voting_deadline: u64,
}

impl View for Proposal {
    type V = ProposalModel;

    open spec fn view(&self) -> ProposalModel {
        ProposalModel {
            id: self.id,
            proposer: self.proposer,
            recipient: self.recipient,
            token: self.token,
            amount: self.amount,
            memo: self.memo,
            metadata: self.metadata@,
            tags: self.tags@,
            approvals: self.approvals@,
            abstentions: self.abstentions@,
            attachments: self.attachments@,
            status: self.status,
            priority: self.priority,
            conditions: self.conditions@,
            condition_logic: self.condition_logic,
            created_at: self.created_at,
            expires_at: self.expires_at,
            unlock_ledger: self.unlock_ledger,
            execution_time: self.execution_time,
            insurance_amount: self.insurance_amount,
            stake_amount: self.stake_amount,
            gas_limit: self.gas_limit,
            gas_used: self.gas_used,
            snapshot_ledger: self.snapshot_ledger,
            snapshot_signers: self.snapshot_signers@,
            depends_on: self.depends_on@,
            is_swap: self.is_swap,
            voting_deadline: self.voting_deadline,
        }
    }
}

impl Record for Proposal {
    fn duplicate(&self) -> (copy: Self) {
        Proposal {
            id: self.id,
            proposer: self.proposer,
            recipient: self.recipient,
            token: self.token,
            amount: self.amount,
            memo: self.memo,
            metadata: self.metadata.duplicate(),
            tags: copy_list(&self.tags),
            approvals: copy_list(&self.approvals),
            abstentions: copy_list(&self.abstentions),
            attachments: self.attachments.duplicate(),
            status: self.status,
            priority: self.priority,
            conditions: copy_list(&self.conditions),
            condition_logic: self.condition_logic,
            created_at: self.created_at,
            expires_at: self.expires_at,
            unlock_ledger: self.unlock_ledger,
            execution_time: self.execution_time,
            insurance_amount: self.insurance_amount,
            stake_amount: self.stake_amount,
            gas_limit: self.gas_limit,
            gas_used: self.gas_used,
            snapshot_ledger: self.snapshot_ledger,
            snapshot_signers: copy_list(&self.snapshot_signers),
            depends_on: copy_list(&self.depends_on),
            is_swap: self.is_swap,
            voting_deadline: self.voting_deadline,
        }
    }
}

/// What a transfer is proposed with.
#[derive(Debug)]
pub struct TransferRequest {
    pub proposer: Address,
    pub recipient: Address,
    pub token: Address,
    pub amount: i128,
    pub memo: Symbol,
    pub priority: Priority,
    pub conditions: Vec<Condition>,
    pub condition_logic: ConditionLogic,
    pub insurance_amount: i128,
    pub depends_on: Vec<u64>,
    pub execution_time: Option<u64>,
}

/// Model of [`TransferRequest`].
#[verifier::ext_equal]
pub ghost struct TransferRequestModel {
    pub proposer: Address,
    pub recipient: Address,
    pub token: Address,
    pub amount: i128,
    pub memo: Symbol,
    pub priority: Priority,
    pub conditions: Seq<Condition>,
    pub condition_logic: ConditionLogic,
    pub insurance_amount: i128,
    pub depends_on: Seq<u64>,
    pub execution_time: Option<u64>,
}

impl View for TransferRequest {
    type V = TransferRequestModel;

    open spec fn view(&self) -> TransferRequestModel {
        TransferRequestModel {
            proposer: self.proposer,
            recipient: self.recipient,
            token: self.token,
            amount: self.amount,
            memo: self.memo,
            priority: self.priority,
            conditions: self.conditions@,
            condition_logic: self.condition_logic,
            insurance_amount: self.insurance_amount,
            depends_on: self.depends_on@,
            execution_time: self.execution_time,
        }
    }
}

impl Record for TransferRequest {
    fn duplicate(&self) -> (copy: Self) {
        TransferRequest {
            proposer: self.proposer,
            recipient: self.recipient,
            token: self.token,
            amount: self.amount,
            memo: self.memo,
            priority: self.priority,
            conditions: copy_list(&self.conditions),
            condition_logic: self.condition_logic,
            insurance_amount: self.insurance_amount,
            depends_on: copy_list(&self.depends_on),
            execution_time: self.execution_time,
        }
    }
}

/// A proposal as it stood before its execution.
#[derive(Debug)]
pub struct ExecutionSnapshot {
    pub proposal: Proposal,
    pub was_in_priority_queue: bool,
}

/// Model of [`ExecutionSnapshot`].
#[verifier::ext_equal]
pub ghost struct ExecutionSnapshotModel {
    pub proposal: ProposalModel,
    pub was_in_priority_queue: bool,
}

impl View for ExecutionSnapshot {
    type V = ExecutionSnapshotModel;

    open spec fn view(&self) -> ExecutionSnapshotModel {
        ExecutionSnapshotModel {
            proposal: self.proposal@,
            was_in_priority_queue: self.was_in_priority_queue,
        }
    }
}

impl Record for ExecutionSnapshot {
    fn duplicate(&self) -> (copy: Self) {
        ExecutionSnapshot {
            proposal: self.proposal.duplicate(),
            was_in_priority_queue: self.was_in_priority_queue,
        }
    }
}

/// What the outside says during an execution: an observation per condition, the vault's balance
/// once the fee is paid, and whether the transfer went through.
#[derive(Debug)]
pub struct ExecutionAnswers {
    pub observations: Vec<Observation>,
    pub balance: i128,
    pub transferred: bool,
}

/// Model of [`ExecutionAnswers`].
#[verifier::ext_equal]
pub ghost struct ExecutionAnswersModel {
    pub observations: Seq<Observation>,
    pub balance: i128,
    pub transferred: bool,
}

impl View for ExecutionAnswers {
    type V = ExecutionAnswersModel;

    open spec fn view(&self) -> ExecutionAnswersModel {
        ExecutionAnswersModel {
            observations: self.observations@,
            balance: self.balance,
            transferred: self.transferred,
        }
    }
}

impl Record for ExecutionAnswers {
    fn duplicate(&self) -> (copy: Self) {
        ExecutionAnswers {
            observations: copy_list(&self.observations),
            balance: self.balance,
            transferred: self.transferred,
        }
    }
}

/// Protocol fees.
#[derive(Debug)]
pub struct FeeStructure {
    pub enabled: bool,
    pub base_fee_bps: u32,
    pub tiers: Vec<FeeTier>,
    pub reputation_discount_threshold: u32,
    pub reputation_discount_percentage: u32,
    pub treasury: Address,
}

/// Model of [`FeeStructure`].
#[verifier::ext_equal]
pub ghost struct FeeStructureModel {
    pub enabled: bool,
    pub base_fee_bps: u32,
    pub tiers: Seq<FeeTier>,
    pub reputation_discount_threshold: u32,
    pub reputation_discount_percentage: u32,
    pub treasury: Address,
}

impl View for FeeStructure {
    type V = FeeStructureModel;

    open spec fn view(&self) -> FeeStructureModel {
        FeeStructureModel {
            enabled: self.enabled,
            base_fee_bps: self.base_fee_bps,
            tiers: self.tiers@,
            reputation_discount_threshold: self.reputation_discount_threshold,
            reputation_discount_percentage: self.reputation_discount_percentage,
            treasury: self.treasury,
        }
    }
}

impl Record for FeeStructure {
    fn duplicate(&self) -> (copy: Self) {
        FeeStructure {
            enabled: self.enabled,
            base_fee_bps: self.base_fee_bps,
            tiers: copy_list(&self.tiers),
            reputation_discount_threshold: self.reputation_discount_threshold,
            reputation_discount_percentage: self.reputation_discount_percentage,
            treasury: self.treasury,
        }
    }
}

/// Exchanges the vault may use.
#[derive(Debug)]
pub struct DexConfig {
    pub enabled_dexs: Vec<Address>,
    pub max_price_impact_bps: u32,
}

/// Model of [`DexConfig`].
#[verifier::ext_equal]
pub ghost struct DexConfigModel {
    pub enabled_dexs: Seq<Address>,
    pub max_price_impact_bps: u32,
}

impl View for DexConfig {
    type V = DexConfigModel;

    open spec fn view(&self) -> DexConfigModel {
        DexConfigModel {
            enabled_dexs: self.enabled_dexs@,
            max_price_impact_bps: self.max_price_impact_bps,
        }
    }
}

impl Record for DexConfig {
    fn duplicate(&self) -> (copy: Self) {
        DexConfig {
            enabled_dexs: copy_list(&self.enabled_dexs),
            max_price_impact_bps: self.max_price_impact_bps,
        }
    }
}

/// Funds held until milestones are met.
#[derive(Debug)]
pub struct Escrow {
    pub id: u64,
    pub funder: Address,
    pub recipient: Address,
    pub token: Address,
    pub total_amount: i128,
    pub released_amount: i128,
    pub milestones: Vec<Milestone>,
    pub status: EscrowStatus,
    pub arbitrator: Address,
    pub dispute_reason: Symbol,
    pub created_at: u64,
    pub expires_at: u64,
    pub finalized_at: u64,
}

/// Model of [`Escrow`].
#[verifier::ext_equal]
pub ghost struct EscrowModel {
    pub id: u64,
    pub funder: Address,
    pub recipient: Address,
    pub token: Address,
    pub total_amount: i128,
    pub released_amount: i128,
    pub milestones: Seq<Milestone>,
    pub status: EscrowStatus,
    pub arbitrator: Address,
    pub dispute_reason: Symbol,
    pub created_at: u64,
    pub expires_at: u64,
    pub finalized_at: u64,
}

impl View for Escrow {
    type V = EscrowModel;

    open spec fn view(&self) -> EscrowModel {
        EscrowModel {
            id: self.id,
            funder: self.funder,
            recipient: self.recipient,
            token: self.token,
            total_amount: self.total_amount,
            released_amount: self.released_amount,
            milestones: self.milestones@,
            status: self.status,
            arbitrator: self.arbitrator,
            dispute_reason: self.dispute_reason,
            created_at: self.created_at,
            expires_at: self.expires_at,
            finalized_at: self.finalized_at,
        }
    }
}

impl Record for Escrow {
    fn duplicate(&self) -> (copy: Self) {
        Escrow {
            id: self.id,
            funder: self.funder,
            recipient: self.recipient,
            token: self.token,
            total_amount: self.total_amount,
            released_amount: self.released_amount,
            milestones: copy_list(&self.milestones),
            status: self.status,
            arbitrator: self.arbitrator,
            dispute_reason: self.dispute_reason,
            created_at: self.created_at,
            expires_at: self.expires_at,
            finalized_at: self.finalized_at,
        }
    }
}

/// A batch of operations.
#[derive(Debug)]
pub struct BatchTransaction {
    pub id: u64,
    pub creator: Address,
    pub operations: Vec<BatchOperation>,
    pub status: BatchStatus,
    pub created_at: u64,
    pub memo: Symbol,
}

/// Model of [`BatchTransaction`].
#[verifier::ext_equal]
pub ghost struct BatchTransactionModel {
    pub id: u64,
    pub creator: Address,
    pub operations: Seq<BatchOperation>,
    pub status: BatchStatus,
    pub created_at: u64,
    pub memo: Symbol,
}

impl View for BatchTransaction {
    type V = BatchTransactionModel;

    open spec fn view(&self) -> BatchTransactionModel {
        BatchTransactionModel {
            id: self.id,
            creator: self.creator,
            operations: self.operations@,
            status: self.status,
            created_at: self.created_at,
            memo: self.memo,
        }
    }
}

impl Record for BatchTransaction {
    fn duplicate(&self) -> (copy: Self) {
        BatchTransaction {
            id: self.id,
            creator: self.creator,
            operations: copy_list(&self.operations),
            status: self.status,
            created_at: self.created_at,
            memo: self.memo,
        }
    }
}

/// A batch of proposals.
#[derive(Debug)]
pub struct ProposalBatch {
    pub id: u64,
    pub proposal_ids: Vec<u64>,
    pub creator: Address,
    pub status: BatchStatus,
    pub created_at: u64,
    pub executed_count: u32,
    pub failed_count: u32,
}

/// Model of [`ProposalBatch`].
#[verifier::ext_equal]
pub ghost struct ProposalBatchModel {
    pub id: u64,
    pub proposal_ids: Seq<u64>,
    pub creator: Address,
    pub status: BatchStatus,
    pub created_at: u64,
    pub executed_count: u32,
    pub failed_count: u32,
}

impl View for ProposalBatch {
    type V = ProposalBatchModel;

    open spec fn view(&self) -> ProposalBatchModel {
        ProposalBatchModel {
            id: self.id,
            proposal_ids: self.proposal_ids@,
            creator: self.creator,
            status: self.status,
            created_at: self.created_at,
            executed_count: self.executed_count,
            failed_count: self.failed_count,
        }
    }
}

impl Record for ProposalBatch {
    fn duplicate(&self) -> (copy: Self) {
        ProposalBatch {
            id: self.id,
            proposal_ids: copy_list(&self.proposal_ids),
            creator: self.creator,
            status: self.status,
            created_at: self.created_at,
            executed_count: self.executed_count,
            failed_count: self.failed_count,
        }
    }
}

/// A proposal of the guardians to replace the signers.
#[derive(Debug)]
pub struct RecoveryProposal {
    pub id: u64,
    pub new_signers: Vec<Address>,
    pub new_threshold: u32,
    pub approvals: Vec<Address>,
    pub status: RecoveryStatus,
    pub created_at: u64,
    pub execution_after: u64,
}

/// Model of [`RecoveryProposal`].
#[verifier::ext_equal]
pub ghost struct RecoveryProposalModel {
    pub id: u64,
    pub new_signers: Seq<Address>,
    pub new_threshold: u32,
    pub approvals: Seq<Address>,
    pub status: RecoveryStatus,
    pub created_at: u64,
    pub execution_after: u64,
}

impl View for RecoveryProposal {
    type V = RecoveryProposalModel;

    open spec fn view(&self) -> RecoveryProposalModel {
        RecoveryProposalModel {
            id: self.id,
            new_signers: self.new_signers@,
            new_threshold: self.new_threshold,
            approvals: self.approvals@,
            status: self.status,
            created_at: self.created_at,
            execution_after: self.execution_after,
        }
    }
}

impl Record for RecoveryProposal {
    fn duplicate(&self) -> (copy: Self) {
        RecoveryProposal {
            id: self.id,
            new_signers: copy_list(&self.new_signers),
            new_threshold: self.new_threshold,
            approvals: copy_list(&self.approvals),
            status: self.status,
            created_at: self.created_at,
            execution_after: self.execution_after,
        }
    }
}

/// Funds released milestone by milestone.
#[derive(Debug)]
pub struct FundingRound {
    pub id: u64,
    pub proposal_id: u64,
    pub recipient: Address,
    pub token: Address,
    pub total_amount: i128,
    pub released_amount: i128,
    pub milestones: Vec<FundingMilestone>,
    pub status: FundingRoundStatus,
    pub created_at: u64,
    pub approved_at: u64,
    pub finalized_at: u64,
}

/// Model of [`FundingRound`].
#[verifier::ext_equal]
pub ghost struct FundingRoundModel {
    pub id: u64,
    pub proposal_id: u64,
    pub recipient: Address,
    pub token: Address,
    pub total_amount: i128,
    pub released_amount: i128,
    pub milestones: Seq<FundingMilestone>,
    pub status: FundingRoundStatus,
    pub created_at: u64,
    pub approved_at: u64,
    pub finalized_at: u64,
}

impl View for FundingRound {
    type V = FundingRoundModel;

    open spec fn view(&self) -> FundingRoundModel {
        FundingRoundModel {
            id: self.id,
            proposal_id: self.proposal_id,
            recipient: self.recipient,
            token: self.token,
            total_amount: self.total_amount,
            released_amount: self.released_amount,
            milestones: self.milestones@,
            status: self.status,
            created_at: self.created_at,
            approved_at: self.approved_at,
            finalized_at: self.finalized_at,
        }
    }
}

impl Record for FundingRound {
    fn duplicate(&self) -> (copy: Self) {
        FundingRound {
            id: self.id,
            proposal_id: self.proposal_id,
            recipient: self.recipient,
            token: self.token,
            total_amount: self.total_amount,
            released_amount: self.released_amount,
            milestones: copy_list(&self.milestones),
            status: self.status,
            created_at: self.created_at,
            approved_at: self.approved_at,
            finalized_at: self.finalized_at,
        }
    }
}

/// Who may coordinate transfers into this vault.
#[derive(Debug)]
pub struct CrossVaultConfig {
    pub enabled: bool,
    pub authorized_coordinators: Vec<Address>,
}

/// Model of [`CrossVaultConfig`].
#[verifier::ext_equal]
pub ghost struct CrossVaultConfigModel {
    pub enabled: bool,
    pub authorized_coordinators: Seq<Address>,
}

impl View for CrossVaultConfig {
    type V = CrossVaultConfigModel;

    open spec fn view(&self) -> CrossVaultConfigModel {
        CrossVaultConfigModel {
            enabled: self.enabled,
            authorized_coordinators: self.authorized_coordinators@,
        }
    }
}

impl Record for CrossVaultConfig {
    fn duplicate(&self) -> (copy: Self) {
        CrossVaultConfig {
            enabled: self.enabled,
            authorized_coordinators: copy_list(&self.authorized_coordinators),
        }
    }
}

/// The transfers of a cross-vault proposal and their outcome.
#[derive(Debug)]
pub struct CrossVaultProposal {
    pub actions: Vec<VaultAction>,
    pub status: CrossVaultStatus,
    pub execution_results: Vec<bool>,
    pub executed_at: u64,
}

/// Model of [`CrossVaultProposal`].
#[verifier::ext_equal]
pub ghost struct CrossVaultProposalModel {
    pub actions: Seq<VaultAction>,
    pub status: CrossVaultStatus,
    pub execution_results: Seq<bool>,
    pub executed_at: u64,
}

impl View for CrossVaultProposal {
    type V = CrossVaultProposalModel;

    open spec fn view(&self) -> CrossVaultProposalModel {
        CrossVaultProposalModel {
            actions: self.actions@,
            status: self.status,
            execution_results: self.execution_results@,
            executed_at: self.executed_at,
        }
    }
}

impl Record for CrossVaultProposal {
    fn duplicate(&self) -> (copy: Self) {
        CrossVaultProposal {
            actions: copy_list(&self.actions),
            status: self.status,
            execution_results: copy_list(&self.execution_results),
            executed_at: self.executed_at,
        }
    }
}

/// The bridge and its adapters.
#[derive(Debug)]
pub struct BridgeConfig {
    pub enabled: bool,
    pub bridge_adapters: Vec<Address>,
}

/// Model of [`BridgeConfig`].
#[verifier::ext_equal]
pub ghost struct BridgeConfigModel {
    pub enabled: bool,
    pub bridge_adapters: Seq<Address>,
}

impl View for BridgeConfig {
    type V = BridgeConfigModel;

    open spec fn view(&self) -> BridgeConfigModel {
        BridgeConfigModel {
            enabled: self.enabled,
            bridge_adapters: self.bridge_adapters@,
        }
    }
}

impl Record for BridgeConfig {
    fn duplicate(&self) -> (copy: Self) {
        BridgeConfig {
            enabled: self.enabled,
            bridge_adapters: copy_list(&self.bridge_adapters),
        }
    }
}

/// The transfers of a bridge proposal and their outcome.
#[derive(Debug)]
pub struct CrossChainProposal {
    pub assets: Vec<CrossChainAsset>,
    pub status: CrossVaultStatus,
    pub execution_results: Vec<bool>,
    pub executed_at: u64,
}

/// Model of [`CrossChainProposal`].
#[verifier::ext_equal]
pub ghost struct CrossChainProposalModel {
    pub assets: Seq<CrossChainAsset>,
    pub status: CrossVaultStatus,
    pub execution_results: Seq<bool>,
    pub executed_at: u64,
}

impl View for CrossChainProposal {
    type V = CrossChainProposalModel;

    open spec fn view(&self) -> CrossChainProposalModel {
        CrossChainProposalModel {
            assets: self.assets@,
            status: self.status,
            execution_results: self.execution_results@,
            executed_at: self.executed_at,
        }
    }
}

impl Record for CrossChainProposal {
    fn duplicate(&self) -> (copy: Self) {
        CrossChainProposal {
            assets: copy_list(&self.assets),
            status: self.status,
            execution_results: copy_list(&self.execution_results),
            executed_at: self.executed_at,
        }
    }
}

/// A dispute over a proposal.
#[derive(Debug)]
pub struct Dispute {
    pub id: u64,
    pub proposal_id: u64,
    pub disputer: Address,
    pub reason: Symbol,
    pub evidence: Texts,
    pub status: DisputeStatus,
    pub resolution: DisputeResolution,
    pub arbitrator: Address,
    pub filed_at: u64,
    pub resolved_at: u64,
}

/// Model of [`Dispute`].
#[verifier::ext_equal]
pub ghost struct DisputeModel {
    pub id: u64,
    pub proposal_id: u64,
    pub disputer: Address,
    pub reason: Symbol,
    pub evidence: Seq<Seq<u8>>,
    pub status: DisputeStatus,
    pub resolution: DisputeResolution,
    pub arbitrator: Address,
    pub filed_at: u64,
    pub resolved_at: u64,
}

impl View for Dispute {
    type V = DisputeModel;

    open spec fn view(&self) -> DisputeModel {
        DisputeModel {
            id: self.id,
            proposal_id: self.proposal_id,
            disputer: self.disputer,
            reason: self.reason,
            evidence: self.evidence@,
            status: self.status,
            resolution: self.resolution,
            arbitrator: self.arbitrator,
            filed_at: self.filed_at,
            resolved_at: self.resolved_at,
        }
    }
}

impl Record for Dispute {
    fn duplicate(&self) -> (copy: Self) {
        Dispute {
            id: self.id,
            proposal_id: self.proposal_id,
            disputer: self.disputer,
            reason: self.reason,
            evidence: self.evidence.duplicate(),
            status: self.status,
            resolution: self.resolution,
            arbitrator: self.arbitrator,
            filed_at: self.filed_at,
            resolved_at: self.resolved_at,
        }
    }
}

impl View for Role {
    type V = Role;

    open spec fn view(&self) -> Role {
        *self
    }
}

impl Record for Role {
    fn duplicate(&self) -> (copy: Self) {
        *self
    }
}

impl View for CancellationRecord {
    type V = CancellationRecord;

    open spec fn view(&self) -> CancellationRecord {
        *self
    }
}

impl Record for CancellationRecord {
    fn duplicate(&self) -> (copy: Self) {
        *self
    }
}

impl View for ExecutionFeeEstimate {
    type V = ExecutionFeeEstimate;

    open spec fn view(&self) -> ExecutionFeeEstimate {
        *self
    }
}

impl Record for ExecutionFeeEstimate {
    fn duplicate(&self) -> (copy: Self) {
        *self
    }
}

impl View for RetryState {
    type V = RetryState;

    open spec fn view(&self) -> RetryState {
        *self
    }
}

impl Record for RetryState {
    fn duplicate(&self) -> (copy: Self) {
        *self
    }
}

impl View for Comment {
    type V = Comment;

    open spec fn view(&self) -> Comment {
        *self
    }
}

impl Record for Comment {
    fn duplicate(&self) -> (copy: Self) {
        *self
    }
}

impl View for StakeRecord {
    type V = StakeRecord;

    open spec fn view(&self) -> StakeRecord {
        *self
    }
}

impl Record for StakeRecord {
    fn duplicate(&self) -> (copy: Self) {
        *self
    }
}

impl View for Reputation {
    type V = Reputation;

    open spec fn view(&self) -> Reputation {
        *self
    }
}

impl Record for Reputation {
    fn duplicate(&self) -> (copy: Self) {
        *self
    }
}

impl View for NotificationPreferences {
    type V = NotificationPreferences;

    open spec fn view(&self) -> NotificationPreferences {
        *self
    }
}

impl Record for NotificationPreferences {
    fn duplicate(&self) -> (copy: Self) {
        *self
    }
}

impl View for Delegation {
    type V = Delegation;

    open spec fn view(&self) -> Delegation {
        *self
    }
}

impl Record for Delegation {
    fn duplicate(&self) -> (copy: Self) {
        *self
    }
}

impl View for TokenLock {
    type V = TokenLock;

    open spec fn view(&self) -> TokenLock {
        *self
    }
}

impl Record for TokenLock {
    fn duplicate(&self) -> (copy: Self) {
        *self
    }
}

impl View for AuditEntry {
    type V = AuditEntry;

    open spec fn view(&self) -> AuditEntry {
        *self
    }
}

impl Record for AuditEntry {
    fn duplicate(&self) -> (copy: Self) {
        *self
    }
}

impl View for RecurringPayment {
    type V = RecurringPayment;

    open spec fn view(&self) -> RecurringPayment {
        *self
    }
}

impl Record for RecurringPayment {
    fn duplicate(&self) -> (copy: Self) {
        *self
    }
}

impl View for StreamingPayment {
    type V = StreamingPayment;

    open spec fn view(&self) -> StreamingPayment {
        *self
    }
}

impl Record for StreamingPayment {
    fn duplicate(&self) -> (copy: Self) {
        *self
    }
}

impl View for Subscription {
    type V = Subscription;

    open spec fn view(&self) -> Subscription {
        *self
    }
}

impl Record for Subscription {
    fn duplicate(&self) -> (copy: Self) {
        *self
    }
}

impl View for ProposalTemplate {
    type V = ProposalTemplate;

    open spec fn view(&self) -> ProposalTemplate {
        *self
    }
}

impl Record for ProposalTemplate {
    fn duplicate(&self) -> (copy: Self) {
        *self
    }
}

impl View for BatchExecutionResult {
    type V = BatchExecutionResult;

    open spec fn view(&self) -> BatchExecutionResult {
        *self
    }
}

impl Record for BatchExecutionResult {
    fn duplicate(&self) -> (copy: Self) {
        *self
    }
}

impl View for ProposalBatchResult {
    type V = ProposalBatchResult;

    open spec fn view(&self) -> ProposalBatchResult {
        *self
    }
}

impl Record for ProposalBatchResult {
    fn duplicate(&self) -> (copy: Self) {
        *self
    }
}

impl View for SwapProposal {
    type V = SwapProposal;

    open spec fn view(&self) -> SwapProposal {
        *self
    }
}

impl Record for SwapProposal {
    fn duplicate(&self) -> (copy: Self) {
        *self
    }
}

impl View for SwapResult {
    type V = SwapResult;

    open spec fn view(&self) -> SwapResult {
        *self
    }
}

impl Record for SwapResult {
    fn duplicate(&self) -> (copy: Self) {
        *self
    }
}

impl View for DelegatedPermission {
    type V = DelegatedPermission;

    open spec fn view(&self) -> DelegatedPermission {
        *self
    }
}

impl Record for DelegatedPermission {
    fn duplicate(&self) -> (copy: Self) {
        *self
    }
}

} // verus!
