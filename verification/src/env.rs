//! The vault's surroundings and state: what the ledger says, who authorized the call, what
//! is stored, and what the vault asks of the outside.
//!
//! Calls on a vault read and change an [`Env`]. Transfers, calls of other contracts and
//! published events are not performed here: they are appended to [`Env::actions`], in order.

use vstd::prelude::*;

use crate::primitives::{Address, GrantKey, Symbol, Texts, VolumeKey, VoteKey};
use crate::table::Table;
use crate::types::{
    AuditEntry, BatchExecutionResult, BatchTransaction, BatchTransactionModel, BridgeConfig,
    BridgeConfigModel, CancellationRecord, Comment, Config, ConfigModel, CrossChainProposal,
    CrossChainProposalModel, CrossVaultConfig, CrossVaultConfigModel, CrossVaultProposal,
    CrossVaultProposalModel, DelegatedPermission, Delegation, DelegationHistory, DexConfig,
    DexConfigModel, Dispute, DisputeModel, Escrow, EscrowModel, ExecutionFeeEstimate,
    ExecutionSnapshot, ExecutionSnapshotModel, FeeStructure, FeeStructureModel,
    FundingRound, FundingRoundConfig, FundingRoundModel, GasConfig, InsuranceConfig,
    ListMode, NotificationPreferences, PermissionGrant, Proposal, ProposalAmendment,
    ProposalBatch, ProposalBatchModel, ProposalBatchResult, ProposalModel, ProposalTemplate,
    RecoveryProposal, RecoveryProposalModel, RecurringPayment, Reputation, ReputationConfig,
    RetryState, Role, StakeRecord, StakingConfig, StreamingPayment, Subscription,
    SwapProposal, SwapResult, TimeWeightedConfig, TokenLock, VaultMetrics,
    VaultOracleConfig, VotingStrategy,
};

verus! {

/// Why a reputation score changed.
#[derive(Clone, Copy, PartialEq, Eq, Structural, Debug)]
pub enum ReputationChange {
    Decay,
    Approved,
    Executed,
    Rejected,
}

/// What the vault tells observers.
#[allow(inconsistent_fields)]
#[derive(Clone, Copy, PartialEq, Eq, Structural, Debug)]
pub enum Event {
    BatchExecuted { executor: Address, executed: u32, failed: u32 },
    BatchRolledBack { executor: Address, executed: u32 },
    BridgeConfigUpdated { admin: Address },
    BridgeExecuted { proposal_id: u64, executor: Address, succeeded: u32 },
    BridgeProposed { proposal_id: u64, proposer: Address, assets: u32 },
    CommentAdded { comment_id: u64, proposal_id: u64, author: Address },
    CommentEdited { comment_id: u64, author: Address },
    ConfigUpdated { admin: Address },
    CrossVaultConfigSet { admin: Address },
    CrossVaultExecuted { proposal_id: u64, executor: Address, succeeded: u32 },
    CrossVaultProposed { proposal_id: u64, proposer: Address, actions: u32 },
    DelegatedVote { proposal_id: u64, voter: Address, signer: Address },
    DexConfigUpdated { admin: Address },
    DisputeRaised { dispute_id: u64, proposal_id: u64, disputer: Address },
    DisputeResolved { dispute_id: u64, admin: Address, resolution: u32 },
    EarlyUnlock { owner: Address, returned: i128, penalty: i128 },
    EscrowCreated {
        escrow_id: u64,
        funder: Address,
        recipient: Address,
        token: Address,
        amount: i128,
        duration: u64,
    },
    EscrowDisputeResolved { escrow_id: u64, arbitrator: Address, to_recipient: bool },
    EscrowDisputed { escrow_id: u64, disputer: Address, reason: Symbol },
    EscrowReleased { escrow_id: u64, recipient: Address, amount: i128, is_refund: bool },
    ExecutionFeeEstimated {
        proposal_id: u64,
        base_fee: u64,
        resource_fee: u64,
        total_fee: u64,
    },
    ExecutionRolledBack { proposal_id: u64, error: u32 },
    ExecutionFeeUsed { proposal_id: u64, fee: u64 },
    FeeCollected {
        user: Address,
        token: Address,
        amount: i128,
        fee: i128,
        fee_bps: u32,
        discounted: bool,
    },
    FeeStructureUpdated { admin: Address, enabled: bool },
    FundingReleased { round_id: u64, recipient: Address, amount: i128, milestone: u32 },
    FundingRoundApproved { round_id: u64, approver: Address },
    FundingRoundCancelled { round_id: u64, canceller: Address },
    FundingRoundCompleted { round_id: u64, released: i128 },
    FundingRoundCreated {
        round_id: u64,
        proposal_id: u64,
        recipient: Address,
        token: Address,
        amount: i128,
        milestones: u32,
    },
    GasConfigUpdated { admin: Address },
    GasLimitExceeded { proposal_id: u64, used: u64, limit: u64 },
    HookExecuted { hook: Address, proposal_id: u64, is_pre: bool },
    HookRegistered { hook: Address, is_pre: bool },
    HookRemoved { hook: Address, is_pre: bool },
    Initialized { admin: Address, threshold: u32 },
    InsuranceConfigUpdated { admin: Address },
    InsuranceLocked { proposal_id: u64, proposer: Address, amount: i128, token: Address },
    InsuranceReturned { proposal_id: u64, proposer: Address, amount: i128 },
    InsuranceSlashed { proposal_id: u64, proposer: Address, slashed: i128, kept: i128 },
    LockExtended { owner: Address, duration: u64, multiplier_bps: u32 },
    MetricsUpdated { executed: u64, rejected: u64, expired: u64, success_rate_bps: u32 },
    MilestoneCompleted { escrow_id: u64, milestone_id: u64, completer: Address },
    MilestoneSubmitted { round_id: u64, milestone: u32, submitter: Address },
    MilestoneVerified { round_id: u64, milestone: u32, verifier: Address, amount: i128 },
    NotificationPrefsUpdated { addr: Address },
    OracleConfigUpdated { admin: Address, oracle: Address },
    OraclePriceStale { asset: Address, timestamp: u64, now: u64 },
    PermissionDelegated { delegator: Address, delegatee: Address, permission: u32 },
    PermissionGranted { admin: Address, target: Address, permission: u32 },
    PermissionRevoked { admin: Address, target: Address, permission: u32 },
    ProposalAbstained {
        proposal_id: u64,
        signer: Address,
        abstentions: u32,
        quorum_votes: u32,
    },
    ProposalAmended { amendment: ProposalAmendment },
    ProposalApproved { proposal_id: u64, signer: Address, approvals: u32, threshold: u32 },
    ProposalCancelled { proposal_id: u64, canceller: Address, reason: Symbol, refunded: i128 },
    ProposalCreated {
        proposal_id: u64,
        proposer: Address,
        recipient: Address,
        token: Address,
        amount: i128,
        insurance: i128,
    },
    ProposalDeadlineRejected { proposal_id: u64, deadline: u64 },
    ProposalExecuted {
        proposal_id: u64,
        executor: Address,
        recipient: Address,
        token: Address,
        amount: i128,
        ledger: u64,
    },
    ProposalExpired { proposal_id: u64, expires_at: u64 },
    ProposalFromTemplate {
        proposal_id: u64,
        template_id: u64,
        name: Symbol,
        proposer: Address,
    },
    ProposalReady { proposal_id: u64, unlock_ledger: u64 },
    ProposalRejected { proposal_id: u64, rejector: Address, proposer: Address },
    ProposalScheduled { proposal_id: u64, execution_time: u64, ledger: u64 },
    ProposalVetoed { proposal_id: u64, vetoer: Address },
    QuorumReached { proposal_id: u64, quorum_votes: u32, required: u32 },
    QuorumUpdated { admin: Address, old_quorum: u32, new_quorum: u32 },
    RecoveryApproved { proposal_id: u64, guardian: Address },
    RecoveryCancelled { proposal_id: u64, admin: Address },
    RecoveryConfigUpdated { admin: Address },
    RecoveryExecuted { proposal_id: u64 },
    RecoveryProposed { proposal_id: u64, threshold: u32 },
    ReputationConfigUpdated { admin: Address },
    ReputationUpdated {
        addr: Address,
        old_score: u32,
        new_score: u32,
        reason: ReputationChange,
    },
    RetriesExhausted { proposal_id: u64, retry_count: u32 },
    RetryScheduled { proposal_id: u64, retry_count: u32, next_ledger: u64, error: u32 },
    RoleAssigned { addr: Address, role: u32 },
    ScheduledProposalCancelled { proposal_id: u64, ledger: u64 },
    StakeLocked { proposal_id: u64, staker: Address, amount: i128, token: Address },
    StakeRefunded { proposal_id: u64, staker: Address, amount: i128 },
    StakeSlashed { proposal_id: u64, staker: Address, slashed: i128, returned: i128 },
    StreamClaimed { stream_id: u64, recipient: Address, amount: i128 },
    StreamCreated {
        stream_id: u64,
        sender: Address,
        recipient: Address,
        token: Address,
        amount: i128,
        rate: i128,
    },
    StreamStatusUpdated { stream_id: u64, status: u32, caller: Address },
    SubscriptionCancelled { id: u64, caller: Address },
    SubscriptionCreated { id: u64, subscriber: Address, tier: u32, amount: i128 },
    SubscriptionRenewed { id: u64, payment_number: u32, amount: i128 },
    SubscriptionUpgraded { id: u64, old_tier: u32, new_tier: u32, amount: i128 },
    TemplateCreated { template_id: u64, name: Symbol, creator: Address },
    TemplateStatusChanged { template_id: u64, name: Symbol, active: bool, admin: Address },
    TemplateUpdated { template_id: u64, name: Symbol, version: u32, caller: Address },
    TokensLocked { owner: Address, amount: i128, duration: u64, multiplier_bps: u32 },
    TokensUnlocked { owner: Address, amount: i128 },
    VotingDeadlineExtended {
        proposal_id: u64,
        old_deadline: u64,
        new_deadline: u64,
        admin: Address,
    },
}

/// What the vault asks of the outside.
#[derive(Clone, Copy, PartialEq, Eq, Structural, Debug)]
pub enum Action {
    /// Pay from the vault; the call fails where the transfer fails.
    Transfer { token: Address, to: Address, amount: i128 },
    /// Collect from an address; the call fails where the transfer fails.
    TransferToVault { token: Address, from: Address, amount: i128 },
    /// A payment from the vault that was tried, with its outcome.
    TriedTransfer { token: Address, to: Address, amount: i128, done: bool },
    /// Take an amount back from an address.
    TakeBack { token: Address, from: Address, amount: i128 },
    /// Call a hook contract.
    CallHook { hook: Address, proposal_id: u64, is_pre: bool },
    /// Keep the vault's own entry alive.
    ExtendInstanceTtl,
    /// Publish an event.
    Publish(Event),
}

/// What the ledger says.
#[derive(Clone, Copy, PartialEq, Eq, Structural, Debug)]
pub struct Ledger {
    pub sequence: u32,
    pub timestamp: u64,
    /// The vault's own address.
    pub contract: Address,
}

/// Configuration, roles, lists and permissions.
#[derive(Debug)]
pub struct Access {
    pub initialized: bool,
    pub config: Option<Config>,
    pub voting_strategy: VotingStrategy,
    pub roles: Table<Address, Role>,
    pub role_index: Vec<Address>,
    pub list_mode: ListMode,
    pub whitelist: Table<Address, bool>,
    pub blacklist: Table<Address, bool>,
    pub permissions: Table<Address, Vec<PermissionGrant>>,
    pub delegated_permissions: Table<GrantKey, DelegatedPermission>,
}

/// Model of [`Access`].
#[verifier::ext_equal]
pub ghost struct AccessModel {
    pub initialized: bool,
    pub config: Option<ConfigModel>,
    pub voting_strategy: VotingStrategy,
    pub roles: Map<Address, Role>,
    pub role_index: Seq<Address>,
    pub list_mode: ListMode,
    pub whitelist: Map<Address, bool>,
    pub blacklist: Map<Address, bool>,
    pub permissions: Map<Address, Seq<PermissionGrant>>,
    pub delegated_permissions: Map<GrantKey, DelegatedPermission>,
}

impl View for Access {
    type V = AccessModel;

    open spec fn view(&self) -> AccessModel {
        AccessModel {
            initialized: self.initialized,
            config: crate::table::opt_view(self.config),
            voting_strategy: self.voting_strategy,
            roles: self.roles@,
            role_index: self.role_index@,
            list_mode: self.list_mode,
            whitelist: self.whitelist@,
            blacklist: self.blacklist@,
            permissions: self.permissions@,
            delegated_permissions: self.delegated_permissions@,
        }
    }
}

/// Proposals and what is attached to them.
#[derive(Debug)]
pub struct Proposals {
    pub records: Table<u64, Proposal>,
    pub next_id: u64,
    pub queues: Table<u32, Vec<u64>>,
    pub attachments: Table<u64, Texts>,
    pub approval_ledgers: Table<VoteKey, u64>,
    pub cancellations: Table<u64, CancellationRecord>,
    pub cancellation_history: Vec<u64>,
    pub amendments: Table<u64, Vec<ProposalAmendment>>,
    pub snapshots: Table<u64, ExecutionSnapshot>,
    pub fee_estimates: Table<u64, ExecutionFeeEstimate>,
    pub retries: Table<u64, RetryState>,
    pub comments: Table<u64, Comment>,
    pub proposal_comments: Table<u64, Vec<u64>>,
    pub next_comment_id: u64,
}

/// Model of [`Proposals`].
#[verifier::ext_equal]
pub ghost struct ProposalsModel {
    pub records: Map<u64, ProposalModel>,
    pub next_id: u64,
    pub queues: Map<u32, Seq<u64>>,
    pub attachments: Map<u64, Seq<Seq<u8>>>,
    pub approval_ledgers: Map<VoteKey, u64>,
    pub cancellations: Map<u64, CancellationRecord>,
    pub cancellation_history: Seq<u64>,
    pub amendments: Map<u64, Seq<ProposalAmendment>>,
    pub snapshots: Map<u64, ExecutionSnapshotModel>,
    pub fee_estimates: Map<u64, ExecutionFeeEstimate>,
    pub retries: Map<u64, RetryState>,
    pub comments: Map<u64, Comment>,
    pub proposal_comments: Map<u64, Seq<u64>>,
    pub next_comment_id: u64,
}

impl View for Proposals {
    type V = ProposalsModel;

    open spec fn view(&self) -> ProposalsModel {
        ProposalsModel {
            records: self.records@,
            next_id: self.next_id,
            queues: self.queues@,
            attachments: self.attachments@,
            approval_ledgers: self.approval_ledgers@,
            cancellations: self.cancellations@,
            cancellation_history: self.cancellation_history@,
            amendments: self.amendments@,
            snapshots: self.snapshots@,
            fee_estimates: self.fee_estimates@,
            retries: self.retries@,
            comments: self.comments@,
            proposal_comments: self.proposal_comments@,
            next_comment_id: self.next_comment_id,
        }
    }
}

/// Spending, insurance, stakes, fees and metrics.
#[derive(Debug)]
pub struct Treasury {
    pub daily_spent: Table<u64, i128>,
    pub weekly_spent: Table<u64, i128>,
    pub velocity: Table<Address, Vec<u64>>,
    pub insurance_config: InsuranceConfig,
    pub insurance_pool: Table<Address, i128>,
    pub staking_config: StakingConfig,
    pub stake_pool: Table<Address, i128>,
    pub stake_records: Table<u64, StakeRecord>,
    pub fee_structure: Option<FeeStructure>,
    pub fees_collected: Table<Address, i128>,
    pub user_volume: Table<VolumeKey, i128>,
    pub gas_config: GasConfig,
    pub metrics: VaultMetrics,
}

/// Model of [`Treasury`].
#[verifier::ext_equal]
pub ghost struct TreasuryModel {
    pub daily_spent: Map<u64, i128>,
    pub weekly_spent: Map<u64, i128>,
    pub velocity: Map<Address, Seq<u64>>,
    pub insurance_config: InsuranceConfig,
    pub insurance_pool: Map<Address, i128>,
    pub staking_config: StakingConfig,
    pub stake_pool: Map<Address, i128>,
    pub stake_records: Map<u64, StakeRecord>,
    pub fee_structure: Option<FeeStructureModel>,
    pub fees_collected: Map<Address, i128>,
    pub user_volume: Map<VolumeKey, i128>,
    pub gas_config: GasConfig,
    pub metrics: VaultMetrics,
}

impl View for Treasury {
    type V = TreasuryModel;

    open spec fn view(&self) -> TreasuryModel {
        TreasuryModel {
            daily_spent: self.daily_spent@,
            weekly_spent: self.weekly_spent@,
            velocity: self.velocity@,
            insurance_config: self.insurance_config,
            insurance_pool: self.insurance_pool@,
            staking_config: self.staking_config,
            stake_pool: self.stake_pool@,
            stake_records: self.stake_records@,
            fee_structure: crate::table::opt_view(self.fee_structure),
            fees_collected: self.fees_collected@,
            user_volume: self.user_volume@,
            gas_config: self.gas_config,
            metrics: self.metrics,
        }
    }
}

/// Reputation, delegation and token locks of addresses.
#[derive(Debug)]
pub struct Members {
    pub reputation: Table<Address, Reputation>,
    pub reputation_config: ReputationConfig,
    pub notification_prefs: Table<Address, NotificationPreferences>,
    pub delegations: Table<Address, Delegation>,
    pub delegators: Table<Address, Vec<Address>>,
    pub delegation_history: Table<Address, Vec<DelegationHistory>>,
    pub next_delegation_id: u64,
    pub token_locks: Table<Address, TokenLock>,
    pub total_locked: Table<Address, i128>,
    pub time_weighted: TimeWeightedConfig,
}

/// Model of [`Members`].
#[verifier::ext_equal]
pub ghost struct MembersModel {
    pub reputation: Map<Address, Reputation>,
    pub reputation_config: ReputationConfig,
    pub notification_prefs: Map<Address, NotificationPreferences>,
    pub delegations: Map<Address, Delegation>,
    pub delegators: Map<Address, Seq<Address>>,
    pub delegation_history: Map<Address, Seq<DelegationHistory>>,
    pub next_delegation_id: u64,
    pub token_locks: Map<Address, TokenLock>,
    pub total_locked: Map<Address, i128>,
    pub time_weighted: TimeWeightedConfig,
}

impl View for Members {
    type V = MembersModel;

    open spec fn view(&self) -> MembersModel {
        MembersModel {
            reputation: self.reputation@,
            reputation_config: self.reputation_config,
            notification_prefs: self.notification_prefs@,
            delegations: self.delegations@,
            delegators: self.delegators@,
            delegation_history: self.delegation_history@,
            next_delegation_id: self.next_delegation_id,
            token_locks: self.token_locks@,
            total_locked: self.total_locked@,
            time_weighted: self.time_weighted,
        }
    }
}

/// The audit chain.
#[derive(Debug)]
pub struct Audit {
    pub entries: Table<u64, AuditEntry>,
    pub next_id: u64,
    pub last_hash: u64,
}

/// Model of [`Audit`].
#[verifier::ext_equal]
pub ghost struct AuditModel {
    pub entries: Map<u64, AuditEntry>,
    pub next_id: u64,
    pub last_hash: u64,
}

impl View for Audit {
    type V = AuditModel;

    open spec fn view(&self) -> AuditModel {
        AuditModel {
            entries: self.entries@,
            next_id: self.next_id,
            last_hash: self.last_hash,
        }
    }
}

/// Recurring payments, streams, escrows and subscriptions.
#[derive(Debug)]
pub struct Payments {
    pub recurring: Table<u64, RecurringPayment>,
    pub next_recurring_id: u64,
    pub streams: Table<u64, StreamingPayment>,
    pub next_stream_id: u64,
    pub escrows: Table<u64, Escrow>,
    pub next_escrow_id: u64,
    pub funder_escrows: Table<Address, Vec<u64>>,
    pub recipient_escrows: Table<Address, Vec<u64>>,
    pub subscriptions: Table<u64, Subscription>,
    pub next_subscription_id: u64,
    pub subscriber_index: Table<Address, Vec<u64>>,
}

/// Model of [`Payments`].
#[verifier::ext_equal]
pub ghost struct PaymentsModel {
    pub recurring: Map<u64, RecurringPayment>,
    pub next_recurring_id: u64,
    pub streams: Map<u64, StreamingPayment>,
    pub next_stream_id: u64,
    pub escrows: Map<u64, EscrowModel>,
    pub next_escrow_id: u64,
    pub funder_escrows: Map<Address, Seq<u64>>,
    pub recipient_escrows: Map<Address, Seq<u64>>,
    pub subscriptions: Map<u64, Subscription>,
    pub next_subscription_id: u64,
    pub subscriber_index: Map<Address, Seq<u64>>,
}

impl View for Payments {
    type V = PaymentsModel;

    open spec fn view(&self) -> PaymentsModel {
        PaymentsModel {
            recurring: self.recurring@,
            next_recurring_id: self.next_recurring_id,
            streams: self.streams@,
            next_stream_id: self.next_stream_id,
            escrows: self.escrows@,
            next_escrow_id: self.next_escrow_id,
            funder_escrows: self.funder_escrows@,
            recipient_escrows: self.recipient_escrows@,
            subscriptions: self.subscriptions@,
            next_subscription_id: self.next_subscription_id,
            subscriber_index: self.subscriber_index@,
        }
    }
}

/// Templates, funding rounds, batches, recovery and disputes.
#[derive(Debug)]
pub struct Programs {
    pub templates: Table<u64, ProposalTemplate>,
    pub next_template_id: u64,
    pub template_names: Table<Symbol, u64>,
    pub funding_rounds: Table<u64, FundingRound>,
    pub next_funding_round_id: u64,
    pub proposal_funding_rounds: Table<u64, Vec<u64>>,
    pub funding_round_config: Option<FundingRoundConfig>,
    pub batches: Table<u64, BatchTransaction>,
    pub last_batch_id: u64,
    pub batch_results: Table<u64, BatchExecutionResult>,
    pub batch_rollbacks: Table<u64, Vec<(Address, i128)>>,
    pub proposal_batches: Table<u64, ProposalBatch>,
    pub next_proposal_batch_id: u64,
    pub proposal_batch_results: Table<u64, ProposalBatchResult>,
    pub proposal_batch_rollbacks: Table<u64, Vec<(Address, i128)>>,
    pub recovery_proposals: Table<u64, RecoveryProposal>,
    pub next_recovery_id: u64,
    pub disputes: Table<u64, Dispute>,
    pub next_dispute_id: u64,
    pub proposal_disputes: Table<u64, Vec<u64>>,
}

/// Model of [`Programs`].
#[verifier::ext_equal]
pub ghost struct ProgramsModel {
    pub templates: Map<u64, ProposalTemplate>,
    pub next_template_id: u64,
    pub template_names: Map<Symbol, u64>,
    pub funding_rounds: Map<u64, FundingRoundModel>,
    pub next_funding_round_id: u64,
    pub proposal_funding_rounds: Map<u64, Seq<u64>>,
    pub funding_round_config: Option<FundingRoundConfig>,
    pub batches: Map<u64, BatchTransactionModel>,
    pub last_batch_id: u64,
    pub batch_results: Map<u64, BatchExecutionResult>,
    pub batch_rollbacks: Map<u64, Seq<(Address, i128)>>,
    pub proposal_batches: Map<u64, ProposalBatchModel>,
    pub next_proposal_batch_id: u64,
    pub proposal_batch_results: Map<u64, ProposalBatchResult>,
    pub proposal_batch_rollbacks: Map<u64, Seq<(Address, i128)>>,
    pub recovery_proposals: Map<u64, RecoveryProposalModel>,
    pub next_recovery_id: u64,
    pub disputes: Map<u64, DisputeModel>,
    pub next_dispute_id: u64,
    pub proposal_disputes: Map<u64, Seq<u64>>,
}

impl View for Programs {
    type V = ProgramsModel;

    open spec fn view(&self) -> ProgramsModel {
        ProgramsModel {
            templates: self.templates@,
            next_template_id: self.next_template_id,
            template_names: self.template_names@,
            funding_rounds: self.funding_rounds@,
            next_funding_round_id: self.next_funding_round_id,
            proposal_funding_rounds: self.proposal_funding_rounds@,
            funding_round_config: self.funding_round_config,
            batches: self.batches@,
            last_batch_id: self.last_batch_id,
            batch_results: self.batch_results@,
            batch_rollbacks: self.batch_rollbacks@,
            proposal_batches: self.proposal_batches@,
            next_proposal_batch_id: self.next_proposal_batch_id,
            proposal_batch_results: self.proposal_batch_results@,
            proposal_batch_rollbacks: self.proposal_batch_rollbacks@,
            recovery_proposals: self.recovery_proposals@,
            next_recovery_id: self.next_recovery_id,
            disputes: self.disputes@,
            next_dispute_id: self.next_dispute_id,
            proposal_disputes: self.proposal_disputes@,
        }
    }
}

/// Exchanges, the oracle, other vaults and the bridge.
#[derive(Debug)]
pub struct Links {
    pub dex_config: Option<DexConfig>,
    pub swap_proposals: Table<u64, SwapProposal>,
    pub swap_results: Table<u64, SwapResult>,
    pub oracle_config: Option<VaultOracleConfig>,
    pub cross_vault_config: Option<CrossVaultConfig>,
    pub cross_vault_proposals: Table<u64, CrossVaultProposal>,
    pub bridge_config: Option<BridgeConfig>,
    pub cross_chain_proposals: Table<u64, CrossChainProposal>,
    pub bridge_locks: Table<u64, bool>,
}

/// Model of [`Links`].
#[verifier::ext_equal]
pub ghost struct LinksModel {
    pub dex_config: Option<DexConfigModel>,
    pub swap_proposals: Map<u64, SwapProposal>,
    pub swap_results: Map<u64, SwapResult>,
    pub oracle_config: Option<VaultOracleConfig>,
    pub cross_vault_config: Option<CrossVaultConfigModel>,
    pub cross_vault_proposals: Map<u64, CrossVaultProposalModel>,
    pub bridge_config: Option<BridgeConfigModel>,
    pub cross_chain_proposals: Map<u64, CrossChainProposalModel>,
    pub bridge_locks: Map<u64, bool>,
}

impl View for Links {
    type V = LinksModel;

    open spec fn view(&self) -> LinksModel {
        LinksModel {
            dex_config: crate::table::opt_view(self.dex_config),
            swap_proposals: self.swap_proposals@,
            swap_results: self.swap_results@,
            oracle_config: self.oracle_config,
            cross_vault_config: crate::table::opt_view(self.cross_vault_config),
            cross_vault_proposals: self.cross_vault_proposals@,
            bridge_config: crate::table::opt_view(self.bridge_config),
            cross_chain_proposals: self.cross_chain_proposals@,
            bridge_locks: self.bridge_locks@,
        }
    }
}

/// Surroundings and state of a vault.
#[derive(Debug)]
pub struct Env {
    pub ledger: Ledger,
    /// Addresses that authorized the call.
    pub auth: Vec<Address>,
    /// What the vault asked of the outside so far.
    pub actions: Vec<Action>,
    pub access: Access,
    pub proposals: Proposals,
    pub treasury: Treasury,
    pub members: Members,
    pub audit: Audit,
    pub payments: Payments,
    pub programs: Programs,
    pub links: Links,
}

/// Model of [`Env`].
#[verifier::ext_equal]
pub ghost struct EnvModel {
    pub ledger: Ledger,
    pub auth: Seq<Address>,
    pub actions: Seq<Action>,
    pub access: AccessModel,
    pub proposals: ProposalsModel,
    pub treasury: TreasuryModel,
    pub members: MembersModel,
    pub audit: AuditModel,
    pub payments: PaymentsModel,
    pub programs: ProgramsModel,
    pub links: LinksModel,
}

impl View for Env {
    type V = EnvModel;

    open spec fn view(&self) -> EnvModel {
        EnvModel {
            ledger: self.ledger,
            auth: self.auth@,
            actions: self.actions@,
            access: self.access@,
            proposals: self.proposals@,
            treasury: self.treasury@,
            members: self.members@,
            audit: self.audit@,
            payments: self.payments@,
            programs: self.programs@,
            links: self.links@,
        }
    }
}

impl EnvModel {
    /// A vault in which nothing is stored yet.
    pub open spec fn fresh(ledger: Ledger) -> EnvModel {
        EnvModel {
            ledger,
            auth: Seq::empty(),
            actions: Seq::empty(),
            access: AccessModel {
                initialized: false,
                config: None,
                voting_strategy: VotingStrategy::Simple,
                roles: Map::empty(),
                role_index: Seq::empty(),
                list_mode: ListMode::Disabled,
                whitelist: Map::empty(),
                blacklist: Map::empty(),
                permissions: Map::empty(),
                delegated_permissions: Map::empty(),
            },
            proposals: ProposalsModel {
                records: Map::empty(),
                next_id: 1,
                queues: Map::empty(),
                attachments: Map::empty(),
                approval_ledgers: Map::empty(),
                cancellations: Map::empty(),
                cancellation_history: Seq::empty(),
                amendments: Map::empty(),
                snapshots: Map::empty(),
                fee_estimates: Map::empty(),
                retries: Map::empty(),
                comments: Map::empty(),
                proposal_comments: Map::empty(),
                next_comment_id: 1,
            },
            treasury: TreasuryModel {
                daily_spent: Map::empty(),
                weekly_spent: Map::empty(),
                velocity: Map::empty(),
                insurance_config: InsuranceConfig::spec_default(),
                insurance_pool: Map::empty(),
                staking_config: StakingConfig::spec_default(),
                stake_pool: Map::empty(),
                stake_records: Map::empty(),
                fee_structure: None,
                fees_collected: Map::empty(),
                user_volume: Map::empty(),
                gas_config: GasConfig::spec_default(),
                metrics: VaultMetrics::spec_default(),
            },
            members: MembersModel {
                reputation: Map::empty(),
                reputation_config: ReputationConfig::spec_default(),
                notification_prefs: Map::empty(),
                delegations: Map::empty(),
                delegators: Map::empty(),
                delegation_history: Map::empty(),
                next_delegation_id: 1,
                token_locks: Map::empty(),
                total_locked: Map::empty(),
                time_weighted: TimeWeightedConfig::spec_default(),
            },
            audit: AuditModel {
                entries: Map::empty(),
                next_id: 1,
                last_hash: 0,
            },
            payments: PaymentsModel {
                recurring: Map::empty(),
                next_recurring_id: 1,
                streams: Map::empty(),
                next_stream_id: 1,
                escrows: Map::empty(),
                next_escrow_id: 1,
                funder_escrows: Map::empty(),
                recipient_escrows: Map::empty(),
                subscriptions: Map::empty(),
                next_subscription_id: 1,
                subscriber_index: Map::empty(),
            },
            programs: ProgramsModel {
                templates: Map::empty(),
                next_template_id: 1,
                template_names: Map::empty(),
                funding_rounds: Map::empty(),
                next_funding_round_id: 1,
                proposal_funding_rounds: Map::empty(),
                funding_round_config: None,
                batches: Map::empty(),
                last_batch_id: 0,
                batch_results: Map::empty(),
                batch_rollbacks: Map::empty(),
                proposal_batches: Map::empty(),
                next_proposal_batch_id: 1,
                proposal_batch_results: Map::empty(),
                proposal_batch_rollbacks: Map::empty(),
                recovery_proposals: Map::empty(),
                next_recovery_id: 1,
                disputes: Map::empty(),
                next_dispute_id: 1,
                proposal_disputes: Map::empty(),
            },
            links: LinksModel {
                dex_config: None,
                swap_proposals: Map::empty(),
                swap_results: Map::empty(),
                oracle_config: None,
                cross_vault_config: None,
                cross_vault_proposals: Map::empty(),
                bridge_config: None,
                cross_chain_proposals: Map::empty(),
                bridge_locks: Map::empty(),
            },
        }
    }

    /// The current ledger.
    pub open spec fn now(self) -> u64 {
        self.ledger.sequence as u64
    }

    /// Whether an address authorized the call.
    pub open spec fn authorized(self, addr: Address) -> bool {
        self.auth.contains(addr)
    }

    /// The state with one more action asked for.
    pub open spec fn act(self, action: Action) -> EnvModel {
        EnvModel { actions: self.actions.push(action), ..self }
    }

    /// The state with one more event published.
    pub open spec fn publish(self, event: Event) -> EnvModel {
        self.act(Action::Publish(event))
    }
}

impl Env {
    /// A vault in which nothing is stored yet.
    pub fn new(ledger: Ledger) -> (r: Env)
        ensures
            r@ == EnvModel::fresh(ledger),
    {
        Env {
            ledger,
            auth: Vec::new(),
            actions: Vec::new(),
            access: Access {
                initialized: false,
                config: None,
                voting_strategy: VotingStrategy::Simple,
                roles: Table::new(),
                role_index: Vec::new(),
                list_mode: ListMode::Disabled,
                whitelist: Table::new(),
                blacklist: Table::new(),
                permissions: Table::new(),
                delegated_permissions: Table::new(),
            },
            proposals: Proposals {
                records: Table::new(),
                next_id: 1,
                queues: Table::new(),
                attachments: Table::new(),
                approval_ledgers: Table::new(),
                cancellations: Table::new(),
                cancellation_history: Vec::new(),
                amendments: Table::new(),
                snapshots: Table::new(),
                fee_estimates: Table::new(),
                retries: Table::new(),
                comments: Table::new(),
                proposal_comments: Table::new(),
                next_comment_id: 1,
            },
            treasury: Treasury {
                daily_spent: Table::new(),
                weekly_spent: Table::new(),
                velocity: Table::new(),
                insurance_config: InsuranceConfig::default(),
                insurance_pool: Table::new(),
                staking_config: StakingConfig::default(),
                stake_pool: Table::new(),
                stake_records: Table::new(),
                fee_structure: None,
                fees_collected: Table::new(),
                user_volume: Table::new(),
                gas_config: GasConfig::default(),
                metrics: VaultMetrics::default(),
            },
            members: Members {
                reputation: Table::new(),
                reputation_config: ReputationConfig::default(),
                notification_prefs: Table::new(),
                delegations: Table::new(),
                delegators: Table::new(),
                delegation_history: Table::new(),
                next_delegation_id: 1,
                token_locks: Table::new(),
                total_locked: Table::new(),
                time_weighted: TimeWeightedConfig::default(),
            },
            audit: Audit {
                entries: Table::new(),
                next_id: 1,
                last_hash: 0,
            },
            payments: Payments {
                recurring: Table::new(),
                next_recurring_id: 1,
                streams: Table::new(),
                next_stream_id: 1,
                escrows: Table::new(),
                next_escrow_id: 1,
                funder_escrows: Table::new(),
                recipient_escrows: Table::new(),
                subscriptions: Table::new(),
                next_subscription_id: 1,
                subscriber_index: Table::new(),
            },
            programs: Programs {
                templates: Table::new(),
                next_template_id: 1,
                template_names: Table::new(),
                funding_rounds: Table::new(),
                next_funding_round_id: 1,
                proposal_funding_rounds: Table::new(),
                funding_round_config: None,
                batches: Table::new(),
                last_batch_id: 0,
                batch_results: Table::new(),
                batch_rollbacks: Table::new(),
                proposal_batches: Table::new(),
                next_proposal_batch_id: 1,
                proposal_batch_results: Table::new(),
                proposal_batch_rollbacks: Table::new(),
                recovery_proposals: Table::new(),
                next_recovery_id: 1,
                disputes: Table::new(),
                next_dispute_id: 1,
                proposal_disputes: Table::new(),
            },
            links: Links {
                dex_config: None,
                swap_proposals: Table::new(),
                swap_results: Table::new(),
                oracle_config: None,
                cross_vault_config: None,
                cross_vault_proposals: Table::new(),
                bridge_config: None,
                cross_chain_proposals: Table::new(),
                bridge_locks: Table::new(),
            },
        }
    }

    /// Registers an address as having authorized the call.
    pub fn authorize(&mut self, addr: Address)
        ensures
            final(self)@ == (EnvModel { auth: old(self)@.auth.push(addr), ..old(self)@ }),
    {
        self.auth.push(addr);
    }

    /// The current ledger.
    pub fn now(&self) -> (r: u64)
        ensures
            r == self@.now(),
    {
        self.ledger.sequence as u64
    }

    /// Asks for one more action.
    pub fn act(&mut self, action: Action)
        ensures
            final(self)@ == old(self)@.act(action),
    {
        self.actions.push(action);
    }

    /// Publishes one more event.
    pub fn publish(&mut self, event: Event)
        ensures
            final(self)@ == old(self)@.publish(event),
    {
        self.act(Action::Publish(event));
    }
}

} // verus!
