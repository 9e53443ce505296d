//! What a vault stores, and how it is read and written.
//!
//! The methods of [`EnvModel`] say what each function reads and how it changes the state.

use vstd::prelude::*;

use crate::env::{AccessModel, Action, AuditModel, Env, EnvModel, LinksModel, MembersModel, PaymentsModel, ProgramsModel, ProposalsModel, TreasuryModel};
use crate::errors::VaultError;
use crate::primitives::{copy_list, list_contains, list_without, Address, GrantKey, Record, Symbol, Texts, VolumeKey, VoteKey};
use crate::table::Table;
use crate::types::{
    AuditAction, AuditEntry, BatchExecutionResult, BatchTransaction, BatchTransactionModel,
    BridgeConfig, BridgeConfigModel, CancellationRecord, Comment, Config, ConfigModel,
    CrossChainProposal, CrossChainProposalModel, CrossVaultConfig, CrossVaultConfigModel,
    CrossVaultProposal, CrossVaultProposalModel, DelegatedPermission, Delegation,
    DelegationHistory, DexConfig, DexConfigModel, Dispute, DisputeModel, Escrow,
    EscrowModel, ExecutionFeeEstimate, ExecutionSnapshot, ExecutionSnapshotModel,
    FeeStructure, FeeStructureModel, FundingRound, FundingRoundConfig, FundingRoundModel,
    GasConfig, InsuranceConfig, ListMode, NotificationPreferences, PermissionGrant,
    Proposal, ProposalAmendment, ProposalBatch, ProposalBatchModel,
    ProposalBatchResult, ProposalModel, ProposalTemplate, RecoveryProposal,
    RecoveryProposalModel, RecurringPayment, Reputation, ReputationConfig, RetryState, Role,
    RoleAssignment, StakeRecord, StakingConfig, StreamingPayment, Subscription,
    SwapProposal, SwapResult, TimeWeightedConfig, TokenLock, VaultMetrics,
    VaultOracleConfig, VelocityConfig, VotingStrategy,
};

verus! {

/// Ledgers per day, at about five seconds each.
pub const DAY_IN_LEDGERS: u32 = 17_280;

/// How long a proposal is kept, in ledgers.
pub const PROPOSAL_TTL: u32 = 120_960;

/// How long the vault's own entry is kept, in ledgers.
pub const INSTANCE_TTL: u32 = 518_400;

/// The vault's own entry is extended when it has fewer ledgers left than this.
pub const INSTANCE_TTL_THRESHOLD: u32 = 120_960;

/// How long other entries are kept, in ledgers.
pub const PERSISTENT_TTL: u32 = 518_400;

/// Other entries are extended when they have fewer ledgers left than this.
pub const PERSISTENT_TTL_THRESHOLD: u32 = 120_960;

impl EnvModel {
    // Initialization and configuration

    /// Whether the vault was initialized.
    pub open spec fn is_initialized(self) -> bool {
        self.access.initialized
    }

    /// The state after initialization was marked.
    pub open spec fn with_initialized(self) -> EnvModel {
        EnvModel { access: AccessModel { initialized: true, ..self.access }, ..self }
    }

    /// The configuration.
    pub open spec fn config(self) -> Result<ConfigModel, VaultError> {
        match self.access.config {
            Some(config) => Ok(config),
            None => Err(VaultError::NotInitialized),
        }
    }

    /// Stores the configuration.
    pub open spec fn with_config(self, value: ConfigModel) -> EnvModel {
        EnvModel {
            access: AccessModel {
                config: Some(value),
                ..self.access
            },
            ..self
        }
    }

    /// The voting strategy.
    pub open spec fn voting_strategy(self) -> VotingStrategy {
        self.access.voting_strategy
    }

    /// Stores the voting strategy.
    pub open spec fn with_voting_strategy(self, value: VotingStrategy) -> EnvModel {
        EnvModel {
            access: AccessModel {
                voting_strategy: value,
                ..self.access
            },
            ..self
        }
    }

    /// Records the ledger at which a vote was cast.
    pub open spec fn with_approval_ledger(self, proposal_id: u64, voter: Address, ledger: u64) -> EnvModel {
        EnvModel {
            proposals: ProposalsModel {
                approval_ledgers: self.proposals.approval_ledgers.insert(VoteKey { proposal_id: proposal_id, voter: voter }, ledger),
                ..self.proposals
            },
            ..self
        }
    }

    /// The ledger at which a vote was cast.
    pub open spec fn approval_ledger(self, proposal_id: u64, voter: Address) -> Option<u64> {
        crate::table::find(self.proposals.approval_ledgers, VoteKey { proposal_id: proposal_id, voter: voter })
    }

    /// Whether an address may veto.
    pub open spec fn veto_address(self, addr: Address) -> Result<bool, VaultError> {
        match self.config() {
            Ok(config) => Ok(config.veto_addresses.contains(addr)),
            Err(error) => Err(error),
        }
    }

    // Roles

    /// The role of an address.
    pub open spec fn role(self, addr: Address) -> Role {
        crate::table::find_or(self.access.roles, addr, Role::Member)
    }

    /// The addresses whose roles are tracked.
    pub open spec fn role_index(self) -> Seq<Address> {
        self.access.role_index
    }

    /// The state with an address among those whose roles are tracked.
    pub open spec fn with_role_index(self, addr: Address) -> EnvModel {
        if self.access.role_index.contains(addr) {
            self
        } else {
            EnvModel {
                access: AccessModel {
                    role_index: self.access.role_index.push(addr),
                    ..self.access
                },
                ..self
            }
        }
    }

    /// Gives an address a role and tracks it.
    pub open spec fn with_role(self, addr: Address, role: Role) -> EnvModel {
        EnvModel {
            access: AccessModel { roles: self.access.roles.insert(addr, role), ..self.access },
            ..self
        }.with_role_index(addr)
    }

    /// The tracked addresses with their roles.
    pub open spec fn role_assignments(self) -> Seq<RoleAssignment> {
        Seq::new(
            self.role_index().len(),
            |i: int|
                RoleAssignment { addr: self.role_index()[i], role: self.role(self.role_index()[i]) },
        )
    }

    // Proposals

    /// The attachments of a proposal.
    pub open spec fn attachments(self, proposal_id: u64) -> Seq<Seq<u8>> {
        crate::table::find_or(self.proposals.attachments, proposal_id, Seq::empty())
    }

    /// Stores the attachments of a proposal.
    pub open spec fn with_attachments(self, proposal_id: u64, attachments: Seq<Seq<u8>>) -> EnvModel {
        EnvModel {
            proposals: ProposalsModel {
                attachments: self.proposals.attachments.insert(proposal_id, attachments),
                ..self.proposals
            },
            ..self
        }
    }

    /// The proposal with an identifier, together with its attachments.
    pub open spec fn proposal(self, id: u64) -> Result<ProposalModel, VaultError> {
        match crate::table::find(self.proposals.records, id) {
            Some(found) => Ok(ProposalModel { attachments: self.attachments(id), ..found }),
            None => Err(VaultError::ProposalNotFound),
        }
    }

    /// Whether there is a proposal with an identifier.
    pub open spec fn proposal_exists(self, id: u64) -> bool {
        self.proposals.records.contains_key(id)
    }

    /// Stores a proposal.
    pub open spec fn with_proposal(self, proposal: ProposalModel) -> EnvModel {
        EnvModel {
            proposals: ProposalsModel {
                records: self.proposals.records.insert(proposal.id, proposal),
                ..self.proposals
            },
            ..self
        }
    }

    /// The state after an identifier was given to a proposal.
    pub open spec fn bump_proposal_id(self) -> EnvModel {
        EnvModel {
            proposals: ProposalsModel {
                next_id: (self.proposals.next_id + 1) as u64,
                ..self.proposals
            },
            ..self
        }
    }

    // Priority queues

    /// The proposals queued at a priority.
    pub open spec fn priority_queue(self, priority: u32) -> Seq<u64> {
        crate::table::find_or(self.proposals.queues, priority, Seq::empty())
    }

    /// Queues a proposal at a priority.
    pub open spec fn queue_push(self, priority: u32, proposal_id: u64) -> EnvModel {
        EnvModel {
            proposals: ProposalsModel {
                queues: self.proposals.queues.insert(priority, self.priority_queue(priority).push(proposal_id)),
                ..self.proposals
            },
            ..self
        }
    }

    /// Takes a proposal out of the queue of a priority.
    pub open spec fn queue_remove(self, priority: u32, proposal_id: u64) -> EnvModel {
        EnvModel {
            proposals: ProposalsModel {
                queues: self.proposals.queues.insert(
                    priority,
                    crate::primitives::without(self.priority_queue(priority), proposal_id),
                ),
                ..self.proposals
            },
            ..self
        }
    }

    // Spending

    /// The current day.
    pub open spec fn day_number(self) -> u64 {
        self.ledger.timestamp / 86400
    }

    /// The current week.
    pub open spec fn week_number(self) -> u64 {
        self.ledger.timestamp / 604800
    }

    /// What was spent or reserved on a day.
    pub open spec fn daily_spent(self, day: u64) -> i128 {
        crate::table::find_or(self.treasury.daily_spent, day, 0)
    }

    /// Reserves spending on a day.
    pub open spec fn add_daily_spent(self, day: u64, amount: i128) -> EnvModel {
        EnvModel {
            treasury: TreasuryModel {
                daily_spent: self.treasury.daily_spent.insert(day, (self.daily_spent(day) + amount) as i128),
                ..self.treasury
            },
            ..self
        }
    }

    /// Gives spending of a day back.
    pub open spec fn reduce_daily_spent(self, day: u64, amount: i128) -> EnvModel {
        EnvModel {
            treasury: TreasuryModel {
                daily_spent: self.treasury.daily_spent.insert(
                    day,
                    crate::math::reduced(self.daily_spent(day), amount),
                ),
                ..self.treasury
            },
            ..self
        }
    }

    /// What was spent or reserved in a week.
    pub open spec fn weekly_spent(self, week: u64) -> i128 {
        crate::table::find_or(self.treasury.weekly_spent, week, 0)
    }

    /// Reserves spending in a week.
    pub open spec fn add_weekly_spent(self, week: u64, amount: i128) -> EnvModel {
        EnvModel {
            treasury: TreasuryModel {
                weekly_spent: self.treasury.weekly_spent.insert(week, (self.weekly_spent(week) + amount) as i128),
                ..self.treasury
            },
            ..self
        }
    }

    /// Gives reserved spending of the current day and week back.
    pub open spec fn refund_spending(self, amount: i128) -> EnvModel {
        EnvModel {
            treasury: TreasuryModel {
                daily_spent: self.treasury.daily_spent.insert(
                    self.day_number(),
                    crate::math::reduced(self.daily_spent(self.day_number()), amount),
                ),
                weekly_spent: self.treasury.weekly_spent.insert(
                    self.week_number(),
                    crate::math::reduced(self.weekly_spent(self.week_number()), amount),
                ),
                ..self.treasury
            },
            ..self
        }
    }

    // Recurring payments and streams

    /// The state after an identifier was given to a recurring payment.
    pub open spec fn bump_next_recurring_id(self) -> EnvModel {
        EnvModel {
            payments: PaymentsModel {
                next_recurring_id: (self.payments.next_recurring_id + 1) as u64,
                ..self.payments
            },
            ..self
        }
    }

    /// Stores a recurring payment.
    pub open spec fn with_recurring(self, payment: RecurringPayment) -> EnvModel {
        EnvModel {
            payments: PaymentsModel {
                recurring: self.payments.recurring.insert(payment.id, payment),
                ..self.payments
            },
            ..self
        }
    }

    /// The recurring payment with an identifier.
    pub open spec fn recurring(self, id: u64) -> Result<RecurringPayment, VaultError> {
        match crate::table::find(self.payments.recurring, id) {
            Some(found) => Ok(found),
            None => Err(VaultError::ProposalNotFound),
        }
    }

    /// The state after an identifier was given to a stream.
    pub open spec fn bump_next_stream_id(self) -> EnvModel {
        EnvModel {
            payments: PaymentsModel {
                next_stream_id: (self.payments.next_stream_id + 1) as u64,
                ..self.payments
            },
            ..self
        }.act(Action::ExtendInstanceTtl)
    }

    /// Stores a stream.
    pub open spec fn with_stream(self, stream: StreamingPayment) -> EnvModel {
        EnvModel {
            payments: PaymentsModel {
                streams: self.payments.streams.insert(stream.id, stream),
                ..self.payments
            },
            ..self
        }
    }

    /// The stream with an identifier.
    pub open spec fn stream(self, id: u64) -> Result<StreamingPayment, VaultError> {
        match crate::table::find(self.payments.streams, id) {
            Some(found) => Ok(found),
            None => Err(VaultError::ProposalNotFound),
        }
    }

    // Recipient lists

    /// How recipients are screened.
    pub open spec fn list_mode(self) -> ListMode {
        self.access.list_mode
    }

    /// Stores how recipients are screened.
    pub open spec fn with_list_mode(self, value: ListMode) -> EnvModel {
        EnvModel {
            access: AccessModel {
                list_mode: value,
                ..self.access
            },
            ..self
        }
    }

    /// Whether an address is on the whitelist.
    pub open spec fn whitelisted(self, addr: Address) -> bool {
        crate::table::find_or(self.access.whitelist, addr, false)
    }

    /// Puts an address on the whitelist.
    pub open spec fn whitelist_add(self, addr: Address) -> EnvModel {
        EnvModel {
            access: AccessModel {
                whitelist: self.access.whitelist.insert(addr, true),
                ..self.access
            },
            ..self
        }
    }

    /// Takes an address off the whitelist.
    pub open spec fn whitelist_remove(self, addr: Address) -> EnvModel {
        EnvModel {
            access: AccessModel {
                whitelist: self.access.whitelist.remove(addr),
                ..self.access
            },
            ..self
        }
    }

    /// Whether an address is on the blacklist.
    pub open spec fn blacklisted(self, addr: Address) -> bool {
        crate::table::find_or(self.access.blacklist, addr, false)
    }

    /// Puts an address on the blacklist.
    pub open spec fn blacklist_add(self, addr: Address) -> EnvModel {
        EnvModel {
            access: AccessModel {
                blacklist: self.access.blacklist.insert(addr, true),
                ..self.access
            },
            ..self
        }
    }

    /// Takes an address off the blacklist.
    pub open spec fn blacklist_remove(self, addr: Address) -> EnvModel {
        EnvModel {
            access: AccessModel {
                blacklist: self.access.blacklist.remove(addr),
                ..self.access
            },
            ..self
        }
    }

    /// Why a recipient is refused, if it is.
    pub open spec fn recipient_refusal(self, recipient: Address) -> Option<VaultError> {
        match self.list_mode() {
            ListMode::Disabled => None,
            ListMode::Whitelist => if self.whitelisted(recipient) {
                None
            } else {
                Some(VaultError::RecipientNotWhitelisted)
            },
            ListMode::Blacklist => if self.blacklisted(recipient) {
                Some(VaultError::RecipientBlacklisted)
            } else {
                None
            },
        }
    }

    // Velocity

    /// The times at which an address proposed, as far as they are remembered.
    pub open spec fn velocity_history(self, addr: Address) -> Seq<u64> {
        crate::table::find_or(self.treasury.velocity, addr, Seq::empty())
    }

    /// The remembered times at which an address proposed that lie inside the window.
    pub open spec fn recent_proposals(self, addr: Address, window: u64) -> Seq<u64> {
        self.velocity_history(addr).filter(
            |ts: u64| ts > crate::math::clamp_u64(self.ledger.timestamp - window),
        )
    }

    /// Whether an address may propose once more inside the window.
    pub open spec fn velocity_allows(self, addr: Address, limit: VelocityConfig) -> bool {
        self.recent_proposals(addr, limit.window).len() < limit.limit
    }

    /// The state after a proposal was counted where the limit allows one.
    pub open spec fn count_velocity(self, addr: Address, limit: VelocityConfig) -> EnvModel {
        if self.velocity_allows(addr, limit) {
            EnvModel {
                treasury: TreasuryModel {
                    velocity: self.treasury.velocity.insert(
                        addr,
                        self.recent_proposals(addr, limit.window).push(self.ledger.timestamp),
                    ),
                    ..self.treasury
                },
                ..self
            }
        } else {
            self
        }
    }

    // Cancellations and amendments

    /// Stores a cancellation record.
    pub open spec fn with_cancellation(self, record: CancellationRecord) -> EnvModel {
        EnvModel {
            proposals: ProposalsModel {
                cancellations: self.proposals.cancellations.insert(record.proposal_id, record),
                ..self.proposals
            },
            ..self
        }
    }

    /// The cancellation record of a proposal.
    pub open spec fn cancellation(self, proposal_id: u64) -> Result<CancellationRecord, VaultError> {
        match crate::table::find(self.proposals.cancellations, proposal_id) {
            Some(found) => Ok(found),
            None => Err(VaultError::ProposalNotFound),
        }
    }

    /// Appends a proposal to the cancelled ones.
    pub open spec fn cancellation_push(self, proposal_id: u64) -> EnvModel {
        EnvModel {
            proposals: ProposalsModel {
                cancellation_history: self.proposals.cancellation_history.push(proposal_id),
                ..self.proposals
            },
            ..self
        }
    }

    /// The cancelled proposals, in order of cancellation.
    pub open spec fn cancellation_history(self) -> Seq<u64> {
        self.proposals.cancellation_history
    }

    /// The amendments of a proposal, in order.
    pub open spec fn amendment_history(self, proposal_id: u64) -> Seq<ProposalAmendment> {
        crate::table::find_or(self.proposals.amendments, proposal_id, Seq::empty())
    }

    /// Appends an amendment to those of its proposal.
    pub open spec fn amendment_push(self, record: ProposalAmendment) -> EnvModel {
        EnvModel {
            proposals: ProposalsModel {
                amendments: self.proposals.amendments.insert(
                    record.proposal_id,
                    self.amendment_history(record.proposal_id).push(record),
                ),
                ..self.proposals
            },
            ..self
        }
    }

    // Comments

    /// The state after an identifier was given to a comment.
    pub open spec fn bump_next_comment_id(self) -> EnvModel {
        EnvModel {
            proposals: ProposalsModel {
                next_comment_id: (self.proposals.next_comment_id + 1) as u64,
                ..self.proposals
            },
            ..self
        }
    }

    /// Stores a comment.
    pub open spec fn with_comment(self, comment: Comment) -> EnvModel {
        EnvModel {
            proposals: ProposalsModel {
                comments: self.proposals.comments.insert(comment.id, comment),
                ..self.proposals
            },
            ..self
        }
    }

    /// The comment with an identifier.
    pub open spec fn comment(self, id: u64) -> Result<Comment, VaultError> {
        match crate::table::find(self.proposals.comments, id) {
            Some(found) => Ok(found),
            None => Err(VaultError::ProposalNotFound),
        }
    }

    /// The comments of a proposal, in order.
    pub open spec fn comment_ids(self, proposal_id: u64) -> Seq<u64> {
        crate::table::find_or(self.proposals.proposal_comments, proposal_id, Seq::empty())
    }

    /// Appends a comment to those of a proposal.
    pub open spec fn comment_push(self, proposal_id: u64, comment_id: u64) -> EnvModel {
        EnvModel {
            proposals: ProposalsModel {
                proposal_comments: self.proposals.proposal_comments.insert(proposal_id, self.comment_ids(proposal_id).push(comment_id)),
                ..self.proposals
            },
            ..self
        }
    }

    // Execution snapshots

    /// Stores a proposal as it stood before its execution.
    pub open spec fn with_snapshot(self, proposal_id: u64, snapshot: ExecutionSnapshotModel) -> EnvModel {
        EnvModel {
            proposals: ProposalsModel {
                snapshots: self.proposals.snapshots.insert(proposal_id, snapshot),
                ..self.proposals
            },
            ..self
        }
    }

    /// A proposal as it stood before its execution.
    pub open spec fn snapshot(self, proposal_id: u64) -> Option<ExecutionSnapshotModel> {
        crate::table::find(self.proposals.snapshots, proposal_id)
    }

    /// Forgets a proposal as it stood before its execution.
    pub open spec fn without_snapshot(self, proposal_id: u64) -> EnvModel {
        EnvModel {
            proposals: ProposalsModel {
                snapshots: self.proposals.snapshots.remove(proposal_id),
                ..self.proposals
            },
            ..self
        }
    }

    // Audit chain

    /// The state after an identifier was given to an audit entry.
    pub open spec fn bump_audit_id(self) -> EnvModel {
        EnvModel {
            audit: AuditModel {
                next_id: (self.audit.next_id + 1) as u64,
                ..self.audit
            },
            ..self
        }
    }

    /// The hash of the last audit entry.
    pub open spec fn last_audit_hash(self) -> u64 {
        self.audit.last_hash
    }

    /// Stores the hash of the last audit entry.
    pub open spec fn with_last_audit_hash(self, value: u64) -> EnvModel {
        EnvModel {
            audit: AuditModel {
                last_hash: value,
                ..self.audit
            },
            ..self
        }
    }

    /// Stores an audit entry.
    pub open spec fn with_audit_entry(self, entry: AuditEntry) -> EnvModel {
        EnvModel {
            audit: AuditModel {
                entries: self.audit.entries.insert(entry.id, entry),
                ..self.audit
            },
            ..self
        }
    }

    /// The audit entry with an identifier.
    pub open spec fn audit_entry(self, id: u64) -> Result<AuditEntry, VaultError> {
        match crate::table::find(self.audit.entries, id) {
            Some(found) => Ok(found),
            None => Err(VaultError::ProposalNotFound),
        }
    }

    /// The state with one more entry at the end of the audit chain.
    pub open spec fn audit(self, action: AuditAction, actor: Address, target: u64) -> EnvModel {
        let hash = audit_hash(action, target, self.now(), self.audit.last_hash);
        let entry = AuditEntry {
            id: self.audit.next_id,
            action,
            actor,
            target,
            timestamp: self.now(),
            prev_hash: self.audit.last_hash,
            hash,
        };
        self.bump_audit_id().with_audit_entry(entry).with_last_audit_hash(hash)
    }

    // Reputation

    /// The reputation of an address.
    pub open spec fn reputation(self, addr: Address) -> Reputation {
        crate::table::find_or(self.members.reputation, addr, Reputation::spec_default())
    }

    /// Stores the reputation of an address.
    pub open spec fn with_reputation(self, addr: Address, rep: Reputation) -> EnvModel {
        EnvModel {
            members: MembersModel {
                reputation: self.members.reputation.insert(addr, rep),
                ..self.members
            },
            ..self
        }
    }

    /// How reputation decays.
    pub open spec fn reputation_config(self) -> ReputationConfig {
        self.members.reputation_config
    }

    /// Stores how reputation decays.
    pub open spec fn with_reputation_config(self, value: ReputationConfig) -> EnvModel {
        EnvModel {
            members: MembersModel {
                reputation_config: value,
                ..self.members
            },
            ..self
        }
    }

    /// A reputation after decay up to the current ledger: one halving of the distance to the
    /// floor for each half-life that has passed.
    pub open spec fn decayed(self, rep: Reputation) -> Reputation {
        let half_life = self.reputation_config().decay_half_life_ledgers;
        let score = if half_life == 0 {
            rep.score
        } else {
            decayed_score(
                rep.score,
                self.reputation_config().decay_min_score,
                (crate::math::clamp_u64(self.now() - rep.last_decay_ledger) / half_life) as nat,
            )
        };
        Reputation { score, last_decay_ledger: self.now(), ..rep }
    }

    // Insurance

    /// The insurance rules.
    pub open spec fn insurance_config(self) -> InsuranceConfig {
        self.treasury.insurance_config
    }

    /// Stores the insurance rules.
    pub open spec fn with_insurance_config(self, value: InsuranceConfig) -> EnvModel {
        EnvModel {
            treasury: TreasuryModel {
                insurance_config: value,
                ..self.treasury
            },
            ..self
        }
    }

    /// What the insurance pool holds of a token.
    pub open spec fn insurance_pool(self, token_addr: Address) -> i128 {
        crate::table::find_or(self.treasury.insurance_pool, token_addr, 0)
    }

    /// Adds to the insurance pool.
    pub open spec fn insurance_pool_add(self, token_addr: Address, amount: i128) -> EnvModel {
        EnvModel {
            treasury: TreasuryModel {
                insurance_pool: self.treasury.insurance_pool.insert(token_addr, (self.insurance_pool(token_addr) + amount) as i128),
                ..self.treasury
            },
            ..self
        }
    }

    /// Takes from the insurance pool, down to zero.
    pub open spec fn insurance_pool_sub(self, token_addr: Address, amount: i128) -> EnvModel {
        EnvModel {
            treasury: TreasuryModel {
                insurance_pool: self.treasury.insurance_pool.insert(token_addr, crate::math::reduced(self.insurance_pool(token_addr), amount)),
                ..self.treasury
            },
            ..self
        }
    }

    // Notification preferences

    /// What an address wants to be notified of.
    pub open spec fn notification_prefs(self, addr: Address) -> NotificationPreferences {
        crate::table::find_or(self.members.notification_prefs, addr, NotificationPreferences::spec_default())
    }

    /// Stores what an address wants to be notified of.
    pub open spec fn with_notification_prefs(self, addr: Address, prefs: NotificationPreferences) -> EnvModel {
        EnvModel {
            members: MembersModel {
                notification_prefs: self.members.notification_prefs.insert(addr, prefs),
                ..self.members
            },
            ..self
        }
    }

    // Exchanges and oracle

    /// The exchange rules.
    pub open spec fn dex_config(self) -> Option<DexConfigModel> {
        self.links.dex_config
    }

    /// Stores the exchange rules.
    pub open spec fn with_dex_config(self, value: DexConfigModel) -> EnvModel {
        EnvModel {
            links: LinksModel {
                dex_config: Some(value),
                ..self.links
            },
            ..self
        }
    }

    /// The oracle, if one is configured.
    pub open spec fn oracle_config(self) -> Option<VaultOracleConfig> {
        self.links.oracle_config
    }

    /// Stores the oracle.
    pub open spec fn with_oracle_config(self, value: Option<VaultOracleConfig>) -> EnvModel {
        EnvModel { links: LinksModel { oracle_config: value, ..self.links }, ..self }
    }

    /// Stores the exchange operation of a proposal.
    pub open spec fn with_swap(self, proposal_id: u64, swap: SwapProposal) -> EnvModel {
        EnvModel {
            links: LinksModel {
                swap_proposals: self.links.swap_proposals.insert(proposal_id, swap),
                ..self.links
            },
            ..self
        }
    }

    /// The exchange operation of a proposal.
    pub open spec fn swap(self, proposal_id: u64) -> Option<SwapProposal> {
        crate::table::find(self.links.swap_proposals, proposal_id)
    }

    /// Stores the outcome of a swap.
    pub open spec fn with_swap_result(self, proposal_id: u64, result: SwapResult) -> EnvModel {
        EnvModel {
            links: LinksModel {
                swap_results: self.links.swap_results.insert(proposal_id, result),
                ..self.links
            },
            ..self
        }
    }

    /// The outcome of a swap.
    pub open spec fn swap_result(self, proposal_id: u64) -> Option<SwapResult> {
        crate::table::find(self.links.swap_results, proposal_id)
    }

    // Execution cost

    /// The execution cost model.
    pub open spec fn gas_config(self) -> GasConfig {
        self.treasury.gas_config
    }

    /// Stores the execution cost model.
    pub open spec fn with_gas_config(self, value: GasConfig) -> EnvModel {
        EnvModel {
            treasury: TreasuryModel {
                gas_config: value,
                ..self.treasury
            },
            ..self
        }
    }

    /// The estimated execution cost of a proposal.
    pub open spec fn fee_estimate(self, proposal_id: u64) -> Option<ExecutionFeeEstimate> {
        crate::table::find(self.proposals.fee_estimates, proposal_id)
    }

    /// Stores the estimated execution cost of a proposal.
    pub open spec fn with_fee_estimate(self, proposal_id: u64, estimate: ExecutionFeeEstimate) -> EnvModel {
        EnvModel {
            proposals: ProposalsModel {
                fee_estimates: self.proposals.fee_estimates.insert(proposal_id, estimate),
                ..self.proposals
            },
            ..self
        }
    }

    // Batches of proposals

    /// The batch of proposals with an identifier.
    pub open spec fn proposal_batch(self, batch_id: u64) -> Result<ProposalBatchModel, VaultError> {
        match crate::table::find(self.programs.proposal_batches, batch_id) {
            Some(found) => Ok(found),
            None => Err(VaultError::ProposalNotFound),
        }
    }

    /// Stores a batch of proposals.
    pub open spec fn with_proposal_batch(self, batch: ProposalBatchModel) -> EnvModel {
        EnvModel {
            programs: ProgramsModel {
                proposal_batches: self.programs.proposal_batches.insert(batch.id, batch),
                ..self.programs
            },
            ..self
        }
    }

    /// The state after an identifier was given to a batch of proposals.
    pub open spec fn bump_next_proposal_batch_id(self) -> EnvModel {
        EnvModel {
            programs: ProgramsModel {
                next_proposal_batch_id: (self.programs.next_proposal_batch_id + 1) as u64,
                ..self.programs
            },
            ..self
        }
    }

    /// Stores the outcome of a batch of proposals.
    pub open spec fn with_proposal_batch_result(self, batch_id: u64, result: ProposalBatchResult) -> EnvModel {
        EnvModel {
            programs: ProgramsModel {
                proposal_batch_results: self.programs.proposal_batch_results.insert(batch_id, result),
                ..self.programs
            },
            ..self
        }
    }

    /// The outcome of a batch of proposals.
    pub open spec fn proposal_batch_result(self, batch_id: u64) -> Option<ProposalBatchResult> {
        crate::table::find(self.programs.proposal_batch_results, batch_id)
    }

    /// Stores what a rollback of a batch of proposals has to take back.
    pub open spec fn with_batch_rollback(self, batch_id: u64, entries: Seq<(Address, i128)>) -> EnvModel {
        EnvModel {
            programs: ProgramsModel {
                proposal_batch_rollbacks: self.programs.proposal_batch_rollbacks.insert(batch_id, entries),
                ..self.programs
            },
            ..self
        }
    }

    /// What a rollback of a batch of proposals has to take back.
    pub open spec fn batch_rollback(self, batch_id: u64) -> Option<Seq<(Address, i128)>> {
        crate::table::find(self.programs.proposal_batch_rollbacks, batch_id)
    }

    // Metrics

    /// The vault-wide counters.
    pub open spec fn metrics(self) -> VaultMetrics {
        self.treasury.metrics
    }

    /// Stores the vault-wide counters.
    pub open spec fn with_metrics(self, value: VaultMetrics) -> EnvModel {
        EnvModel {
            treasury: TreasuryModel {
                metrics: value,
                ..self.treasury
            },
            ..self
        }
    }

    /// Counts an execution.
    pub open spec fn count_execution(self, gas_used: u64, execution_time_ledgers: u64) -> EnvModel {
        self.with_metrics(VaultMetrics {
            executed_count: crate::math::clamp_u64(self.metrics().executed_count + 1),
            total_gas_used: crate::math::clamp_u64(self.metrics().total_gas_used + gas_used),
            total_execution_time_ledgers: crate::math::clamp_u64(self.metrics().total_execution_time_ledgers + execution_time_ledgers),
            last_updated_ledger: self.now(),
            ..self.metrics()
        })
    }

    /// Counts a rejection.
    pub open spec fn count_rejection(self) -> EnvModel {
        self.with_metrics(VaultMetrics {
            rejected_count: crate::math::clamp_u64(self.metrics().rejected_count + 1),
            last_updated_ledger: self.now(),
            ..self.metrics()
        })
    }

    /// Counts an expiry.
    pub open spec fn count_expiry(self) -> EnvModel {
        self.with_metrics(VaultMetrics {
            expired_count: crate::math::clamp_u64(self.metrics().expired_count + 1),
            last_updated_ledger: self.now(),
            ..self.metrics()
        })
    }

    /// Counts a proposal.
    pub open spec fn count_proposal(self) -> EnvModel {
        self.with_metrics(VaultMetrics {
            total_proposals: crate::math::clamp_u64(self.metrics().total_proposals + 1),
            last_updated_ledger: self.now(),
            ..self.metrics()
        })
    }

    // Staking

    /// The staking rules.
    pub open spec fn staking_config(self) -> StakingConfig {
        self.treasury.staking_config
    }

    /// Stores the staking rules.
    pub open spec fn with_staking_config(self, value: StakingConfig) -> EnvModel {
        EnvModel {
            treasury: TreasuryModel {
                staking_config: value,
                ..self.treasury
            },
            ..self
        }
    }

    /// What the stake pool holds of a token.
    pub open spec fn stake_pool(self, token_addr: Address) -> i128 {
        crate::table::find_or(self.treasury.stake_pool, token_addr, 0)
    }

    /// Adds to the stake pool.
    pub open spec fn stake_pool_add(self, token_addr: Address, amount: i128) -> EnvModel {
        EnvModel {
            treasury: TreasuryModel {
                stake_pool: self.treasury.stake_pool.insert(token_addr, (self.stake_pool(token_addr) + amount) as i128),
                ..self.treasury
            },
            ..self
        }
    }

    /// Takes from the stake pool, down to zero.
    pub open spec fn stake_pool_sub(self, token_addr: Address, amount: i128) -> EnvModel {
        EnvModel {
            treasury: TreasuryModel {
                stake_pool: self.treasury.stake_pool.insert(token_addr, crate::math::reduced(self.stake_pool(token_addr), amount)),
                ..self.treasury
            },
            ..self
        }
    }

    /// The stake of a proposal.
    pub open spec fn stake_record(self, proposal_id: u64) -> Option<StakeRecord> {
        crate::table::find(self.treasury.stake_records, proposal_id)
    }

    /// Stores the stake of a proposal.
    pub open spec fn with_stake_record(self, record: StakeRecord) -> EnvModel {
        EnvModel {
            treasury: TreasuryModel {
                stake_records: self.treasury.stake_records.insert(record.proposal_id, record),
                ..self.treasury
            },
            ..self
        }
    }

    // Permissions

    /// The permissions that an address holds directly.
    pub open spec fn permissions(self, addr: Address) -> Seq<PermissionGrant> {
        crate::table::find_or(self.access.permissions, addr, Seq::empty())
    }

    /// Stores the permissions that an address holds directly.
    pub open spec fn with_permissions(self, addr: Address, permissions: Seq<PermissionGrant>) -> EnvModel {
        EnvModel {
            access: AccessModel {
                permissions: self.access.permissions.insert(addr, permissions),
                ..self.access
            },
            ..self
        }
    }

    /// The permission that an address holds through a signer.
    pub open spec fn delegated_permission(self, addr: Address, signer: Address, permission: u32) -> Option<DelegatedPermission> {
        crate::table::find(self.access.delegated_permissions, GrantKey { delegatee: addr, delegator: signer, permission: permission })
    }

    /// Stores a delegated permission.
    pub open spec fn with_delegated_permission(self, delegation: DelegatedPermission) -> EnvModel {
        EnvModel {
            access: AccessModel {
                delegated_permissions: self.access.delegated_permissions.insert(
                    GrantKey {
                        delegatee: delegation.delegatee,
                        delegator: delegation.delegator,
                        permission: delegation.permission.spec_code(),
                    },
                    delegation,
                ),
                ..self.access
            },
            ..self
        }
    }

    // Templates

    /// The state after an identifier was given to a template.
    pub open spec fn bump_next_template_id(self) -> EnvModel {
        EnvModel {
            programs: ProgramsModel {
                next_template_id: (self.programs.next_template_id + 1) as u64,
                ..self.programs
            },
            ..self
        }
    }

    /// Stores a template.
    pub open spec fn with_template(self, template: ProposalTemplate) -> EnvModel {
        EnvModel {
            programs: ProgramsModel {
                templates: self.programs.templates.insert(template.id, template),
                ..self.programs
            },
            ..self
        }
    }

    /// The template with an identifier.
    pub open spec fn template(self, id: u64) -> Result<ProposalTemplate, VaultError> {
        match crate::table::find(self.programs.templates, id) {
            Some(found) => Ok(found),
            None => Err(VaultError::TemplateNotFound),
        }
    }

    /// Whether there is a template with an identifier.
    pub open spec fn template_exists(self, id: u64) -> bool {
        self.programs.templates.contains_key(id)
    }

    /// The template with a name.
    pub open spec fn template_id(self, name: Symbol) -> Option<u64> {
        crate::table::find(self.programs.template_names, name)
    }

    /// Gives a template a name.
    pub open spec fn with_template_name(self, name: Symbol, id: u64) -> EnvModel {
        EnvModel {
            programs: ProgramsModel {
                template_names: self.programs.template_names.insert(name, id),
                ..self.programs
            },
            ..self
        }
    }

    /// Whether a template has a name.
    pub open spec fn template_name_exists(self, name: Symbol) -> bool {
        self.programs.template_names.contains_key(name)
    }

    // Retries

    /// The retries of a proposal so far.
    pub open spec fn retry_state(self, proposal_id: u64) -> Option<RetryState> {
        crate::table::find(self.proposals.retries, proposal_id)
    }

    /// Stores the retries of a proposal so far.
    pub open spec fn with_retry_state(self, proposal_id: u64, state: RetryState) -> EnvModel {
        EnvModel {
            proposals: ProposalsModel {
                retries: self.proposals.retries.insert(proposal_id, state),
                ..self.proposals
            },
            ..self
        }
    }

    // Escrows

    /// The state after an identifier was given to an escrow.
    pub open spec fn bump_next_escrow_id(self) -> EnvModel {
        EnvModel {
            payments: PaymentsModel {
                next_escrow_id: (self.payments.next_escrow_id + 1) as u64,
                ..self.payments
            },
            ..self
        }
    }

    /// Stores an escrow.
    pub open spec fn with_escrow(self, escrow: EscrowModel) -> EnvModel {
        EnvModel {
            payments: PaymentsModel {
                escrows: self.payments.escrows.insert(escrow.id, escrow),
                ..self.payments
            },
            ..self
        }
    }

    /// The escrow with an identifier.
    pub open spec fn escrow(self, id: u64) -> Result<EscrowModel, VaultError> {
        match crate::table::find(self.payments.escrows, id) {
            Some(found) => Ok(found),
            None => Err(VaultError::ProposalNotFound),
        }
    }

    /// The escrows of a funder.
    pub open spec fn funder_escrows(self, funder: Address) -> Seq<u64> {
        crate::table::find_or(self.payments.funder_escrows, funder, Seq::empty())
    }

    /// Adds to the escrows of a funder.
    pub open spec fn funder_escrow_push(self, funder: Address, escrow_id: u64) -> EnvModel {
        EnvModel {
            payments: PaymentsModel {
                funder_escrows: self.payments.funder_escrows.insert(funder, self.funder_escrows(funder).push(escrow_id)),
                ..self.payments
            },
            ..self
        }
    }

    /// The escrows of a recipient.
    pub open spec fn recipient_escrows(self, recipient: Address) -> Seq<u64> {
        crate::table::find_or(self.payments.recipient_escrows, recipient, Seq::empty())
    }

    /// Adds to the escrows of a recipient.
    pub open spec fn recipient_escrow_push(self, recipient: Address, escrow_id: u64) -> EnvModel {
        EnvModel {
            payments: PaymentsModel {
                recipient_escrows: self.payments.recipient_escrows.insert(recipient, self.recipient_escrows(recipient).push(escrow_id)),
                ..self.payments
            },
            ..self
        }
    }

    // Batches of operations

    /// The state after an identifier was given to a batch of operations.
    pub open spec fn bump_batch_id(self) -> EnvModel {
        EnvModel {
            programs: ProgramsModel {
                last_batch_id: (self.programs.last_batch_id + 1) as u64,
                ..self.programs
            },
            ..self
        }
    }

    /// Stores a batch of operations.
    pub open spec fn with_batch(self, batch: BatchTransactionModel) -> EnvModel {
        EnvModel {
            programs: ProgramsModel {
                batches: self.programs.batches.insert(batch.id, batch),
                ..self.programs
            },
            ..self
        }
    }

    /// The batch of operations with an identifier.
    pub open spec fn batch(self, batch_id: u64) -> Result<BatchTransactionModel, VaultError> {
        match crate::table::find(self.programs.batches, batch_id) {
            Some(found) => Ok(found),
            None => Err(VaultError::ProposalNotFound),
        }
    }

    /// Stores the outcome of a batch of operations.
    pub open spec fn with_batch_result(self, result: BatchExecutionResult) -> EnvModel {
        EnvModel {
            programs: ProgramsModel {
                batch_results: self.programs.batch_results.insert(result.batch_id, result),
                ..self.programs
            },
            ..self
        }
    }

    /// The outcome of a batch of operations.
    pub open spec fn batch_result(self, batch_id: u64) -> Result<BatchExecutionResult, VaultError> {
        match crate::table::find(self.programs.batch_results, batch_id) {
            Some(found) => Ok(found),
            None => Err(VaultError::ProposalNotFound),
        }
    }

    /// Stores what a batch of operations paid before it failed.
    pub open spec fn with_rollback_state(self, batch_id: u64, state: Seq<(Address, i128)>) -> EnvModel {
        EnvModel {
            programs: ProgramsModel {
                batch_rollbacks: self.programs.batch_rollbacks.insert(batch_id, state),
                ..self.programs
            },
            ..self
        }
    }

    /// What a batch of operations paid before it failed.
    pub open spec fn rollback_state(self, batch_id: u64) -> Seq<(Address, i128)> {
        crate::table::find_or(self.programs.batch_rollbacks, batch_id, Seq::empty())
    }

    // Token locks

    /// The token lock rules.
    pub open spec fn time_weighted(self) -> TimeWeightedConfig {
        self.members.time_weighted
    }

    /// Stores the token lock rules.
    pub open spec fn with_time_weighted(self, value: TimeWeightedConfig) -> EnvModel {
        EnvModel {
            members: MembersModel {
                time_weighted: value,
                ..self.members
            },
            ..self
        }
    }

    /// The token lock of an address.
    pub open spec fn token_lock(self, owner: Address) -> Option<TokenLock> {
        crate::table::find(self.members.token_locks, owner)
    }

    /// Stores a token lock.
    pub open spec fn with_token_lock(self, lock: TokenLock) -> EnvModel {
        EnvModel {
            members: MembersModel {
                token_locks: self.members.token_locks.insert(lock.owner, lock),
                ..self.members
            },
            ..self
        }
    }

    /// Stores how many tokens an address has locked.
    pub open spec fn with_total_locked(self, owner: Address, amount: i128) -> EnvModel {
        EnvModel {
            members: MembersModel {
                total_locked: self.members.total_locked.insert(owner, amount),
                ..self.members
            },
            ..self
        }
    }

    /// The voting power of an address: at least one, and one without a lock or where locks do
    /// not count.
    pub open spec fn voting_power(self, addr: Address) -> i128 {
        if !self.time_weighted().enabled {
            1
        } else {
            match self.token_lock(addr) {
                Some(lock) => {
                    let power = if self.time_weighted().apply_decay {
                        lock.decayed_power(self.now())
                    } else {
                        lock.full_power()
                    };
                    if power > 0 {
                        power
                    } else {
                        1
                    }
                },
                None => 1,
            }
        }
    }

    // Recovery

    /// The state after an identifier was given to a recovery proposal.
    pub open spec fn bump_next_recovery_id(self) -> EnvModel {
        EnvModel {
            programs: ProgramsModel {
                next_recovery_id: (self.programs.next_recovery_id + 1) as u64,
                ..self.programs
            },
            ..self
        }
    }

    /// Stores a recovery proposal.
    pub open spec fn with_recovery_proposal(self, proposal: RecoveryProposalModel) -> EnvModel {
        EnvModel {
            programs: ProgramsModel {
                recovery_proposals: self.programs.recovery_proposals.insert(proposal.id, proposal),
                ..self.programs
            },
            ..self
        }
    }

    /// The recovery proposal with an identifier.
    pub open spec fn recovery_proposal(self, id: u64) -> Result<RecoveryProposalModel, VaultError> {
        match crate::table::find(self.programs.recovery_proposals, id) {
            Some(found) => Ok(found),
            None => Err(VaultError::ProposalNotFound),
        }
    }

    // Funding rounds

    /// The state after an identifier was given to a funding round.
    pub open spec fn bump_next_funding_round_id(self) -> EnvModel {
        EnvModel {
            programs: ProgramsModel {
                next_funding_round_id: (self.programs.next_funding_round_id + 1) as u64,
                ..self.programs
            },
            ..self
        }
    }

    /// Stores a funding round.
    pub open spec fn with_funding_round(self, round: FundingRoundModel) -> EnvModel {
        EnvModel {
            programs: ProgramsModel {
                funding_rounds: self.programs.funding_rounds.insert(round.id, round),
                ..self.programs
            },
            ..self
        }
    }

    /// The funding round with an identifier.
    pub open spec fn funding_round(self, id: u64) -> Result<FundingRoundModel, VaultError> {
        match crate::table::find(self.programs.funding_rounds, id) {
            Some(found) => Ok(found),
            None => Err(VaultError::ProposalNotFound),
        }
    }

    /// The funding rounds of a proposal.
    pub open spec fn proposal_funding_rounds(self, proposal_id: u64) -> Seq<u64> {
        crate::table::find_or(self.programs.proposal_funding_rounds, proposal_id, Seq::empty())
    }

    /// Adds to the funding rounds of a proposal.
    pub open spec fn proposal_funding_round_push(self, proposal_id: u64, round_id: u64) -> EnvModel {
        EnvModel {
            programs: ProgramsModel {
                proposal_funding_rounds: self.programs.proposal_funding_rounds.insert(proposal_id, self.proposal_funding_rounds(proposal_id).push(round_id)),
                ..self.programs
            },
            ..self
        }
    }

    /// The bounds on funding rounds, if any.
    pub open spec fn funding_round_config(self) -> Option<FundingRoundConfig> {
        self.programs.funding_round_config
    }

    /// Stores the bounds on funding rounds.
    pub open spec fn with_funding_round_config(self, value: FundingRoundConfig) -> EnvModel {
        EnvModel {
            programs: ProgramsModel {
                funding_round_config: Some(value),
                ..self.programs
            },
            ..self
        }
    }

    // Fees

    /// The protocol fees. Where none were set, none are charged.
    pub open spec fn fee_structure(self) -> FeeStructureModel {
        match self.treasury.fee_structure {
            Some(fees) => fees,
            None => FeeStructureModel {
                enabled: false,
                base_fee_bps: 0,
                tiers: Seq::empty(),
                reputation_discount_threshold: 0,
                reputation_discount_percentage: 0,
                treasury: self.ledger.contract,
            },
        }
    }

    /// Stores the protocol fees.
    pub open spec fn with_fee_structure(self, value: FeeStructureModel) -> EnvModel {
        EnvModel {
            treasury: TreasuryModel {
                fee_structure: Some(value),
                ..self.treasury
            },
            ..self
        }
    }

    /// The fees collected in a token.
    pub open spec fn fees_collected(self, token: Address) -> i128 {
        crate::table::find_or(self.treasury.fees_collected, token, 0)
    }

    /// Adds to the fees collected in a token.
    pub open spec fn fees_collected_add(self, token: Address, amount: i128) -> EnvModel {
        EnvModel {
            treasury: TreasuryModel {
                fees_collected: self.treasury.fees_collected.insert(token, (self.fees_collected(token) + amount) as i128),
                ..self.treasury
            },
            ..self
        }
    }

    /// Stores the fees collected in a token.
    pub open spec fn with_fees_collected(self, token: Address, amount: i128) -> EnvModel {
        EnvModel {
            treasury: TreasuryModel {
                fees_collected: self.treasury.fees_collected.insert(token, amount),
                ..self.treasury
            },
            ..self
        }
    }

    /// What a user moved of a token.
    pub open spec fn user_volume(self, user: Address, token: Address) -> i128 {
        crate::table::find_or(self.treasury.user_volume, VolumeKey { user: user, token: token }, 0)
    }

    /// Adds to what a user moved of a token.
    pub open spec fn user_volume_add(self, user: Address, token: Address, amount: i128) -> EnvModel {
        EnvModel {
            treasury: TreasuryModel {
                user_volume: self.treasury.user_volume.insert(VolumeKey { user: user, token: token }, (self.user_volume(user, token) + amount) as i128),
                ..self.treasury
            },
            ..self
        }
    }

    // Delegation

    /// The delegation of an address.
    pub open spec fn delegation(self, delegator: Address) -> Option<Delegation> {
        crate::table::find(self.members.delegations, delegator)
    }

    /// Those who delegated to an address.
    pub open spec fn delegators_for(self, delegate: Address) -> Seq<Address> {
        crate::table::find_or(self.members.delegators, delegate, Seq::empty())
    }

    /// Adds to those who delegated to an address.
    pub open spec fn delegator_add(self, delegate: Address, delegator: Address) -> EnvModel {
        if self.delegators_for(delegate).contains(delegator) {
            self
        } else {
            EnvModel {
                members: MembersModel {
                    delegators: self.members.delegators.insert(
                        delegate,
                        self.delegators_for(delegate).push(delegator),
                    ),
                    ..self.members
                },
                ..self
            }
        }
    }

    /// Takes from those who delegated to an address.
    pub open spec fn delegator_remove(self, delegate: Address, delegator: Address) -> EnvModel {
        EnvModel {
            members: MembersModel {
                delegators: self.members.delegators.insert(
                    delegate,
                    crate::primitives::without(self.delegators_for(delegate), delegator),
                ),
                ..self.members
            },
            ..self
        }
    }

    /// The state in which the delegate of an address, if any, no longer lists it.
    pub open spec fn delegator_unlisted(self, delegator: Address) -> EnvModel {
        match self.delegation(delegator) {
            Some(previous) => self.delegator_remove(previous.delegate, delegator),
            None => self,
        }
    }

    /// Stores a delegation and lists the delegator with its delegate.
    pub open spec fn with_delegation(self, delegation: Delegation) -> EnvModel {
        let unlisted = self.delegator_unlisted(delegation.delegator);
        EnvModel {
            members: MembersModel {
                delegations: unlisted.members.delegations.insert(delegation.delegator, delegation),
                ..unlisted.members
            },
            ..unlisted
        }.delegator_add(delegation.delegate, delegation.delegator)
    }

    /// Forgets the delegation of an address.
    pub open spec fn without_delegation(self, delegator: Address) -> EnvModel {
        let unlisted = self.delegator_unlisted(delegator);
        EnvModel {
            members: MembersModel {
                delegations: unlisted.members.delegations.remove(delegator),
                ..unlisted.members
            },
            ..unlisted
        }
    }

    /// The changes of delegation of an address, in order.
    pub open spec fn delegation_history(self, user: Address) -> Seq<DelegationHistory> {
        crate::table::find_or(self.members.delegation_history, user, Seq::empty())
    }

    /// Appends a change of delegation to those of its delegator.
    pub open spec fn delegation_history_push(self, history: DelegationHistory) -> EnvModel {
        EnvModel {
            members: MembersModel {
                delegation_history: self.members.delegation_history.insert(
                    history.delegator,
                    self.delegation_history(history.delegator).push(history),
                ),
                ..self.members
            },
            ..self
        }
    }

    /// The state after an identifier was given to a change of delegation.
    pub open spec fn bump_next_delegation_id(self) -> EnvModel {
        EnvModel {
            members: MembersModel {
                next_delegation_id: (self.members.next_delegation_id + 1) as u64,
                ..self.members
            },
            ..self
        }
    }

    // Other vaults

    /// The rules for other vaults, if any.
    pub open spec fn cross_vault_config(self) -> Option<CrossVaultConfigModel> {
        self.links.cross_vault_config
    }

    /// Stores the rules for other vaults.
    pub open spec fn with_cross_vault_config(self, value: CrossVaultConfigModel) -> EnvModel {
        EnvModel {
            links: LinksModel {
                cross_vault_config: Some(value),
                ..self.links
            },
            ..self
        }
    }

    /// Stores the transfers of a proposal towards other vaults.
    pub open spec fn with_cross_vault_proposal(self, proposal_id: u64, cv: CrossVaultProposalModel) -> EnvModel {
        EnvModel {
            links: LinksModel {
                cross_vault_proposals: self.links.cross_vault_proposals.insert(proposal_id, cv),
                ..self.links
            },
            ..self
        }
    }

    /// The transfers of a proposal towards other vaults.
    pub open spec fn cross_vault_proposal(self, proposal_id: u64) -> Option<CrossVaultProposalModel> {
        crate::table::find(self.links.cross_vault_proposals, proposal_id)
    }

    // Disputes

    /// The state after an identifier was given to a dispute.
    pub open spec fn bump_next_dispute_id(self) -> EnvModel {
        EnvModel {
            programs: ProgramsModel {
                next_dispute_id: (self.programs.next_dispute_id + 1) as u64,
                ..self.programs
            },
            ..self
        }
    }

    /// Stores a dispute.
    pub open spec fn with_dispute(self, dispute: DisputeModel) -> EnvModel {
        EnvModel {
            programs: ProgramsModel {
                disputes: self.programs.disputes.insert(dispute.id, dispute),
                ..self.programs
            },
            ..self
        }
    }

    /// The dispute with an identifier.
    pub open spec fn dispute(self, id: u64) -> Result<DisputeModel, VaultError> {
        match crate::table::find(self.programs.disputes, id) {
            Some(found) => Ok(found),
            None => Err(VaultError::ProposalNotFound),
        }
    }

    /// The disputes over a proposal.
    pub open spec fn proposal_disputes(self, proposal_id: u64) -> Seq<u64> {
        crate::table::find_or(self.programs.proposal_disputes, proposal_id, Seq::empty())
    }

    /// Adds to the disputes over a proposal.
    pub open spec fn proposal_dispute_push(self, proposal_id: u64, dispute_id: u64) -> EnvModel {
        EnvModel {
            programs: ProgramsModel {
                proposal_disputes: self.programs.proposal_disputes.insert(proposal_id, self.proposal_disputes(proposal_id).push(dispute_id)),
                ..self.programs
            },
            ..self
        }
    }

    // Subscriptions

    /// The state after an identifier was given to a subscription.
    pub open spec fn bump_next_subscription_id(self) -> EnvModel {
        EnvModel {
            payments: PaymentsModel {
                next_subscription_id: (self.payments.next_subscription_id + 1) as u64,
                ..self.payments
            },
            ..self
        }
    }

    /// Stores a subscription.
    pub open spec fn with_subscription(self, sub: Subscription) -> EnvModel {
        EnvModel {
            payments: PaymentsModel {
                subscriptions: self.payments.subscriptions.insert(sub.id, sub),
                ..self.payments
            },
            ..self
        }
    }

    /// The subscription with an identifier.
    pub open spec fn subscription(self, id: u64) -> Result<Subscription, VaultError> {
        match crate::table::find(self.payments.subscriptions, id) {
            Some(found) => Ok(found),
            None => Err(VaultError::SubscriptionNotFound),
        }
    }

    /// The subscriptions of an address.
    pub open spec fn subscriber_index(self, subscriber: Address) -> Seq<u64> {
        crate::table::find_or(self.payments.subscriber_index, subscriber, Seq::empty())
    }

    /// Adds to the subscriptions of an address.
    pub open spec fn subscriber_push(self, subscriber: Address, subscription_id: u64) -> EnvModel {
        EnvModel {
            payments: PaymentsModel {
                subscriber_index: self.payments.subscriber_index.insert(subscriber, self.subscriber_index(subscriber).push(subscription_id)),
                ..self.payments
            },
            ..self
        }
    }

    // Bridge

    /// The bridge, if one is configured.
    pub open spec fn bridge_config(self) -> Option<BridgeConfigModel> {
        self.links.bridge_config
    }

    /// Stores the bridge.
    pub open spec fn with_bridge_config(self, value: BridgeConfigModel) -> EnvModel {
        EnvModel {
            links: LinksModel {
                bridge_config: Some(value),
                ..self.links
            },
            ..self
        }
    }

    /// The transfers of a proposal towards other chains.
    pub open spec fn cross_chain_proposal(self, proposal_id: u64) -> Option<CrossChainProposalModel> {
        crate::table::find(self.links.cross_chain_proposals, proposal_id)
    }

    /// Stores the transfers of a proposal towards other chains.
    pub open spec fn with_cross_chain_proposal(self, proposal_id: u64, proposal: CrossChainProposalModel) -> EnvModel {
        EnvModel {
            links: LinksModel {
                cross_chain_proposals: self.links.cross_chain_proposals.insert(proposal_id, proposal),
                ..self.links
            },
            ..self
        }
    }

    /// Whether the bridge lock of a proposal is held.
    pub open spec fn bridge_locked(self, proposal_id: u64) -> bool {
        crate::table::find_or(self.links.bridge_locks, proposal_id, false)
    }

    /// The state with the bridge lock of a proposal held.
    pub open spec fn with_bridge_lock(self, proposal_id: u64) -> EnvModel {
        EnvModel {
            links: LinksModel {
                bridge_locks: self.links.bridge_locks.insert(proposal_id, true),
                ..self.links
            },
            ..self
        }
    }

    /// Gives the bridge lock of a proposal back.
    pub open spec fn without_bridge_lock(self, proposal_id: u64) -> EnvModel {
        EnvModel {
            links: LinksModel {
                bridge_locks: self.links.bridge_locks.remove(proposal_id),
                ..self.links
            },
            ..self
        }
    }
}

// Initialization and configuration

/// Whether the vault was initialized.
pub fn is_initialized(env: &Env) -> (r: bool)
    ensures
        r == env@.is_initialized(),
{
    env.access.initialized
}

/// Marks the vault as initialized.
pub fn set_initialized(env: &mut Env)
    ensures
        final(env)@ == old(env)@.with_initialized(),
{
    env.access.initialized = true;
}

/// The configuration.
pub fn get_config(env: &Env) -> (r: Result<Config, VaultError>)
    ensures
        crate::errors::res_view(r) == env@.config(),
{
    match &env.access.config {
        Some(config) => Ok(config.duplicate()),
        None => Err(VaultError::NotInitialized),
    }
}

/// Stores the configuration.
pub fn set_config(env: &mut Env, value: &Config)
    ensures
        final(env)@ == old(env)@.with_config(value@),
{
    env.access.config = Some(value.duplicate());
}

/// The voting strategy.
pub fn get_voting_strategy(env: &Env) -> (r: VotingStrategy)
    ensures
        r == env@.voting_strategy(),
{
    env.access.voting_strategy
}

/// Stores the voting strategy.
pub fn set_voting_strategy(env: &mut Env, value: &VotingStrategy)
    ensures
        final(env)@ == old(env)@.with_voting_strategy(*value),
{
    env.access.voting_strategy = *value;
}

/// Records the ledger at which a vote was cast.
pub fn set_approval_ledger(env: &mut Env, proposal_id: u64, voter: &Address, ledger: u64)
    ensures
        final(env)@ == old(env)@.with_approval_ledger(proposal_id, *voter, ledger),
{
    env.proposals.approval_ledgers.insert(VoteKey { proposal_id: proposal_id, voter: *voter }, ledger);
}

/// The ledger at which a vote was cast.
pub fn get_approval_ledger(env: &Env, proposal_id: u64, voter: &Address) -> (r: Option<u64>)
    ensures
        r == env@.approval_ledger(proposal_id, *voter),
{
    env.proposals.approval_ledgers.fetch(&(VoteKey { proposal_id: proposal_id, voter: *voter }))
}

/// Whether an address may veto.
pub fn is_veto_address(env: &Env, addr: &Address) -> (r: Result<bool, VaultError>)
    ensures
        r == env@.veto_address(*addr),
{
    let config = get_config(env)?;
    Ok(list_contains(&config.veto_addresses, addr))
}

// Roles

/// The role of an address.
pub fn get_role(env: &Env, addr: &Address) -> (r: Role)
    ensures
        r == env@.role(*addr),
{
    match env.access.roles.fetch(&*addr) {
        Some(found) => found,
        None => Role::Member,
    }
}

/// The addresses whose roles are tracked.
pub fn get_role_index(env: &Env) -> (r: Vec<Address>)
    ensures
        r@ == env@.role_index(),
{
    copy_list(&env.access.role_index)
}

/// Tracks the role of an address.
pub fn add_role_index_address(env: &mut Env, addr: &Address)
    ensures
        final(env)@ == old(env)@.with_role_index(*addr),
{
    if !list_contains(&env.access.role_index, addr) {
        env.access.role_index.push(*addr);
    }
}

/// Gives an address a role and tracks it.
pub fn set_role(env: &mut Env, addr: &Address, role: Role)
    ensures
        final(env)@ == old(env)@.with_role(*addr, role),
{
    env.access.roles.insert(*addr, role);
    add_role_index_address(env, addr);
}

/// The tracked addresses with their roles.
pub fn get_role_assignments(env: &Env) -> (r: Vec<RoleAssignment>)
    ensures
        r@ == env@.role_assignments(),
{
    let index = get_role_index(env);
    let mut assignments: Vec<RoleAssignment> = Vec::new();
    let mut i: usize = 0;
    while i < index.len()
        invariant
            i <= index.len(),
            index@ == env@.role_index(),
            assignments@ =~= env@.role_assignments().take(i as int),
        decreases index.len() - i,
    {
        assignments.push(RoleAssignment { addr: index[i], role: get_role(env, &index[i]) });
        i += 1;
    }
    assignments
}

// Proposals

/// The attachments of a proposal.
pub fn get_attachments(env: &Env, proposal_id: u64) -> (r: Texts)
    ensures
        r@ == env@.attachments(proposal_id),
{
    match env.proposals.attachments.fetch(&proposal_id) {
        Some(found) => found,
        None => Texts::new(),
    }
}

/// Stores the attachments of a proposal.
pub fn set_attachments(env: &mut Env, proposal_id: u64, attachments: &Texts)
    ensures
        final(env)@ == old(env)@.with_attachments(proposal_id, attachments@),
{
    env.proposals.attachments.insert(proposal_id, attachments.duplicate());
}

/// The proposal with an identifier, together with its attachments.
pub fn get_proposal(env: &Env, id: u64) -> (r: Result<Proposal, VaultError>)
    ensures
        crate::errors::res_view(r) == env@.proposal(id),
{
    let mut proposal = env.proposals.records.fetch(&id).ok_or(VaultError::ProposalNotFound)?;
    proposal.attachments = get_attachments(env, id);
    Ok(proposal)
}

/// Whether there is a proposal with an identifier.
pub fn proposal_exists(env: &Env, id: u64) -> (r: bool)
    ensures
        r == env@.proposal_exists(id),
{
    env.proposals.records.contains(&id)
}

/// Stores a proposal.
pub fn set_proposal(env: &mut Env, proposal: &Proposal)
    ensures
        final(env)@ == old(env)@.with_proposal(proposal@),
{
    env.proposals.records.insert(proposal.id, proposal.duplicate());
}

/// The identifier that the next of a proposal will get.
pub fn get_next_proposal_id(env: &Env) -> (r: u64)
    ensures
        r == env@.proposals.next_id,
{
    env.proposals.next_id
}

/// Gives an identifier to a proposal.
pub fn increment_proposal_id(env: &mut Env) -> (r: u64)
    requires
        old(env)@.proposals.next_id < u64::MAX,
    ensures
        r == old(env)@.proposals.next_id,
        final(env)@ == old(env)@.bump_proposal_id(),
{
    let id: u64 = env.proposals.next_id;
    env.proposals.next_id = id + 1;
    id
}

// Priority queues

/// The proposals queued at a priority.
pub fn get_priority_queue(env: &Env, priority: u32) -> (r: Vec<u64>)
    ensures
        r@ == env@.priority_queue(priority),
{
    match env.proposals.queues.fetch(&priority) {
        Some(found) => found,
        None => Vec::new(),
    }
}

/// Queues a proposal at a priority.
pub fn add_to_priority_queue(env: &mut Env, priority: u32, proposal_id: u64)
    ensures
        final(env)@ == old(env)@.queue_push(priority, proposal_id),
{
    let mut list = get_priority_queue(env, priority);
    list.push(proposal_id);
    env.proposals.queues.insert(priority, list);
}

/// Takes a proposal out of the queue of a priority.
pub fn remove_from_priority_queue(env: &mut Env, priority: u32, proposal_id: u64)
    ensures
        final(env)@ == old(env)@.queue_remove(priority, proposal_id),
{
    let queue = get_priority_queue(env, priority);
    env.proposals.queues.insert(priority, list_without(&queue, &proposal_id));
}

/// Whether a proposal is in the queue of a priority.
pub fn is_in_priority_queue(env: &Env, priority: u32, proposal_id: u64) -> (r: bool)
    ensures
        r == env@.priority_queue(priority).contains(proposal_id),
{
    list_contains(&get_priority_queue(env, priority), &proposal_id)
}

// Spending

/// The current day.
pub fn get_day_number(env: &Env) -> (r: u64)
    ensures
        r == env@.day_number(),
{
    env.ledger.timestamp / 86400
}

/// The current week.
pub fn get_week_number(env: &Env) -> (r: u64)
    ensures
        r == env@.week_number(),
{
    env.ledger.timestamp / 604800
}

/// What was spent or reserved on a day.
pub fn get_daily_spent(env: &Env, day: u64) -> (r: i128)
    ensures
        r == env@.daily_spent(day),
{
    match env.treasury.daily_spent.fetch(&day) {
        Some(found) => found,
        None => 0,
    }
}

/// Reserves spending on a day.
pub fn add_daily_spent(env: &mut Env, day: u64, amount: i128)
    requires
        crate::math::fits_i128(old(env)@.daily_spent(day) + amount),
    ensures
        final(env)@ == old(env)@.add_daily_spent(day, amount),
{
    let current: i128 = get_daily_spent(env, day);
    env.treasury.daily_spent.insert(day, current + amount);
}

/// Gives spending of a day back.
pub fn reduce_daily_spent(env: &mut Env, day: u64, amount: i128)
    ensures
        final(env)@ == old(env)@.reduce_daily_spent(day, amount),
{
    let current: i128 = get_daily_spent(env, day);
    env.treasury.daily_spent.insert(day, crate::math::reduce(current, amount));
}

/// What was spent or reserved in a week.
pub fn get_weekly_spent(env: &Env, week: u64) -> (r: i128)
    ensures
        r == env@.weekly_spent(week),
{
    match env.treasury.weekly_spent.fetch(&week) {
        Some(found) => found,
        None => 0,
    }
}

/// Reserves spending in a week.
pub fn add_weekly_spent(env: &mut Env, week: u64, amount: i128)
    requires
        crate::math::fits_i128(old(env)@.weekly_spent(week) + amount),
    ensures
        final(env)@ == old(env)@.add_weekly_spent(week, amount),
{
    let current: i128 = get_weekly_spent(env, week);
    env.treasury.weekly_spent.insert(week, current + amount);
}

/// Gives reserved spending of the current day and week back.
pub fn refund_spending_limits(env: &mut Env, amount: i128)
    ensures
        final(env)@ == old(env)@.refund_spending(amount),
{
    let today: u64 = get_day_number(env);
    let spent_today: i128 = get_daily_spent(env, today);
    env.treasury.daily_spent.insert(today, crate::math::reduce(spent_today, amount));
    let week: u64 = get_week_number(env);
    let spent_week: i128 = get_weekly_spent(env, week);
    env.treasury.weekly_spent.insert(week, crate::math::reduce(spent_week, amount));
}

// Recurring payments and streams

/// The identifier that the next of a recurring payment will get.
pub fn get_next_recurring_id(env: &Env) -> (r: u64)
    ensures
        r == env@.payments.next_recurring_id,
{
    env.payments.next_recurring_id
}

/// Gives an identifier to a recurring payment.
pub fn increment_recurring_id(env: &mut Env) -> (r: u64)
    requires
        old(env)@.payments.next_recurring_id < u64::MAX,
    ensures
        r == old(env)@.payments.next_recurring_id,
        final(env)@ == old(env)@.bump_next_recurring_id(),
{
    let id: u64 = env.payments.next_recurring_id;
    env.payments.next_recurring_id = id + 1;
    id
}

/// Stores a recurring payment.
pub fn set_recurring_payment(env: &mut Env, payment: &RecurringPayment)
    ensures
        final(env)@ == old(env)@.with_recurring(*payment),
{
    env.payments.recurring.insert(payment.id, *payment);
}

/// The recurring payment with an identifier.
pub fn get_recurring_payment(env: &Env, id: u64) -> (r: Result<RecurringPayment, VaultError>)
    ensures
        r == env@.recurring(id),
{
    env.payments.recurring.fetch(&id).ok_or(VaultError::ProposalNotFound)
}

/// The identifier that the next of a stream will get.
pub fn get_next_stream_id(env: &Env) -> (r: u64)
    ensures
        r == env@.payments.next_stream_id,
{
    env.payments.next_stream_id
}

/// Gives an identifier to a stream.
pub fn increment_stream_id(env: &mut Env) -> (r: u64)
    requires
        old(env)@.payments.next_stream_id < u64::MAX,
    ensures
        r == old(env)@.payments.next_stream_id,
        final(env)@ == old(env)@.bump_next_stream_id(),
{
    let id: u64 = env.payments.next_stream_id;
    env.payments.next_stream_id = id + 1;
    extend_instance_ttl(env);
    id
}

/// Stores a stream.
pub fn set_streaming_payment(env: &mut Env, stream: &StreamingPayment)
    ensures
        final(env)@ == old(env)@.with_stream(*stream),
{
    env.payments.streams.insert(stream.id, *stream);
}

/// The stream with an identifier.
pub fn get_streaming_payment(env: &Env, id: u64) -> (r: Result<StreamingPayment, VaultError>)
    ensures
        r == env@.stream(id),
{
    env.payments.streams.fetch(&id).ok_or(VaultError::ProposalNotFound)
}

/// Keeps the vault's own entry alive.
pub fn extend_instance_ttl(env: &mut Env)
    ensures
        final(env)@ == old(env)@.act(Action::ExtendInstanceTtl),
{
    env.act(Action::ExtendInstanceTtl);
}

// Recipient lists

/// How recipients are screened.
pub fn get_list_mode(env: &Env) -> (r: ListMode)
    ensures
        r == env@.list_mode(),
{
    env.access.list_mode
}

/// Stores how recipients are screened.
pub fn set_list_mode(env: &mut Env, value: ListMode)
    ensures
        final(env)@ == old(env)@.with_list_mode(value),
{
    env.access.list_mode = value;
}

/// Whether an address is on the whitelist.
pub fn is_whitelisted(env: &Env, addr: &Address) -> (r: bool)
    ensures
        r == env@.whitelisted(*addr),
{
    match env.access.whitelist.fetch(&*addr) {
        Some(found) => found,
        None => false,
    }
}

/// Puts an address on the whitelist.
pub fn add_to_whitelist(env: &mut Env, addr: &Address)
    ensures
        final(env)@ == old(env)@.whitelist_add(*addr),
{
    env.access.whitelist.insert(*addr, true);
}

/// Takes an address off the whitelist.
pub fn remove_from_whitelist(env: &mut Env, addr: &Address)
    ensures
        final(env)@ == old(env)@.whitelist_remove(*addr),
{
    env.access.whitelist.remove(&*addr);
}

/// Whether an address is on the blacklist.
pub fn is_blacklisted(env: &Env, addr: &Address) -> (r: bool)
    ensures
        r == env@.blacklisted(*addr),
{
    match env.access.blacklist.fetch(&*addr) {
        Some(found) => found,
        None => false,
    }
}

/// Puts an address on the blacklist.
pub fn add_to_blacklist(env: &mut Env, addr: &Address)
    ensures
        final(env)@ == old(env)@.blacklist_add(*addr),
{
    env.access.blacklist.insert(*addr, true);
}

/// Takes an address off the blacklist.
pub fn remove_from_blacklist(env: &mut Env, addr: &Address)
    ensures
        final(env)@ == old(env)@.blacklist_remove(*addr),
{
    env.access.blacklist.remove(&*addr);
}

/// Screens a recipient.
pub fn validate_recipient_list(env: &Env, recipient: &Address) -> (r: Result<(), VaultError>)
    ensures
        r == crate::errors::unless(env@.recipient_refusal(*recipient)),
{
    match get_list_mode(env) {
        ListMode::Disabled => Ok(()),
        ListMode::Whitelist => {
            if !is_whitelisted(env, recipient) {
                return Err(VaultError::RecipientNotWhitelisted);
            }
            Ok(())
        },
        ListMode::Blacklist => {
            if is_blacklisted(env, recipient) {
                return Err(VaultError::RecipientBlacklisted);
            }
            Ok(())
        },
    }
}

// Velocity

/// Counts a proposal against the velocity limit, unless the limit is reached.
pub fn check_and_update_velocity(env: &mut Env, addr: &Address, config: &VelocityConfig) -> (r:
    bool)
    ensures
        r == old(env)@.velocity_allows(*addr, *config),
        final(env)@ == old(env)@.count_velocity(*addr, *config),
{
    let now: u64 = env.ledger.timestamp;
    let history = match env.treasury.velocity.fetch(addr) {
        Some(found) => found,
        None => Vec::new(),
    };
    let window_start: u64 = now.saturating_sub(config.window);
    let ghost recent = |ts: u64| ts > crate::math::clamp_u64(env@.ledger.timestamp - config.window);
    let mut updated: Vec<u64> = Vec::new();
    let mut i: usize = 0;
    while i < history.len()
        invariant
            i <= history.len(),
            window_start == crate::math::clamp_u64(env@.ledger.timestamp - config.window),
            recent == (|ts: u64|
                ts > crate::math::clamp_u64(env@.ledger.timestamp - config.window)),
            updated@ == history@.take(i as int).filter(recent),
        decreases history.len() - i,
    {
        proof {
            reveal(Seq::filter);
            assert(history@.take(i + 1).drop_last() =~= history@.take(i as int));
        }
        if history[i] > window_start {
            updated.push(history[i]);
        }
        i += 1;
    }
    assert(history@.take(history@.len() as int) =~= history@);
    assert(history@ == env@.velocity_history(*addr));
    assert(updated@ == env@.recent_proposals(*addr, config.window));
    if updated.len() as u64 >= config.limit as u64 {
        return false;
    }
    updated.push(now);
    env.treasury.velocity.insert(*addr, updated);
    true
}

// Cancellations and amendments

/// Stores a cancellation record.
pub fn set_cancellation_record(env: &mut Env, record: &CancellationRecord)
    ensures
        final(env)@ == old(env)@.with_cancellation(*record),
{
    env.proposals.cancellations.insert(record.proposal_id, *record);
}

/// The cancellation record of a proposal.
pub fn get_cancellation_record(env: &Env, proposal_id: u64) -> (r: Result<CancellationRecord, VaultError>)
    ensures
        r == env@.cancellation(proposal_id),
{
    env.proposals.cancellations.fetch(&proposal_id).ok_or(VaultError::ProposalNotFound)
}

/// Appends a proposal to the cancelled ones.
pub fn add_to_cancellation_history(env: &mut Env, proposal_id: u64)
    ensures
        final(env)@ == old(env)@.cancellation_push(proposal_id),
{
    env.proposals.cancellation_history.push(proposal_id);
}

/// The cancelled proposals, in order of cancellation.
pub fn get_cancellation_history(env: &Env) -> (r: Vec<u64>)
    ensures
        r@ == env@.cancellation_history(),
{
    copy_list(&env.proposals.cancellation_history)
}

/// The amendments of a proposal, in order.
pub fn get_amendment_history(env: &Env, proposal_id: u64) -> (r: Vec<ProposalAmendment>)
    ensures
        r@ == env@.amendment_history(proposal_id),
{
    match env.proposals.amendments.fetch(&proposal_id) {
        Some(found) => found,
        None => Vec::new(),
    }
}

/// Appends an amendment to those of its proposal.
pub fn add_amendment_record(env: &mut Env, record: &ProposalAmendment)
    ensures
        final(env)@ == old(env)@.amendment_push(*record),
{
    let mut history = get_amendment_history(env, record.proposal_id);
    history.push(*record);
    env.proposals.amendments.insert(record.proposal_id, history);
}

// Comments

/// The identifier that the next of a comment will get.
pub fn get_next_comment_id(env: &Env) -> (r: u64)
    ensures
        r == env@.proposals.next_comment_id,
{
    env.proposals.next_comment_id
}

/// Gives an identifier to a comment.
pub fn increment_comment_id(env: &mut Env) -> (r: u64)
    requires
        old(env)@.proposals.next_comment_id < u64::MAX,
    ensures
        r == old(env)@.proposals.next_comment_id,
        final(env)@ == old(env)@.bump_next_comment_id(),
{
    let id: u64 = env.proposals.next_comment_id;
    env.proposals.next_comment_id = id + 1;
    id
}

/// Stores a comment.
pub fn set_comment(env: &mut Env, comment: &Comment)
    ensures
        final(env)@ == old(env)@.with_comment(*comment),
{
    env.proposals.comments.insert(comment.id, *comment);
}

/// The comment with an identifier.
pub fn get_comment(env: &Env, id: u64) -> (r: Result<Comment, VaultError>)
    ensures
        r == env@.comment(id),
{
    env.proposals.comments.fetch(&id).ok_or(VaultError::ProposalNotFound)
}

/// The comments of a proposal, in order.
pub fn get_proposal_comments(env: &Env, proposal_id: u64) -> (r: Vec<u64>)
    ensures
        r@ == env@.comment_ids(proposal_id),
{
    match env.proposals.proposal_comments.fetch(&proposal_id) {
        Some(found) => found,
        None => Vec::new(),
    }
}

/// Appends a comment to those of a proposal.
pub fn add_comment_to_proposal(env: &mut Env, proposal_id: u64, comment_id: u64)
    ensures
        final(env)@ == old(env)@.comment_push(proposal_id, comment_id),
{
    let mut list = get_proposal_comments(env, proposal_id);
    list.push(comment_id);
    env.proposals.proposal_comments.insert(proposal_id, list);
}

// Execution snapshots

/// Stores a proposal as it stood before its execution.
pub fn set_execution_snapshot(env: &mut Env, proposal_id: u64, snapshot: &ExecutionSnapshot)
    ensures
        final(env)@ == old(env)@.with_snapshot(proposal_id, snapshot@),
{
    env.proposals.snapshots.insert(proposal_id, snapshot.duplicate());
}

/// A proposal as it stood before its execution.
pub fn get_execution_snapshot(env: &Env, proposal_id: u64) -> (r: Option<ExecutionSnapshot>)
    ensures
        crate::table::opt_view(r) == env@.snapshot(proposal_id),
{
    env.proposals.snapshots.fetch(&proposal_id)
}

/// Forgets a proposal as it stood before its execution.
pub fn remove_execution_snapshot(env: &mut Env, proposal_id: u64)
    ensures
        final(env)@ == old(env)@.without_snapshot(proposal_id),
{
    env.proposals.snapshots.remove(&proposal_id);
}

// Audit chain

/// The identifier that the next of an audit entry will get.
pub fn get_next_audit_id(env: &Env) -> (r: u64)
    ensures
        r == env@.audit.next_id,
{
    env.audit.next_id
}

/// Gives an identifier to an audit entry.
pub fn increment_audit_id(env: &mut Env) -> (r: u64)
    requires
        old(env)@.audit.next_id < u64::MAX,
    ensures
        r == old(env)@.audit.next_id,
        final(env)@ == old(env)@.bump_audit_id(),
{
    let id: u64 = env.audit.next_id;
    env.audit.next_id = id + 1;
    id
}

/// The hash of the last audit entry.
pub fn get_last_audit_hash(env: &Env) -> (r: u64)
    ensures
        r == env@.last_audit_hash(),
{
    env.audit.last_hash
}

/// Stores the hash of the last audit entry.
pub fn set_last_audit_hash(env: &mut Env, value: u64)
    ensures
        final(env)@ == old(env)@.with_last_audit_hash(value),
{
    env.audit.last_hash = value;
}

/// Stores an audit entry.
pub fn set_audit_entry(env: &mut Env, entry: &AuditEntry)
    ensures
        final(env)@ == old(env)@.with_audit_entry(*entry),
{
    env.audit.entries.insert(entry.id, *entry);
}

/// The audit entry with an identifier.
pub fn get_audit_entry(env: &Env, id: u64) -> (r: Result<AuditEntry, VaultError>)
    ensures
        r == env@.audit_entry(id),
{
    env.audit.entries.fetch(&id).ok_or(VaultError::ProposalNotFound)
}

/// Number of characters in the text form of an address.
pub const ADDRESS_TEXT_LEN: u64 = 56;

/// One step of the audit hash: times 31 plus `value`, modulo two to the 64.
pub open spec fn hash_step(hash: u64, value: u64) -> u64 {
    ((hash * 31 + value) % 0x1_0000_0000_0000_0000) as u64
}

/// The hash of an audit entry. The actor enters by the length of its text form, which is the
/// same for every address.
pub open spec fn audit_hash(
    action: AuditAction,
    target: u64,
    timestamp: u64,
    prev_hash: u64,
) -> u64 {
    hash_step(
        hash_step(hash_step(hash_step(prev_hash, action.spec_code()), ADDRESS_TEXT_LEN), target),
        timestamp,
    )
}

/// One step of the audit hash.
fn hash_with(hash: u64, value: u64) -> (r: u64)
    ensures
        r == hash_step(hash, value),
{
    let r: u128 = (hash as u128 * 31 + value as u128) % 0x1_0000_0000_0000_0000;
    r as u64
}

/// The hash of an audit entry.
pub fn compute_audit_hash(
    _env: &Env,
    action: &AuditAction,
    _actor: &Address,
    target: u64,
    timestamp: u64,
    prev_hash: u64,
) -> (r: u64)
    ensures
        r == audit_hash(*action, target, timestamp, prev_hash),
{
    let mut hash: u64 = hash_with(prev_hash, action.code());
    hash = hash_with(hash, ADDRESS_TEXT_LEN);
    hash = hash_with(hash, target);
    hash_with(hash, timestamp)
}

/// Appends an entry to the audit chain.
pub fn create_audit_entry(env: &mut Env, action: AuditAction, actor: &Address, target: u64)
    requires
        old(env)@.audit.next_id < u64::MAX,
    ensures
        final(env)@ == old(env)@.audit(action, *actor, target),
{
    let id: u64 = increment_audit_id(env);
    let timestamp: u64 = env.now();
    let prev_hash: u64 = get_last_audit_hash(env);
    let hash: u64 = compute_audit_hash(env, &action, actor, target, timestamp, prev_hash);
    let entry = AuditEntry { id, action, actor: *actor, target, timestamp, prev_hash, hash };
    set_audit_entry(env, &entry);
    set_last_audit_hash(env, hash);
}

// Reputation

/// The reputation of an address.
pub fn get_reputation(env: &Env, addr: &Address) -> (r: Reputation)
    ensures
        r == env@.reputation(*addr),
{
    match env.members.reputation.fetch(&*addr) {
        Some(found) => found,
        None => Reputation::default(),
    }
}

/// Stores the reputation of an address.
pub fn set_reputation(env: &mut Env, addr: &Address, rep: &Reputation)
    ensures
        final(env)@ == old(env)@.with_reputation(*addr, *rep),
{
    env.members.reputation.insert(*addr, *rep);
}

/// How reputation decays.
pub fn get_reputation_config(env: &Env) -> (r: ReputationConfig)
    ensures
        r == env@.reputation_config(),
{
    env.members.reputation_config
}

/// Stores how reputation decays.
pub fn set_reputation_config(env: &mut Env, value: &ReputationConfig)
    ensures
        final(env)@ == old(env)@.with_reputation_config(*value),
{
    env.members.reputation_config = *value;
}

/// A score after a number of half-lives. Each halves the distance to the floor, rounding
/// down; a score at or below the floor becomes the floor.
pub open spec fn decayed_score(score: u32, floor: u32, periods: nat) -> u32
    decreases periods,
{
    if periods == 0 {
        score
    } else if score <= floor {
        floor
    } else {
        decayed_score((floor + (score - floor) / 2) as u32, floor, (periods - 1) as nat)
    }
}

/// Lets a reputation decay up to the current ledger.
pub fn apply_reputation_decay(env: &Env, rep: &mut Reputation)
    ensures
        *final(rep) == env@.decayed(*old(rep)),
{
    let current_ledger: u64 = env.now();
    let cfg = get_reputation_config(env);
    if cfg.decay_half_life_ledgers == 0 {
        rep.last_decay_ledger = current_ledger;
        return;
    }
    let elapsed: u64 = current_ledger.saturating_sub(rep.last_decay_ledger);
    let periods: u64 = elapsed / cfg.decay_half_life_ledgers;
    let mut score: u32 = rep.score;
    let mut done: u64 = 0;
    while done < periods
        invariant
            done <= periods,
            decayed_score(rep.score, cfg.decay_min_score, periods as nat) == decayed_score(
                score,
                cfg.decay_min_score,
                (periods - done) as nat,
            ),
        decreases periods - done,
    {
        if score <= cfg.decay_min_score {
            score = cfg.decay_min_score;
            done = periods;
        } else {
            let distance: u32 = score - cfg.decay_min_score;
            score = cfg.decay_min_score + distance / 2;
            done += 1;
        }
    }
    rep.score = score;
    rep.last_decay_ledger = current_ledger;
}

// Insurance

/// The insurance rules.
pub fn get_insurance_config(env: &Env) -> (r: InsuranceConfig)
    ensures
        r == env@.insurance_config(),
{
    env.treasury.insurance_config
}

/// Stores the insurance rules.
pub fn set_insurance_config(env: &mut Env, value: &InsuranceConfig)
    ensures
        final(env)@ == old(env)@.with_insurance_config(*value),
{
    env.treasury.insurance_config = *value;
}

/// What the insurance pool holds of a token.
pub fn get_insurance_pool(env: &Env, token_addr: &Address) -> (r: i128)
    ensures
        r == env@.insurance_pool(*token_addr),
{
    match env.treasury.insurance_pool.fetch(&*token_addr) {
        Some(found) => found,
        None => 0,
    }
}

/// Adds to the insurance pool.
pub fn add_to_insurance_pool(env: &mut Env, token_addr: &Address, amount: i128)
    requires
        crate::math::fits_i128(old(env)@.insurance_pool(*token_addr) + amount),
    ensures
        final(env)@ == old(env)@.insurance_pool_add(*token_addr, amount),
{
    let current: i128 = get_insurance_pool(env, token_addr);
    env.treasury.insurance_pool.insert(*token_addr, current + amount);
}

/// Takes from the insurance pool, down to zero.
pub fn subtract_from_insurance_pool(env: &mut Env, token_addr: &Address, amount: i128)
    ensures
        final(env)@ == old(env)@.insurance_pool_sub(*token_addr, amount),
{
    let current: i128 = get_insurance_pool(env, token_addr);
    env.treasury.insurance_pool.insert(*token_addr, crate::math::reduce(current, amount));
}

// Notification preferences

/// What an address wants to be notified of.
pub fn get_notification_prefs(env: &Env, addr: &Address) -> (r: NotificationPreferences)
    ensures
        r == env@.notification_prefs(*addr),
{
    match env.members.notification_prefs.fetch(&*addr) {
        Some(found) => found,
        None => NotificationPreferences::default(),
    }
}

/// Stores what an address wants to be notified of.
pub fn set_notification_prefs(env: &mut Env, addr: &Address, prefs: &NotificationPreferences)
    ensures
        final(env)@ == old(env)@.with_notification_prefs(*addr, *prefs),
{
    env.members.notification_prefs.insert(*addr, *prefs);
}

// Exchanges and oracle

/// The exchange rules.
pub fn get_dex_config(env: &Env) -> (r: Option<DexConfig>)
    ensures
        crate::table::opt_view(r) == env@.dex_config(),
{
    match &env.links.dex_config {
        Some(found) => Some(found.duplicate()),
        None => None,
    }
}

/// Stores the exchange rules.
pub fn set_dex_config(env: &mut Env, value: &DexConfig)
    ensures
        final(env)@ == old(env)@.with_dex_config(value@),
{
    env.links.dex_config = Some(value.duplicate());
}

/// The oracle, if one is configured.
pub fn get_oracle_config(env: &Env) -> (r: Option<VaultOracleConfig>)
    ensures
        r == env@.oracle_config(),
{
    env.links.oracle_config
}

/// Stores the oracle.
pub fn set_oracle_config(env: &mut Env, value: &Option<VaultOracleConfig>)
    ensures
        final(env)@ == old(env)@.with_oracle_config(*value),
{
    env.links.oracle_config = *value;
}

/// Stores the exchange operation of a proposal.
pub fn set_swap_proposal(env: &mut Env, proposal_id: u64, swap: &SwapProposal)
    ensures
        final(env)@ == old(env)@.with_swap(proposal_id, *swap),
{
    env.links.swap_proposals.insert(proposal_id, *swap);
}

/// The exchange operation of a proposal.
pub fn get_swap_proposal(env: &Env, proposal_id: u64) -> (r: Option<SwapProposal>)
    ensures
        r == env@.swap(proposal_id),
{
    env.links.swap_proposals.fetch(&proposal_id)
}

/// Stores the outcome of a swap.
pub fn set_swap_result(env: &mut Env, proposal_id: u64, result: &SwapResult)
    ensures
        final(env)@ == old(env)@.with_swap_result(proposal_id, *result),
{
    env.links.swap_results.insert(proposal_id, *result);
}

/// The outcome of a swap.
pub fn get_swap_result(env: &Env, proposal_id: u64) -> (r: Option<SwapResult>)
    ensures
        r == env@.swap_result(proposal_id),
{
    env.links.swap_results.fetch(&proposal_id)
}

// Execution cost

/// The execution cost model.
pub fn get_gas_config(env: &Env) -> (r: GasConfig)
    ensures
        r == env@.gas_config(),
{
    env.treasury.gas_config
}

/// Stores the execution cost model.
pub fn set_gas_config(env: &mut Env, value: &GasConfig)
    ensures
        final(env)@ == old(env)@.with_gas_config(*value),
{
    env.treasury.gas_config = *value;
}

/// The estimated execution cost of a proposal.
pub fn get_execution_fee_estimate(env: &Env, proposal_id: u64) -> (r: Option<ExecutionFeeEstimate>)
    ensures
        r == env@.fee_estimate(proposal_id),
{
    env.proposals.fee_estimates.fetch(&proposal_id)
}

/// Stores the estimated execution cost of a proposal.
pub fn set_execution_fee_estimate(env: &mut Env, proposal_id: u64, estimate: &ExecutionFeeEstimate)
    ensures
        final(env)@ == old(env)@.with_fee_estimate(proposal_id, *estimate),
{
    env.proposals.fee_estimates.insert(proposal_id, *estimate);
}

// Batches of proposals

/// The batch of proposals with an identifier.
pub fn get_proposal_batch(env: &Env, batch_id: u64) -> (r: Result<ProposalBatch, VaultError>)
    ensures
        crate::errors::res_view(r) == env@.proposal_batch(batch_id),
{
    env.programs.proposal_batches.fetch(&batch_id).ok_or(VaultError::ProposalNotFound)
}

/// Stores a batch of proposals.
pub fn set_proposal_batch(env: &mut Env, batch: &ProposalBatch)
    ensures
        final(env)@ == old(env)@.with_proposal_batch(batch@),
{
    env.programs.proposal_batches.insert(batch.id, batch.duplicate());
}

/// The identifier that the next of a batch of proposals will get.
pub fn get_next_proposal_batch_id(env: &Env) -> (r: u64)
    ensures
        r == env@.programs.next_proposal_batch_id,
{
    env.programs.next_proposal_batch_id
}

/// Gives an identifier to a batch of proposals.
pub fn increment_proposal_batch_id(env: &mut Env) -> (r: u64)
    requires
        old(env)@.programs.next_proposal_batch_id < u64::MAX,
    ensures
        r == old(env)@.programs.next_proposal_batch_id,
        final(env)@ == old(env)@.bump_next_proposal_batch_id(),
{
    let id: u64 = env.programs.next_proposal_batch_id;
    env.programs.next_proposal_batch_id = id + 1;
    id
}

/// Stores the outcome of a batch of proposals.
pub fn set_proposal_batch_result(env: &mut Env, batch_id: u64, result: &ProposalBatchResult)
    ensures
        final(env)@ == old(env)@.with_proposal_batch_result(batch_id, *result),
{
    env.programs.proposal_batch_results.insert(batch_id, *result);
}

/// The outcome of a batch of proposals.
pub fn get_proposal_batch_result(env: &Env, batch_id: u64) -> (r: Option<ProposalBatchResult>)
    ensures
        r == env@.proposal_batch_result(batch_id),
{
    env.programs.proposal_batch_results.fetch(&batch_id)
}

/// Stores what a rollback of a batch of proposals has to take back.
pub fn set_batch_rollback(env: &mut Env, batch_id: u64, entries: &Vec<(Address, i128)>)
    ensures
        final(env)@ == old(env)@.with_batch_rollback(batch_id, entries@),
{
    env.programs.proposal_batch_rollbacks.insert(batch_id, entries.duplicate());
}

/// What a rollback of a batch of proposals has to take back.
pub fn get_batch_rollback(env: &Env, batch_id: u64) -> (r: Option<Vec<(Address, i128)>>)
    ensures
        crate::table::opt_view(r) == env@.batch_rollback(batch_id),
{
    env.programs.proposal_batch_rollbacks.fetch(&batch_id)
}

// Metrics

/// The vault-wide counters.
pub fn get_metrics(env: &Env) -> (r: VaultMetrics)
    ensures
        r == env@.metrics(),
{
    env.treasury.metrics
}

/// Stores the vault-wide counters.
pub fn set_metrics(env: &mut Env, value: &VaultMetrics)
    ensures
        final(env)@ == old(env)@.with_metrics(*value),
{
    env.treasury.metrics = *value;
}

/// Counts an execution.
pub fn metrics_on_execution(env: &mut Env, gas_used: u64, execution_time_ledgers: u64)
    ensures
        final(env)@ == old(env)@.count_execution(gas_used, execution_time_ledgers),
{
    let mut metrics = get_metrics(env);
    metrics.executed_count = metrics.executed_count.saturating_add(1);
    metrics.total_gas_used = metrics.total_gas_used.saturating_add(gas_used);
    metrics.total_execution_time_ledgers = metrics.total_execution_time_ledgers.saturating_add(execution_time_ledgers);
    metrics.last_updated_ledger = env.now();
    set_metrics(env, &metrics);
}

/// Counts a rejection.
pub fn metrics_on_rejection(env: &mut Env)
    ensures
        final(env)@ == old(env)@.count_rejection(),
{
    let mut metrics = get_metrics(env);
    metrics.rejected_count = metrics.rejected_count.saturating_add(1);
    metrics.last_updated_ledger = env.now();
    set_metrics(env, &metrics);
}

/// Counts an expiry.
pub fn metrics_on_expiry(env: &mut Env)
    ensures
        final(env)@ == old(env)@.count_expiry(),
{
    let mut metrics = get_metrics(env);
    metrics.expired_count = metrics.expired_count.saturating_add(1);
    metrics.last_updated_ledger = env.now();
    set_metrics(env, &metrics);
}

/// Counts a proposal.
pub fn metrics_on_proposal(env: &mut Env)
    ensures
        final(env)@ == old(env)@.count_proposal(),
{
    let mut metrics = get_metrics(env);
    metrics.total_proposals = metrics.total_proposals.saturating_add(1);
    metrics.last_updated_ledger = env.now();
    set_metrics(env, &metrics);
}

// Staking

/// The staking rules.
pub fn get_staking_config(env: &Env) -> (r: StakingConfig)
    ensures
        r == env@.staking_config(),
{
    env.treasury.staking_config
}

/// Stores the staking rules.
pub fn set_staking_config(env: &mut Env, value: &StakingConfig)
    ensures
        final(env)@ == old(env)@.with_staking_config(*value),
{
    env.treasury.staking_config = *value;
}

/// What the stake pool holds of a token.
pub fn get_stake_pool(env: &Env, token_addr: &Address) -> (r: i128)
    ensures
        r == env@.stake_pool(*token_addr),
{
    match env.treasury.stake_pool.fetch(&*token_addr) {
        Some(found) => found,
        None => 0,
    }
}

/// Adds to the stake pool.
pub fn add_to_stake_pool(env: &mut Env, token_addr: &Address, amount: i128)
    requires
        crate::math::fits_i128(old(env)@.stake_pool(*token_addr) + amount),
    ensures
        final(env)@ == old(env)@.stake_pool_add(*token_addr, amount),
{
    let current: i128 = get_stake_pool(env, token_addr);
    env.treasury.stake_pool.insert(*token_addr, current + amount);
}

/// Takes from the stake pool, down to zero.
pub fn subtract_from_stake_pool(env: &mut Env, token_addr: &Address, amount: i128)
    ensures
        final(env)@ == old(env)@.stake_pool_sub(*token_addr, amount),
{
    let current: i128 = get_stake_pool(env, token_addr);
    env.treasury.stake_pool.insert(*token_addr, crate::math::reduce(current, amount));
}

/// The stake of a proposal.
pub fn get_stake_record(env: &Env, proposal_id: u64) -> (r: Option<StakeRecord>)
    ensures
        r == env@.stake_record(proposal_id),
{
    env.treasury.stake_records.fetch(&proposal_id)
}

/// Stores the stake of a proposal.
pub fn set_stake_record(env: &mut Env, record: &StakeRecord)
    ensures
        final(env)@ == old(env)@.with_stake_record(*record),
{
    env.treasury.stake_records.insert(record.proposal_id, *record);
}

// Permissions

/// The permissions that an address holds directly.
pub fn get_permissions(env: &Env, addr: &Address) -> (r: Vec<PermissionGrant>)
    ensures
        r@ == env@.permissions(*addr),
{
    match env.access.permissions.fetch(&*addr) {
        Some(found) => found,
        None => Vec::new(),
    }
}

/// Stores the permissions that an address holds directly.
pub fn set_permissions(env: &mut Env, addr: &Address, permissions: Vec<PermissionGrant>)
    ensures
        final(env)@ == old(env)@.with_permissions(*addr, permissions@),
{
    env.access.permissions.insert(*addr, permissions);
}

/// The permission that an address holds through a signer.
pub fn get_delegated_permission(env: &Env, addr: &Address, signer: &Address, permission: u32) -> (r: Option<DelegatedPermission>)
    ensures
        r == env@.delegated_permission(*addr, *signer, permission),
{
    env.access.delegated_permissions.fetch(&(GrantKey { delegatee: *addr, delegator: *signer, permission: permission }))
}

/// Stores a delegated permission.
pub fn set_delegated_permission(env: &mut Env, delegation: &DelegatedPermission)
    ensures
        final(env)@ == old(env)@.with_delegated_permission(*delegation),
{
    env.access.delegated_permissions.insert(
        GrantKey {
            delegatee: delegation.delegatee,
            delegator: delegation.delegator,
            permission: delegation.permission.code(),
        },
        *delegation,
    );
}

// Templates

/// The identifier that the next of a template will get.
pub fn get_next_template_id(env: &Env) -> (r: u64)
    ensures
        r == env@.programs.next_template_id,
{
    env.programs.next_template_id
}

/// Gives an identifier to a template.
pub fn increment_template_id(env: &mut Env) -> (r: u64)
    requires
        old(env)@.programs.next_template_id < u64::MAX,
    ensures
        r == old(env)@.programs.next_template_id,
        final(env)@ == old(env)@.bump_next_template_id(),
{
    let id: u64 = env.programs.next_template_id;
    env.programs.next_template_id = id + 1;
    id
}

/// Stores a template.
pub fn set_template(env: &mut Env, template: &ProposalTemplate)
    ensures
        final(env)@ == old(env)@.with_template(*template),
{
    env.programs.templates.insert(template.id, *template);
}

/// The template with an identifier.
pub fn get_template(env: &Env, id: u64) -> (r: Result<ProposalTemplate, VaultError>)
    ensures
        r == env@.template(id),
{
    env.programs.templates.fetch(&id).ok_or(VaultError::TemplateNotFound)
}

/// Whether there is a template with an identifier.
pub fn template_exists(env: &Env, id: u64) -> (r: bool)
    ensures
        r == env@.template_exists(id),
{
    env.programs.templates.contains(&id)
}

/// The template with a name.
pub fn get_template_id_by_name(env: &Env, name: &Symbol) -> (r: Option<u64>)
    ensures
        r == env@.template_id(*name),
{
    env.programs.template_names.fetch(&*name)
}

/// Gives a template a name.
pub fn set_template_name_mapping(env: &mut Env, name: &Symbol, id: u64)
    ensures
        final(env)@ == old(env)@.with_template_name(*name, id),
{
    env.programs.template_names.insert(*name, id);
}

/// Whether a template has a name.
pub fn template_name_exists(env: &Env, name: &Symbol) -> (r: bool)
    ensures
        r == env@.template_name_exists(*name),
{
    env.programs.template_names.contains(&*name)
}

// Retries

/// The retries of a proposal so far.
pub fn get_retry_state(env: &Env, proposal_id: u64) -> (r: Option<RetryState>)
    ensures
        r == env@.retry_state(proposal_id),
{
    env.proposals.retries.fetch(&proposal_id)
}

/// Stores the retries of a proposal so far.
pub fn set_retry_state(env: &mut Env, proposal_id: u64, state: &RetryState)
    ensures
        final(env)@ == old(env)@.with_retry_state(proposal_id, *state),
{
    env.proposals.retries.insert(proposal_id, *state);
}

// Escrows

/// The identifier that the next of an escrow will get.
pub fn get_next_escrow_id(env: &Env) -> (r: u64)
    ensures
        r == env@.payments.next_escrow_id,
{
    env.payments.next_escrow_id
}

/// Gives an identifier to an escrow.
pub fn increment_escrow_id(env: &mut Env) -> (r: u64)
    requires
        old(env)@.payments.next_escrow_id < u64::MAX,
    ensures
        r == old(env)@.payments.next_escrow_id,
        final(env)@ == old(env)@.bump_next_escrow_id(),
{
    let id: u64 = env.payments.next_escrow_id;
    env.payments.next_escrow_id = id + 1;
    id
}

/// Stores an escrow.
pub fn set_escrow(env: &mut Env, escrow: &Escrow)
    ensures
        final(env)@ == old(env)@.with_escrow(escrow@),
{
    env.payments.escrows.insert(escrow.id, escrow.duplicate());
}

/// The escrow with an identifier.
pub fn get_escrow(env: &Env, id: u64) -> (r: Result<Escrow, VaultError>)
    ensures
        crate::errors::res_view(r) == env@.escrow(id),
{
    env.payments.escrows.fetch(&id).ok_or(VaultError::ProposalNotFound)
}

/// The escrows of a funder.
pub fn get_funder_escrows(env: &Env, funder: &Address) -> (r: Vec<u64>)
    ensures
        r@ == env@.funder_escrows(*funder),
{
    match env.payments.funder_escrows.fetch(&*funder) {
        Some(found) => found,
        None => Vec::new(),
    }
}

/// Adds to the escrows of a funder.
pub fn add_funder_escrow(env: &mut Env, funder: &Address, escrow_id: u64)
    ensures
        final(env)@ == old(env)@.funder_escrow_push(*funder, escrow_id),
{
    let mut list = get_funder_escrows(env, funder);
    list.push(escrow_id);
    env.payments.funder_escrows.insert(*funder, list);
}

/// The escrows of a recipient.
pub fn get_recipient_escrows(env: &Env, recipient: &Address) -> (r: Vec<u64>)
    ensures
        r@ == env@.recipient_escrows(*recipient),
{
    match env.payments.recipient_escrows.fetch(&*recipient) {
        Some(found) => found,
        None => Vec::new(),
    }
}

/// Adds to the escrows of a recipient.
pub fn add_recipient_escrow(env: &mut Env, recipient: &Address, escrow_id: u64)
    ensures
        final(env)@ == old(env)@.recipient_escrow_push(*recipient, escrow_id),
{
    let mut list = get_recipient_escrows(env, recipient);
    list.push(escrow_id);
    env.payments.recipient_escrows.insert(*recipient, list);
}

// Batches of operations

/// The identifier that the last batch of operations got.
pub fn get_next_batch_id(env: &Env) -> (r: u64)
    ensures
        r == env@.programs.last_batch_id,
{
    env.programs.last_batch_id
}

/// Gives an identifier to a batch of operations.
pub fn increment_batch_id(env: &mut Env) -> (r: u64)
    requires
        old(env)@.programs.last_batch_id < u64::MAX,
    ensures
        r == old(env)@.programs.last_batch_id + 1,
        final(env)@ == old(env)@.bump_batch_id(),
{
    let next: u64 = get_next_batch_id(env) + 1;
    env.programs.last_batch_id = next;
    next
}

/// Stores a batch of operations.
pub fn set_batch(env: &mut Env, batch: &BatchTransaction)
    ensures
        final(env)@ == old(env)@.with_batch(batch@),
{
    env.programs.batches.insert(batch.id, batch.duplicate());
}

/// The batch of operations with an identifier.
pub fn get_batch(env: &Env, batch_id: u64) -> (r: Result<BatchTransaction, VaultError>)
    ensures
        crate::errors::res_view(r) == env@.batch(batch_id),
{
    env.programs.batches.fetch(&batch_id).ok_or(VaultError::ProposalNotFound)
}

/// Stores the outcome of a batch of operations.
pub fn set_batch_result(env: &mut Env, result: &BatchExecutionResult)
    ensures
        final(env)@ == old(env)@.with_batch_result(*result),
{
    env.programs.batch_results.insert(result.batch_id, *result);
}

/// The outcome of a batch of operations.
pub fn get_batch_result(env: &Env, batch_id: u64) -> (r: Result<BatchExecutionResult, VaultError>)
    ensures
        r == env@.batch_result(batch_id),
{
    env.programs.batch_results.fetch(&batch_id).ok_or(VaultError::ProposalNotFound)
}

/// Stores what a batch of operations paid before it failed.
pub fn set_rollback_state(env: &mut Env, batch_id: u64, state: &Vec<(Address, i128)>)
    ensures
        final(env)@ == old(env)@.with_rollback_state(batch_id, state@),
{
    env.programs.batch_rollbacks.insert(batch_id, state.duplicate());
}

/// What a batch of operations paid before it failed.
pub fn get_rollback_state(env: &Env, batch_id: u64) -> (r: Vec<(Address, i128)>)
    ensures
        r@ == env@.rollback_state(batch_id),
{
    match env.programs.batch_rollbacks.fetch(&batch_id) {
        Some(found) => found,
        None => Vec::new(),
    }
}

// Token locks

/// The token lock rules.
pub fn get_time_weighted_config(env: &Env) -> (r: TimeWeightedConfig)
    ensures
        r == env@.time_weighted(),
{
    env.members.time_weighted
}

/// Stores the token lock rules.
pub fn set_time_weighted_config(env: &mut Env, value: &TimeWeightedConfig)
    ensures
        final(env)@ == old(env)@.with_time_weighted(*value),
{
    env.members.time_weighted = *value;
}

/// The token lock of an address.
pub fn get_token_lock(env: &Env, owner: &Address) -> (r: Option<TokenLock>)
    ensures
        r == env@.token_lock(*owner),
{
    env.members.token_locks.fetch(&*owner)
}

/// Stores a token lock.
pub fn set_token_lock(env: &mut Env, lock: &TokenLock)
    ensures
        final(env)@ == old(env)@.with_token_lock(*lock),
{
    env.members.token_locks.insert(lock.owner, *lock);
}

/// Stores how many tokens an address has locked.
pub fn set_total_locked(env: &mut Env, owner: &Address, amount: i128)
    ensures
        final(env)@ == old(env)@.with_total_locked(*owner, amount),
{
    env.members.total_locked.insert(*owner, amount);
}

/// The voting power of an address.
pub fn calculate_voting_power(env: &Env, addr: &Address) -> (r: i128)
    ensures
        r == env@.voting_power(*addr),
{
    let cfg = get_time_weighted_config(env);
    if !cfg.enabled {
        return 1;
    }
    match get_token_lock(env, addr) {
        Some(lock) => {
            let power: i128 = if cfg.apply_decay {
                lock.calculate_decayed_power(env.now())
            } else {
                lock.calculate_voting_power()
            };
            if power > 0 {
                power
            } else {
                1
            }
        },
        None => 1,
    }
}

// Recovery

/// The identifier that the next of a recovery proposal will get.
pub fn get_next_recovery_id(env: &Env) -> (r: u64)
    ensures
        r == env@.programs.next_recovery_id,
{
    env.programs.next_recovery_id
}

/// Gives an identifier to a recovery proposal.
pub fn increment_recovery_id(env: &mut Env) -> (r: u64)
    requires
        old(env)@.programs.next_recovery_id < u64::MAX,
    ensures
        r == old(env)@.programs.next_recovery_id,
        final(env)@ == old(env)@.bump_next_recovery_id(),
{
    let id: u64 = env.programs.next_recovery_id;
    env.programs.next_recovery_id = id + 1;
    id
}

/// Stores a recovery proposal.
pub fn set_recovery_proposal(env: &mut Env, proposal: &RecoveryProposal)
    ensures
        final(env)@ == old(env)@.with_recovery_proposal(proposal@),
{
    env.programs.recovery_proposals.insert(proposal.id, proposal.duplicate());
}

/// The recovery proposal with an identifier.
pub fn get_recovery_proposal(env: &Env, id: u64) -> (r: Result<RecoveryProposal, VaultError>)
    ensures
        crate::errors::res_view(r) == env@.recovery_proposal(id),
{
    env.programs.recovery_proposals.fetch(&id).ok_or(VaultError::ProposalNotFound)
}

// Funding rounds

/// The identifier that the next of a funding round will get.
pub fn get_next_funding_round_id(env: &Env) -> (r: u64)
    ensures
        r == env@.programs.next_funding_round_id,
{
    env.programs.next_funding_round_id
}

/// Gives an identifier to a funding round.
pub fn bump_funding_round_id(env: &mut Env) -> (r: u64)
    requires
        old(env)@.programs.next_funding_round_id < u64::MAX,
    ensures
        r == old(env)@.programs.next_funding_round_id,
        final(env)@ == old(env)@.bump_next_funding_round_id(),
{
    let id: u64 = env.programs.next_funding_round_id;
    env.programs.next_funding_round_id = id + 1;
    id
}

/// Stores a funding round.
pub fn set_funding_round(env: &mut Env, round: &FundingRound)
    ensures
        final(env)@ == old(env)@.with_funding_round(round@),
{
    env.programs.funding_rounds.insert(round.id, round.duplicate());
}

/// The funding round with an identifier.
pub fn get_funding_round(env: &Env, id: u64) -> (r: Result<FundingRound, VaultError>)
    ensures
        crate::errors::res_view(r) == env@.funding_round(id),
{
    env.programs.funding_rounds.fetch(&id).ok_or(VaultError::ProposalNotFound)
}

/// The funding rounds of a proposal.
pub fn get_proposal_funding_rounds(env: &Env, proposal_id: u64) -> (r: Vec<u64>)
    ensures
        r@ == env@.proposal_funding_rounds(proposal_id),
{
    match env.programs.proposal_funding_rounds.fetch(&proposal_id) {
        Some(found) => found,
        None => Vec::new(),
    }
}

/// Adds to the funding rounds of a proposal.
pub fn add_proposal_funding_round(env: &mut Env, proposal_id: u64, round_id: u64)
    ensures
        final(env)@ == old(env)@.proposal_funding_round_push(proposal_id, round_id),
{
    let mut list = get_proposal_funding_rounds(env, proposal_id);
    list.push(round_id);
    env.programs.proposal_funding_rounds.insert(proposal_id, list);
}

/// The bounds on funding rounds, if any.
pub fn get_funding_round_config(env: &Env) -> (r: Option<FundingRoundConfig>)
    ensures
        r == env@.funding_round_config(),
{
    env.programs.funding_round_config
}

/// Stores the bounds on funding rounds.
pub fn set_funding_round_config(env: &mut Env, value: &FundingRoundConfig)
    ensures
        final(env)@ == old(env)@.with_funding_round_config(*value),
{
    env.programs.funding_round_config = Some(*value);
}

// Fees

/// The protocol fees. Where none were set, none are charged.
pub fn get_fee_structure(env: &Env) -> (r: FeeStructure)
    ensures
        r@ == env@.fee_structure(),
{
    match &env.treasury.fee_structure {
        Some(fees) => fees.duplicate(),
        None => FeeStructure {
            enabled: false,
            base_fee_bps: 0,
            tiers: Vec::new(),
            reputation_discount_threshold: 0,
            reputation_discount_percentage: 0,
            treasury: env.ledger.contract,
        },
    }
}

/// Stores the protocol fees.
pub fn set_fee_structure(env: &mut Env, value: &FeeStructure)
    ensures
        final(env)@ == old(env)@.with_fee_structure(value@),
{
    env.treasury.fee_structure = Some(value.duplicate());
}

/// The fees collected in a token.
pub fn get_fees_collected(env: &Env, token: &Address) -> (r: i128)
    ensures
        r == env@.fees_collected(*token),
{
    match env.treasury.fees_collected.fetch(&*token) {
        Some(found) => found,
        None => 0,
    }
}

/// Adds to the fees collected in a token.
pub fn add_fees_collected(env: &mut Env, token: &Address, amount: i128)
    requires
        crate::math::fits_i128(old(env)@.fees_collected(*token) + amount),
    ensures
        final(env)@ == old(env)@.fees_collected_add(*token, amount),
{
    let current: i128 = get_fees_collected(env, token);
    env.treasury.fees_collected.insert(*token, current + amount);
}

/// Stores the fees collected in a token.
pub fn set_fees_collected(env: &mut Env, token: &Address, amount: i128)
    ensures
        final(env)@ == old(env)@.with_fees_collected(*token, amount),
{
    env.treasury.fees_collected.insert(*token, amount);
}

/// What a user moved of a token.
pub fn get_user_volume(env: &Env, user: &Address, token: &Address) -> (r: i128)
    ensures
        r == env@.user_volume(*user, *token),
{
    match env.treasury.user_volume.fetch(&(VolumeKey { user: *user, token: *token })) {
        Some(found) => found,
        None => 0,
    }
}

/// Adds to what a user moved of a token.
pub fn add_user_volume(env: &mut Env, user: &Address, token: &Address, amount: i128)
    requires
        crate::math::fits_i128(old(env)@.user_volume(*user, *token) + amount),
    ensures
        final(env)@ == old(env)@.user_volume_add(*user, *token, amount),
{
    let current: i128 = get_user_volume(env, user, token);
    env.treasury.user_volume.insert(VolumeKey { user: *user, token: *token }, current + amount);
}

// Delegation

/// The delegation of an address.
pub fn get_delegation(env: &Env, delegator: &Address) -> (r: Option<Delegation>)
    ensures
        r == env@.delegation(*delegator),
{
    env.members.delegations.fetch(&*delegator)
}

/// Those who delegated to an address.
pub fn get_delegators_for(env: &Env, delegate: &Address) -> (r: Vec<Address>)
    ensures
        r@ == env@.delegators_for(*delegate),
{
    match env.members.delegators.fetch(&*delegate) {
        Some(found) => found,
        None => Vec::new(),
    }
}

/// Adds to those who delegated to an address.
fn add_to_delegators_index(env: &mut Env, delegate: &Address, delegator: &Address)
    ensures
        final(env)@ == old(env)@.delegator_add(*delegate, *delegator),
{
    let mut delegators = get_delegators_for(env, delegate);
    if !list_contains(&delegators, delegator) {
        delegators.push(*delegator);
        env.members.delegators.insert(*delegate, delegators);
    }
}

/// Takes from those who delegated to an address.
fn remove_from_delegators_index(env: &mut Env, delegate: &Address, delegator: &Address)
    ensures
        final(env)@ == old(env)@.delegator_remove(*delegate, *delegator),
{
    let delegators = get_delegators_for(env, delegate);
    env.members.delegators.insert(*delegate, list_without(&delegators, delegator));
}

/// Stores a delegation and lists the delegator with its delegate.
pub fn set_delegation(env: &mut Env, delegation: &Delegation)
    ensures
        final(env)@ == old(env)@.with_delegation(*delegation),
{
    if let Some(previous) = get_delegation(env, &delegation.delegator) {
        remove_from_delegators_index(env, &previous.delegate, &delegation.delegator);
    }
    env.members.delegations.insert(delegation.delegator, *delegation);
    add_to_delegators_index(env, &delegation.delegate, &delegation.delegator);
}

/// Forgets the delegation of an address.
pub fn remove_delegation(env: &mut Env, delegator: &Address)
    ensures
        final(env)@ == old(env)@.without_delegation(*delegator),
{
    if let Some(previous) = get_delegation(env, delegator) {
        remove_from_delegators_index(env, &previous.delegate, delegator);
    }
    env.members.delegations.remove(delegator);
}

/// The changes of delegation of an address, in order.
pub fn get_delegation_history(env: &Env, user: &Address) -> (r: Vec<DelegationHistory>)
    ensures
        r@ == env@.delegation_history(*user),
{
    match env.members.delegation_history.fetch(&*user) {
        Some(found) => found,
        None => Vec::new(),
    }
}

/// Appends a change of delegation to those of its delegator.
pub fn add_delegation_history(env: &mut Env, history: &DelegationHistory)
    ensures
        final(env)@ == old(env)@.delegation_history_push(*history),
{
    let mut entries = get_delegation_history(env, &history.delegator);
    entries.push(*history);
    env.members.delegation_history.insert(history.delegator, entries);
}

/// Gives an identifier to a change of delegation.
pub fn increment_delegation_id(env: &mut Env) -> (r: u64)
    requires
        old(env)@.members.next_delegation_id < u64::MAX,
    ensures
        r == old(env)@.members.next_delegation_id,
        final(env)@ == old(env)@.bump_next_delegation_id(),
{
    let id: u64 = env.members.next_delegation_id;
    env.members.next_delegation_id = id + 1;
    id
}

// Other vaults

/// The rules for other vaults, if any.
pub fn get_cross_vault_config(env: &Env) -> (r: Option<CrossVaultConfig>)
    ensures
        crate::table::opt_view(r) == env@.cross_vault_config(),
{
    match &env.links.cross_vault_config {
        Some(found) => Some(found.duplicate()),
        None => None,
    }
}

/// Stores the rules for other vaults.
pub fn set_cross_vault_config(env: &mut Env, value: &CrossVaultConfig)
    ensures
        final(env)@ == old(env)@.with_cross_vault_config(value@),
{
    env.links.cross_vault_config = Some(value.duplicate());
}

/// Stores the transfers of a proposal towards other vaults.
pub fn set_cross_vault_proposal(env: &mut Env, proposal_id: u64, cv: &CrossVaultProposal)
    ensures
        final(env)@ == old(env)@.with_cross_vault_proposal(proposal_id, cv@),
{
    env.links.cross_vault_proposals.insert(proposal_id, cv.duplicate());
}

/// The transfers of a proposal towards other vaults.
pub fn get_cross_vault_proposal(env: &Env, proposal_id: u64) -> (r: Option<CrossVaultProposal>)
    ensures
        crate::table::opt_view(r) == env@.cross_vault_proposal(proposal_id),
{
    env.links.cross_vault_proposals.fetch(&proposal_id)
}

// Disputes

/// The identifier that the next of a dispute will get.
pub fn get_next_dispute_id(env: &Env) -> (r: u64)
    ensures
        r == env@.programs.next_dispute_id,
{
    env.programs.next_dispute_id
}

/// Gives an identifier to a dispute.
pub fn increment_dispute_id(env: &mut Env) -> (r: u64)
    requires
        old(env)@.programs.next_dispute_id < u64::MAX,
    ensures
        r == old(env)@.programs.next_dispute_id,
        final(env)@ == old(env)@.bump_next_dispute_id(),
{
    let id: u64 = env.programs.next_dispute_id;
    env.programs.next_dispute_id = id + 1;
    id
}

/// Stores a dispute.
pub fn set_dispute(env: &mut Env, dispute: &Dispute)
    ensures
        final(env)@ == old(env)@.with_dispute(dispute@),
{
    env.programs.disputes.insert(dispute.id, dispute.duplicate());
}

/// The dispute with an identifier.
pub fn get_dispute(env: &Env, id: u64) -> (r: Result<Dispute, VaultError>)
    ensures
        crate::errors::res_view(r) == env@.dispute(id),
{
    env.programs.disputes.fetch(&id).ok_or(VaultError::ProposalNotFound)
}

/// The disputes over a proposal.
pub fn get_proposal_disputes(env: &Env, proposal_id: u64) -> (r: Vec<u64>)
    ensures
        r@ == env@.proposal_disputes(proposal_id),
{
    match env.programs.proposal_disputes.fetch(&proposal_id) {
        Some(found) => found,
        None => Vec::new(),
    }
}

/// Adds to the disputes over a proposal.
pub fn add_proposal_dispute(env: &mut Env, proposal_id: u64, dispute_id: u64)
    ensures
        final(env)@ == old(env)@.proposal_dispute_push(proposal_id, dispute_id),
{
    let mut list = get_proposal_disputes(env, proposal_id);
    list.push(dispute_id);
    env.programs.proposal_disputes.insert(proposal_id, list);
}

// Subscriptions

/// The identifier that the next of a subscription will get.
pub fn get_next_subscription_id(env: &Env) -> (r: u64)
    ensures
        r == env@.payments.next_subscription_id,
{
    env.payments.next_subscription_id
}

/// Gives an identifier to a subscription.
pub fn increment_subscription_id(env: &mut Env) -> (r: u64)
    requires
        old(env)@.payments.next_subscription_id < u64::MAX,
    ensures
        r == old(env)@.payments.next_subscription_id,
        final(env)@ == old(env)@.bump_next_subscription_id(),
{
    let id: u64 = env.payments.next_subscription_id;
    env.payments.next_subscription_id = id + 1;
    id
}

/// Stores a subscription.
pub fn set_subscription(env: &mut Env, sub: &Subscription)
    ensures
        final(env)@ == old(env)@.with_subscription(*sub),
{
    env.payments.subscriptions.insert(sub.id, *sub);
}

/// The subscription with an identifier.
pub fn get_subscription(env: &Env, id: u64) -> (r: Result<Subscription, VaultError>)
    ensures
        r == env@.subscription(id),
{
    env.payments.subscriptions.fetch(&id).ok_or(VaultError::SubscriptionNotFound)
}

/// The subscriptions of an address.
pub fn get_subscriber_index(env: &Env, subscriber: &Address) -> (r: Vec<u64>)
    ensures
        r@ == env@.subscriber_index(*subscriber),
{
    match env.payments.subscriber_index.fetch(&*subscriber) {
        Some(found) => found,
        None => Vec::new(),
    }
}

/// Adds to the subscriptions of an address.
pub fn add_to_subscriber_index(env: &mut Env, subscriber: &Address, subscription_id: u64)
    ensures
        final(env)@ == old(env)@.subscriber_push(*subscriber, subscription_id),
{
    let mut list = get_subscriber_index(env, subscriber);
    list.push(subscription_id);
    env.payments.subscriber_index.insert(*subscriber, list);
}

// Bridge

/// The bridge, if one is configured.
pub fn get_bridge_config(env: &Env) -> (r: Option<BridgeConfig>)
    ensures
        crate::table::opt_view(r) == env@.bridge_config(),
{
    match &env.links.bridge_config {
        Some(found) => Some(found.duplicate()),
        None => None,
    }
}

/// Stores the bridge.
pub fn set_bridge_config(env: &mut Env, value: &BridgeConfig)
    ensures
        final(env)@ == old(env)@.with_bridge_config(value@),
{
    env.links.bridge_config = Some(value.duplicate());
}

/// The transfers of a proposal towards other chains.
pub fn get_cross_chain_proposal(env: &Env, proposal_id: u64) -> (r: Option<CrossChainProposal>)
    ensures
        crate::table::opt_view(r) == env@.cross_chain_proposal(proposal_id),
{
    env.links.cross_chain_proposals.fetch(&proposal_id)
}

/// Stores the transfers of a proposal towards other chains.
pub fn set_cross_chain_proposal(env: &mut Env, proposal_id: u64, proposal: &CrossChainProposal)
    ensures
        final(env)@ == old(env)@.with_cross_chain_proposal(proposal_id, proposal@),
{
    env.links.cross_chain_proposals.insert(proposal_id, proposal.duplicate());
}

/// Takes the bridge lock of a proposal, unless it is held.
pub fn acquire_bridge_lock(env: &mut Env, proposal_id: u64) -> (r: bool)
    ensures
        r == !old(env)@.bridge_locked(proposal_id),
        final(env)@ == if r {
            old(env)@.with_bridge_lock(proposal_id)
        } else {
            old(env)@
        },
{
    let held = match env.links.bridge_locks.fetch(&proposal_id) {
        Some(held) => held,
        None => false,
    };
    if held {
        return false;
    }
    env.links.bridge_locks.insert(proposal_id, true);
    true
}

/// Gives the bridge lock of a proposal back.
pub fn release_bridge_lock(env: &mut Env, proposal_id: u64)
    ensures
        final(env)@ == old(env)@.without_bridge_lock(proposal_id),
{
    env.links.bridge_locks.remove(&proposal_id);
}
// Pages of identifiers

/// The identifiers from one up to, but not including, `next` under which there is a record, in
/// ascending order.
pub open spec fn ids_below<V>(records: Map<u64, V>, next: nat) -> Seq<u64>
    decreases next,
{
    if next <= 1 {
        Seq::empty()
    } else {
        let id = (next - 1) as u64;
        if records.contains_key(id) {
            ids_below(records, (next - 1) as nat).push(id)
        } else {
            ids_below(records, (next - 1) as nat)
        }
    }
}

/// What is left of a list after `offset` items, up to `limit` items of it.
pub open spec fn page<T>(list: Seq<T>, offset: int, limit: int) -> Seq<T> {
    let start = crate::math::min_int(offset, list.len() as int);
    list.subrange(start, crate::math::min_int(start + limit, list.len() as int))
}

/// The identifiers below a number are the first ones of those below a larger number.
pub proof fn lemma_ids_below_prefix<V>(records: Map<u64, V>, n: nat, m: nat)
    requires
        n <= m,
    ensures
        ids_below(records, n).len() <= ids_below(records, m).len(),
        ids_below(records, n) == ids_below(records, m).take(ids_below(records, n).len() as int),
    decreases m,
{
    if n < m {
        lemma_ids_below_prefix(records, n, (m - 1) as nat);
    }
    assert(ids_below(records, n) =~= ids_below(records, m).take(
        ids_below(records, n).len() as int,
    ));
}

/// Identifiers below a number are those of records, and ascend.
pub proof fn lemma_ids_below<V>(records: Map<u64, V>, next: nat)
    requires
        next <= u64::MAX + 1,
    ensures
        forall|i: int|
            0 <= i < ids_below(records, next).len() ==> {
                &&& 1 <= #[trigger] ids_below(records, next)[i]
                &&& ids_below(records, next)[i] < next
                &&& records.contains_key(ids_below(records, next)[i])
            },
        forall|i: int, j: int|
            0 <= i < j < ids_below(records, next).len() ==> ids_below(records, next)[i]
                < ids_below(records, next)[j],
        forall|id: u64|
            1 <= id < next && records.contains_key(id) ==> #[trigger] ids_below(
                records,
                next,
            ).contains(id),
    decreases next,
{
    if next > 1 {
        let shorter = ids_below(records, (next - 1) as nat);
        let longer = ids_below(records, next);
        lemma_ids_below(records, (next - 1) as nat);
        assert forall|id: u64| 1 <= id < next && records.contains_key(id) implies #[trigger]
            longer.contains(id) by {
            if id < next - 1 {
                assert(shorter.contains(id));
                let i = choose|i: int| 0 <= i < shorter.len() && shorter[i] == id;
                assert(longer[i] == id);
            } else {
                assert(longer[longer.len() - 1] == id);
            }
        }
    }
}

/// The page of identifiers under which there is a record.
fn id_page<V: Record>(records: &Table<u64, V>, next_id: u64, offset: u64, cap: u64) -> (r: Vec<
    u64,
>)
    ensures
        r@ == page(ids_below(records@, next_id as nat), offset as int, cap as int),
{
    let mut ids: Vec<u64> = Vec::new();
    let mut skipped: u64 = 0;
    let mut id: u64 = 1;
    while id < next_id && (ids.len() as u64) < cap
        invariant
            1 <= id,
            id <= next_id || id == 1,
            skipped == crate::math::min_int(
                offset as int,
                ids_below(records@, id as nat).len() as int,
            ),
            ids@ == page(ids_below(records@, id as nat), offset as int, cap as int),
        decreases next_id - id,
    {
        let ghost before = ids_below(records@, id as nat);
        let ghost after = ids_below(records@, (id + 1) as nat);
        if records.contains(&id) {
            assert(after == before.push(id));
            if skipped < offset {
                skipped += 1;
                assert(page(after, offset as int, cap as int) =~= Seq::<u64>::empty());
            } else {
                ids.push(id);
                assert(page(after, offset as int, cap as int) =~= page(
                    before,
                    offset as int,
                    cap as int,
                ).push(id));
            }
        }
        id += 1;
    }
    proof {
        let below = ids_below(records@, id as nat);
        let all = ids_below(records@, next_id as nat);
        if id <= next_id {
            lemma_ids_below_prefix(records@, id as nat, next_id as nat);
        }
        assert(page(below, offset as int, cap as int) =~= page(all, offset as int, cap as int));
    }
    ids
}

impl EnvModel {
    /// All proposals, in ascending order.
    pub open spec fn proposal_ids(self) -> Seq<u64> {
        ids_below(self.proposals.records, self.proposals.next_id as nat)
    }

    /// All recurring payments, in ascending order.
    pub open spec fn recurring_ids(self) -> Seq<u64> {
        ids_below(self.payments.recurring, self.payments.next_recurring_id as nat)
    }
}

/// A page of proposals in ascending order: up to `limit`, and at most 100, after the first
/// `offset`.
pub fn get_proposal_ids_paginated(env: &Env, offset: u64, limit: u64) -> (r: Vec<u64>)
    ensures
        r@ == page(
            env@.proposal_ids(),
            offset as int,
            crate::math::min_int(limit as int, 100),
        ),
{
    let cap: u64 = if limit > 100 {
        100
    } else {
        limit
    };
    id_page(&env.proposals.records, env.proposals.next_id, offset, cap)
}

/// A page of recurring payments in ascending order, by identifier: up to `limit`, and at most
/// 100, after the first `offset`.
pub fn get_recurring_payment_ids_paginated(env: &Env, offset: u64, limit: u64) -> (r: Vec<u64>)
    ensures
        r@ == page(
            env@.recurring_ids(),
            offset as int,
            crate::math::min_int(limit as int, 100),
        ),
{
    let cap: u64 = if limit > 100 {
        100
    } else {
        limit
    };
    id_page(&env.payments.recurring, env.payments.next_recurring_id, offset, cap)
}

/// A page of recurring payments in ascending order: up to `limit`, and at most 50, after the
/// first `offset`.
pub fn get_recurring_payments_paginated(env: &Env, offset: u64, limit: u64) -> (r: Vec<
    RecurringPayment,
>)
    ensures
        r@ == page(
            env@.recurring_ids(),
            offset as int,
            crate::math::min_int(limit as int, 50),
        ).map_values(|id: u64| env@.payments.recurring[id]),
{
    let cap: u64 = if limit > 50 {
        50
    } else {
        limit
    };
    let ids = get_recurring_payment_ids_paginated(env, offset, cap);
    proof {
        lemma_ids_below(env@.payments.recurring, env@.payments.next_recurring_id as nat);
    }
    let mut payments: Vec<RecurringPayment> = Vec::new();
    let mut i: usize = 0;
    while i < ids.len()
        invariant
            i <= ids.len(),
            forall|j: int|
                0 <= j < ids@.len() ==> env@.payments.recurring.contains_key(#[trigger] ids@[j]),
            payments@ =~= ids@.take(i as int).map_values(
                |id: u64| env@.payments.recurring[id],
            ),
        decreases ids.len() - i,
    {
        if let Ok(payment) = get_recurring_payment(env, ids[i]) {
            payments.push(payment);
        }
        i += 1;
    }
    assert(ids@.take(ids@.len() as int) =~= ids@);
    payments
}

} // verus!
