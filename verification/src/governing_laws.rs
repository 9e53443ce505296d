//! What holds of governing a vault: who may change its configuration, roles, lists, permissions and
//! signers, and what such a change is.

use vstd::prelude::*;

use crate::books::{is_admin, ledger_of, listed, moved};
use crate::env::{AccessModel, EnvModel, MembersModel, ProgramsModel, TreasuryModel};
use crate::errors::VaultError;
use crate::primitives::Address;
use crate::types::{
    ConfigModel, Delegation, GasConfig, InitConfigModel, InsuranceConfig, ListMode, Permission,
    PermissionGrant, ProposalModel, ProposalStatus, RecoveryConfigModel, RecoveryProposalModel,
    RecoveryStatus, ReputationConfig, Role, StakingConfig, VotingStrategy,
};

verus! {

broadcast use crate::books::lemma_movements_push;

/// A new vault holds the configuration that it is given, field by field, votes simply, and makes
/// the administrator an admin and nobody else.
pub proof fn law_new_vaults_hold_their_configuration(
    env: EnvModel,
    admin: Address,
    init: InitConfigModel,
)
    requires
        env.initialize(admin, init).1 is Ok,
    ensures
        ({
            let after = env.initialize(admin, init).0;
            let config = after.access.config->0;
            &&& after.access.initialized
            &&& after.access.config is Some
            &&& config.signers == init.signers
            &&& config.threshold == init.threshold
            &&& config.quorum == init.quorum
            &&& config.quorum_percentage == init.quorum_percentage
            &&& config.spending_limit == init.spending_limit
            &&& config.daily_limit == init.daily_limit
            &&& config.weekly_limit == init.weekly_limit
            &&& config.timelock_threshold == init.timelock_threshold
            &&& config.timelock_delay == init.timelock_delay
            &&& config.velocity_limit == init.velocity_limit
            &&& config.threshold_strategy == init.threshold_strategy
            &&& config.pre_execution_hooks == init.pre_execution_hooks
            &&& config.post_execution_hooks == init.post_execution_hooks
            &&& config.default_voting_deadline == init.default_voting_deadline
            &&& config.veto_addresses == init.veto_addresses
            &&& config.retry_config == init.retry_config
            &&& config.recovery_config == init.recovery_config
            &&& config.staking_config == init.staking_config
            &&& after.access.voting_strategy == VotingStrategy::Simple
            &&& after.access.roles == env.access.roles.insert(admin, Role::Admin)
            &&& moved(env, after, seq![])
            &&& after.treasury == env.treasury
        }),
{
    let marked = env.with_config(crate::governance::initial_config(init)).with_voting_strategy(
        VotingStrategy::Simple,
    ).with_role(admin, Role::Admin);
    lemma_tracked(marked, init.signers);
}

/// Tracking roles changes which are tracked, and nothing else.
pub(crate) proof fn lemma_tracked(env: EnvModel, addrs: Seq<Address>)
    ensures
        env.track_roles(addrs) == (EnvModel {
            access: AccessModel {
                role_index: env.track_roles(addrs).access.role_index,
                ..env.access
            },
            ..env
        }),
    decreases addrs.len(),
{
    if addrs.len() > 0 {
        lemma_tracked(env, addrs.drop_last());
    }
}

/// Whether a configuration changed in the way that is given, and funds and books did not.
pub open spec fn reconfigured(before: EnvModel, after: EnvModel, config: ConfigModel) -> bool {
    &&& after.access == (AccessModel { config: Some(config), ..before.access })
    &&& moved(before, after, seq![])
    &&& after.treasury == before.treasury
    &&& after.proposals == before.proposals
    &&& after.members == before.members
}

/// An admin sets the threshold, to at least one and at most all of the signers; the quorum, to at
/// most all of the signers; and the limits, each positive and no larger than the next. Nothing
/// else about the configuration changes.
pub proof fn law_thresholds_and_limits_are_set_by_admins(
    env: EnvModel,
    admin: Address,
    count: u32,
    spending: i128,
    daily: i128,
    weekly: i128,
)
    requires
        env.access.config is Some,
    ensures
        ({
            let config = env.access.config->0;
            let (after, r) = env.update_threshold(admin, count);
            &&& r is Ok <==> is_admin(env, admin) && 1 <= count <= config.signers.len()
            &&& r is Err ==> after == env
            &&& !is_admin(env, admin) ==> r == Err::<(), _>(VaultError::Unauthorized)
            &&& is_admin(env, admin) && count < 1 ==> r == Err::<(), _>(VaultError::ThresholdTooLow)
            &&& is_admin(env, admin) && count >= 1 && count > config.signers.len() ==> r == Err::<
                (),
                _,
            >(VaultError::ThresholdTooHigh)
            &&& r is Ok ==> reconfigured(env, after, ConfigModel { threshold: count, ..config })
        }),
        ({
            let config = env.access.config->0;
            let (after, r) = env.update_quorum(admin, count);
            &&& r is Ok <==> is_admin(env, admin) && count <= config.signers.len()
            &&& r is Err ==> after == env
            &&& !is_admin(env, admin) ==> r == Err::<(), _>(VaultError::Unauthorized)
            &&& is_admin(env, admin) && r is Err ==> r == Err::<(), _>(VaultError::QuorumTooHigh)
            &&& r is Ok ==> reconfigured(env, after, ConfigModel { quorum: count, ..config })
        }),
        ({
            let config = env.access.config->0;
            let (after, r) = env.update_limits(admin, spending, daily, weekly);
            &&& r is Ok <==> is_admin(env, admin) && 0 < spending && spending <= daily && daily
                <= weekly
            &&& r is Err ==> after == env
            &&& !is_admin(env, admin) ==> r == Err::<(), _>(VaultError::Unauthorized)
            &&& is_admin(env, admin) && r is Err ==> r == Err::<(), _>(VaultError::InvalidAmount)
            &&& r is Ok ==> reconfigured(
                env,
                after,
                ConfigModel {
                    spending_limit: spending,
                    daily_limit: daily,
                    weekly_limit: weekly,
                    ..config
                },
            )
        }),
{
}

/// An admin chooses the voting strategy and moves the voting deadline of a pending proposal;
/// nothing else changes.
pub proof fn law_voting_rules_are_set_by_admins(
    env: EnvModel,
    admin: Address,
    strategy: VotingStrategy,
    id: u64,
    deadline: u64,
)
    requires
        env.proposals.records.contains_key(id),
        env.proposals.records[id].id == id,
    ensures
        ({
            let (after, r) = env.update_strategy(admin, strategy);
            &&& r is Ok <==> is_admin(env, admin)
            &&& r is Err ==> after == env && r == Err::<(), _>(VaultError::Unauthorized)
            &&& r is Ok ==> after.access == (AccessModel {
                voting_strategy: strategy,
                ..env.access
            })
        }),
        ({
            let before = env.proposals.records[id];
            let (after, r) = env.extend_deadline(admin, id, deadline);
            let pending = before.status == ProposalStatus::Pending;
            &&& r is Ok <==> is_admin(env, admin) && pending
            &&& r is Err ==> after == env
            &&& !is_admin(env, admin) ==> r == Err::<(), _>(VaultError::Unauthorized)
            &&& is_admin(env, admin) && !pending ==> r == Err::<(), _>(
                VaultError::ProposalNotPending,
            )
            &&& r is Ok ==> {
                let record = after.proposals.records[id];
                &&& after.proposals.records == env.proposals.records.insert(id, record)
                &&& record == (ProposalModel {
                    voting_deadline: deadline,
                    attachments: record.attachments,
                    ..before
                })
            }
        }),
{
}

/// An admin of a vault that was initialized gives an address a role. No other role changes.
pub proof fn law_roles_are_assigned_by_admins(
    env: EnvModel,
    admin: Address,
    target: Address,
    role: Role,
)
    ensures
        ({
            let (after, r) = env.assign_role(admin, target, role);
            &&& r is Ok <==> env.access.initialized && is_admin(env, admin)
            &&& r is Err ==> after == env
            &&& !env.access.initialized ==> r == Err::<(), _>(VaultError::NotInitialized)
            &&& env.access.initialized && !is_admin(env, admin) ==> r == Err::<(), _>(
                VaultError::Unauthorized,
            )
            &&& moved(env, after, seq![])
            &&& r is Ok ==> after.access == (AccessModel {
                roles: env.access.roles.insert(target, role),
                role_index: if env.access.role_index.contains(target) {
                    env.access.role_index
                } else {
                    env.access.role_index.push(target)
                },
                ..env.access
            })
            &&& !env.access.roles.contains_key(target) ==> env.role(target) == Role::Member
        }),
{
}

/// The first place of an item in a list.
proof fn lemma_first_place(list: Seq<Address>, item: Address)
    ensures
        match crate::primitives::first_index(list, item) {
            Some(i) => 0 <= i < list.len() && list[i] == item && forall|j: int|
                0 <= j < i ==> list[j] != item,
            None => !list.contains(item),
        },
    decreases list.len(),
{
    if list.len() > 0 && list[0] != item {
        let rest = list.skip(1);
        lemma_first_place(rest, item);
        match crate::primitives::first_index(rest, item) {
            Some(i) => {
                assert forall|j: int| 0 <= j < i + 1 implies list[j] != item by {
                    if j > 0 {
                        assert(rest[j - 1] == list[j]);
                    }
                }
            },
            None => {
                if list.contains(item) {
                    let j = choose|j: int| 0 <= j < list.len() && list[j] == item;
                    assert(rest[j - 1] == item);
                }
            },
        }
    }
}

/// Whether one occurrence of an item left a list, and all others stayed in their order.
pub open spec fn left_list(before: Seq<Address>, after: Seq<Address>, item: Address) -> bool {
    exists|i: int|
        0 <= i < before.len() && before[i] == item && after == #[trigger] before.remove(i)
}

/// An admin removes a signer, where as many signers as the threshold remain; all others stay, and
/// nothing else about the configuration changes.
pub proof fn law_signers_are_removed_down_to_the_threshold(
    env: EnvModel,
    admin: Address,
    signer: Address,
)
    requires
        env.access.config is Some,
    ensures
        ({
            let config = env.access.config->0;
            let (after, r) = env.remove_signer(admin, signer);
            let known = config.signers.contains(signer);
            let enough = config.signers.len() - 1 >= config.threshold;
            let signers = after.access.config->0.signers;
            &&& r is Ok <==> is_admin(env, admin) && known && enough
            &&& r is Err ==> after == env
            &&& !is_admin(env, admin) ==> r == Err::<(), _>(VaultError::Unauthorized)
            &&& is_admin(env, admin) && !known ==> r == Err::<(), _>(VaultError::SignerNotFound)
            &&& is_admin(env, admin) && known && !enough ==> r == Err::<(), _>(
                VaultError::CannotRemoveSigner,
            )
            &&& r is Ok ==> {
                &&& left_list(config.signers, signers, signer)
                &&& reconfigured(env, after, ConfigModel { signers, ..config })
            }
        }),
{
    let config = env.access.config->0;
    lemma_first_place(config.signers, signer);
    if let Some(i) = crate::primitives::first_index(config.signers, signer) {
        assert(config.signers[i] == signer);
        let removed = config.signers.remove(i);
    }
}

/// An admin lets an address veto, once, and takes that away again. No other address is affected.
pub proof fn law_veto_addresses_are_kept_by_admins(env: EnvModel, admin: Address, addr: Address)
    requires
        env.access.config is Some,
    ensures
        ({
            let config = env.access.config->0;
            let known = config.veto_addresses.contains(addr);
            let (after, r) = env.add_veto(admin, addr);
            &&& r is Ok <==> is_admin(env, admin) && !known
            &&& r is Err ==> after == env
            &&& !is_admin(env, admin) ==> r == Err::<(), _>(VaultError::InsufficientRole)
            &&& is_admin(env, admin) && known ==> r == Err::<(), _>(
                VaultError::AddressAlreadyOnList,
            )
            &&& r is Ok ==> reconfigured(
                env,
                after,
                ConfigModel { veto_addresses: config.veto_addresses.push(addr), ..config },
            )
        }),
        ({
            let config = env.access.config->0;
            let known = config.veto_addresses.contains(addr);
            let (after, r) = env.remove_veto(admin, addr);
            let vetoes = after.access.config->0.veto_addresses;
            &&& r is Ok <==> is_admin(env, admin) && known
            &&& r is Err ==> after == env
            &&& !is_admin(env, admin) ==> r == Err::<(), _>(VaultError::InsufficientRole)
            &&& is_admin(env, admin) && !known ==> r == Err::<(), _>(VaultError::AddressNotOnList)
            &&& r is Ok ==> {
                &&& vetoes =~= config.veto_addresses.filter(|x: Address| x != addr)
                &&& reconfigured(env, after, ConfigModel { veto_addresses: vetoes, ..config })
            }
        }),
{
    lemma_others_stay(env.access.config->0.veto_addresses, addr);
}

/// Taking an item out of a list keeps the others.
proof fn lemma_others_stay(list: Seq<Address>, item: Address)
    ensures
        crate::primitives::without(list, item) =~= list.filter(|x: Address| x != item),
    decreases list.len(),
{
    reveal(Seq::filter);
    if list.len() > 0 {
        lemma_others_stay(list.drop_last(), item);
    }
}

/// An admin registers a hook before or after executions, once each, and removes it again.
pub proof fn law_hooks_are_kept_by_admins(env: EnvModel, admin: Address, hook: Address)
    requires
        env.access.config is Some,
    ensures
        ({
            let config = env.access.config->0;
            let hooks = config.pre_execution_hooks;
            let (added, p) = env.add_pre_hook(admin, hook);
            let (dropped, q) = env.drop_pre_hook(admin, hook);
            let left = dropped.access.config->0.pre_execution_hooks;
            &&& p is Ok <==> is_admin(env, admin) && !hooks.contains(hook)
            &&& q is Ok <==> is_admin(env, admin) && hooks.contains(hook)
            &&& p is Err ==> added == env
            &&& q is Err ==> dropped == env
            &&& p is Ok ==> reconfigured(
                env,
                added,
                ConfigModel { pre_execution_hooks: hooks.push(hook), ..config },
            )
            &&& q is Ok ==> left_list(hooks, left, hook) && reconfigured(
                env,
                dropped,
                ConfigModel { pre_execution_hooks: left, ..config },
            )
        }),
        ({
            let config = env.access.config->0;
            let hooks = config.post_execution_hooks;
            let (added, p) = env.add_post_hook(admin, hook);
            let (dropped, q) = env.drop_post_hook(admin, hook);
            let left = dropped.access.config->0.post_execution_hooks;
            &&& p is Ok <==> is_admin(env, admin) && !hooks.contains(hook)
            &&& q is Ok <==> is_admin(env, admin) && hooks.contains(hook)
            &&& p is Err ==> added == env
            &&& q is Err ==> dropped == env
            &&& p is Ok ==> reconfigured(
                env,
                added,
                ConfigModel { post_execution_hooks: hooks.push(hook), ..config },
            )
            &&& q is Ok ==> left_list(hooks, left, hook) && reconfigured(
                env,
                dropped,
                ConfigModel { post_execution_hooks: left, ..config },
            )
        }),
{
    let config = env.access.config->0;
    lemma_first_place(config.pre_execution_hooks, hook);
    lemma_first_place(config.post_execution_hooks, hook);
    if let Some(i) = crate::primitives::first_index(config.pre_execution_hooks, hook) {
        assert(config.pre_execution_hooks[i] == hook);
        let removed = config.pre_execution_hooks.remove(i);
    }
    if let Some(i) = crate::primitives::first_index(config.post_execution_hooks, hook) {
        assert(config.post_execution_hooks[i] == hook);
        let removed = config.post_execution_hooks.remove(i);
    }
}

/// An admin sets the rules for insurance, stakes, cost and the decay of reputation, each as given
/// and without an effect on anything else that is stored.
pub proof fn law_rules_are_set_by_admins(
    env: EnvModel,
    admin: Address,
    insurance: InsuranceConfig,
    staking: StakingConfig,
    gas: GasConfig,
    reputation: ReputationConfig,
)
    ensures
        ({
            let (after, r) = env.change_insurance(admin, insurance);
            &&& r is Ok <==> is_admin(env, admin)
            &&& r is Err ==> after == env && r == Err::<(), _>(VaultError::Unauthorized)
            &&& r is Ok ==> after.treasury == (TreasuryModel {
                insurance_config: insurance,
                ..env.treasury
            })
            &&& moved(env, after, seq![])
        }),
        ({
            let (after, r) = env.update_staking(admin, staking);
            &&& r is Ok <==> is_admin(env, admin)
            &&& r is Err ==> after == env && r == Err::<(), _>(VaultError::Unauthorized)
            &&& r is Ok ==> after.treasury == (TreasuryModel {
                staking_config: staking,
                ..env.treasury
            })
            &&& moved(env, after, seq![])
        }),
        ({
            let (after, r) = env.change_gas(admin, gas);
            &&& r is Ok <==> is_admin(env, admin)
            &&& r is Err ==> after == env && r == Err::<(), _>(VaultError::Unauthorized)
            &&& r is Ok ==> after.treasury == (TreasuryModel { gas_config: gas, ..env.treasury })
            &&& moved(env, after, seq![])
        }),
        ({
            let (after, r) = env.change_reputation_config(admin, reputation);
            &&& r is Ok <==> is_admin(env, admin)
            &&& r is Err ==> after == env && r == Err::<(), _>(VaultError::Unauthorized)
            &&& r is Ok ==> after.members == (MembersModel {
                reputation_config: reputation,
                ..env.members
            })
            &&& moved(env, after, seq![])
        }),
{
}

/// Whether an address is on a list.
pub open spec fn on_list(list: Map<Address, bool>, addr: Address) -> bool {
    list.contains_key(addr) && list[addr]
}

/// An admin keeps the lists of recipients: an address is put on a list where it is not on it, and
/// taken off where it is. No other address is affected. The mode in use is set by an admin too.
pub proof fn law_recipient_lists_are_kept_by_admins(
    env: EnvModel,
    admin: Address,
    addr: Address,
    other: Address,
    mode: ListMode,
)
    requires
        other != addr,
    ensures
        ({
            let (after, r) = env.change_list_mode(admin, mode);
            &&& r is Ok <==> is_admin(env, admin)
            &&& r is Err ==> after == env && r == Err::<(), _>(VaultError::Unauthorized)
            &&& r is Ok ==> after.access == (AccessModel { list_mode: mode, ..env.access })
        }),
        ({
            let list = env.access.whitelist;
            let (added, p) = env.allow(admin, addr);
            let (dropped, q) = env.disallow(admin, addr);
            &&& p is Ok <==> is_admin(env, admin) && !on_list(list, addr)
            &&& q is Ok <==> is_admin(env, admin) && on_list(list, addr)
            &&& p is Err ==> added == env
            &&& q is Err ==> dropped == env
            &&& p is Ok ==> on_list(added.access.whitelist, addr)
            &&& q is Ok ==> !on_list(dropped.access.whitelist, addr)
            &&& on_list(added.access.whitelist, other) == on_list(list, other)
            &&& on_list(dropped.access.whitelist, other) == on_list(list, other)
            &&& added.access.blacklist == env.access.blacklist
            &&& dropped.access.blacklist == env.access.blacklist
            &&& added.access.list_mode == env.access.list_mode
            &&& dropped.access.list_mode == env.access.list_mode
        }),
        ({
            let list = env.access.blacklist;
            let (added, p) = env.block(admin, addr);
            let (dropped, q) = env.unblock(admin, addr);
            &&& p is Ok <==> is_admin(env, admin) && !on_list(list, addr)
            &&& q is Ok <==> is_admin(env, admin) && on_list(list, addr)
            &&& p is Err ==> added == env
            &&& q is Err ==> dropped == env
            &&& p is Ok ==> on_list(added.access.blacklist, addr)
            &&& q is Ok ==> !on_list(dropped.access.blacklist, addr)
            &&& on_list(added.access.blacklist, other) == on_list(list, other)
            &&& on_list(dropped.access.blacklist, other) == on_list(list, other)
            &&& added.access.whitelist == env.access.whitelist
            &&& dropped.access.whitelist == env.access.whitelist
            &&& added.access.list_mode == env.access.list_mode
            &&& dropped.access.list_mode == env.access.list_mode
        }),
{
}

/// A recipient is refused exactly where the list in use refuses it, with the error of that list.
pub proof fn law_recipients_pass_the_list_in_use(env: EnvModel, recipient: Address)
    ensures
        env.recipient_refusal(recipient) is None <==> crate::books::may_receive(env, recipient),
        env.access.list_mode == ListMode::Whitelist && env.recipient_refusal(recipient) is Some
            ==> env.recipient_refusal(recipient) == Some(VaultError::RecipientNotWhitelisted),
        env.access.list_mode == ListMode::Blacklist && env.recipient_refusal(recipient) is Some
            ==> env.recipient_refusal(recipient) == Some(VaultError::RecipientBlacklisted),
{
}

/// Guardians recover a vault. One of them proposes new signers and a threshold that they can
/// reach; each approves once; with as many approvals as the rules ask for, the recovery can be
/// executed after the delay.
pub proof fn law_recoveries_are_decided_by_guardians(
    env: EnvModel,
    caller: Address,
    signers: Seq<Address>,
    threshold: u32,
    id: u64,
)
    requires
        env.access.config is Some,
        env.programs.next_recovery_id < u64::MAX,
        env.programs.recovery_proposals.contains_key(id),
        env.programs.recovery_proposals[id].id == id,
        env.ledger.sequence + env.access.config->0.recovery_config.delay <= u64::MAX,
    ensures
        ({
            let rules = env.access.config->0.recovery_config;
            let (after, r) = env.initiate_recovery(caller, signers, threshold);
            let guardian = rules.guardians.contains(caller);
            let next = env.programs.next_recovery_id;
            &&& r is Ok <==> guardian && signers.len() > 0 && 1 <= threshold <= signers.len()
            &&& r is Err ==> after == env
            &&& !guardian ==> r == Err::<u64, _>(VaultError::Unauthorized)
            &&& r is Ok ==> r == Ok::<u64, VaultError>(next) && after.access == env.access
                && after.programs == (ProgramsModel {
                next_recovery_id: (next + 1) as u64,
                recovery_proposals: env.programs.recovery_proposals.insert(
                    next,
                    RecoveryProposalModel {
                        id: next,
                        new_signers: signers,
                        new_threshold: threshold,
                        approvals: seq![],
                        status: RecoveryStatus::Pending,
                        created_at: env.ledger.sequence as u64,
                        execution_after: 0,
                    },
                ),
                ..env.programs
            })
        }),
        ({
            let rules = env.access.config->0.recovery_config;
            let before = env.programs.recovery_proposals[id];
            let (after, r) = env.approve_recovery(caller, id);
            let guardian = rules.guardians.contains(caller);
            let pending = before.status == RecoveryStatus::Pending;
            let approved = before.approvals.contains(caller);
            let enough = before.approvals.len() + 1 >= rules.threshold;
            &&& r is Ok <==> guardian && pending && !approved
            &&& r is Err ==> after == env
            &&& !guardian ==> r == Err::<(), _>(VaultError::Unauthorized)
            &&& guardian && !pending ==> r == Err::<(), _>(VaultError::ProposalNotPending)
            &&& guardian && pending && approved ==> r == Err::<(), _>(VaultError::AlreadyApproved)
            &&& r is Ok ==> after.access == env.access && after.programs == (ProgramsModel {
                recovery_proposals: env.programs.recovery_proposals.insert(
                    id,
                    RecoveryProposalModel {
                        approvals: before.approvals.push(caller),
                        status: if enough {
                            RecoveryStatus::Approved
                        } else {
                            RecoveryStatus::Pending
                        },
                        execution_after: if enough {
                            (env.ledger.sequence + rules.delay) as u64
                        } else {
                            before.execution_after
                        },
                        ..before
                    },
                ),
                ..env.programs
            })
        }),
{
}

/// An approved recovery is executed once its delay has passed: the vault gets the new signers and
/// the new threshold, and a quorum that they can reach. An admin may cancel it before.
pub proof fn law_recoveries_replace_the_signers(
    env: EnvModel,
    admin: Address,
    id: u64,
    rules: RecoveryConfigModel,
)
    requires
        env.access.config is Some,
        env.programs.recovery_proposals.contains_key(id),
        env.programs.recovery_proposals[id].id == id,
        env.programs.recovery_proposals[id].new_signers.len() <= u32::MAX,
    ensures
        ({
            let before = env.programs.recovery_proposals[id];
            let config = env.access.config->0;
            let (after, r) = env.execute_recovery(id);
            let approved = before.status == RecoveryStatus::Approved;
            let waited = ledger_of(env) >= before.execution_after;
            &&& r is Ok <==> approved && waited
            &&& r is Err ==> after == env
            &&& !approved ==> r == Err::<(), _>(VaultError::ProposalNotApproved)
            &&& approved && !waited ==> r == Err::<(), _>(VaultError::TimelockNotExpired)
            &&& moved(env, after, seq![])
            &&& r is Ok ==> {
                &&& after.access == (AccessModel {
                    config: Some(
                        ConfigModel {
                            signers: before.new_signers,
                            threshold: before.new_threshold,
                            quorum: if config.quorum > before.new_signers.len() {
                                before.new_signers.len() as u32
                            } else {
                                config.quorum
                            },
                            ..config
                        },
                    ),
                    ..env.access
                })
                &&& after.programs == (ProgramsModel {
                    recovery_proposals: env.programs.recovery_proposals.insert(
                        id,
                        RecoveryProposalModel { status: RecoveryStatus::Executed, ..before },
                    ),
                    ..env.programs
                })
            }
        }),
        ({
            let before = env.programs.recovery_proposals[id];
            let (after, r) = env.cancel_recovery(admin, id);
            let open = before.status == RecoveryStatus::Pending || before.status
                == RecoveryStatus::Approved;
            &&& r is Ok <==> is_admin(env, admin) && open
            &&& r is Err ==> after == env
            &&& !is_admin(env, admin) ==> r == Err::<(), _>(VaultError::InsufficientRole)
            &&& is_admin(env, admin) && !open ==> r == Err::<(), _>(VaultError::ProposalNotPending)
            &&& r is Ok ==> after.access == env.access && after.programs == (ProgramsModel {
                recovery_proposals: env.programs.recovery_proposals.insert(
                    id,
                    RecoveryProposalModel { status: RecoveryStatus::Cancelled, ..before },
                ),
                ..env.programs
            })
        }),
        ({
            let (after, r) = env.change_recovery_config(admin, rules);
            &&& r is Ok <==> is_admin(env, admin)
            &&& r is Err ==> after == env && r == Err::<(), _>(VaultError::InsufficientRole)
            &&& r is Ok ==> reconfigured(
                env,
                after,
                ConfigModel { recovery_config: rules, ..env.access.config->0 },
            )
        }),
{
}

/// A signer delegates its vote to another signer, where that closes no circle; the delegation is
/// in force at once, and replaces the one before. A delegation is revoked by the one who made it.
pub proof fn law_votes_are_delegated_between_signers(
    env: EnvModel,
    delegator: Address,
    delegate: Address,
    expiry: u64,
)
    requires
        env.access.config is Some,
        env.members.next_delegation_id < u64::MAX,
    ensures
        ({
            let config = env.access.config->0;
            let (after, r) = env.delegate(delegator, delegate, expiry);
            &&& r is Ok ==> delegator != delegate && config.signers.contains(delegator)
                && config.signers.contains(delegate)
            &&& r is Err ==> after == env
            &&& delegator == delegate ==> r == Err::<(), _>(VaultError::InvalidAmount)
            &&& delegator != delegate && !(config.signers.contains(delegator)
                && config.signers.contains(delegate)) ==> r == Err::<(), _>(VaultError::NotASigner)
            &&& delegator != delegate && config.signers.contains(delegator)
                && config.signers.contains(delegate) && !env.members.delegations.contains_key(
                delegate,
            ) ==> r is Ok
            &&& r is Ok ==> {
                &&& after.members.delegations == env.members.delegations.insert(
                    delegator,
                    Delegation {
                        delegator,
                        delegate,
                        created_at: env.ledger.sequence as u64,
                        expiry_ledger: expiry,
                        is_active: true,
                    },
                )
                &&& moved(env, after, seq![])
                &&& after.proposals == env.proposals
                &&& after.access == env.access
            }
        }),
        ({
            let (after, r) = env.revoke(delegator);
            &&& r is Ok <==> env.members.delegations.contains_key(delegator)
            &&& r is Err ==> after == env && r == Err::<(), _>(VaultError::ProposalNotFound)
            &&& r is Ok ==> after.members.delegations == env.members.delegations.remove(delegator)
        }),
{
}

/// Admins hold every permission; treasurers those that do not concern roles or configuration;
/// members may look at metrics. A grant adds to that until it expires, and a delegation by a
/// signer before it expires.
pub proof fn law_permissions_come_from_roles_and_grants(
    env: EnvModel,
    addr: Address,
    permission: Permission,
)
    requires
        listed(env.access.permissions, addr).len() == 0,
        env.access.config matches Some(config) ==> forall|i: int|
            0 <= i < config.signers.len() ==> !env.access.delegated_permissions.contains_key(
                crate::primitives::GrantKey {
                    delegatee: addr,
                    delegator: #[trigger] config.signers[i],
                    permission: permission.spec_code(),
                },
            ),
    ensures
        env.holds_permission(addr, permission) <==> {
            ||| is_admin(env, addr)
            ||| crate::books::is_treasurer(env, addr) && permission != Permission::ManageRoles
                && permission != Permission::ManageConfig
            ||| permission == Permission::ViewMetrics
        },
{
    assert(env.permissions(addr).len() == 0);
    if let Some(config) = env.access.config {
        assert forall|i: int| 0 <= i < config.signers.len() implies !env.delegation_holds(
            addr,
            #[trigger] config.signers[i],
            permission,
        ) by {
            assert(!env.access.delegated_permissions.contains_key(
                crate::primitives::GrantKey {
                    delegatee: addr,
                    delegator: config.signers[i],
                    permission: permission.spec_code(),
                },
            ));
        }
    }
}

/// An admin of a vault that was initialized grants and revokes permissions; others cannot. Whoever
/// does not hold a permission cannot delegate it.
pub proof fn law_permissions_are_granted_by_admins(
    env: EnvModel,
    caller: Address,
    target: Address,
    permission: Permission,
    expires_at: Option<u64>,
    expiry: u64,
)
    ensures
        ({
            let (after, r) = env.grant_permission(caller, target, permission, expires_at);
            &&& r is Ok <==> env.access.initialized && is_admin(env, caller)
            &&& r is Err ==> after == env
            &&& r is Ok ==> exists|i: int|
                0 <= i < after.access.permissions[target].len() && (
                #[trigger] after.access.permissions[target][i]) == (PermissionGrant {
                    permission,
                    granted_by: caller,
                    granted_at: env.ledger.sequence as u64,
                    expires_at,
                })
            &&& forall|other: Address|
                other != target ==> #[trigger] listed(after.access.permissions, other) == listed(
                    env.access.permissions,
                    other,
                )
            &&& after.access.roles == env.access.roles
        }),
        ({
            let (after, r) = env.revoke_permission(caller, target, permission);
            &&& r is Ok ==> env.access.initialized && is_admin(env, caller)
            &&& r is Err ==> after == env
            &&& after.access.roles == env.access.roles
        }),
        ({
            let (after, r) = env.delegate_permission(caller, target, permission, expiry);
            &&& r is Ok ==> env.access.initialized && env.holds_permission(caller, permission)
            &&& r is Err ==> after == env
            &&& r is Ok ==> {
                let key = crate::primitives::GrantKey {
                    delegatee: target,
                    delegator: caller,
                    permission: permission.spec_code(),
                };
                let delegated = after.access.delegated_permissions[key];
                &&& after.access.delegated_permissions
                    == env.access.delegated_permissions.insert(key, delegated)
                &&& delegated.expires_at == expiry
                &&& delegated.permission == permission
            }
        }),
{
    let grant = PermissionGrant {
        permission,
        granted_by: caller,
        granted_at: env.ledger.sequence as u64,
        expires_at,
    };
    let grants = env.permissions(target);
    lemma_granted(grants, grant);
    let granted = crate::permissions::with_grant(grants, grant);
    let i = choose|i: int| 0 <= i < granted.len() && granted[i] == grant;
    if env.access.initialized && is_admin(env, caller) {
        let after = env.grant_permission(caller, target, permission, expires_at).0;
        assert(after.access.permissions[target] == granted);
        assert(after.access.permissions[target][i] == grant);
    }
}

/// A grant is among the grants that it was added to.
proof fn lemma_granted(grants: Seq<PermissionGrant>, grant: PermissionGrant)
    ensures
        exists|i: int|
            0 <= i < crate::permissions::with_grant(grants, grant).len()
                && crate::permissions::with_grant(grants, grant)[i] == grant,
    decreases grants.len(),
{
    let granted = crate::permissions::with_grant(grants, grant);
    if grants.len() == 0 {
        assert(granted[0] == grant);
    } else if crate::permissions::grants_mention(grants.drop_last(), grant.permission) {
        let rest = grants.drop_last();
        lemma_granted(rest, grant);
        let before = crate::permissions::with_grant(rest, grant);
        let i = choose|i: int| 0 <= i < before.len() && before[i] == grant;
        assert(granted[i] == grant);
    } else {
        assert(granted[granted.len() - 1] == grant);
    }
}

} // verus!
