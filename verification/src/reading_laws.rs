//! What holds of what is read from a vault: it is what was stored, and what is said when nothing
//! was.

use vstd::prelude::*;

use crate::books::{is_admin, kept, least, ledger_of, listed};
use crate::env::EnvModel;
use crate::errors::VaultError;
use crate::primitives::{Address, Symbol, VolumeKey};
use crate::types::{Comment, Permission, ProposalModel, ProposalStatus, Role, RoleAssignment};

verus! {

/// The amount under a key is what was stored, and zero where nothing was. A day has 86400 seconds
/// and a week seven days, both counted from the first second.
pub proof fn law_amounts_are_read_as_stored(
    env: EnvModel,
    day: u64,
    week: u64,
    token: Address,
    user: Address,
)
    ensures
        env.day_number() == env.ledger.timestamp / 86_400,
        env.week_number() == env.ledger.timestamp / 604_800,
        env.now() == env.ledger.sequence,
        env.daily_spent(day) == kept(env.treasury.daily_spent, day),
        env.weekly_spent(week) == kept(env.treasury.weekly_spent, week),
        env.insurance_pool(token) == kept(env.treasury.insurance_pool, token),
        env.stake_pool(token) == kept(env.treasury.stake_pool, token),
        env.fees_collected(token) == kept(env.treasury.fees_collected, token),
        env.user_volume(user, token) == kept(env.treasury.user_volume, VolumeKey { user, token }),
{
}

/// Whether a lookup gives what is stored under a key, or the given error where nothing is.
pub open spec fn looked_up<K, V>(
    records: Map<K, V>,
    key: K,
    answer: Result<V, VaultError>,
    missing: VaultError,
) -> bool {
    if records.contains_key(key) {
        answer == Ok::<V, VaultError>(records[key])
    } else {
        answer == Err::<V, VaultError>(missing)
    }
}

/// Whether a lookup gives what is stored under a key, if anything is.
pub open spec fn found<K, V>(records: Map<K, V>, key: K, answer: Option<V>) -> bool {
    if records.contains_key(key) {
        answer == Some(records[key])
    } else {
        answer is None
    }
}

/// A record is read as it was stored, and refused where there is none.
pub proof fn law_records_are_read_as_stored(env: EnvModel, id: u64, addr: Address, name: Symbol)
    ensures
        looked_up(
            env.payments.recurring,
            id,
            env.recurring(id),
            VaultError::ProposalNotFound,
        ),
        looked_up(env.payments.streams, id, env.stream(id), VaultError::ProposalNotFound),
        looked_up(env.payments.escrows, id, env.escrow(id), VaultError::ProposalNotFound),
        looked_up(
            env.payments.subscriptions,
            id,
            env.subscription(id),
            VaultError::SubscriptionNotFound,
        ),
        looked_up(env.programs.templates, id, env.template(id), VaultError::TemplateNotFound),
        looked_up(
            env.programs.funding_rounds,
            id,
            env.funding_round(id),
            VaultError::ProposalNotFound,
        ),
        looked_up(env.programs.batches, id, env.batch(id), VaultError::ProposalNotFound),
        looked_up(
            env.programs.batch_results,
            id,
            env.batch_result(id),
            VaultError::ProposalNotFound,
        ),
        looked_up(
            env.programs.proposal_batches,
            id,
            env.proposal_batch(id),
            VaultError::ProposalNotFound,
        ),
        looked_up(
            env.programs.recovery_proposals,
            id,
            env.recovery_proposal(id),
            VaultError::ProposalNotFound,
        ),
        looked_up(env.programs.disputes, id, env.dispute(id), VaultError::ProposalNotFound),
        looked_up(env.proposals.comments, id, env.comment(id), VaultError::ProposalNotFound),
        looked_up(
            env.proposals.cancellations,
            id,
            env.cancellation(id),
            VaultError::ProposalNotFound,
        ),
        looked_up(env.audit.entries, id, env.audit_entry(id), VaultError::ProposalNotFound),
        found(env.members.token_locks, addr, env.token_lock(addr)),
        found(env.members.delegations, addr, env.delegation(addr)),
        found(env.programs.template_names, name, env.template_id(name)),
        found(env.links.swap_results, id, env.swap_result(id)),
        found(env.links.swap_proposals, id, env.swap(id)),
        found(env.links.cross_vault_proposals, id, env.cross_vault_proposal(id)),
        found(env.links.cross_chain_proposals, id, env.cross_chain_proposal(id)),
        found(env.proposals.retries, id, env.retry_state(id)),
        found(env.proposals.fee_estimates, id, env.fee_estimate(id)),
        found(env.treasury.stake_records, id, env.stake_record(id)),
        found(env.proposals.snapshots, id, env.snapshot(id)),
{
}

/// A proposal is read as it was stored, with its attachments.
pub proof fn law_proposals_are_read_as_stored(env: EnvModel, id: u64)
    ensures
        ({
            let r = env.proposal(id);
            &&& r is Ok <==> env.proposals.records.contains_key(id)
            &&& r is Err ==> r == Err::<ProposalModel, _>(VaultError::ProposalNotFound)
            &&& r is Ok ==> r->Ok_0 == (ProposalModel {
                attachments: listed(env.proposals.attachments, id),
                ..env.proposals.records[id]
            })
        }),
{
}

/// A list is read as it was stored, and empty where nothing was.
pub proof fn law_lists_are_read_as_stored(env: EnvModel, id: u64, code: u32, addr: Address)
    ensures
        env.priority_queue(code) == listed(env.proposals.queues, code),
        env.attachments(id) == listed(env.proposals.attachments, id),
        env.comment_ids(id) == listed(env.proposals.proposal_comments, id),
        env.amendment_history(id) == listed(env.proposals.amendments, id),
        env.cancellation_history() == env.proposals.cancellation_history,
        env.permissions(addr) == listed(env.access.permissions, addr),
        env.funder_escrows(addr) == listed(env.payments.funder_escrows, addr),
        env.recipient_escrows(addr) == listed(env.payments.recipient_escrows, addr),
        env.subscriber_index(addr) == listed(env.payments.subscriber_index, addr),
        env.proposal_disputes(id) == listed(env.programs.proposal_disputes, id),
        env.proposal_funding_rounds(id) == listed(env.programs.proposal_funding_rounds, id),
        env.delegators_for(addr) == listed(env.members.delegators, addr),
        env.delegation_history(addr) == listed(env.members.delegation_history, addr),
        env.velocity_history(addr) == listed(env.treasury.velocity, addr),
        env.rollback_state(id) == listed(env.programs.batch_rollbacks, id),
{
}

/// Rules are read as they were stored. An address has the role that it was given, and is a member
/// where it was given none; each address that is tracked is listed with its role.
pub proof fn law_rules_and_roles_are_read_as_stored(env: EnvModel, addr: Address)
    ensures
        env.is_initialized() == env.access.initialized,
        env.config() == match env.access.config {
            Some(config) => Ok::<_, VaultError>(config),
            None => Err(VaultError::NotInitialized),
        },
        env.voting_strategy() == env.access.voting_strategy,
        env.list_mode() == env.access.list_mode,
        env.insurance_config() == env.treasury.insurance_config,
        env.staking_config() == env.treasury.staking_config,
        env.gas_config() == env.treasury.gas_config,
        env.metrics() == env.treasury.metrics,
        env.reputation_config() == env.members.reputation_config,
        env.time_weighted() == env.members.time_weighted,
        env.dex_config() == env.links.dex_config,
        env.oracle_config() == env.links.oracle_config,
        env.cross_vault_config() == env.links.cross_vault_config,
        env.bridge_config() == env.links.bridge_config,
        env.funding_round_config() == env.programs.funding_round_config,
        env.role(addr) == if env.access.roles.contains_key(addr) {
            env.access.roles[addr]
        } else {
            Role::Member
        },
        env.role_assignments().len() == env.access.role_index.len(),
        forall|i: int|
            0 <= i < env.access.role_index.len() ==> #[trigger] env.role_assignments()[i] == (
            RoleAssignment {
                addr: env.access.role_index[i],
                role: if env.access.roles.contains_key(env.access.role_index[i]) {
                    env.access.roles[env.access.role_index[i]]
                } else {
                    Role::Member
                },
            }),
{
}

/// A proposal is listed as executable exactly when it is approved, has not expired, is not locked
/// and waits for no other.
pub proof fn law_executable_proposals_are_ready(env: EnvModel, id: u64)
    ensures
        ({
            let proposal = env.proposals.records[id];
            env.executable(id) <==> {
                &&& env.proposals.records.contains_key(id)
                &&& proposal.status == ProposalStatus::Approved
                &&& ledger_of(env) <= proposal.expires_at
                &&& proposal.unlock_ledger == 0 || ledger_of(env) >= proposal.unlock_ledger
                &&& crate::dependencies::waits(
                    env.proposals.records,
                    proposal.id,
                    proposal.depends_on,
                ) is None
            }
        }),
{
}

/// The voting power of an address is that of its lock, decayed where the rules say so, and one at
/// least; it is one where locks do not count or there is none.
pub proof fn law_voting_power_comes_from_locks(env: EnvModel, addr: Address)
    ensures
        ({
            let rules = env.members.time_weighted;
            let locks = env.members.token_locks;
            let power = env.voting_power(addr);
            &&& power >= 1
            &&& !rules.enabled || !locks.contains_key(addr) ==> power == 1
            &&& rules.enabled && locks.contains_key(addr) && rules.apply_decay ==> power
                == crate::books::most(
                locks[addr].decayed_power(env.ledger.sequence as u64) as int,
                1,
            )
            &&& rules.enabled && locks.contains_key(addr) && !rules.apply_decay ==> power
                == crate::books::most(locks[addr].full_power() as int, 1)
        }),
{
}

/// A proposal has a tag exactly when it was given it. An admin or the proposer takes one off, once;
/// the others stay in their order.
pub proof fn law_tags_are_taken_off(env: EnvModel, caller: Address, id: u64, tag: Symbol)
    requires
        env.proposals.records.contains_key(id),
        env.proposals.records[id].id == id,
    ensures
        ({
            let before = env.proposals.records[id];
            let (after, r) = env.untag(caller, id, tag);
            let entitled = caller == before.proposer || is_admin(env, caller);
            &&& env.has_tag(id, tag) <==> before.tags.contains(tag)
            &&& r is Ok <==> entitled && before.tags.contains(tag)
            &&& r is Err ==> after == env
            &&& !entitled ==> r == Err::<(), _>(VaultError::Unauthorized)
            &&& entitled && !before.tags.contains(tag) ==> r == Err::<(), _>(
                VaultError::ProposalNotFound,
            )
            &&& r is Ok ==> {
                let record = after.proposals.records[id];
                &&& after.proposals.records == env.proposals.records.insert(id, record)
                &&& record == (ProposalModel {
                    tags: record.tags,
                    attachments: record.attachments,
                    ..before
                })
                &&& exists|i: int|
                    0 <= i < before.tags.len() && before.tags[i] == tag && record.tags
                        == #[trigger] before.tags.remove(i)
            }
        }),
{
    let tags = env.proposals.records[id].tags;
    lemma_first_tag(tags, tag);
    if let Some(i) = crate::primitives::first_index(tags, tag) {
        assert(tags[i] == tag);
        let removed = tags.remove(i);
    }
}

/// The first place of a tag in a list.
proof fn lemma_first_tag(list: Seq<Symbol>, item: Symbol)
    ensures
        match crate::primitives::first_index(list, item) {
            Some(i) => 0 <= i < list.len() && list[i] == item,
            None => !list.contains(item),
        },
    decreases list.len(),
{
    if list.len() > 0 && list[0] != item {
        let rest = list.skip(1);
        lemma_first_tag(rest, item);
        match crate::primitives::first_index(rest, item) {
            Some(i) => {
                assert(rest[i] == list[i + 1]);
            },
            None => {
                if list.contains(item) {
                    let j = choose|j: int| 0 <= j < list.len() && list[j] == item;
                    assert(rest[j - 1] == item);
                }
            },
        }
    }
}

/// A permission is checked in a vault that was initialized: one that is held passes, one whose
/// grant has lapsed is told apart from one that was never given.
pub proof fn law_permissions_are_checked(env: EnvModel, addr: Address, permission: Permission)
    ensures
        ({
            let r = env.permission_check(addr, permission);
            let grants = listed(env.access.permissions, addr);
            let lapsed = exists|i: int|
                0 <= i < grants.len() && (#[trigger] grants[i]).permission == permission
                    && grants[i].expires_at is Some && ledger_of(env) > grants[i].expires_at->0;
            &&& r is Ok <==> env.access.initialized && env.holds_permission(addr, permission)
            &&& !env.access.initialized ==> r == Err::<(), _>(VaultError::NotInitialized)
            &&& env.access.initialized && !env.holds_permission(addr, permission) && lapsed ==> r
                == Err::<(), _>(VaultError::ProposalExpired)
            &&& env.access.initialized && !env.holds_permission(addr, permission) && !lapsed ==> r
                == Err::<(), _>(VaultError::Unauthorized)
        }),
{
    let grants = listed(env.access.permissions, addr);
    assert(env.permissions(addr) == grants);
    if crate::permissions::grants_lapsed(grants, permission, env.now()) {
        let i = choose|i: int|
            0 <= i < grants.len() && (#[trigger] grants[i]).permission == permission
                && grants[i].expired(env.now());
        assert(grants[i].expires_at is Some);
    }
    if exists|i: int|
        0 <= i < grants.len() && (#[trigger] grants[i]).permission == permission
            && grants[i].expires_at is Some && ledger_of(env) > grants[i].expires_at->0 {
        let i = choose|i: int|
            0 <= i < grants.len() && (#[trigger] grants[i]).permission == permission
                && grants[i].expires_at is Some && ledger_of(env) > grants[i].expires_at->0;
        assert(grants[i].expired(env.now()));
    }
}

/// A permission that was granted is held up to the ledger at which it expires, and a permission
/// that a signer delegated is held before its delegation expires. Nothing else adds to what a role
/// gives.
pub proof fn law_grants_and_delegations_give_permissions(
    env: EnvModel,
    addr: Address,
    permission: Permission,
)
    requires
        env.access.config is Some,
    ensures
        ({
            let grants = listed(env.access.permissions, addr);
            let signers = env.access.config->0.signers;
            let delegated = env.access.delegated_permissions;
            let granted = exists|i: int|
                0 <= i < grants.len() && (#[trigger] grants[i]).permission == permission && (
                grants[i].expires_at is None || ledger_of(env) <= grants[i].expires_at->0);
            let lent = exists|i: int|
                0 <= i < signers.len() && {
                    let key = crate::primitives::GrantKey {
                        delegatee: addr,
                        delegator: #[trigger] signers[i],
                        permission: permission.spec_code(),
                    };
                    delegated.contains_key(key) && ledger_of(env) < delegated[key].expires_at
                };
            env.holds_permission(addr, permission) <==> {
                ||| is_admin(env, addr)
                ||| crate::books::is_treasurer(env, addr) && permission != Permission::ManageRoles
                    && permission != Permission::ManageConfig
                ||| permission == Permission::ViewMetrics
                ||| granted
                ||| lent
            }
        }),
{
    let grants = listed(env.access.permissions, addr);
    let signers = env.access.config->0.signers;
    let delegated = env.access.delegated_permissions;
    assert(env.permissions(addr) == grants);
    let granted = exists|i: int|
        0 <= i < grants.len() && (#[trigger] grants[i]).permission == permission && (
        grants[i].expires_at is None || ledger_of(env) <= grants[i].expires_at->0);
    if crate::permissions::grants_hold(grants, permission, env.now()) {
        let i = choose|i: int|
            0 <= i < grants.len() && (#[trigger] grants[i]).permission == permission
                && !grants[i].expired(env.now());
        assert(grants[i].permission == permission);
    }
    if granted {
        let i = choose|i: int|
            0 <= i < grants.len() && (#[trigger] grants[i]).permission == permission && (
            grants[i].expires_at is None || ledger_of(env) <= grants[i].expires_at->0);
        assert(!grants[i].expired(env.now()));
    }
    assert forall|i: int| 0 <= i < signers.len() implies env.delegation_holds(
        addr,
        #[trigger] signers[i],
        permission,
    ) == ({
        let key = crate::primitives::GrantKey {
            delegatee: addr,
            delegator: signers[i],
            permission: permission.spec_code(),
        };
        delegated.contains_key(key) && ledger_of(env) < delegated[key].expires_at
    }) by {}
}

/// The comments of a proposal are listed in the order in which they were made.
pub proof fn law_comments_are_listed_in_order(
    records: Map<u64, Comment>,
    ids: Seq<u64>,
)
    requires
        forall|i: int| 0 <= i < ids.len() ==> records.contains_key(#[trigger] ids[i]),
    ensures
        crate::comments::comments_of(records, ids) == Seq::new(
            ids.len(),
            |i: int| records[ids[i]],
        ),
    decreases ids.len(),
{
    if ids.len() > 0 {
        let rest = ids.drop_last();
        assert forall|i: int| 0 <= i < rest.len() implies records.contains_key(
            #[trigger] rest[i],
        ) by {
            assert(records.contains_key(ids[i]));
        }
        law_comments_are_listed_in_order(records, rest);
        assert(records.contains_key(ids[ids.len() - 1]));
    }
    assert(crate::comments::comments_of(records, ids) =~= Seq::new(
        ids.len(),
        |i: int| records[ids[i]],
    ));
}

/// Recurring payments are listed in ascending order, each that exists once.
pub proof fn law_recurring_payments_are_listed(env: EnvModel)
    ensures
        ({
            let ids = env.recurring_ids();
            &&& forall|i: int, j: int| 0 <= i < j < ids.len() ==> ids[i] < ids[j]
            &&& forall|id: u64| #[trigger]
                ids.contains(id) <==> 1 <= id < env.payments.next_recurring_id
                    && env.payments.recurring.contains_key(id)
        }),
{
    lemma_ids_ascend(env.payments.recurring, env.payments.next_recurring_id as nat);
}

/// Identifiers below a number ascend, and are those that exist.
proof fn lemma_ids_ascend<V>(records: Map<u64, V>, next: nat)
    requires
        next <= u64::MAX,
    ensures
        ({
            let ids = crate::storage::ids_below(records, next);
            &&& forall|i: int, j: int| 0 <= i < j < ids.len() ==> ids[i] < ids[j]
            &&& forall|i: int| 0 <= i < ids.len() ==> #[trigger] ids[i] < next
            &&& forall|id: u64| #[trigger]
                ids.contains(id) <==> 1 <= id < next && records.contains_key(id)
        }),
    decreases next,
{
    if next > 1 {
        let last = (next - 1) as u64;
        let before = crate::storage::ids_below(records, (next - 1) as nat);
        lemma_ids_ascend(records, (next - 1) as nat);
        if records.contains_key(last) {
            assert forall|id: u64| #[trigger]
                before.push(last).contains(id) <==> 1 <= id < next && records.contains_key(id) by {
                crate::primitives::lemma_push_contains(before, last, id);
            }
        }
    }
}

/// The audit trail counts its entries.
pub proof fn law_audit_entries_are_counted(env: EnvModel)
    requires
        env.audit.next_id >= 1,
    ensures
        env.audit_count() == env.audit.next_id - 1,
{
}

/// Estimating the cost of a proposal gives its cost and remembers it.
pub proof fn law_estimates_are_remembered(env: EnvModel, id: u64)
    requires
        env.proposals.records.contains_key(id),
        env.proposals.records[id].id == id,
    ensures
        ({
            let (after, r) = env.estimate(id);
            &&& r is Ok
            &&& r->Ok_0.total_fee == crate::transfer_laws::cost_of(env, env.proposals.records[id])
            &&& r->Ok_0.base_fee == env.treasury.gas_config.base_cost
            &&& after.proposals.fee_estimates == env.proposals.fee_estimates.insert(id, r->Ok_0)
            &&& after.proposals.records == env.proposals.records
        }),
{
    crate::transfer_laws::law_costs_count_the_steps(env, env.proposal(id)->Ok_0);
}

} // verus!
