//! The audit chain: every entry holds the hash of the one before it.

use vstd::prelude::*;

use crate::env::{Env, EnvModel};
use crate::errors::VaultError;
use crate::primitives::Address;
use crate::storage;
use crate::types::{AuditAction, AuditEntry};
use crate::VaultDAO;

verus! {

/// How many audit entries a page holds at most.
pub const MAX_AUDIT_PAGE: u32 = 50;

/// Whether an entry holds the hash of its contents.
pub open spec fn hash_right(entry: AuditEntry) -> bool {
    entry.hash == crate::storage::audit_hash(
        entry.action,
        entry.target,
        entry.timestamp,
        entry.prev_hash,
    )
}

/// The entries with identifiers from one on and below another, as far as they exist.
pub open spec fn entries_between(entries: Map<u64, AuditEntry>, from: nat, to: nat) -> Seq<
    AuditEntry,
>
    decreases to,
{
    if to <= from || to == 0 {
        Seq::empty()
    } else {
        let earlier = entries_between(entries, from, (to - 1) as nat);
        if entries.contains_key((to - 1) as u64) {
            earlier.push(entries[(to - 1) as u64])
        } else {
            earlier
        }
    }
}

impl EnvModel {
    /// How many audit entries there are.
    pub open spec fn audit_count(self) -> u64 {
        crate::math::clamp_u64(self.audit.next_id - 1)
    }

    /// The hash that an entry has to follow.
    pub open spec fn hash_before(self, id: u64) -> u64 {
        if id == 1 {
            0
        } else {
            self.audit.entries[(id - 1) as u64].hash
        }
    }

    /// Whether an entry exists, holds the hash of its contents and follows the one before it.
    pub open spec fn linked(self, id: u64) -> bool {
        &&& self.audit.entries.contains_key(id)
        &&& self.audit.entries[id].prev_hash == self.hash_before(id)
        &&& hash_right(self.audit.entries[id])
    }

    /// Whether the entries of a range are linked, and to the one before the range.
    pub open spec fn chain_intact(self, from_id: u64, to_id: u64) -> bool {
        &&& 1 <= from_id <= to_id <= self.audit_count()
        &&& from_id == 1 || self.audit.entries.contains_key((from_id - 1) as u64)
        &&& forall|id: u64| from_id <= id <= to_id ==> #[trigger] self.linked(id)
    }

    /// The first entry below an identifier that is not what it has to be, if there is one;
    /// or that an entry is missing.
    pub open spec fn first_flaw(self, next: nat) -> Result<Option<u64>, VaultError>
        decreases next,
    {
        if next <= 1 {
            Ok(None)
        } else {
            let id = (next - 1) as u64;
            match self.first_flaw((next - 1) as nat) {
                Ok(None) => if !self.audit.entries.contains_key(id) {
                    Err(VaultError::ProposalNotFound)
                } else if !hash_right(self.audit.entries[id]) || (id > 1
                    && self.audit.entries[id].prev_hash != self.hash_before(id)) {
                    Ok(Some(id))
                } else {
                    Ok(None)
                },
                other => other,
            }
        }
    }

    /// Whether the audit chain is whole: all entries are linked, and the last hash is that of
    /// the last entry.
    pub open spec fn audit_whole(self) -> bool {
        &&& self.audit.next_id >= 1
        &&& self.audit.last_hash == self.hash_before(self.audit.next_id)
        &&& forall|id: u64| 1 <= id < self.audit.next_id ==> #[trigger] self.linked(id)
    }
}

/// The audit chain of a new vault is whole.
pub proof fn law_fresh_chain_is_whole(ledger: crate::env::Ledger)
    ensures
        EnvModel::fresh(ledger).audit_whole(),
{
}

/// Appending to a whole audit chain leaves a whole audit chain.
pub proof fn law_auditing_keeps_the_chain_whole(
    env: EnvModel,
    action: AuditAction,
    actor: Address,
    target: u64,
)
    requires
        env.audit_whole(),
        env.audit.next_id < u64::MAX,
    ensures
        env.audit(action, actor, target).audit_whole(),
{
    let after = env.audit(action, actor, target);
    let new_id = env.audit.next_id;
    assert forall|id: u64| 1 <= id < after.audit.next_id implies #[trigger] after.linked(id) by {
        if id < new_id {
            assert(env.linked(id));
        } else {
            assert(id == new_id);
            if id > 1 {
                assert(env.linked((id - 1) as u64));
            }
        }
    }
}

/// A whole audit chain passes verification, as a whole and over every range.
pub proof fn law_whole_chain_verifies(env: EnvModel, from_id: u64, to_id: u64)
    requires
        env.audit_whole(),
    ensures
        1 <= from_id <= to_id < env.audit.next_id ==> env.chain_intact(from_id, to_id),
        env.first_flaw(env.audit.next_id as nat) == Ok::<Option<u64>, VaultError>(None),
{
    if 1 <= from_id <= to_id < env.audit.next_id && from_id > 1 {
        assert(env.linked((from_id - 1) as u64));
    }
    lemma_no_flaw(env, env.audit.next_id as nat);
}

/// Linked entries have no flaw.
proof fn lemma_no_flaw(env: EnvModel, next: nat)
    requires
        env.audit_whole(),
        next <= env.audit.next_id,
    ensures
        env.first_flaw(next) == Ok::<Option<u64>, VaultError>(None),
    decreases next,
{
    if next > 1 {
        lemma_no_flaw(env, (next - 1) as nat);
        assert(env.linked((next - 1) as u64));
    }
}

/// A chain without a flaw has the right hash in every entry, and every entry but the first
/// follows the one before it.
pub proof fn law_no_flaw_means_linked(env: EnvModel, next: nat, id: u64)
    requires
        env.first_flaw(next) == Ok::<Option<u64>, VaultError>(None),
        1 <= id < next <= u64::MAX,
    ensures
        env.audit.entries.contains_key(id),
        hash_right(env.audit.entries[id]),
        id > 1 ==> env.linked(id),
    decreases next,
{
    if id < next - 1 {
        law_no_flaw_means_linked(env, (next - 1) as nat, id);
    }
}

/// A flaw found early stays the first.
proof fn lemma_flaw_stays(env: EnvModel, n: nat, m: nat)
    requires
        n <= m,
        env.first_flaw(n) != Ok::<Option<u64>, VaultError>(None),
    ensures
        env.first_flaw(m) == env.first_flaw(n),
    decreases m,
{
    if n < m {
        lemma_flaw_stays(env, n, (m - 1) as nat);
    }
}

/// Whether an entry holds the hash of its contents.
fn check_hash(env: &Env, entry: &AuditEntry) -> (r: bool)
    ensures
        r == hash_right(*entry),
{
    storage::compute_audit_hash(
        env,
        &entry.action,
        &entry.actor,
        entry.target,
        entry.timestamp,
        entry.prev_hash,
    ) == entry.hash
}

impl VaultDAO {
    /// A page of the audit chain in ascending order: up to `limit`, and at most 50, after the
    /// first `offset`.
    pub fn get_audit_trail(env: &Env, offset: u64, limit: u32) -> (r: Vec<AuditEntry>)
        ensures
            r@ == entries_between(
                env@.audit.entries,
                (offset + 1) as nat,
                (crate::math::min_int(
                    env@.audit_count() as int,
                    offset + crate::math::min_int(limit as int, MAX_AUDIT_PAGE as int),
                ) + 1) as nat,
            ),
    {
        let capped: u32 = if limit < MAX_AUDIT_PAGE {
            limit
        } else {
            MAX_AUDIT_PAGE
        };
        let last: u64 = Self::get_audit_entry_count(env);
        let mut entries: Vec<AuditEntry> = Vec::new();
        if capped == 0 || offset >= last {
            return entries;
        }
        let span: u64 = last - offset;
        let count: u64 = if span < capped as u64 {
            span
        } else {
            capped as u64
        };
        let mut done: u64 = 0;
        while done < count
            invariant
                done <= count,
                offset + count <= last < u64::MAX,
                entries@ == entries_between(
                    env@.audit.entries,
                    (offset + 1) as nat,
                    (offset + done + 1) as nat,
                ),
            decreases count - done,
        {
            let id: u64 = offset + done + 1;
            if let Ok(entry) = storage::get_audit_entry(env, id) {
                entries.push(entry);
            }
            done += 1;
        }
        entries
    }

    /// The audit entry with an identifier.
    pub fn get_audit_entry(env: &Env, entry_id: u64) -> (r: Result<AuditEntry, VaultError>)
        ensures
            r == env@.audit_entry(entry_id),
    {
        storage::get_audit_entry(env, entry_id)
    }

    /// How many audit entries there are.
    pub fn get_audit_entry_count(env: &Env) -> (r: u64)
        ensures
            r == env@.audit_count(),
    {
        storage::get_next_audit_id(env).saturating_sub(1)
    }

    /// Whether the entries of a range are linked, and to the one before the range.
    pub fn verify_audit_chain(env: &Env, from_id: u64, to_id: u64) -> (r: bool)
        ensures
            r == env@.chain_intact(from_id, to_id),
    {
        if from_id == 0 || from_id > to_id {
            return false;
        }
        if to_id > Self::get_audit_entry_count(env) {
            return false;
        }
        let mut expected: u64 = 0;
        if from_id > 1 {
            match storage::get_audit_entry(env, from_id - 1) {
                Ok(previous) => {
                    expected = previous.hash;
                },
                Err(_) => return false,
            }
        }
        let mut id: u64 = from_id;
        while id <= to_id
            invariant
                1 <= from_id <= id <= to_id + 1,
                to_id < u64::MAX,
                expected == env@.hash_before(id),
                forall|k: u64| from_id <= k < id ==> #[trigger] env@.linked(k),
            decreases to_id + 1 - id,
        {
            let entry = match storage::get_audit_entry(env, id) {
                Ok(entry) => entry,
                Err(_) => {
                    assert(!env@.linked(id));
                    return false;
                },
            };
            if entry.prev_hash != expected || !check_hash(env, &entry) {
                assert(!env@.linked(id));
                return false;
            }
            assert(env@.linked(id));
            expected = entry.hash;
            id += 1;
        }
        true
    }

    /// Whether the entries of a range are linked, and to the one before the range.
    pub fn verify_audit_trail(env: &Env, start_id: u64, end_id: u64) -> (r: Result<
        bool,
        VaultError,
    >)
        ensures
            r == Ok::<bool, VaultError>(env@.chain_intact(start_id, end_id)),
    {
        Ok(Self::verify_audit_chain(env, start_id, end_id))
    }

    /// The first entry of the whole chain that is not what it has to be, if there is one.
    pub fn verify_audit_trail_full(env: &Env) -> (r: Result<Option<u64>, VaultError>)
        ensures
            r == env@.first_flaw(env@.audit.next_id as nat),
    {
        let count: u64 = storage::get_next_audit_id(env);
        let mut id: u64 = 1;
        let mut previous_hash: u64 = 0;
        while id < count
            invariant
                1 <= id,
                id <= count || id == 1,
                count == env@.audit.next_id,
                previous_hash == env@.hash_before(id),
                env@.first_flaw(id as nat) == Ok::<Option<u64>, VaultError>(None),
            decreases count - id,
        {
            proof {
                if env@.first_flaw((id + 1) as nat) != Ok::<Option<u64>, VaultError>(None) {
                    lemma_flaw_stays(env@, (id + 1) as nat, count as nat);
                }
            }
            let entry = storage::get_audit_entry(env, id)?;
            if !check_hash(env, &entry) {
                return Ok(Some(id));
            }
            if id > 1 && entry.prev_hash != previous_hash {
                return Ok(Some(id));
            }
            previous_hash = entry.hash;
            id += 1;
        }
        Ok(None)
    }
}

} // verus!
