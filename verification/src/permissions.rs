//! Permissions: held through a role, granted by an admin, or delegated by a signer.

use vstd::prelude::*;

use crate::env::{Action, Env, EnvModel, Event};
use crate::errors::VaultError;
use crate::primitives::Address;
use crate::proposals::Outcome;
use crate::storage;
use crate::types::{DelegatedPermission, Permission, PermissionGrant, Role};
use crate::VaultDAO;

verus! {

/// How long a chain of delegations can get.
pub const MAX_DELEGATION_DEPTH: u32 = 3;

/// Whether a role comes with a permission: admins hold all, treasurers those that deal with
/// proposals and payments, members may look at metrics.
pub open spec fn role_grants(role: Role, permission: Permission) -> bool {
    match role {
        Role::Admin => true,
        Role::Treasurer => permission != Permission::ManageRoles && permission
            != Permission::ManageConfig,
        Role::Member => permission == Permission::ViewMetrics,
    }
}

impl PermissionGrant {
    /// Whether the ledger at which the grant expires has passed.
    pub open spec fn expired(self, now: u64) -> bool {
        self.expires_at matches Some(expires) && now > expires
    }
}

/// Whether grants hold a permission that has not expired.
pub open spec fn grants_hold(grants: Seq<PermissionGrant>, permission: Permission, now: u64) -> bool {
    exists|i: int|
        0 <= i < grants.len() && (#[trigger] grants[i]).permission == permission
            && !grants[i].expired(now)
}

/// Whether grants hold a permission that has expired.
pub open spec fn grants_lapsed(
    grants: Seq<PermissionGrant>,
    permission: Permission,
    now: u64,
) -> bool {
    exists|i: int|
        0 <= i < grants.len() && (#[trigger] grants[i]).permission == permission
            && grants[i].expired(now)
}

/// Whether grants mention a permission.
pub open spec fn grants_mention(grants: Seq<PermissionGrant>, permission: Permission) -> bool {
    exists|i: int| 0 <= i < grants.len() && (#[trigger] grants[i]).permission == permission
}

/// Whether no permission is granted twice.
pub open spec fn grants_distinct(grants: Seq<PermissionGrant>) -> bool {
    forall|i: int, j: int|
        0 <= i < j < grants.len() ==> (#[trigger] grants[i]).permission != (
        #[trigger] grants[j]).permission
}

/// Grants with one more: in place of the first that mentions the same permission, else at the
/// end.
pub open spec fn with_grant(grants: Seq<PermissionGrant>, grant: PermissionGrant) -> Seq<
    PermissionGrant,
>
    decreases grants.len(),
{
    if grants.len() == 0 {
        seq![grant]
    } else if grants_mention(grants.drop_last(), grant.permission) {
        with_grant(grants.drop_last(), grant).push(grants.last())
    } else if grants.last().permission == grant.permission {
        grants.drop_last().push(grant)
    } else {
        grants.push(grant)
    }
}

impl EnvModel {
    /// Whether a signer delegated a permission to an address, with the delegation in force.
    pub open spec fn delegation_holds(
        self,
        addr: Address,
        signer: Address,
        permission: Permission,
    ) -> bool {
        self.delegated_permission(addr, signer, permission.spec_code()) matches Some(delegation)
            && self.now() < delegation.expires_at
    }

    /// Whether an address holds a permission.
    pub open spec fn holds_permission(self, addr: Address, permission: Permission) -> bool {
        ||| role_grants(self.role(addr), permission)
        ||| grants_hold(self.permissions(addr), permission, self.now())
        ||| self.config() matches Ok(config) && exists|i: int|
            0 <= i < config.signers.len() && self.delegation_holds(
                addr,
                #[trigger] config.signers[i],
                permission,
            )
    }

    /// The first of some signers from whom an address has a permission that has not lapsed.
    pub open spec fn delegator_among(
        self,
        signers: Seq<Address>,
        addr: Address,
        permission: Permission,
    ) -> Option<Address>
        decreases signers.len(),
    {
        if signers.len() == 0 {
            None
        } else {
            match self.delegator_among(signers.drop_last(), addr, permission) {
                Some(signer) => Some(signer),
                None => match self.delegated_permission(
                    addr,
                    signers.last(),
                    permission.spec_code(),
                ) {
                    Some(delegation) => if self.now() <= delegation.expires_at {
                        Some(signers.last())
                    } else {
                        None
                    },
                    None => None,
                },
            }
        }
    }

    /// How many delegations lead to an address, on top of `depth`, counted up to the largest
    /// depth.
    pub open spec fn depth_above(self, addr: Address, permission: Permission, depth: u32) -> u32
        decreases MAX_DELEGATION_DEPTH - depth,
    {
        if depth >= MAX_DELEGATION_DEPTH {
            depth
        } else {
            match self.config() {
                Err(_) => depth,
                Ok(config) => match self.delegator_among(config.signers, addr, permission) {
                    Some(signer) => self.depth_above(signer, permission, (depth + 1) as u32),
                    None => depth,
                },
            }
        }
    }

    /// Why permissions cannot be administered, if they cannot.
    pub open spec fn permission_refusal(self, admin: Address) -> Option<VaultError> {
        if !self.is_initialized() {
            Some(VaultError::NotInitialized)
        } else if self.role(admin) != Role::Admin {
            Some(VaultError::Unauthorized)
        } else {
            None
        }
    }

    /// What granting a permission leaves behind.
    pub open spec fn grant_permission(
        self,
        admin: Address,
        target: Address,
        permission: Permission,
        expires_at: Option<u64>,
    ) -> Outcome<()> {
        match self.permission_refusal(admin) {
            Some(error) => (self, Err(error)),
            None => (
                self.with_permissions(
                    target,
                    with_grant(
                        self.permissions(target),
                        PermissionGrant {
                            permission,
                            granted_by: admin,
                            granted_at: self.now(),
                            expires_at,
                        },
                    ),
                ).act(Action::ExtendInstanceTtl).publish(
                    Event::PermissionGranted { admin, target, permission: permission.spec_code() },
                ),
                Ok(()),
            ),
        }
    }

    /// What revoking a permission leaves behind.
    pub open spec fn revoke_permission(
        self,
        admin: Address,
        target: Address,
        permission: Permission,
    ) -> Outcome<()> {
        match self.permission_refusal(admin) {
            Some(error) => (self, Err(error)),
            None => if !grants_mention(self.permissions(target), permission) {
                (self, Err(VaultError::Unauthorized))
            } else {
                (
                    self.with_permissions(
                        target,
                        self.permissions(target).filter(
                            |grant: PermissionGrant| grant.permission != permission,
                        ),
                    ).act(Action::ExtendInstanceTtl).publish(
                        Event::PermissionRevoked {
                            admin,
                            target,
                            permission: permission.spec_code(),
                        },
                    ),
                    Ok(()),
                )
            },
        }
    }

    /// What delegating a permission leaves behind.
    pub open spec fn delegate_permission(
        self,
        delegator: Address,
        delegatee: Address,
        permission: Permission,
        expires_at: u64,
    ) -> Outcome<()> {
        if !self.is_initialized() {
            (self, Err(VaultError::NotInitialized))
        } else if !self.holds_permission(delegator, permission) {
            (self, Err(VaultError::Unauthorized))
        } else if self.depth_above(delegator, permission, 0) >= MAX_DELEGATION_DEPTH {
            (self, Err(VaultError::InsufficientRole))
        } else {
            (
                self.with_delegated_permission(
                    DelegatedPermission {
                        permission,
                        delegator,
                        delegatee,
                        granted_at: self.now(),
                        expires_at,
                    },
                ).act(Action::ExtendInstanceTtl).publish(
                    Event::PermissionDelegated {
                        delegator,
                        delegatee,
                        permission: permission.spec_code(),
                    },
                ),
                Ok(()),
            )
        }
    }

    /// Whether an address holds a permission, or why it does not.
    pub open spec fn permission_check(self, addr: Address, permission: Permission) -> Result<
        (),
        VaultError,
    > {
        if !self.is_initialized() {
            Err(VaultError::NotInitialized)
        } else if self.holds_permission(addr, permission) {
            Ok(())
        } else if grants_lapsed(self.permissions(addr), permission, self.now()) {
            Err(VaultError::ProposalExpired)
        } else {
            Err(VaultError::Unauthorized)
        }
    }
}

/// Granting keeps every other grant, and leaves one that mentions the permission.
proof fn lemma_with_grant(grants: Seq<PermissionGrant>, grant: PermissionGrant)
    ensures
        grants_distinct(grants) ==> grants_distinct(with_grant(grants, grant)),
        exists|i: int|
            0 <= i < with_grant(grants, grant).len() && #[trigger] with_grant(grants, grant)[i]
                == grant,
        forall|p: Permission| #[trigger]
            grants_mention(with_grant(grants, grant), p) <==> grants_mention(grants, p) || p
                == grant.permission,
    decreases grants.len(),
{
    let after = with_grant(grants, grant);
    if grants.len() == 0 {
        assert(after[0] == grant);
        assert forall|p: Permission| #[trigger] grants_mention(after, p) <==> grants_mention(
            grants,
            p,
        ) || p == grant.permission by {
            assert(after[0].permission == grant.permission);
        }
    } else {
        let rest = grants.drop_last();
        lemma_with_grant(rest, grant);
        let i = if grants_mention(rest, grant.permission) {
            let inner = with_grant(rest, grant);
            let i = choose|i: int| 0 <= i < inner.len() && #[trigger] inner[i] == grant;
            assert(after[i] == inner[i]);
            i
        } else {
            after.len() - 1
        };
        assert(after[i] == grant);
        assert forall|p: Permission| #[trigger] grants_mention(after, p) <==> grants_mention(
            grants,
            p,
        ) || p == grant.permission by {
            lemma_mention_step(grants, p);
            if grants_mention(rest, grant.permission) {
                let inner = with_grant(rest, grant);
                assert(after.drop_last() =~= inner);
                lemma_mention_step(after, p);
                assert(grants_mention(inner, p) <==> grants_mention(rest, p) || p
                    == grant.permission);
            } else if grants.last().permission == grant.permission {
                assert(after.drop_last() =~= rest);
                lemma_mention_step(after, p);
            } else {
                assert(after.drop_last() =~= grants);
                lemma_mention_step(after, p);
            }
        }
        if grants_distinct(grants) {
            lemma_distinct_grant(grants, grant);
        }
    }
}

/// A longer list mentions what its last element mentions, too.
proof fn lemma_mention_step(grants: Seq<PermissionGrant>, p: Permission)
    requires
        grants.len() > 0,
    ensures
        grants_mention(grants, p) <==> grants_mention(grants.drop_last(), p)
            || grants.last().permission == p,
{
    let rest = grants.drop_last();
    if grants_mention(rest, p) {
        let i = choose|i: int| 0 <= i < rest.len() && (#[trigger] rest[i]).permission == p;
        assert(grants[i] == rest[i]);
    }
    if grants.last().permission == p {
        assert(grants[grants.len() - 1].permission == p);
    }
    if grants_mention(grants, p) {
        let i = choose|i: int| 0 <= i < grants.len() && (#[trigger] grants[i]).permission == p;
        assert(i < rest.len() ==> rest[i] == grants[i]);
    }
}

/// Granting leaves no permission granted twice.
proof fn lemma_distinct_grant(grants: Seq<PermissionGrant>, grant: PermissionGrant)
    requires
        grants_distinct(grants),
    ensures
        grants_distinct(with_grant(grants, grant)),
        grants_mention(grants, grant.permission) ==> with_grant(grants, grant).len()
            == grants.len() && forall|i: int|
            0 <= i < grants.len() ==> (#[trigger] with_grant(grants, grant)[i]).permission
                == grants[i].permission,
    decreases grants.len(),
{
    let after = with_grant(grants, grant);
    if grants.len() > 0 {
        let rest = grants.drop_last();
        assert(grants_distinct(rest)) by {
            assert forall|i: int, j: int| 0 <= i < j < rest.len() implies (
            #[trigger] rest[i]).permission != (#[trigger] rest[j]).permission by {
                assert(grants[i].permission != grants[j].permission);
            }
        }
        lemma_distinct_grant(rest, grant);
        lemma_mention_step(grants, grant.permission);
        if grants_mention(grants, grant.permission) {
            assert forall|i: int| 0 <= i < grants.len() implies (#[trigger] after[i]).permission
                == grants[i].permission by {
                if grants_mention(rest, grant.permission) && i < rest.len() {
                    assert(with_grant(rest, grant)[i].permission == rest[i].permission);
                }
            }
            assert forall|i: int, j: int| 0 <= i < j < after.len() implies (
            #[trigger] after[i]).permission != (#[trigger] after[j]).permission by {
                assert(grants[i].permission != grants[j].permission);
            }
        } else {
            assert(after =~= grants.push(grant));
            assert forall|i: int, j: int| 0 <= i < j < after.len() implies (
            #[trigger] after[i]).permission != (#[trigger] after[j]).permission by {
                assert(grants[i].permission != grant.permission);
                if j < grants.len() {
                    assert(grants[i].permission != grants[j].permission);
                }
            }
        }
    }
}

/// A granted permission is held until the ledger at which it expires has passed.
pub proof fn law_granted_permissions_hold_until_expiry(
    env: EnvModel,
    later: EnvModel,
    admin: Address,
    target: Address,
    permission: Permission,
    expires_at: Option<u64>,
)
    requires
        env.grant_permission(admin, target, permission, expires_at).1 is Ok,
        later.access == env.grant_permission(admin, target, permission, expires_at).0.access,
        expires_at matches Some(expires) ==> later.now() <= expires,
    ensures
        later.holds_permission(target, permission),
{
    let grant = PermissionGrant {
        permission,
        granted_by: admin,
        granted_at: env.now(),
        expires_at,
    };
    let grants = with_grant(env.permissions(target), grant);
    lemma_with_grant(env.permissions(target), grant);
    let i = choose|i: int| 0 <= i < grants.len() && #[trigger] grants[i] == grant;
    assert(grants[i].permission == permission);
}

/// A revoked permission is not held directly any more, and other direct grants are kept.
pub proof fn law_revoked_permissions_are_gone(
    env: EnvModel,
    admin: Address,
    target: Address,
    permission: Permission,
    other: PermissionGrant,
)
    requires
        env.revoke_permission(admin, target, permission).1 is Ok,
    ensures
        !grants_mention(
            env.revoke_permission(admin, target, permission).0.permissions(target),
            permission,
        ),
        other.permission != permission ==> (env.permissions(target).contains(other)
            <==> env.revoke_permission(admin, target, permission).0.permissions(target).contains(
            other,
        )),
{
    let keep = |grant: PermissionGrant| grant.permission != permission;
    let grants = env.permissions(target);
    let kept = grants.filter(keep);
    broadcast use vstd::seq_lib::group_filter_ensures;

    assert forall|i: int| 0 <= i < kept.len() implies (#[trigger] kept[i]).permission
        != permission by {
        assert(keep(kept[i]));
    }
    if other.permission != permission {
        assert(keep(other));
        if grants.contains(other) {
            let i = choose|i: int| 0 <= i < grants.len() && grants[i] == other;
            grants.lemma_filter_contains(keep, i);
        }
        if kept.contains(other) {
            grants.lemma_filter_contains_rev(keep, other);
        }
    }
}

/// No permission is ever granted twice to the same address.
pub proof fn law_permissions_are_granted_once(
    env: EnvModel,
    admin: Address,
    target: Address,
    permission: Permission,
    expires_at: Option<u64>,
)
    requires
        grants_distinct(env.permissions(target)),
    ensures
        grants_distinct(
            env.grant_permission(admin, target, permission, expires_at).0.permissions(target),
        ),
{
    lemma_with_grant(
        env.permissions(target),
        PermissionGrant { permission, granted_by: admin, granted_at: env.now(), expires_at },
    );
}

/// Where the first of some signers was found, more signers change nothing.
proof fn lemma_delegator_found(
    env: EnvModel,
    signers: Seq<Address>,
    addr: Address,
    permission: Permission,
    k: int,
)
    requires
        0 <= k <= signers.len(),
        env.delegator_among(signers.take(k), addr, permission) is Some,
    ensures
        env.delegator_among(signers, addr, permission) == env.delegator_among(
            signers.take(k),
            addr,
            permission,
        ),
    decreases signers.len(),
{
    if k == signers.len() {
        assert(signers.take(k) =~= signers);
    } else {
        assert(signers.drop_last().take(k) =~= signers.take(k));
        lemma_delegator_found(env, signers.drop_last(), addr, permission, k);
    }
}

/// Whether grants hold a permission that has not expired.
fn check_grants(grants: &Vec<PermissionGrant>, permission: Permission, now: u64) -> (r: bool)
    ensures
        r == grants_hold(grants@, permission, now),
{
    let mut i: usize = 0;
    while i < grants.len()
        invariant
            i <= grants.len(),
            forall|j: int|
                0 <= j < i ==> (#[trigger] grants@[j]).permission != permission
                    || grants@[j].expired(now),
        decreases grants.len() - i,
    {
        if grants[i].permission == permission && !is_expired(&grants[i], now) {
            assert(grants@[i as int].permission == permission);
            return true;
        }
        i += 1;
    }
    false
}

/// Whether grants hold a permission that has expired.
fn check_lapsed(grants: &Vec<PermissionGrant>, permission: Permission, now: u64) -> (r: bool)
    ensures
        r == grants_lapsed(grants@, permission, now),
{
    let mut i: usize = 0;
    while i < grants.len()
        invariant
            i <= grants.len(),
            forall|j: int|
                0 <= j < i ==> (#[trigger] grants@[j]).permission != permission
                    || !grants@[j].expired(now),
        decreases grants.len() - i,
    {
        if grants[i].permission == permission && is_expired(&grants[i], now) {
            assert(grants@[i as int].permission == permission);
            return true;
        }
        i += 1;
    }
    false
}

/// Whether the ledger at which a grant expires has passed.
fn is_expired(grant: &PermissionGrant, now: u64) -> (r: bool)
    ensures
        r == grant.expired(now),
{
    match grant.expires_at {
        Some(expires) => now > expires,
        None => false,
    }
}

/// Puts a grant in place of the first that mentions the same permission, else at the end.
fn put_grant(grants: &mut Vec<PermissionGrant>, grant: PermissionGrant)
    ensures
        final(grants)@ == with_grant(old(grants)@, grant),
{
    let ghost start = grants@;
    let mut i: usize = 0;
    while i < grants.len()
        invariant
            i <= grants.len(),
            grants@ == start,
            start == old(grants)@,
            !grants_mention(start.take(i as int), grant.permission),
        decreases grants.len() - i,
    {
        assert(start.take(i + 1).drop_last() =~= start.take(i as int));
        proof {
            lemma_mention_step(start.take(i + 1), grant.permission);
        }
        if grants[i].permission == grant.permission {
            grants[i] = grant;
            proof {
                lemma_first_replaced(start, grant, i as int);
            }
            return ;
        }
        i += 1;
    }
    assert(start.take(start.len() as int) =~= start);
    proof {
        if start.len() > 0 {
            lemma_mention_step(start, grant.permission);
        } else {
            assert(start.push(grant) =~= seq![grant]);
        }
    }
    grants.push(grant);
}

/// The first grant that mentions the permission is the one that is replaced.
proof fn lemma_first_replaced(grants: Seq<PermissionGrant>, grant: PermissionGrant, k: int)
    requires
        0 <= k < grants.len(),
        grants[k].permission == grant.permission,
        !grants_mention(grants.take(k), grant.permission),
    ensures
        with_grant(grants, grant) == grants.update(k, grant),
    decreases grants.len(),
{
    let rest = grants.drop_last();
    if k == grants.len() - 1 {
        assert(grants.take(k) =~= rest);
        assert(rest.push(grant) =~= grants.update(k, grant));
    } else {
        assert(rest.take(k) =~= grants.take(k));
        assert(rest[k].permission == grant.permission);
        lemma_first_replaced(rest, grant, k);
        assert(rest.update(k, grant).push(grants.last()) =~= grants.update(k, grant));
    }
}

/// Grants without those that mention a permission, and whether there was one.
fn drop_grants(grants: &Vec<PermissionGrant>, permission: Permission) -> (r: (
    Vec<PermissionGrant>,
    bool,
))
    ensures
        r.0@ == grants@.filter(|grant: PermissionGrant| grant.permission != permission),
        r.1 == grants_mention(grants@, permission),
{
    let ghost keep = |grant: PermissionGrant| grant.permission != permission;
    let mut updated: Vec<PermissionGrant> = Vec::new();
    let mut found = false;
    let mut i: usize = 0;
    proof {
        reveal(Seq::filter);
    }
    while i < grants.len()
        invariant
            i <= grants.len(),
            keep == (|grant: PermissionGrant| grant.permission != permission),
            updated@ == grants@.take(i as int).filter(keep),
            found == grants_mention(grants@.take(i as int), permission),
        decreases grants.len() - i,
    {
        proof {
            reveal(Seq::filter);
            assert(grants@.take(i + 1).drop_last() =~= grants@.take(i as int));
            lemma_mention_step(grants@.take(i + 1), permission);
        }
        if grants[i].permission != permission {
            updated.push(grants[i]);
        } else {
            found = true;
        }
        i += 1;
    }
    assert(grants@.take(grants@.len() as int) =~= grants@);
    (updated, found)
}

impl VaultDAO {
    /// Grants a permission, up to a ledger if one is given. A grant of the same permission is
    /// replaced. Only admins may.
    pub fn grant_permission(
        env: &mut Env,
        admin: Address,
        target: Address,
        permission: Permission,
        expires_at: Option<u64>,
    ) -> (r: Result<(), VaultError>)
        requires
            old(env)@.authorized(admin),
        ensures
            (final(env)@, r) == old(env)@.grant_permission(admin, target, permission, expires_at),
    {
        if !storage::is_initialized(env) {
            return Err(VaultError::NotInitialized);
        }
        if storage::get_role(env, &admin) != Role::Admin {
            return Err(VaultError::Unauthorized);
        }
        let mut grants = storage::get_permissions(env, &target);
        let grant = PermissionGrant {
            permission,
            granted_by: admin,
            granted_at: env.now(),
            expires_at,
        };
        put_grant(&mut grants, grant);
        storage::set_permissions(env, &target, grants);
        storage::extend_instance_ttl(env);
        env.publish(Event::PermissionGranted { admin, target, permission: permission.code() });
        Ok(())
    }

    /// Revokes a permission that was granted. Only admins may.
    pub fn revoke_permission(
        env: &mut Env,
        admin: Address,
        target: Address,
        permission: Permission,
    ) -> (r: Result<(), VaultError>)
        requires
            old(env)@.authorized(admin),
        ensures
            (final(env)@, r) == old(env)@.revoke_permission(admin, target, permission),
    {
        if !storage::is_initialized(env) {
            return Err(VaultError::NotInitialized);
        }
        if storage::get_role(env, &admin) != Role::Admin {
            return Err(VaultError::Unauthorized);
        }
        let grants = storage::get_permissions(env, &target);
        let (updated, found) = drop_grants(&grants, permission);
        if !found {
            return Err(VaultError::Unauthorized);
        }
        storage::set_permissions(env, &target, updated);
        storage::extend_instance_ttl(env);
        env.publish(Event::PermissionRevoked { admin, target, permission: permission.code() });
        Ok(())
    }

    /// Delegates a permission that the delegator holds, up to a ledger. Chains of delegations
    /// have a largest depth.
    pub fn delegate_permission(
        env: &mut Env,
        delegator: Address,
        delegatee: Address,
        permission: Permission,
        expires_at: u64,
    ) -> (r: Result<(), VaultError>)
        requires
            old(env)@.authorized(delegator),
        ensures
            (final(env)@, r) == old(env)@.delegate_permission(
                delegator,
                delegatee,
                permission,
                expires_at,
            ),
    {
        if !storage::is_initialized(env) {
            return Err(VaultError::NotInitialized);
        }
        if !Self::check_permission(env, &delegator, &permission) {
            return Err(VaultError::Unauthorized);
        }
        let depth: u32 = Self::delegation_depth(env, &delegator, &permission, 0);
        if depth >= MAX_DELEGATION_DEPTH {
            return Err(VaultError::InsufficientRole);
        }
        let delegation = DelegatedPermission {
            permission,
            delegator,
            delegatee,
            granted_at: env.now(),
            expires_at,
        };
        storage::set_delegated_permission(env, &delegation);
        storage::extend_instance_ttl(env);
        env.publish(
            Event::PermissionDelegated { delegator, delegatee, permission: permission.code() },
        );
        Ok(())
    }

    /// Whether an address holds a permission.
    pub fn has_permission(env: &Env, addr: Address, permission: Permission) -> (r: bool)
        ensures
            r == env@.holds_permission(addr, permission),
    {
        Self::check_permission(env, &addr, &permission)
    }

    /// Whether an address holds a permission, or why it does not.
    pub fn check_permission_entry(env: &Env, addr: Address, permission: Permission) -> (r: Result<
        (),
        VaultError,
    >)
        ensures
            r == env@.permission_check(addr, permission),
    {
        if !storage::is_initialized(env) {
            return Err(VaultError::NotInitialized);
        }
        if Self::check_permission(env, &addr, &permission) {
            return Ok(());
        }
        let grants = storage::get_permissions(env, &addr);
        if check_lapsed(&grants, permission, env.now()) {
            return Err(VaultError::ProposalExpired);
        }
        Err(VaultError::Unauthorized)
    }

    /// Whether an address holds a permission through its role, a grant or a delegation.
    pub fn check_permission(env: &Env, addr: &Address, permission: &Permission) -> (r: bool)
        ensures
            r == env@.holds_permission(*addr, *permission),
    {
        let current_ledger: u64 = env.now();
        let role = storage::get_role(env, addr);
        if Self::role_has_permission(&role, permission) {
            return true;
        }
        let permissions = storage::get_permissions(env, addr);
        if check_grants(&permissions, *permission, current_ledger) {
            return true;
        }
        let config = match storage::get_config(env) {
            Ok(config) => config,
            Err(_) => return false,
        };
        let mut i: usize = 0;
        while i < config.signers.len()
            invariant
                i <= config.signers.len(),
                current_ledger == env@.now(),
                env@.config() == Ok::<_, VaultError>(config@),
                forall|j: int|
                    0 <= j < i ==> !env@.delegation_holds(
                        *addr,
                        #[trigger] config@.signers[j],
                        *permission,
                    ),
            decreases config.signers.len() - i,
        {
            let signer = config.signers[i];
            if let Some(delegation) = storage::get_delegated_permission(
                env,
                addr,
                &signer,
                permission.code(),
            ) {
                if current_ledger < delegation.expires_at {
                    assert(env@.delegation_holds(
                        *addr,
                        config@.signers[i as int],
                        *permission,
                    ));
                    return true;
                }
            }
            i += 1;
        }
        false
    }

    /// How many delegations lead to an address, on top of `depth`, counted up to the largest
    /// depth.
    pub fn delegation_depth(env: &Env, addr: &Address, permission: &Permission, depth: u32) -> (r:
        u32)
        ensures
            r == env@.depth_above(*addr, *permission, depth),
        decreases MAX_DELEGATION_DEPTH - depth,
    {
        if depth >= MAX_DELEGATION_DEPTH {
            return depth;
        }
        let config = match storage::get_config(env) {
            Ok(config) => config,
            Err(_) => return depth,
        };
        let now: u64 = env.now();
        let mut i: usize = 0;
        while i < config.signers.len()
            invariant
                i <= config.signers.len(),
                depth < MAX_DELEGATION_DEPTH,
                now == env@.now(),
                env@.config() == Ok::<_, VaultError>(config@),
                env@.delegator_among(config@.signers.take(i as int), *addr, *permission) is None,
            decreases config.signers.len() - i,
        {
            let signer = config.signers[i];
            assert(config@.signers.take(i + 1).drop_last() =~= config@.signers.take(i as int));
            if let Some(delegation) = storage::get_delegated_permission(
                env,
                addr,
                &signer,
                permission.code(),
            ) {
                if now <= delegation.expires_at {
                    proof {
                        lemma_delegator_found(env@, config@.signers, *addr, *permission, i + 1);
                    }
                    return Self::delegation_depth(env, &signer, permission, depth + 1);
                }
            }
            i += 1;
        }
        assert(config@.signers.take(config@.signers.len() as int) =~= config@.signers);
        depth
    }

    /// Whether a role comes with a permission.
    pub fn role_has_permission(role: &Role, permission: &Permission) -> (r: bool)
        ensures
            r == role_grants(*role, *permission),
    {
        match role {
            Role::Admin => true,
            Role::Treasurer => match permission {
                Permission::CreateProposal => true,
                Permission::ApproveProposal => true,
                Permission::ExecuteProposal => true,
                Permission::ViewMetrics => true,
                Permission::ManageRecurring => true,
                Permission::ManageEscrow => true,
                Permission::ManageSubscriptions => true,
                Permission::ManageRoles => false,
                Permission::ManageConfig => false,
            },
            Role::Member => *permission == Permission::ViewMetrics,
        }
    }

    /// The permissions that an address was granted.
    pub fn get_permissions(env: &Env, addr: Address) -> (r: Vec<PermissionGrant>)
        ensures
            r@ == env@.permissions(addr),
    {
        storage::get_permissions(env, &addr)
    }
}

} // verus!
