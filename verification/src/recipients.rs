//! Lists of allowed and refused recipients.

use vstd::prelude::*;

use crate::env::{Action, Env, EnvModel};
use crate::errors::VaultError;
use crate::primitives::Address;
use crate::proposals::Outcome;
use crate::storage;
use crate::types::{ListMode, Role};
use crate::VaultDAO;

verus! {

impl EnvModel {
    /// What changing how recipients are screened leaves behind.
    pub open spec fn change_list_mode(self, admin: Address, mode: ListMode) -> Outcome<()> {
        if self.role(admin) != Role::Admin {
            (self, Err(VaultError::Unauthorized))
        } else {
            (self.with_list_mode(mode).act(Action::ExtendInstanceTtl), Ok(()))
        }
    }

    /// What allowing a recipient leaves behind.
    pub open spec fn allow(self, admin: Address, addr: Address) -> Outcome<()> {
        if self.role(admin) != Role::Admin {
            (self, Err(VaultError::Unauthorized))
        } else if self.whitelisted(addr) {
            (self, Err(VaultError::AddressAlreadyOnList))
        } else {
            (self.whitelist_add(addr).act(Action::ExtendInstanceTtl), Ok(()))
        }
    }

    /// What no longer allowing a recipient leaves behind.
    pub open spec fn disallow(self, admin: Address, addr: Address) -> Outcome<()> {
        if self.role(admin) != Role::Admin {
            (self, Err(VaultError::Unauthorized))
        } else if !self.whitelisted(addr) {
            (self, Err(VaultError::AddressNotOnList))
        } else {
            (self.whitelist_remove(addr).act(Action::ExtendInstanceTtl), Ok(()))
        }
    }

    /// What blocking a recipient leaves behind.
    pub open spec fn block(self, admin: Address, addr: Address) -> Outcome<()> {
        if self.role(admin) != Role::Admin {
            (self, Err(VaultError::Unauthorized))
        } else if self.blacklisted(addr) {
            (self, Err(VaultError::AddressAlreadyOnList))
        } else {
            (self.blacklist_add(addr).act(Action::ExtendInstanceTtl), Ok(()))
        }
    }

    /// What no longer blocking a recipient leaves behind.
    pub open spec fn unblock(self, admin: Address, addr: Address) -> Outcome<()> {
        if self.role(admin) != Role::Admin {
            (self, Err(VaultError::Unauthorized))
        } else if !self.blacklisted(addr) {
            (self, Err(VaultError::AddressNotOnList))
        } else {
            (self.blacklist_remove(addr).act(Action::ExtendInstanceTtl), Ok(()))
        }
    }
}

/// A recipient that was allowed passes the whitelist until it is no longer allowed; one that
/// was blocked is refused by the blacklist until it is no longer blocked.
pub proof fn law_lists_remember(env: EnvModel, admin: Address, addr: Address)
    ensures
        env.allow(admin, addr).1 is Ok ==> env.allow(admin, addr).0.whitelisted(addr),
        env.disallow(admin, addr).1 is Ok ==> !env.disallow(admin, addr).0.whitelisted(addr),
        env.block(admin, addr).1 is Ok ==> env.block(admin, addr).0.blacklisted(addr),
        env.unblock(admin, addr).1 is Ok ==> !env.unblock(admin, addr).0.blacklisted(addr),
{
}

impl VaultDAO {
    /// Changes how recipients are screened. Only admins may.
    pub fn set_list_mode(env: &mut Env, admin: Address, mode: ListMode) -> (r: Result<
        (),
        VaultError,
    >)
        requires
            old(env)@.authorized(admin),
        ensures
            (final(env)@, r) == old(env)@.change_list_mode(admin, mode),
    {
        if storage::get_role(env, &admin) != Role::Admin {
            return Err(VaultError::Unauthorized);
        }
        storage::set_list_mode(env, mode);
        storage::extend_instance_ttl(env);
        Ok(())
    }

    /// How recipients are screened.
    pub fn get_list_mode(env: &Env) -> (r: ListMode)
        ensures
            r == env@.list_mode(),
    {
        storage::get_list_mode(env)
    }

    /// Puts an address on the whitelist. Only admins may.
    pub fn add_to_whitelist(env: &mut Env, admin: Address, addr: Address) -> (r: Result<
        (),
        VaultError,
    >)
        requires
            old(env)@.authorized(admin),
        ensures
            (final(env)@, r) == old(env)@.allow(admin, addr),
    {
        if storage::get_role(env, &admin) != Role::Admin {
            return Err(VaultError::Unauthorized);
        }
        if storage::is_whitelisted(env, &addr) {
            return Err(VaultError::AddressAlreadyOnList);
        }
        storage::add_to_whitelist(env, &addr);
        storage::extend_instance_ttl(env);
        Ok(())
    }

    /// Takes an address off the whitelist. Only admins may.
    pub fn remove_from_whitelist(env: &mut Env, admin: Address, addr: Address) -> (r: Result<
        (),
        VaultError,
    >)
        requires
            old(env)@.authorized(admin),
        ensures
            (final(env)@, r) == old(env)@.disallow(admin, addr),
    {
        if storage::get_role(env, &admin) != Role::Admin {
            return Err(VaultError::Unauthorized);
        }
        if !storage::is_whitelisted(env, &addr) {
            return Err(VaultError::AddressNotOnList);
        }
        storage::remove_from_whitelist(env, &addr);
        storage::extend_instance_ttl(env);
        Ok(())
    }

    /// Whether an address is on the whitelist.
    pub fn is_whitelisted(env: &Env, addr: Address) -> (r: bool)
        ensures
            r == env@.whitelisted(addr),
    {
        storage::is_whitelisted(env, &addr)
    }

    /// Puts an address on the blacklist. Only admins may.
    pub fn add_to_blacklist(env: &mut Env, admin: Address, addr: Address) -> (r: Result<
        (),
        VaultError,
    >)
        requires
            old(env)@.authorized(admin),
        ensures
            (final(env)@, r) == old(env)@.block(admin, addr),
    {
        if storage::get_role(env, &admin) != Role::Admin {
            return Err(VaultError::Unauthorized);
        }
        if storage::is_blacklisted(env, &addr) {
            return Err(VaultError::AddressAlreadyOnList);
        }
        storage::add_to_blacklist(env, &addr);
        storage::extend_instance_ttl(env);
        Ok(())
    }

    /// Takes an address off the blacklist. Only admins may.
    pub fn remove_from_blacklist(env: &mut Env, admin: Address, addr: Address) -> (r: Result<
        (),
        VaultError,
    >)
        requires
            old(env)@.authorized(admin),
        ensures
            (final(env)@, r) == old(env)@.unblock(admin, addr),
    {
        if storage::get_role(env, &admin) != Role::Admin {
            return Err(VaultError::Unauthorized);
        }
        if !storage::is_blacklisted(env, &addr) {
            return Err(VaultError::AddressNotOnList);
        }
        storage::remove_from_blacklist(env, &addr);
        storage::extend_instance_ttl(env);
        Ok(())
    }

    /// Whether an address is on the blacklist.
    pub fn is_blacklisted(env: &Env, addr: Address) -> (r: bool)
        ensures
            r == env@.blacklisted(addr),
    {
        storage::is_blacklisted(env, &addr)
    }
}

} // verus!
