//! Contracts that are called before and after executions.

use vstd::prelude::*;

use crate::env::{Action, Env, EnvModel, Event};
use crate::errors::VaultError;
use crate::primitives::{list_contains, list_position, Address};
use crate::proposals::Outcome;
use crate::storage;
use crate::types::{Config, ConfigModel, Role};
use crate::VaultDAO;

verus! {

impl EnvModel {
    /// The state after the hooks were changed.
    pub open spec fn change_hooks(self, config: ConfigModel, event: Event) -> EnvModel {
        self.with_config(config).act(Action::ExtendInstanceTtl).publish(event)
    }

    /// What registering a hook to call before executions leaves behind.
    pub open spec fn add_pre_hook(self, admin: Address, hook: Address) -> Outcome<()> {
        if self.role(admin) != Role::Admin {
            (self, Err(VaultError::Unauthorized))
        } else {
            match self.config() {
                Err(error) => (self, Err(error)),
                Ok(config) => if config.pre_execution_hooks.contains(hook) {
                    (self, Err(VaultError::SignerAlreadyExists))
                } else {
                    (
                        self.change_hooks(
                            ConfigModel {
                                pre_execution_hooks: config.pre_execution_hooks.push(hook),
                                ..config
                            },
                            Event::HookRegistered { hook, is_pre: true },
                        ),
                        Ok(()),
                    )
                },
            }
        }
    }

    /// What removing a hook to call before executions leaves behind.
    pub open spec fn drop_pre_hook(self, admin: Address, hook: Address) -> Outcome<()> {
        if self.role(admin) != Role::Admin {
            (self, Err(VaultError::Unauthorized))
        } else {
            match self.config() {
                Err(error) => (self, Err(error)),
                Ok(config) => match crate::primitives::first_index(
                    config.pre_execution_hooks,
                    hook,
                ) {
                    None => (self, Err(VaultError::SignerNotFound)),
                    Some(i) => (
                        self.change_hooks(
                            ConfigModel {
                                pre_execution_hooks: config.pre_execution_hooks.remove(i),
                                ..config
                            },
                            Event::HookRemoved { hook, is_pre: true },
                        ),
                        Ok(()),
                    ),
                },
            }
        }
    }

    /// What registering a hook to call after executions leaves behind.
    pub open spec fn add_post_hook(self, admin: Address, hook: Address) -> Outcome<()> {
        if self.role(admin) != Role::Admin {
            (self, Err(VaultError::Unauthorized))
        } else {
            match self.config() {
                Err(error) => (self, Err(error)),
                Ok(config) => if config.post_execution_hooks.contains(hook) {
                    (self, Err(VaultError::SignerAlreadyExists))
                } else {
                    (
                        self.change_hooks(
                            ConfigModel {
                                post_execution_hooks: config.post_execution_hooks.push(hook),
                                ..config
                            },
                            Event::HookRegistered { hook, is_pre: false },
                        ),
                        Ok(()),
                    )
                },
            }
        }
    }

    /// What removing a hook to call after executions leaves behind.
    pub open spec fn drop_post_hook(self, admin: Address, hook: Address) -> Outcome<()> {
        if self.role(admin) != Role::Admin {
            (self, Err(VaultError::Unauthorized))
        } else {
            match self.config() {
                Err(error) => (self, Err(error)),
                Ok(config) => match crate::primitives::first_index(
                    config.post_execution_hooks,
                    hook,
                ) {
                    None => (self, Err(VaultError::SignerNotFound)),
                    Some(i) => (
                        self.change_hooks(
                            ConfigModel {
                                post_execution_hooks: config.post_execution_hooks.remove(i),
                                ..config
                            },
                            Event::HookRemoved { hook, is_pre: false },
                        ),
                        Ok(()),
                    ),
                },
            }
        }
    }
}

/// Stores changed hooks and publishes the change.
fn change_hooks(env: &mut Env, config: &Config, event: Event)
    ensures
        final(env)@ == old(env)@.change_hooks(config@, event),
{
    storage::set_config(env, config);
    storage::extend_instance_ttl(env);
    env.publish(event);
}

impl VaultDAO {
    /// Registers a hook to call before executions. Only admins may.
    pub fn register_pre_hook(env: &mut Env, admin: Address, hook: Address) -> (r: Result<
        (),
        VaultError,
    >)
        requires
            old(env)@.authorized(admin),
        ensures
            (final(env)@, r) == old(env)@.add_pre_hook(admin, hook),
    {
        if storage::get_role(env, &admin) != Role::Admin {
            return Err(VaultError::Unauthorized);
        }
        let mut config = storage::get_config(env)?;
        if list_contains(&config.pre_execution_hooks, &hook) {
            return Err(VaultError::SignerAlreadyExists);
        }
        config.pre_execution_hooks.push(hook);
        change_hooks(env, &config, Event::HookRegistered { hook, is_pre: true });
        Ok(())
    }

    /// Removes a hook to call before executions. Only admins may.
    pub fn remove_pre_hook(env: &mut Env, admin: Address, hook: Address) -> (r: Result<
        (),
        VaultError,
    >)
        requires
            old(env)@.authorized(admin),
        ensures
            (final(env)@, r) == old(env)@.drop_pre_hook(admin, hook),
    {
        if storage::get_role(env, &admin) != Role::Admin {
            return Err(VaultError::Unauthorized);
        }
        let mut config = storage::get_config(env)?;
        let found = match list_position(&config.pre_execution_hooks, &hook) {
            Some(index) => index,
            None => return Err(VaultError::SignerNotFound),
        };
        let _ = config.pre_execution_hooks.remove(found);
        change_hooks(env, &config, Event::HookRemoved { hook, is_pre: true });
        Ok(())
    }

    /// The hooks to call before executions.
    pub fn get_pre_hooks(env: &Env) -> (r: Result<Vec<Address>, VaultError>)
        ensures
            crate::errors::res_view(r) == match env@.config() {
                Ok(config) => Ok::<Seq<Address>, VaultError>(config.pre_execution_hooks),
                Err(error) => Err::<Seq<Address>, VaultError>(error),
            },
    {
        let config = storage::get_config(env)?;
        Ok(config.pre_execution_hooks)
    }

    /// Registers a hook to call after executions. Only admins may.
    pub fn register_post_hook(env: &mut Env, admin: Address, hook: Address) -> (r: Result<
        (),
        VaultError,
    >)
        requires
            old(env)@.authorized(admin),
        ensures
            (final(env)@, r) == old(env)@.add_post_hook(admin, hook),
    {
        if storage::get_role(env, &admin) != Role::Admin {
            return Err(VaultError::Unauthorized);
        }
        let mut config = storage::get_config(env)?;
        if list_contains(&config.post_execution_hooks, &hook) {
            return Err(VaultError::SignerAlreadyExists);
        }
        config.post_execution_hooks.push(hook);
        change_hooks(env, &config, Event::HookRegistered { hook, is_pre: false });
        Ok(())
    }

    /// Removes a hook to call after executions. Only admins may.
    pub fn remove_post_hook(env: &mut Env, admin: Address, hook: Address) -> (r: Result<
        (),
        VaultError,
    >)
        requires
            old(env)@.authorized(admin),
        ensures
            (final(env)@, r) == old(env)@.drop_post_hook(admin, hook),
    {
        if storage::get_role(env, &admin) != Role::Admin {
            return Err(VaultError::Unauthorized);
        }
        let mut config = storage::get_config(env)?;
        let found = match list_position(&config.post_execution_hooks, &hook) {
            Some(index) => index,
            None => return Err(VaultError::SignerNotFound),
        };
        let _ = config.post_execution_hooks.remove(found);
        change_hooks(env, &config, Event::HookRemoved { hook, is_pre: false });
        Ok(())
    }

    /// The hooks to call after executions.
    pub fn get_post_hooks(env: &Env) -> (r: Result<Vec<Address>, VaultError>)
        ensures
            crate::errors::res_view(r) == match env@.config() {
                Ok(config) => Ok::<Seq<Address>, VaultError>(config.post_execution_hooks),
                Err(error) => Err::<Seq<Address>, VaultError>(error),
            },
    {
        let config = storage::get_config(env)?;
        Ok(config.post_execution_hooks)
    }
}

} // verus!
