//! Reputation, notification preferences, insurance, cost and stakes as seen from outside.

use vstd::prelude::*;

use crate::env::{Action, Env, EnvModel, Event};
use crate::errors::VaultError;
use crate::primitives::Address;
use crate::proposals::Outcome;
use crate::reputation::current_reputation;
use crate::storage;
use crate::types::{
    ExecutionFeeEstimate, GasConfig, InsuranceConfig, NotificationPreferences, Reputation,
    ReputationConfig, Role, StakeRecord, StakingConfig, VaultMetrics,
};
use crate::VaultDAO;

verus! {

impl EnvModel {
    /// What changing the insurance rules leaves behind.
    pub open spec fn change_insurance(self, admin: Address, rules: InsuranceConfig) -> Outcome<()> {
        if self.role(admin) != Role::Admin {
            (self, Err(VaultError::Unauthorized))
        } else {
            (
                self.with_insurance_config(rules).act(Action::ExtendInstanceTtl).publish(
                    Event::InsuranceConfigUpdated { admin },
                ),
                Ok(()),
            )
        }
    }

    /// What changing the execution cost model leaves behind.
    pub open spec fn change_gas(self, admin: Address, rules: GasConfig) -> Outcome<()> {
        if self.role(admin) != Role::Admin {
            (self, Err(VaultError::Unauthorized))
        } else {
            (
                self.with_gas_config(rules).act(Action::ExtendInstanceTtl).publish(
                    Event::GasConfigUpdated { admin },
                ),
                Ok(()),
            )
        }
    }

    /// What changing the decay of reputation leaves behind.
    pub open spec fn change_reputation_config(self, admin: Address, rules: ReputationConfig) -> 
        Outcome<()> {
        if self.role(admin) != Role::Admin {
            (self, Err(VaultError::Unauthorized))
        } else {
            (
                self.with_reputation_config(rules).act(Action::ExtendInstanceTtl).publish(
                    Event::ReputationConfigUpdated { admin },
                ).publish(Event::ConfigUpdated { admin }),
                Ok(()),
            )
        }
    }

    /// What estimating the cost of a proposal leaves behind.
    pub open spec fn estimate(self, proposal_id: u64) -> Outcome<ExecutionFeeEstimate> {
        match self.proposal(proposal_id) {
            Err(error) => (self, Err(error)),
            Ok(proposal) => (self.estimate_cost(proposal), Ok(self.execution_fee(proposal))),
        }
    }
}

impl VaultDAO {
    /// Changes the insurance rules. Only admins may.
    pub fn set_insurance_config(env: &mut Env, admin: Address, config: InsuranceConfig) -> (r: Result<
        (),
        VaultError,
    >)
        requires
            old(env)@.authorized(admin),
        ensures
            (final(env)@, r) == old(env)@.change_insurance(admin, config),
    {
        if storage::get_role(env, &admin) != Role::Admin {
            return Err(VaultError::Unauthorized);
        }
        storage::set_insurance_config(env, &config);
        storage::extend_instance_ttl(env);
        env.publish(Event::InsuranceConfigUpdated { admin });
        Ok(())
    }

    /// The insurance rules.
    pub fn get_insurance_config(env: &Env) -> (r: InsuranceConfig)
        ensures
            r == env@.insurance_config(),
    {
        storage::get_insurance_config(env)
    }

    /// The reputation of an address, decayed up to the current ledger and stored.
    pub fn get_reputation(env: &mut Env, addr: Address) -> (r: Reputation)
        ensures
            r == old(env)@.current_reputation(addr),
            final(env)@ == old(env)@.with_reputation(addr, r),
    {
        let rep = current_reputation(env, &addr);
        storage::set_reputation(env, &addr, &rep);
        rep
    }

    /// Approvals, abstentions and votes of an address, and the ledger of its last vote.
    pub fn get_participation(env: &Env, addr: Address) -> (r: (u32, u32, u32, u64))
        ensures
            ({
                let rep = env@.reputation(addr);
                r == (
                    rep.approvals_given,
                    rep.abstentions_given,
                    rep.participation_count,
                    rep.last_participation_ledger,
                )
            }),
    {
        let rep = storage::get_reputation(env, &addr);
        (
            rep.approvals_given,
            rep.abstentions_given,
            rep.participation_count,
            rep.last_participation_ledger,
        )
    }

    /// Stores what an address wants to be notified of.
    pub fn set_notification_preferences(
        env: &mut Env,
        caller: Address,
        prefs: NotificationPreferences,
    ) -> (r: Result<(), VaultError>)
        requires
            old(env)@.authorized(caller),
        ensures
            r == Ok::<(), VaultError>(()),
            final(env)@ == old(env)@.with_notification_prefs(caller, prefs).act(
                Action::ExtendInstanceTtl,
            ).publish(Event::NotificationPrefsUpdated { addr: caller }),
    {
        storage::set_notification_prefs(env, &caller, &prefs);
        storage::extend_instance_ttl(env);
        env.publish(Event::NotificationPrefsUpdated { addr: caller });
        Ok(())
    }

    /// What an address wants to be notified of.
    pub fn get_notification_preferences(env: &Env, addr: Address) -> (r: NotificationPreferences)
        ensures
            r == env@.notification_prefs(addr),
    {
        storage::get_notification_prefs(env, &addr)
    }

    /// Changes the execution cost model. Only admins may.
    pub fn set_gas_config(env: &mut Env, admin: Address, config: GasConfig) -> (r: Result<
        (),
        VaultError,
    >)
        requires
            old(env)@.authorized(admin),
        ensures
            (final(env)@, r) == old(env)@.change_gas(admin, config),
    {
        if storage::get_role(env, &admin) != Role::Admin {
            return Err(VaultError::Unauthorized);
        }
        storage::set_gas_config(env, &config);
        storage::extend_instance_ttl(env);
        env.publish(Event::GasConfigUpdated { admin });
        Ok(())
    }

    /// The execution cost model.
    pub fn get_gas_config(env: &Env) -> (r: GasConfig)
        ensures
            r == env@.gas_config(),
    {
        storage::get_gas_config(env)
    }

    /// Estimates the execution cost of a proposal, and stores and publishes the estimate.
    pub fn estimate_execution_fee(env: &mut Env, proposal_id: u64) -> (r: Result<
        ExecutionFeeEstimate,
        VaultError,
    >)
        ensures
            (final(env)@, r) == old(env)@.estimate(proposal_id),
    {
        let proposal = storage::get_proposal(env, proposal_id)?;
        Ok(Self::persist_execution_fee_estimate(env, &proposal))
    }

    /// The estimated execution cost of a proposal, if it was estimated.
    pub fn get_execution_fee_estimate(env: &Env, proposal_id: u64) -> (r: Option<
        ExecutionFeeEstimate,
    >)
        ensures
            r == env@.fee_estimate(proposal_id),
    {
        storage::get_execution_fee_estimate(env, proposal_id)
    }

    /// Changes the decay of reputation. Only admins may.
    pub fn set_reputation_config(env: &mut Env, admin: Address, config: ReputationConfig) -> (r:
        Result<(), VaultError>)
        requires
            old(env)@.authorized(admin),
        ensures
            (final(env)@, r) == old(env)@.change_reputation_config(admin, config),
    {
        if storage::get_role(env, &admin) != Role::Admin {
            return Err(VaultError::Unauthorized);
        }
        storage::set_reputation_config(env, &config);
        storage::extend_instance_ttl(env);
        env.publish(Event::ReputationConfigUpdated { admin });
        env.publish(Event::ConfigUpdated { admin });
        Ok(())
    }

    /// How reputation decays.
    pub fn get_reputation_config(env: &Env) -> (r: ReputationConfig)
        ensures
            r == env@.reputation_config(),
    {
        storage::get_reputation_config(env)
    }

    /// The vault-wide counters.
    pub fn get_metrics(env: &Env) -> (r: VaultMetrics)
        ensures
            r == env@.metrics(),
    {
        storage::get_metrics(env)
    }

    /// The staking rules.
    pub fn get_staking_config(env: &mut Env) -> (r: StakingConfig)
        ensures
            r == old(env)@.staking_config(),
            final(env)@ == old(env)@.act(Action::ExtendInstanceTtl),
    {
        storage::extend_instance_ttl(env);
        storage::get_staking_config(env)
    }

    /// The stake of a proposal, if it has one.
    pub fn get_stake_record(env: &mut Env, proposal_id: u64) -> (r: Option<StakeRecord>)
        ensures
            r == old(env)@.stake_record(proposal_id),
            final(env)@ == old(env)@.act(Action::ExtendInstanceTtl),
    {
        storage::extend_instance_ttl(env);
        storage::get_stake_record(env, proposal_id)
    }

    /// What the stake pool holds of a token.
    pub fn get_stake_pool_balance(env: &Env, token_addr: Address) -> (r: i128)
        ensures
            r == env@.stake_pool(token_addr),
    {
        storage::get_stake_pool(env, &token_addr)
    }
}

} // verus!
