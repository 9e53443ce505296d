//! Token locks: tokens that an owner sets aside for a time and that give voting power
//! meanwhile.

use vstd::prelude::*;

use crate::env::{Action, Env, EnvModel, Event};
use crate::errors::VaultError;
use crate::math::{divide, sat_mul};
use crate::primitives::Address;
use crate::proposals::Outcome;
use crate::storage;
use crate::types::{Role, TimeWeightedConfig, TokenLock};
use crate::VaultDAO;

verus! {

/// Ledgers of a day.
pub const LEDGERS_PER_DAY: u64 = 17_280;

impl TokenLock {
    /// The multiplier of a lock's power in basis points: the longer a lock lasts, the more its
    /// tokens count.
    pub open spec fn spec_multiplier(duration: u64) -> u32 {
        if duration < 30 * LEDGERS_PER_DAY {
            10_000
        } else if duration < 90 * LEDGERS_PER_DAY {
            15_000
        } else if duration < 180 * LEDGERS_PER_DAY {
            20_000
        } else if duration <= 365 * LEDGERS_PER_DAY {
            30_000
        } else {
            40_000
        }
    }

    /// The multiplier of a lock's power in basis points.
    #[verifier::when_used_as_spec(spec_multiplier)]
    pub fn calculate_multiplier(duration: u64) -> (r: u32)
        ensures
            r == TokenLock::spec_multiplier(duration),
    {
        if duration < 30 * LEDGERS_PER_DAY {
            10_000
        } else if duration < 90 * LEDGERS_PER_DAY {
            15_000
        } else if duration < 180 * LEDGERS_PER_DAY {
            20_000
        } else if duration <= 365 * LEDGERS_PER_DAY {
            30_000
        } else {
            40_000
        }
    }

    /// Ledgers that the lock still lasts.
    pub open spec fn remaining(self, now: u64) -> int {
        crate::math::max_int(self.unlock_at - now, 0)
    }

    /// What unlocking the lock early costs.
    pub open spec fn penalty(self, penalty_bps: u32) -> int {
        crate::math::quotient(self.amount * penalty_bps, 10_000)
    }

    /// The lock when it lasts some ledgers from now on.
    pub open spec fn lasting(self, duration: u64, now: u64) -> TokenLock {
        TokenLock {
            unlock_at: (now + duration) as u64,
            duration,
            power_multiplier_bps: TokenLock::spec_multiplier(duration),
            ..self
        }
    }
}

impl EnvModel {
    /// The active lock of an address, or why there is none to change.
    pub open spec fn active_lock(self, owner: Address) -> Result<TokenLock, VaultError> {
        if !self.time_weighted().enabled {
            Err(VaultError::Unauthorized)
        } else {
            match self.token_lock(owner) {
                None => Err(VaultError::ProposalNotFound),
                Some(lock) => if !lock.is_active {
                    Err(VaultError::ProposalNotPending)
                } else {
                    Ok(lock)
                },
            }
        }
    }

    /// Why tokens cannot be locked, if they cannot.
    pub open spec fn lock_refusal(self, owner: Address, amount: i128, duration: u64) -> Option<
        VaultError,
    > {
        let config = self.time_weighted();
        if !config.enabled {
            Some(VaultError::Unauthorized)
        } else if amount <= 0 || duration < config.min_lock_duration || duration
            > config.max_lock_duration {
            Some(VaultError::InvalidAmount)
        } else if self.token_lock(owner) matches Some(lock) && lock.is_active {
            Some(VaultError::AlreadyApproved)
        } else {
            None
        }
    }

    /// What locking tokens leaves behind.
    pub open spec fn lock_tokens(
        self,
        owner: Address,
        token: Address,
        amount: i128,
        duration: u64,
    ) -> Outcome<()> {
        let multiplier_bps = TokenLock::spec_multiplier(duration);
        match self.lock_refusal(owner, amount, duration) {
            Some(error) => (self, Err(error)),
            None => (
                self.act(Action::TransferToVault { token, from: owner, amount }).with_token_lock(
                    TokenLock {
                        owner,
                        token,
                        amount,
                        locked_at: self.now(),
                        duration,
                        unlock_at: (self.now() + duration) as u64,
                        is_active: true,
                        power_multiplier_bps: multiplier_bps,
                    },
                ).with_total_locked(owner, amount).act(Action::ExtendInstanceTtl).publish(
                    Event::TokensLocked { owner, amount, duration, multiplier_bps },
                ),
                Ok(()),
            ),
        }
    }

    /// What extending a lock leaves behind.
    pub open spec fn extend_lock(self, owner: Address, additional: u64) -> Outcome<()> {
        match self.active_lock(owner) {
            Err(error) => (self, Err(error)),
            Ok(lock) => {
                let duration = lock.remaining(self.now()) + additional;
                if duration > self.time_weighted().max_lock_duration {
                    (self, Err(VaultError::InvalidAmount))
                } else {
                    (
                        self.with_token_lock(lock.lasting(duration as u64, self.now())).act(
                            Action::ExtendInstanceTtl,
                        ).publish(
                            Event::LockExtended {
                                owner,
                                duration: duration as u64,
                                multiplier_bps: TokenLock::spec_multiplier(duration as u64),
                            },
                        ),
                        Ok(()),
                    )
                }
            },
        }
    }

    /// The state after a lock was ended.
    pub open spec fn end_lock(self, owner: Address, lock: TokenLock) -> EnvModel {
        self.with_token_lock(TokenLock { is_active: false, ..lock }).with_total_locked(
            owner,
            0,
        ).act(Action::ExtendInstanceTtl)
    }

    /// What unlocking tokens leaves behind.
    pub open spec fn unlock_tokens(self, owner: Address) -> Outcome<i128> {
        match self.active_lock(owner) {
            Err(error) => (self, Err(error)),
            Ok(lock) => if self.now() < lock.unlock_at {
                (self, Err(VaultError::TimelockNotExpired))
            } else {
                (
                    self.act(
                        Action::Transfer { token: lock.token, to: owner, amount: lock.amount },
                    ).end_lock(owner, lock).publish(
                        Event::TokensUnlocked { owner, amount: lock.amount },
                    ),
                    Ok(lock.amount),
                )
            },
        }
    }

    /// What unlocking tokens early leaves behind: the penalty goes to the insurance pool, the
    /// remainder back to the owner.
    pub open spec fn unlock_early(self, owner: Address) -> Outcome<i128> {
        match self.active_lock(owner) {
            Err(error) => (self, Err(error)),
            Ok(lock) => if self.now() >= lock.unlock_at {
                self.unlock_tokens(owner)
            } else {
                let penalty = lock.penalty(self.time_weighted().early_unlock_penalty_bps) as i128;
                let returned = (lock.amount - penalty) as i128;
                let paid = self.act(
                    Action::Transfer { token: lock.token, to: owner, amount: returned },
                );
                let pooled = if penalty > 0 {
                    paid.insurance_pool_add(lock.token, penalty)
                } else {
                    paid
                };
                (
                    pooled.end_lock(owner, lock).publish(
                        Event::EarlyUnlock { owner, returned, penalty },
                    ),
                    Ok(returned),
                )
            },
        }
    }

    /// What setting the token lock rules leaves behind.
    pub open spec fn change_time_weighted(self, admin: Address, config: TimeWeightedConfig) -> 
        Outcome<()> {
        if self.role(admin) != Role::Admin {
            (self, Err(VaultError::InsufficientRole))
        } else {
            (self.with_time_weighted(config).act(Action::ExtendInstanceTtl), Ok(()))
        }
    }

    /// Whether there is a ledger at which a new lock, where it is allowed, ends.
    pub open spec fn lock_fits(self, owner: Address, amount: i128, duration: u64) -> bool {
        self.lock_refusal(owner, amount, duration) is None ==> self.now() + duration <= u64::MAX
    }

    /// Whether there is a ledger at which a lock, once extended, ends.
    pub open spec fn extension_fits(self, owner: Address, additional: u64) -> bool {
        self.active_lock(owner) matches Ok(lock) ==> {
            let duration = lock.remaining(self.now()) + additional;
            &&& duration <= u64::MAX
            &&& duration <= self.time_weighted().max_lock_duration ==> self.now() + duration
                <= u64::MAX
        }
    }

    /// Whether the penalty of a lock can be computed and pooled.
    pub open spec fn penalty_fits(self, owner: Address) -> bool {
        self.active_lock(owner) matches Ok(lock) ==> (self.now() < lock.unlock_at ==> {
            let penalty = lock.penalty(self.time_weighted().early_unlock_penalty_bps);
            &&& lock.amount > 0
            &&& crate::math::fits_i128(
                lock.amount * self.time_weighted().early_unlock_penalty_bps,
            )
            &&& crate::math::fits_i128(self.insurance_pool(lock.token) + penalty)
        })
    }
}

/// A longer lock never counts less.
pub proof fn law_longer_locks_count_more(shorter: u64, longer: u64)
    requires
        shorter <= longer,
    ensures
        TokenLock::spec_multiplier(shorter) <= TokenLock::spec_multiplier(longer),
{
}

/// What an early unlock returns and what it adds to the insurance pool are together what was
/// locked, and the owner gets no more than that, while the penalty is at most the whole.
pub proof fn law_early_unlocks_balance(env: EnvModel, owner: Address)
    requires
        env.penalty_fits(owner),
        env.time_weighted().early_unlock_penalty_bps <= 10_000,
        env.active_lock(owner) matches Ok(lock) && env.now() < lock.unlock_at,
    ensures
        ({
            let lock = env.active_lock(owner)->Ok_0;
            let after = env.unlock_early(owner).0;
            &&& env.unlock_early(owner).1 matches Ok(returned) && 0 <= returned <= lock.amount
            &&& after.insurance_pool(lock.token) == env.insurance_pool(lock.token) + lock.amount
                - env.unlock_early(owner).1->Ok_0
        }),
{
    let amount = env.active_lock(owner)->Ok_0.amount as int;
    let bps = env.time_weighted().early_unlock_penalty_bps as int;
    assert(0 <= amount * bps <= amount * 10_000) by (nonlinear_arith)
        requires
            0 < amount,
            0 <= bps <= 10_000,
    ;
}

/// Tokens that were locked come back in full once the lock has expired, and only once.
pub proof fn law_expired_locks_pay_back_once(
    before: EnvModel,
    at_expiry: EnvModel,
    owner: Address,
    token: Address,
    amount: i128,
    duration: u64,
)
    requires
        before.lock_fits(owner, amount, duration),
        before.lock_tokens(owner, token, amount, duration).1 is Ok,
        at_expiry.members == before.lock_tokens(owner, token, amount, duration).0.members,
        at_expiry.now() >= before.now() + duration,
    ensures
        at_expiry.unlock_tokens(owner).1 == Ok::<i128, VaultError>(amount),
        at_expiry.unlock_tokens(owner).0.unlock_tokens(owner).1 == Err::<i128, _>(
            VaultError::ProposalNotPending,
        ),
{
}

/// The active lock of an address.
pub(crate) fn get_active_lock(env: &Env, owner: &Address) -> (r: Result<TokenLock, VaultError>)
    ensures
        r == env@.active_lock(*owner),
{
    if !storage::get_time_weighted_config(env).enabled {
        return Err(VaultError::Unauthorized);
    }
    let lock = match storage::get_token_lock(env, owner) {
        Some(lock) => lock,
        None => return Err(VaultError::ProposalNotFound),
    };
    if !lock.is_active {
        return Err(VaultError::ProposalNotPending);
    }
    Ok(lock)
}

/// Ends a lock.
fn end_lock(env: &mut Env, owner: &Address, lock: TokenLock)
    ensures
        final(env)@ == old(env)@.end_lock(*owner, lock),
{
    let mut ended = lock;
    ended.is_active = false;
    storage::set_token_lock(env, &ended);
    storage::set_total_locked(env, owner, 0);
    storage::extend_instance_ttl(env);
}

impl VaultDAO {
    /// Locks tokens for a number of ledgers. An address has at most one active lock.
    pub fn lock_tokens(
        env: &mut Env,
        owner: Address,
        token: Address,
        amount: i128,
        duration: u64,
    ) -> (r: Result<(), VaultError>)
        requires
            old(env)@.authorized(owner),
            old(env)@.lock_fits(owner, amount, duration),
        ensures
            (final(env)@, r) == old(env)@.lock_tokens(owner, token, amount, duration),
    {
        let config = storage::get_time_weighted_config(env);
        if !config.enabled {
            return Err(VaultError::Unauthorized);
        }
        if amount <= 0 {
            return Err(VaultError::InvalidAmount);
        }
        if duration < config.min_lock_duration || duration > config.max_lock_duration {
            return Err(VaultError::InvalidAmount);
        }
        if let Some(existing) = storage::get_token_lock(env, &owner) {
            if existing.is_active {
                return Err(VaultError::AlreadyApproved);
            }
        }
        env.act(Action::TransferToVault { token, from: owner, amount });
        let current_ledger: u64 = env.now();
        let power_multiplier_bps: u32 = TokenLock::calculate_multiplier(duration);
        let lock = TokenLock {
            owner,
            token,
            amount,
            locked_at: current_ledger,
            duration,
            unlock_at: current_ledger + duration,
            is_active: true,
            power_multiplier_bps,
        };
        storage::set_token_lock(env, &lock);
        storage::set_total_locked(env, &owner, amount);
        storage::extend_instance_ttl(env);
        env.publish(
            Event::TokensLocked { owner, amount, duration, multiplier_bps: power_multiplier_bps },
        );
        Ok(())
    }

    /// Extends an active lock: the additional ledgers are added to those that it still lasts.
    pub fn extend_lock(env: &mut Env, owner: Address, additional_duration: u64) -> (r: Result<
        (),
        VaultError,
    >)
        requires
            old(env)@.authorized(owner),
            old(env)@.extension_fits(owner, additional_duration),
        ensures
            (final(env)@, r) == old(env)@.extend_lock(owner, additional_duration),
    {
        let mut lock = get_active_lock(env, &owner)?;
        let config = storage::get_time_weighted_config(env);
        let current_ledger: u64 = env.now();
        let remaining: u64 = lock.unlock_at.saturating_sub(current_ledger);
        let duration: u64 = remaining + additional_duration;
        if duration > config.max_lock_duration {
            return Err(VaultError::InvalidAmount);
        }
        lock.unlock_at = current_ledger + duration;
        lock.duration = duration;
        lock.power_multiplier_bps = TokenLock::calculate_multiplier(duration);
        storage::set_token_lock(env, &lock);
        storage::extend_instance_ttl(env);
        env.publish(
            Event::LockExtended { owner, duration, multiplier_bps: lock.power_multiplier_bps },
        );
        Ok(())
    }

    /// Unlocks tokens before their lock expires, at the cost of a penalty that goes to the
    /// insurance pool. A lock that has expired is unlocked without one.
    pub fn unlock_early(env: &mut Env, owner: Address) -> (r: Result<i128, VaultError>)
        requires
            old(env)@.authorized(owner),
            old(env)@.penalty_fits(owner),
        ensures
            (final(env)@, r) == old(env)@.unlock_early(owner),
    {
        let lock = get_active_lock(env, &owner)?;
        let config = storage::get_time_weighted_config(env);
        if env.now() >= lock.unlock_at {
            return Self::unlock_tokens(env, owner);
        }
        let penalty: i128 = divide(
            sat_mul(lock.amount, config.early_unlock_penalty_bps as i128),
            10_000,
        );
        assert(lock.amount * config.early_unlock_penalty_bps >= 0) by (nonlinear_arith)
            requires
                lock.amount > 0,
        ;
        let returned: i128 = lock.amount - penalty;
        env.act(Action::Transfer { token: lock.token, to: owner, amount: returned });
        if penalty > 0 {
            storage::add_to_insurance_pool(env, &lock.token, penalty);
        }
        end_lock(env, &owner, lock);
        env.publish(Event::EarlyUnlock { owner, returned, penalty });
        Ok(returned)
    }

    /// Unlocks tokens whose lock has expired: all of them go back to their owner.
    pub fn unlock_tokens(env: &mut Env, owner: Address) -> (r: Result<i128, VaultError>)
        requires
            old(env)@.authorized(owner),
        ensures
            (final(env)@, r) == old(env)@.unlock_tokens(owner),
    {
        let lock = get_active_lock(env, &owner)?;
        if env.now() < lock.unlock_at {
            return Err(VaultError::TimelockNotExpired);
        }
        env.act(Action::Transfer { token: lock.token, to: owner, amount: lock.amount });
        end_lock(env, &owner, lock);
        env.publish(Event::TokensUnlocked { owner, amount: lock.amount });
        Ok(lock.amount)
    }

    /// The token lock of an address.
    pub fn get_token_lock(env: &Env, owner: Address) -> (r: Option<TokenLock>)
        ensures
            r == env@.token_lock(owner),
    {
        storage::get_token_lock(env, &owner)
    }

    /// The voting power of an address.
    pub fn get_voting_power(env: &Env, owner: Address) -> (r: i128)
        ensures
            r == env@.voting_power(owner),
    {
        storage::calculate_voting_power(env, &owner)
    }

    /// Sets the token lock rules. Only admins may.
    pub fn set_time_weighted_config(env: &mut Env, admin: Address, config: TimeWeightedConfig) -> (r:
        Result<(), VaultError>)
        requires
            old(env)@.authorized(admin),
        ensures
            (final(env)@, r) == old(env)@.change_time_weighted(admin, config),
    {
        if storage::get_role(env, &admin) != Role::Admin {
            return Err(VaultError::InsufficientRole);
        }
        storage::set_time_weighted_config(env, &config);
        storage::extend_instance_ttl(env);
        Ok(())
    }

    /// The token lock rules.
    pub fn get_time_weighted_config(env: &Env) -> (r: TimeWeightedConfig)
        ensures
            r == env@.time_weighted(),
    {
        storage::get_time_weighted_config(env)
    }
}

} // verus!
