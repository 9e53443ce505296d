//! Recurring payments.

use vstd::prelude::*;

use crate::constants::MIN_RECURRING_INTERVAL;
use crate::env::{Action, Env, EnvModel};
use crate::errors::VaultError;
use crate::math::sum_exceeds;
use crate::primitives::{Address, Symbol};
use crate::proposals::Outcome;
use crate::storage;
use crate::types::{RecurringPayment, Role};
use crate::VaultDAO;

verus! {

impl EnvModel {
    /// Why a recurring payment cannot be scheduled, if it cannot.
    pub open spec fn schedule_payment_refusal(
        self,
        proposer: Address,
        recipient: Address,
        amount: i128,
        interval: u64,
    ) -> Option<VaultError> {
        if !self.may_propose(proposer) {
            Some(VaultError::InsufficientRole)
        } else if amount <= 0 {
            Some(VaultError::InvalidAmount)
        } else if let Some(error) = self.recipient_refusal(recipient) {
            Some(error)
        } else if interval < MIN_RECURRING_INTERVAL {
            Some(VaultError::IntervalTooShort)
        } else {
            None
        }
    }

    /// Whether there is a ledger at which a new recurring payment, where it is allowed, is due.
    pub open spec fn schedule_fits(
        self,
        proposer: Address,
        recipient: Address,
        amount: i128,
        interval: u64,
    ) -> bool {
        &&& self.has_room()
        &&& self.schedule_payment_refusal(proposer, recipient, amount, interval) is None
            ==> self.now() + interval <= u64::MAX
    }

    /// What scheduling a recurring payment leaves behind.
    pub open spec fn schedule_payment(
        self,
        proposer: Address,
        recipient: Address,
        token: Address,
        amount: i128,
        memo: Symbol,
        interval: u64,
    ) -> Outcome<u64> {
        let id = self.payments.next_recurring_id;
        match self.schedule_payment_refusal(proposer, recipient, amount, interval) {
            Some(error) => (self, Err(error)),
            None => (
                self.bump_next_recurring_id().with_recurring(
                    RecurringPayment {
                        id,
                        proposer,
                        recipient,
                        token,
                        amount,
                        memo,
                        interval,
                        next_payment_ledger: (self.now() + interval) as u64,
                        payment_count: 0,
                        is_active: true,
                    },
                ),
                Ok(id),
            ),
        }
    }

    /// Why a recurring payment cannot be made at present, whatever the vault holds, if it
    /// cannot.
    pub open spec fn recurring_block(self, payment: RecurringPayment) -> Option<VaultError> {
        if !payment.is_active {
            Some(VaultError::ProposalNotFound)
        } else if self.now() < payment.next_payment_ledger {
            Some(VaultError::TimelockNotExpired)
        } else {
            match self.config() {
                Err(error) => Some(error),
                Ok(config) => if self.daily_spent(self.day_number()) + payment.amount
                    > config.daily_limit {
                    Some(VaultError::ExceedsDailyLimit)
                } else if self.weekly_spent(self.week_number()) + payment.amount
                    > config.weekly_limit {
                    Some(VaultError::ExceedsWeeklyLimit)
                } else {
                    None
                },
            }
        }
    }

    /// Why a recurring payment cannot be made, given the vault's balance, if it cannot.
    pub open spec fn recurring_refusal(self, payment: RecurringPayment, balance: i128) -> Option<
        VaultError,
    > {
        match self.recurring_block(payment) {
            Some(error) => Some(error),
            None => if balance < payment.amount {
                Some(VaultError::InsufficientBalance)
            } else {
                self.recipient_refusal(payment.recipient)
            },
        }
    }

    /// What making a recurring payment leaves behind, given the vault's balance. The payment
    /// counts towards the limits of the day and the week.
    pub open spec fn pay_recurring(self, payment_id: u64, balance: i128) -> Outcome<()> {
        match self.recurring(payment_id) {
            Err(error) => (self, Err(error)),
            Ok(payment) => match self.recurring_refusal(payment, balance) {
                Some(error) => (self, Err(error)),
                None => (
                    self.act(
                        Action::Transfer {
                            token: payment.token,
                            to: payment.recipient,
                            amount: payment.amount,
                        },
                    ).reserve_spending(payment.amount).with_recurring(
                        RecurringPayment {
                            next_payment_ledger: (payment.next_payment_ledger
                                + payment.interval) as u64,
                            payment_count: (payment.payment_count + 1) as u32,
                            ..payment
                        },
                    ).act(Action::ExtendInstanceTtl),
                    Ok(()),
                ),
            },
        }
    }

    /// What stopping a recurring payment leaves behind.
    pub open spec fn stop_recurring(self, caller: Address, payment_id: u64) -> Outcome<()> {
        match self.recurring(payment_id) {
            Err(error) => (self, Err(error)),
            Ok(payment) => if caller != payment.proposer && self.role(caller) != Role::Admin {
                (self, Err(VaultError::Unauthorized))
            } else {
                (
                    self.with_recurring(RecurringPayment { is_active: false, ..payment }).act(
                        Action::ExtendInstanceTtl,
                    ),
                    Ok(()),
                )
            },
        }
    }
}

/// A recurring payment that was stopped is never made again.
pub proof fn law_stopped_payments_are_refused(
    env: EnvModel,
    caller: Address,
    payment_id: u64,
    balance: i128,
)
    requires
        env.stop_recurring(caller, payment_id).1 is Ok,
        env.recurring(payment_id) matches Ok(p) && p.id == payment_id,
    ensures
        env.stop_recurring(caller, payment_id).0.pay_recurring(payment_id, balance) == (
            env.stop_recurring(caller, payment_id).0,
            Err::<(), VaultError>(VaultError::ProposalNotFound),
        ),
{
}

impl VaultDAO {
    /// Schedules a recurring payment. Treasurers and admins may.
    pub fn schedule_payment(
        env: &mut Env,
        proposer: Address,
        recipient: Address,
        token_addr: Address,
        amount: i128,
        memo: Symbol,
        interval: u64,
    ) -> (r: Result<u64, VaultError>)
        requires
            old(env)@.authorized(proposer),
            old(env)@.schedule_fits(proposer, recipient, amount, interval),
        ensures
            (final(env)@, r) == old(env)@.schedule_payment(
                proposer,
                recipient,
                token_addr,
                amount,
                memo,
                interval,
            ),
    {
        let role = storage::get_role(env, &proposer);
        if role != Role::Treasurer && role != Role::Admin {
            return Err(VaultError::InsufficientRole);
        }
        if amount <= 0 {
            return Err(VaultError::InvalidAmount);
        }
        Self::validate_recipient(env, &recipient)?;
        if interval < MIN_RECURRING_INTERVAL {
            return Err(VaultError::IntervalTooShort);
        }
        let current_ledger: u64 = env.now();
        let id: u64 = storage::increment_recurring_id(env);
        let payment = RecurringPayment {
            id,
            proposer,
            recipient,
            token: token_addr,
            amount,
            memo,
            interval,
            next_payment_ledger: current_ledger + interval,
            payment_count: 0,
            is_active: true,
        };
        storage::set_recurring_payment(env, &payment);
        Ok(id)
    }

    /// Decides whether a recurring payment is due and within the limits of the day and the week.
    pub fn start_recurring_payment(env: &Env, payment_id: u64) -> (r: Result<
        RecurringPayment,
        VaultError,
    >)
        ensures
            match env@.recurring(payment_id) {
                Err(error) => r == Err::<RecurringPayment, VaultError>(error),
                Ok(payment) => match env@.recurring_block(payment) {
                    Some(error) => r == Err::<RecurringPayment, VaultError>(error),
                    None => r == Ok::<RecurringPayment, VaultError>(payment),
                },
            },
    {
        let payment = storage::get_recurring_payment(env, payment_id)?;
        if !payment.is_active {
            return Err(VaultError::ProposalNotFound);
        }
        if env.now() < payment.next_payment_ledger {
            return Err(VaultError::TimelockNotExpired);
        }
        let config = storage::get_config(env)?;
        let spent_today: i128 = storage::get_daily_spent(env, storage::get_day_number(env));
        if sum_exceeds(spent_today, payment.amount, config.daily_limit) {
            return Err(VaultError::ExceedsDailyLimit);
        }
        let spent_week: i128 = storage::get_weekly_spent(env, storage::get_week_number(env));
        if sum_exceeds(spent_week, payment.amount, config.weekly_limit) {
            return Err(VaultError::ExceedsWeeklyLimit);
        }
        Ok(payment)
    }

    /// Makes a recurring payment that is due, given the vault's balance of its token. Anyone
    /// may.
    pub fn execute_recurring_payment(env: &mut Env, payment_id: u64, balance: i128) -> (r: Result<
        (),
        VaultError,
    >)
        requires
            old(env)@.recurring_fits(payment_id),
        ensures
            (final(env)@, r) == old(env)@.pay_recurring(payment_id, balance),
    {
        let mut payment = Self::start_recurring_payment(env, payment_id)?;
        let today: u64 = storage::get_day_number(env);
        let week: u64 = storage::get_week_number(env);
        if balance < payment.amount {
            return Err(VaultError::InsufficientBalance);
        }
        Self::validate_recipient(env, &payment.recipient)?;
        env.act(
            Action::Transfer {
                token: payment.token,
                to: payment.recipient,
                amount: payment.amount,
            },
        );
        storage::add_daily_spent(env, today, payment.amount);
        storage::add_weekly_spent(env, week, payment.amount);
        payment.next_payment_ledger = payment.next_payment_ledger + payment.interval;
        payment.payment_count = payment.payment_count + 1;
        storage::set_recurring_payment(env, &payment);
        storage::extend_instance_ttl(env);
        Ok(())
    }

    /// The recurring payment with an identifier.
    pub fn get_recurring_payment(env: &Env, payment_id: u64) -> (r: Result<
        RecurringPayment,
        VaultError,
    >)
        ensures
            r == env@.recurring(payment_id),
    {
        storage::get_recurring_payment(env, payment_id)
    }

    /// A page of recurring payments in ascending order, by identifier: up to `limit`, and at
    /// most 100, after the first `offset`.
    pub fn list_recurring_payment_ids(env: &mut Env, offset: u64, limit: u64) -> (r: Vec<u64>)
        ensures
            r@ == crate::storage::page(
                old(env)@.recurring_ids(),
                offset as int,
                crate::math::min_int(limit as int, 100),
            ),
            final(env)@ == old(env)@.act(Action::ExtendInstanceTtl),
    {
        storage::extend_instance_ttl(env);
        storage::get_recurring_payment_ids_paginated(env, offset, limit)
    }

    /// A page of recurring payments in ascending order: up to `limit`, and at most 50, after
    /// the first `offset`.
    pub fn list_recurring_payments(env: &mut Env, offset: u64, limit: u64) -> (r: Vec<
        RecurringPayment,
    >)
        ensures
            r@ == crate::storage::page(
                old(env)@.recurring_ids(),
                offset as int,
                crate::math::min_int(limit as int, 50),
            ).map_values(|id: u64| old(env)@.payments.recurring[id]),
            final(env)@ == old(env)@.act(Action::ExtendInstanceTtl),
    {
        storage::extend_instance_ttl(env);
        storage::get_recurring_payments_paginated(env, offset, limit)
    }

    /// Stops a recurring payment. Its proposer and admins may.
    pub fn stop_recurring_payment(env: &mut Env, caller: Address, payment_id: u64) -> (r: Result<
        (),
        VaultError,
    >)
        requires
            old(env)@.authorized(caller),
        ensures
            (final(env)@, r) == old(env)@.stop_recurring(caller, payment_id),
    {
        let mut payment = storage::get_recurring_payment(env, payment_id)?;
        if caller != payment.proposer && storage::get_role(env, &caller) != Role::Admin {
            return Err(VaultError::Unauthorized);
        }
        payment.is_active = false;
        storage::set_recurring_payment(env, &payment);
        storage::extend_instance_ttl(env);
        Ok(())
    }
}

} // verus!
