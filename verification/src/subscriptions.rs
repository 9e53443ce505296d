//! Subscriptions: payments from a subscriber to a provider, period by period.

use vstd::prelude::*;

use crate::env::{Action, Env, EnvModel, Event};
use crate::errors::VaultError;
use crate::primitives::Address;
use crate::proposals::Outcome;
use crate::storage;
use crate::types::{Role, Subscription, SubscriptionStatus, SubscriptionTier};
use crate::VaultDAO;

verus! {

impl Subscription {
    /// The subscription after a renewal.
    pub open spec fn renewed(self, now: u64) -> Subscription {
        Subscription {
            total_payments: (self.total_payments + 1) as u32,
            last_payment_ledger: now,
            next_renewal_ledger: (now + self.interval_ledgers) as u64,
            ..self
        }
    }
}

impl EnvModel {
    /// The state after an amount was passed on from an address to another.
    pub open spec fn pass_on(self, token: Address, from: Address, to: Address, amount: i128) -> 
        EnvModel {
        self.act(Action::TransferToVault { token, from, amount }).act(
            Action::Transfer { token, to, amount },
        )
    }

    /// Whether there is a ledger at which a new subscription, where it is allowed, is renewed.
    pub open spec fn subscription_fits(self, amount: i128, interval: u64) -> bool {
        &&& self.has_room()
        &&& self.is_initialized() && amount > 0 && interval > 0 ==> self.now() + interval
            <= u64::MAX
    }

    /// What creating a subscription leaves behind.
    pub open spec fn create_subscription(
        self,
        subscriber: Address,
        provider: Address,
        tier: SubscriptionTier,
        token: Address,
        amount: i128,
        interval: u64,
        auto_renew: bool,
    ) -> Outcome<u64> {
        let id = self.payments.next_subscription_id;
        if !self.is_initialized() {
            (self, Err(VaultError::NotInitialized))
        } else if amount <= 0 {
            (self, Err(VaultError::InvalidAmount))
        } else if interval == 0 {
            (self, Err(VaultError::IntervalTooShort))
        } else {
            (
                self.pass_on(
                    token,
                    subscriber,
                    provider,
                    amount,
                ).bump_next_subscription_id().with_subscription(
                    Subscription {
                        id,
                        subscriber,
                        service_provider: provider,
                        tier,
                        token,
                        amount_per_period: amount,
                        interval_ledgers: interval,
                        next_renewal_ledger: (self.now() + interval) as u64,
                        created_at: self.now(),
                        status: SubscriptionStatus::Active,
                        total_payments: 1,
                        last_payment_ledger: self.now(),
                        auto_renew,
                    },
                ).subscriber_push(subscriber, id).act(Action::ExtendInstanceTtl).publish(
                    Event::SubscriptionCreated { id, subscriber, tier: tier.spec_code(), amount },
                ),
                Ok(id),
            )
        }
    }

    /// Why a subscription cannot be renewed, if it cannot.
    pub open spec fn renewal_refusal(self, caller: Address, sub: Subscription) -> Option<
        VaultError,
    > {
        if sub.status == SubscriptionStatus::Cancelled {
            Some(VaultError::SubscriptionAlreadyCancelled)
        } else if sub.status != SubscriptionStatus::Active {
            Some(VaultError::SubscriptionNotActive)
        } else if self.now() < sub.next_renewal_ledger {
            Some(VaultError::RenewalNotDue)
        } else if !sub.auto_renew && caller != sub.subscriber {
            Some(VaultError::NotSubscriberOrAdmin)
        } else {
            None
        }
    }

    /// What renewing a subscription leaves behind.
    pub open spec fn renew_subscription(self, caller: Address, id: u64) -> Outcome<()> {
        match self.subscription(id) {
            Err(error) => (self, Err(error)),
            Ok(sub) => match self.renewal_refusal(caller, sub) {
                Some(error) => (self, Err(error)),
                None => (
                    self.pass_on(
                        sub.token,
                        sub.subscriber,
                        sub.service_provider,
                        sub.amount_per_period,
                    ).with_subscription(sub.renewed(self.now())).act(
                        Action::ExtendInstanceTtl,
                    ).publish(
                        Event::SubscriptionRenewed {
                            id,
                            payment_number: sub.renewed(self.now()).total_payments,
                            amount: sub.amount_per_period,
                        },
                    ),
                    Ok(()),
                ),
            },
        }
    }

    /// What cancelling a subscription leaves behind.
    pub open spec fn cancel_subscription(self, caller: Address, id: u64) -> Outcome<()> {
        match self.subscription(id) {
            Err(error) => (self, Err(error)),
            Ok(sub) => if sub.status == SubscriptionStatus::Cancelled {
                (self, Err(VaultError::SubscriptionAlreadyCancelled))
            } else if caller != sub.subscriber && self.role(caller) != Role::Admin {
                (self, Err(VaultError::NotSubscriberOrAdmin))
            } else {
                (
                    self.with_subscription(
                        Subscription { status: SubscriptionStatus::Cancelled, ..sub },
                    ).act(Action::ExtendInstanceTtl).publish(
                        Event::SubscriptionCancelled { id, caller },
                    ),
                    Ok(()),
                )
            },
        }
    }

    /// What changing the tier of a subscription leaves behind. Nothing is paid before the next
    /// renewal.
    pub open spec fn upgrade_subscription(
        self,
        subscriber: Address,
        id: u64,
        tier: SubscriptionTier,
        amount: i128,
    ) -> Outcome<()> {
        match self.subscription(id) {
            Err(error) => (self, Err(error)),
            Ok(sub) => if sub.subscriber != subscriber {
                (self, Err(VaultError::NotSubscriberOrAdmin))
            } else if sub.status != SubscriptionStatus::Active {
                (self, Err(VaultError::SubscriptionNotActive))
            } else if amount <= 0 {
                (self, Err(VaultError::InvalidAmount))
            } else {
                (
                    self.with_subscription(
                        Subscription { tier, amount_per_period: amount, ..sub },
                    ).act(Action::ExtendInstanceTtl).publish(
                        Event::SubscriptionUpgraded {
                            id,
                            old_tier: sub.tier.spec_code(),
                            new_tier: tier.spec_code(),
                            amount,
                        },
                    ),
                    Ok(()),
                )
            },
        }
    }

    /// Whether a subscription, where there is one, can be renewed without exceeding the largest
    /// counters.
    pub open spec fn renewal_fits(self, caller: Address, id: u64) -> bool {
        self.subscription(id) matches Ok(sub) ==> (self.renewal_refusal(caller, sub) is None ==> {
            &&& sub.total_payments < u32::MAX
            &&& self.now() + sub.interval_ledgers <= u64::MAX
        })
    }
}

/// A subscription is paid at most once per period: after a renewal the next one is refused
/// before a whole interval has passed.
pub proof fn law_renewals_keep_the_interval(
    env: EnvModel,
    later: EnvModel,
    caller: Address,
    other: Address,
    id: u64,
)
    requires
        env.renewal_fits(caller, id),
        env.subscription(id) matches Ok(sub) && sub.id == id,
        env.renew_subscription(caller, id).1 is Ok,
        later.payments == env.renew_subscription(caller, id).0.payments,
        later.now() < env.now() + env.subscription(id)->Ok_0.interval_ledgers,
    ensures
        later.renew_subscription(other, id) == (later, Err::<(), _>(VaultError::RenewalNotDue)),
{
}

/// A cancelled subscription is not paid, changed or cancelled any more.
pub proof fn law_cancelled_subscriptions_stay_cancelled(
    env: EnvModel,
    caller: Address,
    other: Address,
    id: u64,
    tier: SubscriptionTier,
    amount: i128,
)
    requires
        env.subscription(id) matches Ok(sub) && sub.id == id,
        env.cancel_subscription(caller, id).1 is Ok,
    ensures
        ({
            let after = env.cancel_subscription(caller, id).0;
            &&& after.renew_subscription(other, id) == (
                after,
                Err::<(), _>(VaultError::SubscriptionAlreadyCancelled),
            )
            &&& after.cancel_subscription(other, id) == (
                after,
                Err::<(), _>(VaultError::SubscriptionAlreadyCancelled),
            )
            &&& after.upgrade_subscription(other, id, tier, amount).1 is Err
        }),
{
}

/// An upgrade pays nothing; its amount is what the next renewal pays.
pub proof fn law_upgrades_take_effect_on_renewal(
    env: EnvModel,
    subscriber: Address,
    id: u64,
    tier: SubscriptionTier,
    amount: i128,
)
    requires
        env.subscription(id) matches Ok(sub) && sub.id == id && env.now()
            >= sub.next_renewal_ledger,
        env.upgrade_subscription(subscriber, id, tier, amount).1 is Ok,
    ensures
        ({
            let sub = env.subscription(id)->Ok_0;
            let upgraded = env.upgrade_subscription(subscriber, id, tier, amount).0;
            let renewed = upgraded.renew_subscription(subscriber, id).0;
            let n = upgraded.actions.len() as int;
            &&& upgraded.actions.len() == env.actions.len() + 2
            &&& upgraded.actions[n - 2] == Action::ExtendInstanceTtl
            &&& upgraded.actions[n - 1] is Publish
            &&& upgraded.renew_subscription(subscriber, id).1 is Ok
            &&& renewed.actions[n] == Action::TransferToVault {
                token: sub.token,
                from: sub.subscriber,
                amount,
            }
            &&& renewed.actions[n + 1] == Action::Transfer {
                token: sub.token,
                to: sub.service_provider,
                amount,
            }
        }),
{
}

/// Passes an amount on from an address to another.
fn pass_on(env: &mut Env, token: Address, from: Address, to: Address, amount: i128)
    ensures
        final(env)@ == old(env)@.pass_on(token, from, to, amount),
{
    env.act(Action::TransferToVault { token, from, amount });
    env.act(Action::Transfer { token, to, amount });
}

impl VaultDAO {
    /// Creates a subscription. The first payment goes from the subscriber to the provider at
    /// once.
    pub fn create_subscription(
        env: &mut Env,
        subscriber: Address,
        provider: Address,
        tier: SubscriptionTier,
        token: Address,
        amount_per_period: i128,
        interval_ledgers: u64,
        auto_renew: bool,
    ) -> (r: Result<u64, VaultError>)
        requires
            old(env)@.authorized(subscriber),
            old(env)@.subscription_fits(amount_per_period, interval_ledgers),
        ensures
            (final(env)@, r) == old(env)@.create_subscription(
                subscriber,
                provider,
                tier,
                token,
                amount_per_period,
                interval_ledgers,
                auto_renew,
            ),
    {
        if !storage::is_initialized(env) {
            return Err(VaultError::NotInitialized);
        }
        if amount_per_period <= 0 {
            return Err(VaultError::InvalidAmount);
        }
        if interval_ledgers == 0 {
            return Err(VaultError::IntervalTooShort);
        }
        pass_on(env, token, subscriber, provider, amount_per_period);
        let current_ledger: u64 = env.now();
        let id: u64 = storage::increment_subscription_id(env);
        let sub = Subscription {
            id,
            subscriber,
            service_provider: provider,
            tier,
            token,
            amount_per_period,
            interval_ledgers,
            next_renewal_ledger: current_ledger + interval_ledgers,
            created_at: current_ledger,
            status: SubscriptionStatus::Active,
            total_payments: 1,
            last_payment_ledger: current_ledger,
            auto_renew,
        };
        storage::set_subscription(env, &sub);
        storage::add_to_subscriber_index(env, &subscriber, id);
        storage::extend_instance_ttl(env);
        env.publish(
            Event::SubscriptionCreated {
                id,
                subscriber,
                tier: tier.code(),
                amount: amount_per_period,
            },
        );
        Ok(id)
    }

    /// Pays the next period of a subscription once it is due. Anyone may where the subscription
    /// renews itself, else only the subscriber.
    pub fn renew_subscription(env: &mut Env, caller: Address, subscription_id: u64) -> (r: Result<
        (),
        VaultError,
    >)
        requires
            old(env)@.authorized(caller),
            old(env)@.renewal_fits(caller, subscription_id),
        ensures
            (final(env)@, r) == old(env)@.renew_subscription(caller, subscription_id),
    {
        let mut sub = storage::get_subscription(env, subscription_id)?;
        if sub.status == SubscriptionStatus::Cancelled {
            return Err(VaultError::SubscriptionAlreadyCancelled);
        }
        if sub.status != SubscriptionStatus::Active {
            return Err(VaultError::SubscriptionNotActive);
        }
        let current_ledger: u64 = env.now();
        if current_ledger < sub.next_renewal_ledger {
            return Err(VaultError::RenewalNotDue);
        }
        if !sub.auto_renew && caller != sub.subscriber {
            return Err(VaultError::NotSubscriberOrAdmin);
        }
        pass_on(env, sub.token, sub.subscriber, sub.service_provider, sub.amount_per_period);
        sub.total_payments = sub.total_payments + 1;
        sub.last_payment_ledger = current_ledger;
        sub.next_renewal_ledger = current_ledger + sub.interval_ledgers;
        storage::set_subscription(env, &sub);
        storage::extend_instance_ttl(env);
        env.publish(
            Event::SubscriptionRenewed {
                id: subscription_id,
                payment_number: sub.total_payments,
                amount: sub.amount_per_period,
            },
        );
        Ok(())
    }

    /// Cancels a subscription. Its subscriber and admins may.
    pub fn cancel_subscription(env: &mut Env, caller: Address, subscription_id: u64) -> (r: Result<
        (),
        VaultError,
    >)
        requires
            old(env)@.authorized(caller),
        ensures
            (final(env)@, r) == old(env)@.cancel_subscription(caller, subscription_id),
    {
        let mut sub = storage::get_subscription(env, subscription_id)?;
        if sub.status == SubscriptionStatus::Cancelled {
            return Err(VaultError::SubscriptionAlreadyCancelled);
        }
        let role = storage::get_role(env, &caller);
        if caller != sub.subscriber && role != Role::Admin {
            return Err(VaultError::NotSubscriberOrAdmin);
        }
        sub.status = SubscriptionStatus::Cancelled;
        storage::set_subscription(env, &sub);
        storage::extend_instance_ttl(env);
        env.publish(Event::SubscriptionCancelled { id: subscription_id, caller });
        Ok(())
    }

    /// Changes the tier and the amount of an active subscription from its next renewal on. Only
    /// its subscriber may.
    pub fn upgrade_subscription(
        env: &mut Env,
        subscriber: Address,
        subscription_id: u64,
        new_tier: SubscriptionTier,
        new_amount_per_period: i128,
    ) -> (r: Result<(), VaultError>)
        requires
            old(env)@.authorized(subscriber),
        ensures
            (final(env)@, r) == old(env)@.upgrade_subscription(
                subscriber,
                subscription_id,
                new_tier,
                new_amount_per_period,
            ),
    {
        let mut sub = storage::get_subscription(env, subscription_id)?;
        if sub.subscriber != subscriber {
            return Err(VaultError::NotSubscriberOrAdmin);
        }
        if sub.status != SubscriptionStatus::Active {
            return Err(VaultError::SubscriptionNotActive);
        }
        if new_amount_per_period <= 0 {
            return Err(VaultError::InvalidAmount);
        }
        let old_tier = sub.tier;
        sub.tier = new_tier;
        sub.amount_per_period = new_amount_per_period;
        storage::set_subscription(env, &sub);
        storage::extend_instance_ttl(env);
        env.publish(
            Event::SubscriptionUpgraded {
                id: subscription_id,
                old_tier: old_tier.code(),
                new_tier: new_tier.code(),
                amount: new_amount_per_period,
            },
        );
        Ok(())
    }

    /// The subscription with an identifier.
    pub fn get_subscription(env: &Env, subscription_id: u64) -> (r: Result<
        Subscription,
        VaultError,
    >)
        ensures
            r == env@.subscription(subscription_id),
    {
        storage::get_subscription(env, subscription_id)
    }

    /// The subscriptions of an address.
    pub fn get_subscriptions_by_subscriber(env: &Env, subscriber: Address) -> (r: Vec<u64>)
        ensures
            r@ == env@.subscriber_index(subscriber),
    {
        storage::get_subscriber_index(env, &subscriber)
    }
}

} // verus!
