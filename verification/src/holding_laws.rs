//! What holds of subscriptions, token locks and pools: who pays, who is paid, and when.

use vstd::prelude::*;

use crate::books::{is_admin, kept, ledger_of, listed, most, moved};
use crate::env::{Action, EnvModel, MembersModel, PaymentsModel, TreasuryModel};
use crate::errors::VaultError;
use crate::primitives::Address;
use crate::types::{
    FeeStructureModel, Subscription, SubscriptionStatus, SubscriptionTier, TimeWeightedConfig,
    TokenLock,
};

verus! {

broadcast use crate::books::lemma_movements_push;

/// An amount that goes from a subscriber through the vault to a provider.
pub open spec fn passed_on(token: Address, from: Address, to: Address, amount: i128) -> Seq<
    Action,
> {
    seq![
        Action::TransferToVault { token, from, amount },
        Action::Transfer { token, to, amount },
    ]
}

/// A subscription is created in a vault that was initialized, for a positive amount and interval.
/// The first payment goes from the subscriber to the provider at once, and the next is due one
/// interval later.
pub proof fn law_subscriptions_pay_at_once(
    env: EnvModel,
    subscriber: Address,
    provider: Address,
    tier: SubscriptionTier,
    token: Address,
    amount: i128,
    interval: u64,
    auto_renew: bool,
)
    requires
        env.payments.next_subscription_id < u64::MAX,
        env.ledger.sequence + interval <= u64::MAX,
    ensures
        ({
            let (after, r) = env.create_subscription(
                subscriber,
                provider,
                tier,
                token,
                amount,
                interval,
                auto_renew,
            );
            let id = env.payments.next_subscription_id;
            let now = env.ledger.sequence as u64;
            &&& r is Ok <==> env.access.initialized && amount > 0 && interval > 0
            &&& r is Err ==> after == env
            &&& !env.access.initialized ==> r == Err::<u64, _>(VaultError::NotInitialized)
            &&& env.access.initialized && amount <= 0 ==> r == Err::<u64, _>(
                VaultError::InvalidAmount,
            )
            &&& env.access.initialized && amount > 0 && interval == 0 ==> r == Err::<u64, _>(
                VaultError::IntervalTooShort,
            )
            &&& r is Ok ==> {
                &&& r == Ok::<u64, VaultError>(id)
                &&& moved(env, after, passed_on(token, subscriber, provider, amount))
                &&& after.treasury == env.treasury
                &&& after.payments.next_subscription_id == id + 1
                &&& after.payments.subscriptions == env.payments.subscriptions.insert(
                    id,
                    Subscription {
                        id,
                        subscriber,
                        service_provider: provider,
                        tier,
                        token,
                        amount_per_period: amount,
                        interval_ledgers: interval,
                        next_renewal_ledger: (now + interval) as u64,
                        created_at: now,
                        status: SubscriptionStatus::Active,
                        total_payments: 1,
                        last_payment_ledger: now,
                        auto_renew,
                    },
                )
                &&& listed(after.payments.subscriber_index, subscriber) == listed(
                    env.payments.subscriber_index,
                    subscriber,
                ).push(id)
            }
        }),
{
}

/// An active subscription that is due is renewed, by anyone where it renews by itself and by its
/// subscriber otherwise. One period is paid from the subscriber to the provider, and the next is
/// due one interval later.
pub proof fn law_renewals_pay_one_period(env: EnvModel, caller: Address, id: u64)
    requires
        env.payments.subscriptions.contains_key(id),
        env.payments.subscriptions[id].id == id,
        env.payments.subscriptions[id].total_payments < u32::MAX,
        env.ledger.sequence + env.payments.subscriptions[id].interval_ledgers <= u64::MAX,
    ensures
        ({
            let sub = env.payments.subscriptions[id];
            let now = env.ledger.sequence as u64;
            let (after, r) = env.renew_subscription(caller, id);
            let active = sub.status == SubscriptionStatus::Active;
            let due = now >= sub.next_renewal_ledger;
            let entitled = sub.auto_renew || caller == sub.subscriber;
            &&& r is Ok <==> active && due && entitled
            &&& r is Err ==> after == env
            &&& sub.status == SubscriptionStatus::Cancelled ==> r == Err::<(), _>(
                VaultError::SubscriptionAlreadyCancelled,
            )
            &&& active && !due ==> r == Err::<(), _>(VaultError::RenewalNotDue)
            &&& active && due && !entitled ==> r == Err::<(), _>(VaultError::NotSubscriberOrAdmin)
            &&& r is Ok ==> {
                &&& moved(
                    env,
                    after,
                    passed_on(
                        sub.token,
                        sub.subscriber,
                        sub.service_provider,
                        sub.amount_per_period,
                    ),
                )
                &&& after.treasury == env.treasury
                &&& after.payments == (PaymentsModel {
                    subscriptions: env.payments.subscriptions.insert(
                        id,
                        Subscription {
                            total_payments: (sub.total_payments + 1) as u32,
                            last_payment_ledger: now,
                            next_renewal_ledger: (now + sub.interval_ledgers) as u64,
                            ..sub
                        },
                    ),
                    ..env.payments
                })
            }
        }),
{
}

/// A subscription is cancelled by its subscriber or an admin, and changed by its subscriber alone
/// while it is active. Neither pays anything; a change takes effect on tier and amount only.
pub proof fn law_subscriptions_change_without_payment(
    env: EnvModel,
    caller: Address,
    id: u64,
    tier: SubscriptionTier,
    amount: i128,
)
    requires
        env.payments.subscriptions.contains_key(id),
        env.payments.subscriptions[id].id == id,
    ensures
        ({
            let sub = env.payments.subscriptions[id];
            let (after, r) = env.cancel_subscription(caller, id);
            let open = sub.status != SubscriptionStatus::Cancelled;
            let entitled = caller == sub.subscriber || is_admin(env, caller);
            &&& r is Ok <==> open && entitled
            &&& r is Err ==> after == env
            &&& !open ==> r == Err::<(), _>(VaultError::SubscriptionAlreadyCancelled)
            &&& open && !entitled ==> r == Err::<(), _>(VaultError::NotSubscriberOrAdmin)
            &&& moved(env, after, seq![])
            &&& r is Ok ==> after.payments == (PaymentsModel {
                subscriptions: env.payments.subscriptions.insert(
                    id,
                    Subscription { status: SubscriptionStatus::Cancelled, ..sub },
                ),
                ..env.payments
            })
        }),
        ({
            let sub = env.payments.subscriptions[id];
            let (after, r) = env.upgrade_subscription(caller, id, tier, amount);
            let own = caller == sub.subscriber;
            let active = sub.status == SubscriptionStatus::Active;
            &&& r is Ok <==> own && active && amount > 0
            &&& r is Err ==> after == env
            &&& !own ==> r == Err::<(), _>(VaultError::NotSubscriberOrAdmin)
            &&& own && !active ==> r == Err::<(), _>(VaultError::SubscriptionNotActive)
            &&& own && active && amount <= 0 ==> r == Err::<(), _>(VaultError::InvalidAmount)
            &&& moved(env, after, seq![])
            &&& r is Ok ==> after.payments == (PaymentsModel {
                subscriptions: env.payments.subscriptions.insert(
                    id,
                    Subscription { tier, amount_per_period: amount, ..sub },
                ),
                ..env.payments
            })
        }),
{
}

/// What the tokens of a lock count for, in basis points: once below thirty days, and then one and
/// a half, two, three and, beyond a year, four times.
pub open spec fn multiplier(duration: int) -> int {
    if duration < 518_400 {
        10_000
    } else if duration < 1_555_200 {
        15_000
    } else if duration < 3_110_400 {
        20_000
    } else if duration <= 6_307_200 {
        30_000
    } else {
        40_000
    }
}

/// Tokens are locked where locks are in use, for a positive amount and a duration that the rules
/// allow, by an owner without an active lock. The amount is collected from the owner, and counts
/// more the longer it is locked.
pub proof fn law_locks_hold_the_tokens(
    env: EnvModel,
    owner: Address,
    token: Address,
    amount: i128,
    duration: u64,
)
    requires
        env.ledger.sequence + duration <= u64::MAX,
    ensures
        ({
            let rules = env.members.time_weighted;
            let locks = env.members.token_locks;
            let now = env.ledger.sequence as u64;
            let (after, r) = env.lock_tokens(owner, token, amount, duration);
            let locked = locks.contains_key(owner) && locks[owner].is_active;
            let sized = amount > 0 && rules.min_lock_duration <= duration
                <= rules.max_lock_duration;
            &&& r is Ok <==> rules.enabled && sized && !locked
            &&& r is Err ==> after == env
            &&& !rules.enabled ==> r == Err::<(), _>(VaultError::Unauthorized)
            &&& rules.enabled && !sized ==> r == Err::<(), _>(VaultError::InvalidAmount)
            &&& rules.enabled && sized && locked ==> r == Err::<(), _>(VaultError::AlreadyApproved)
            &&& r is Ok ==> {
                &&& moved(
                    env,
                    after,
                    seq![Action::TransferToVault { token, from: owner, amount }],
                )
                &&& after.treasury == env.treasury
                &&& after.members == (MembersModel {
                    token_locks: locks.insert(
                        owner,
                        TokenLock {
                            owner,
                            token,
                            amount,
                            locked_at: now,
                            duration,
                            unlock_at: (now + duration) as u64,
                            is_active: true,
                            power_multiplier_bps: multiplier(duration as int) as u32,
                        },
                    ),
                    total_locked: env.members.total_locked.insert(owner, amount),
                    ..env.members
                })
            }
        }),
{
}

/// An active lock is extended from now on by what was left of it and the addition, up to the
/// longest duration. Nothing moves.
pub proof fn law_extensions_lengthen_the_lock(env: EnvModel, owner: Address, additional: u64)
    requires
        env.members.token_locks.contains_key(owner),
        env.members.token_locks[owner].owner == owner,
        env.members.token_locks[owner].unlock_at + additional <= u64::MAX,
        env.ledger.sequence + additional <= u64::MAX,
    ensures
        ({
            let rules = env.members.time_weighted;
            let lock = env.members.token_locks[owner];
            let (after, r) = env.extend_lock(owner, additional);
            let duration = most(lock.unlock_at - ledger_of(env), 0) + additional;
            &&& r is Ok <==> rules.enabled && lock.is_active && duration <= rules.max_lock_duration
            &&& r is Err ==> after == env
            &&& moved(env, after, seq![])
            &&& r is Ok ==> after.members == (MembersModel {
                token_locks: env.members.token_locks.insert(
                    owner,
                    TokenLock {
                        duration: duration as u64,
                        unlock_at: (ledger_of(env) + duration) as u64,
                        power_multiplier_bps: multiplier(duration) as u32,
                        ..lock
                    },
                ),
                ..env.members
            })
        }),
{
}

/// Once a lock has expired its owner gets all of the tokens back, and not before. The lock is
/// over, and gives nothing back a second time.
pub proof fn law_locks_end_with_the_tokens_back(env: EnvModel, owner: Address)
    requires
        env.members.token_locks.contains_key(owner),
        env.members.token_locks[owner].owner == owner,
    ensures
        ({
            let rules = env.members.time_weighted;
            let lock = env.members.token_locks[owner];
            let (after, r) = env.unlock_tokens(owner);
            let expired = ledger_of(env) >= lock.unlock_at;
            &&& r is Ok <==> rules.enabled && lock.is_active && expired
            &&& r is Err ==> after == env
            &&& !rules.enabled ==> r == Err::<i128, _>(VaultError::Unauthorized)
            &&& rules.enabled && !lock.is_active ==> r == Err::<i128, _>(
                VaultError::ProposalNotPending,
            )
            &&& rules.enabled && lock.is_active && !expired ==> r == Err::<i128, _>(
                VaultError::TimelockNotExpired,
            )
            &&& r is Ok ==> {
                &&& r == Ok::<i128, VaultError>(lock.amount)
                &&& moved(
                    env,
                    after,
                    seq![Action::Transfer { token: lock.token, to: owner, amount: lock.amount }],
                )
                &&& after.treasury == env.treasury
                &&& after.members == (MembersModel {
                    token_locks: env.members.token_locks.insert(
                        owner,
                        TokenLock { is_active: false, ..lock },
                    ),
                    total_locked: env.members.total_locked.insert(owner, 0),
                    ..env.members
                })
            }
        }),
{
}

/// A lock that is ended early costs its penalty, a share of the tokens, which goes to the
/// insurance pool; the owner gets the rest. From its end on it costs nothing.
pub proof fn law_early_unlocks_cost_the_penalty(env: EnvModel, owner: Address)
    requires
        env.members.token_locks.contains_key(owner),
        env.members.token_locks[owner].owner == owner,
        env.members.token_locks[owner].amount > 0,
        env.members.time_weighted.early_unlock_penalty_bps <= 10_000,
        env.members.token_locks[owner].amount * 10_000 <= i128::MAX,
        kept(env.treasury.insurance_pool, env.members.token_locks[owner].token)
            + env.members.token_locks[owner].amount <= i128::MAX,
    ensures
        ({
            let rules = env.members.time_weighted;
            let lock = env.members.token_locks[owner];
            let (after, r) = env.unlock_early(owner);
            let early = ledger_of(env) < lock.unlock_at;
            let penalty = if early {
                lock.amount * rules.early_unlock_penalty_bps / 10_000
            } else {
                0
            };
            &&& r is Ok <==> rules.enabled && lock.is_active
            &&& r is Err ==> after == env
            &&& 0 <= penalty <= lock.amount
            &&& r is Ok ==> {
                &&& r == Ok::<i128, VaultError>((lock.amount - penalty) as i128)
                &&& moved(
                    env,
                    after,
                    seq![
                        Action::Transfer {
                            token: lock.token,
                            to: owner,
                            amount: (lock.amount - penalty) as i128,
                        },
                    ],
                )
                &&& kept(after.treasury.insurance_pool, lock.token) == kept(
                    env.treasury.insurance_pool,
                    lock.token,
                ) + penalty
                &&& after.treasury == (TreasuryModel {
                    insurance_pool: after.treasury.insurance_pool,
                    ..env.treasury
                })
                &&& after.members == (MembersModel {
                    token_locks: env.members.token_locks.insert(
                        owner,
                        TokenLock { is_active: false, ..lock },
                    ),
                    total_locked: env.members.total_locked.insert(owner, 0),
                    ..env.members
                })
            }
        }),
{
    let lock = env.members.token_locks[owner];
    let bps = env.members.time_weighted.early_unlock_penalty_bps as int;
    assert(0 <= lock.amount * bps <= lock.amount * 10_000) by (nonlinear_arith)
        requires
            lock.amount > 0,
            0 <= bps <= 10_000,
    ;
}

/// The power of a lock that decays is its share of the time ahead: all of its power at first, and
/// none from its end on.
pub proof fn law_power_follows_the_lock(lock: TokenLock, now: u64)
    requires
        lock.amount >= 0,
        lock.amount * lock.power_multiplier_bps <= i128::MAX,
        lock.duration > 0,
        lock.amount * lock.power_multiplier_bps / 10_000 * lock.duration <= i128::MAX,
        lock.unlock_at <= now + lock.duration,
    ensures
        lock.full_power() == lock.amount * lock.power_multiplier_bps / 10_000,
        lock.decayed_power(now) == if now >= lock.unlock_at {
            0
        } else {
            lock.amount * lock.power_multiplier_bps / 10_000 * (lock.unlock_at - now)
                / lock.duration as int
        },
{
    let a = lock.amount as int;
    let m = lock.power_multiplier_bps as int;
    assert(a * m >= 0) by (nonlinear_arith)
        requires
            a >= 0,
            m >= 0,
    ;
    let full = a * m / 10_000;
    let d = lock.duration as int;
    let left = lock.unlock_at - now;
    if left > 0 {
        assert(0 <= full * left <= full * d) by (nonlinear_arith)
            requires
                full >= 0,
                0 < left <= d,
        ;
        assert(0 <= full * left / d <= full * left) by (nonlinear_arith)
            requires
                0 <= full * left,
                d >= 1,
        ;
    }
}

/// An admin withdraws a positive amount from the insurance pool or the stake pool, no more than it
/// holds of the token; the pool then holds that much less, and the recipient gets it.
pub proof fn law_withdrawals_stay_within_the_pool(
    env: EnvModel,
    admin: Address,
    token: Address,
    recipient: Address,
    amount: i128,
)
    requires
        kept(env.treasury.insurance_pool, token) >= 0,
        kept(env.treasury.stake_pool, token) >= 0,
    ensures
        ({
            let pool = kept(env.treasury.insurance_pool, token);
            let (after, r) = env.withdraw_insurance(admin, token, recipient, amount);
            &&& r is Ok <==> is_admin(env, admin) && 0 < amount <= pool
            &&& r is Err ==> after == env
            &&& !is_admin(env, admin) ==> r == Err::<(), _>(VaultError::Unauthorized)
            &&& is_admin(env, admin) && amount <= 0 ==> r == Err::<(), _>(
                VaultError::InvalidAmount,
            )
            &&& is_admin(env, admin) && amount > 0 && amount > pool ==> r == Err::<(), _>(
                VaultError::InsufficientBalance,
            )
            &&& r is Ok ==> {
                &&& moved(env, after, seq![Action::Transfer { token, to: recipient, amount }])
                &&& kept(after.treasury.insurance_pool, token) == pool - amount
                &&& after.treasury == (TreasuryModel {
                    insurance_pool: after.treasury.insurance_pool,
                    ..env.treasury
                })
            }
        }),
        ({
            let pool = kept(env.treasury.stake_pool, token);
            let (after, r) = env.withdraw_stakes(admin, token, recipient, amount);
            &&& r is Ok <==> is_admin(env, admin) && 0 < amount <= pool
            &&& r is Err ==> after == env
            &&& !is_admin(env, admin) ==> r == Err::<(), _>(VaultError::Unauthorized)
            &&& is_admin(env, admin) && amount <= 0 ==> r == Err::<(), _>(
                VaultError::InvalidAmount,
            )
            &&& is_admin(env, admin) && amount > 0 && amount > pool ==> r == Err::<(), _>(
                VaultError::InsufficientBalance,
            )
            &&& r is Ok ==> {
                &&& moved(env, after, seq![Action::Transfer { token, to: recipient, amount }])
                &&& kept(after.treasury.stake_pool, token) == pool - amount
                &&& after.treasury == (TreasuryModel {
                    stake_pool: after.treasury.stake_pool,
                    ..env.treasury
                })
            }
        }),
{
}

/// An admin withdraws the fees collected in a token, all of them at once; none are left.
pub proof fn law_fees_are_withdrawn_at_once(
    env: EnvModel,
    admin: Address,
    token: Address,
    recipient: Address,
)
    ensures
        ({
            let held = kept(env.treasury.fees_collected, token);
            let (after, r) = env.withdraw_fees(admin, token, recipient);
            &&& r is Ok <==> is_admin(env, admin)
            &&& r is Ok ==> r == Ok::<i128, VaultError>(held as i128)
            &&& r is Err ==> after == env && r == Err::<i128, _>(VaultError::Unauthorized)
            &&& r is Ok && held != 0 ==> moved(
                env,
                after,
                seq![Action::Transfer { token, to: recipient, amount: held as i128 }],
            )
            &&& r is Ok ==> kept(after.treasury.fees_collected, token) == 0
            &&& held == 0 ==> after == env
        }),
{
}

/// An admin sets the fees, with rates of at most the whole, tiers that ascend and a discount of at
/// most all of the fee; and sets the rules for token locks.
pub proof fn law_fees_and_locks_are_configured_by_admins(
    env: EnvModel,
    admin: Address,
    fees: FeeStructureModel,
    rules: TimeWeightedConfig,
)
    ensures
        ({
            let (after, r) = env.set_fees(admin, fees);
            let sound = fees.base_fee_bps <= 10_000 && fees.reputation_discount_percentage <= 100
                && forall|i: int|
                1 <= i < fees.tiers.len() ==> fees.tiers[i - 1].min_volume < (
                #[trigger] fees.tiers[i]).min_volume && fees.tiers[i].fee_bps <= 10_000;
            &&& r is Ok <==> is_admin(env, admin) && sound
            &&& r is Err ==> after == env
            &&& !is_admin(env, admin) ==> r == Err::<(), _>(VaultError::Unauthorized)
            &&& is_admin(env, admin) && !sound ==> r == Err::<(), _>(VaultError::InvalidAmount)
            &&& moved(env, after, seq![])
            &&& r is Ok ==> after.treasury == (TreasuryModel {
                fee_structure: Some(fees),
                ..env.treasury
            })
        }),
        ({
            let (after, r) = env.change_time_weighted(admin, rules);
            &&& r is Ok <==> is_admin(env, admin)
            &&& r is Err ==> after == env && r == Err::<(), _>(VaultError::InsufficientRole)
            &&& moved(env, after, seq![])
            &&& r is Ok ==> after.members == (MembersModel { time_weighted: rules, ..env.members })
        }),
{
}

} // verus!
