//! Protocol fees.

use vstd::prelude::*;

use crate::env::{Action, Env, EnvModel, Event};
use crate::errors::VaultError;
use crate::math::{divide, reduce};
use crate::primitives::Address;
use crate::proposals::Outcome;
use crate::storage;
use crate::types::{FeeCalculation, FeeStructure, FeeStructureModel, FeeTier, Role};
use crate::VaultDAO;

verus! {

/// The fee for a traded volume: that of the last tier reached, going up from the first; else
/// the given one.
pub open spec fn tier_fee(base_bps: u32, tiers: Seq<FeeTier>, volume: i128) -> u32
    decreases tiers.len(),
{
    if tiers.len() == 0 || volume < tiers[0].min_volume {
        base_bps
    } else {
        tier_fee(tiers[0].fee_bps, tiers.skip(1), volume)
    }
}

/// Whether tiers ascend by volume, and all but the first charge at most the whole amount.
pub open spec fn tiers_valid(tiers: Seq<FeeTier>) -> bool {
    forall|i: int|
        1 <= i < tiers.len() ==> {
            &&& tiers[i - 1].min_volume < (#[trigger] tiers[i]).min_volume
            &&& tiers[i].fee_bps <= 10_000
        }
}

/// Whether a fee structure is accepted.
pub open spec fn fees_valid(fees: FeeStructureModel) -> bool {
    &&& fees.base_fee_bps <= 10_000
    &&& tiers_valid(fees.tiers)
    &&& fees.reputation_discount_percentage <= 100
}

impl EnvModel {
    /// The fee rate of a user for a token, in basis points.
    pub open spec fn fee_rate(self, user: Address, token: Address) -> u32 {
        let fees = self.fee_structure();
        tier_fee(fees.base_fee_bps, fees.tiers, self.user_volume(user, token))
    }

    /// The fee for an amount before any discount.
    pub open spec fn base_fee(self, user: Address, token: Address, amount: i128) -> int {
        crate::math::quotient(amount * self.fee_rate(user, token), 10_000)
    }

    /// The fee of a user for moving an amount of a token: a share of the amount, less a
    /// discount from a given score on.
    pub open spec fn fee(self, user: Address, token: Address, amount: i128) -> FeeCalculation {
        let fees = self.fee_structure();
        if !fees.enabled {
            FeeCalculation {
                base_fee: 0,
                discount: 0,
                final_fee: 0,
                fee_bps: 0,
                reputation_discount_applied: false,
            }
        } else {
            let base_fee = self.base_fee(user, token, amount) as i128;
            let trusted = self.reputation(user).score >= fees.reputation_discount_threshold;
            let discount: i128 = if trusted {
                crate::math::quotient(
                    base_fee * fees.reputation_discount_percentage,
                    100,
                ) as i128
            } else {
                0
            };
            FeeCalculation {
                base_fee,
                discount,
                final_fee: crate::math::reduced(base_fee, discount),
                fee_bps: self.fee_rate(user, token),
                reputation_discount_applied: trusted,
            }
        }
    }

    /// Whether a fee can be computed.
    pub open spec fn fee_fits(self, user: Address, token: Address, amount: i128) -> bool {
        let fees = self.fee_structure();
        fees.enabled ==> {
            &&& crate::math::fits_i128(amount * self.fee_rate(user, token))
            &&& self.reputation(user).score >= fees.reputation_discount_threshold
                ==> crate::math::fits_i128(
                self.base_fee(user, token, amount) * fees.reputation_discount_percentage,
            )
        }
    }

    /// Whether a fee can be computed and, where there is one, collected.
    pub open spec fn fee_collection_fits(self, user: Address, token: Address, amount: i128) -> bool {
        let fee = self.fee(user, token, amount).final_fee;
        &&& self.fee_fits(user, token, amount)
        &&& fee != 0 ==> {
            &&& crate::math::fits_i128(self.fees_collected(token) + fee)
            &&& crate::math::fits_i128(self.user_volume(user, token) + amount)
        }
    }

    /// The state after the fee for moving an amount was paid to the treasury.
    pub open spec fn collect_fee(self, user: Address, token: Address, amount: i128) -> EnvModel {
        let calc = self.fee(user, token, amount);
        if calc.final_fee == 0 {
            self
        } else {
            self.act(
                Action::Transfer {
                    token,
                    to: self.fee_structure().treasury,
                    amount: calc.final_fee,
                },
            ).fees_collected_add(token, calc.final_fee).user_volume_add(user, token, amount).publish(
                Event::FeeCollected {
                    user,
                    token,
                    amount,
                    fee: calc.final_fee,
                    fee_bps: calc.fee_bps,
                    discounted: calc.reputation_discount_applied,
                },
            )
        }
    }

    /// What setting the fees leaves behind.
    pub open spec fn set_fees(self, admin: Address, fees: FeeStructureModel) -> Outcome<()> {
        if self.role(admin) != Role::Admin {
            (self, Err(VaultError::Unauthorized))
        } else if !fees_valid(fees) {
            (self, Err(VaultError::InvalidAmount))
        } else {
            (
                self.with_fee_structure(fees).act(Action::ExtendInstanceTtl).publish(
                    Event::FeeStructureUpdated { admin, enabled: fees.enabled },
                ),
                Ok(()),
            )
        }
    }

    /// What withdrawing the fees collected in a token leaves behind.
    pub open spec fn withdraw_fees(self, admin: Address, token: Address, recipient: Address) -> 
        Outcome<i128> {
        let amount = self.fees_collected(token);
        if self.role(admin) != Role::Admin {
            (self, Err(VaultError::Unauthorized))
        } else if amount == 0 {
            (self, Ok(0))
        } else {
            (
                self.with_fees_collected(token, 0).act(
                    Action::Transfer { token, to: recipient, amount },
                ).act(Action::ExtendInstanceTtl),
                Ok(amount),
            )
        }
    }
}

/// With valid fees, the fee on an amount is not negative and not more than the amount.
pub proof fn law_fee_is_within_the_amount(
    env: EnvModel,
    user: Address,
    token: Address,
    amount: i128,
)
    requires
        amount >= 0,
        env.fee_fits(user, token, amount),
        env.fee_rate(user, token) <= 10_000,
        env.fee_structure().reputation_discount_percentage <= 100,
    ensures
        0 <= env.fee(user, token, amount).final_fee <= env.fee(user, token, amount).base_fee
            <= amount,
{
    let rate = env.fee_rate(user, token) as int;
    let pct = env.fee_structure().reputation_discount_percentage as int;
    assert(0 <= amount * rate <= amount * 10_000) by (nonlinear_arith)
        requires
            amount >= 0,
            0 <= rate <= 10_000,
    ;
    let base = env.base_fee(user, token, amount);
    assert(0 <= base * pct <= base * 100) by (nonlinear_arith)
        requires
            base >= 0,
            0 <= pct <= 100,
    ;
}

/// The fee for a traded volume.
fn find_tier_fee(base_bps: u32, tiers: &Vec<FeeTier>, volume: i128) -> (r: u32)
    ensures
        r == tier_fee(base_bps, tiers@, volume),
{
    let mut fee_bps: u32 = base_bps;
    let mut i: usize = 0;
    assert(tiers@.skip(0) =~= tiers@);
    while i < tiers.len()
        invariant
            i <= tiers.len(),
            tier_fee(base_bps, tiers@, volume) == tier_fee(fee_bps, tiers@.skip(i as int), volume),
        decreases tiers.len() - i,
    {
        assert(tiers@.skip(i as int)[0] == tiers@[i as int]);
        assert(tiers@.skip(i as int).skip(1) =~= tiers@.skip(i + 1));
        if volume < tiers[i].min_volume {
            return fee_bps;
        }
        fee_bps = tiers[i].fee_bps;
        i += 1;
    }
    fee_bps
}

/// The fee rate of a user for a token, in basis points.
pub(crate) fn find_fee_rate(env: &Env, user: &Address, token: &Address) -> (r: u32)
    ensures
        r == env@.fee_rate(*user, *token),
{
    let fees = storage::get_fee_structure(env);
    find_tier_fee(fees.base_fee_bps, &fees.tiers, storage::get_user_volume(env, user, token))
}

impl VaultDAO {
    /// The fee of a user for moving an amount of a token.
    pub fn calculate_fee_internal(env: &Env, user: &Address, token: &Address, amount: i128) -> (r:
        FeeCalculation)
        requires
            env@.fee_fits(*user, *token, amount),
        ensures
            r == env@.fee(*user, *token, amount),
    {
        let fees = storage::get_fee_structure(env);
        if !fees.enabled {
            return FeeCalculation {
                base_fee: 0,
                discount: 0,
                final_fee: 0,
                fee_bps: 0,
                reputation_discount_applied: false,
            };
        }
        let fee_bps: u32 = find_fee_rate(env, user, token);
        let base_fee: i128 = divide(amount * fee_bps as i128, 10_000);
        let mut discount: i128 = 0;
        let trusted = storage::get_reputation(env, user).score
            >= fees.reputation_discount_threshold;
        if trusted {
            discount = divide(base_fee * fees.reputation_discount_percentage as i128, 100);
        }
        FeeCalculation {
            base_fee,
            discount,
            final_fee: reduce(base_fee, discount),
            fee_bps,
            reputation_discount_applied: trusted,
        }
    }

    /// Pays the fee for moving an amount to the treasury.
    pub fn collect_and_distribute_fee(
        env: &mut Env,
        user: &Address,
        token: &Address,
        amount: i128,
    ) -> (r: Result<i128, VaultError>)
        requires
            old(env)@.fee_collection_fits(*user, *token, amount),
        ensures
            r == Ok::<i128, VaultError>(old(env)@.fee(*user, *token, amount).final_fee),
            final(env)@ == old(env)@.collect_fee(*user, *token, amount),
    {
        let calc = Self::calculate_fee_internal(env, user, token, amount);
        if calc.final_fee == 0 {
            return Ok(0);
        }
        let fees = storage::get_fee_structure(env);
        env.act(Action::Transfer { token: *token, to: fees.treasury, amount: calc.final_fee });
        storage::add_fees_collected(env, token, calc.final_fee);
        storage::add_user_volume(env, user, token, amount);
        env.publish(
            Event::FeeCollected {
                user: *user,
                token: *token,
                amount,
                fee: calc.final_fee,
                fee_bps: calc.fee_bps,
                discounted: calc.reputation_discount_applied,
            },
        );
        Ok(calc.final_fee)
    }

    /// Sets the fees. Only admins may.
    pub fn set_fee_structure(env: &mut Env, admin: Address, fee_structure: FeeStructure) -> (r:
        Result<(), VaultError>)
        requires
            old(env)@.authorized(admin),
        ensures
            (final(env)@, r) == old(env)@.set_fees(admin, fee_structure@),
    {
        if storage::get_role(env, &admin) != Role::Admin {
            return Err(VaultError::Unauthorized);
        }
        if fee_structure.base_fee_bps > 10_000 {
            return Err(VaultError::InvalidAmount);
        }
        let tiers = &fee_structure.tiers;
        let mut i: usize = 1;
        while i < tiers.len()
            invariant
                1 <= i,
                i <= tiers.len() || i == 1,
                tiers@ == fee_structure@.tiers,
                env@ == old(env)@,
                old(env)@.role(admin) == Role::Admin,
                forall|j: int|
                    1 <= j < i && j < tiers@.len() ==> {
                        &&& tiers@[j - 1].min_volume < (#[trigger] tiers@[j]).min_volume
                        &&& tiers@[j].fee_bps <= 10_000
                    },
            decreases tiers.len() - i,
        {
            if tiers[i].min_volume <= tiers[i - 1].min_volume {
                assert(!tiers_valid(tiers@)) by {
                    assert(tiers@[i as int].min_volume <= tiers@[i - 1].min_volume);
                }
                return Err(VaultError::InvalidAmount);
            }
            if tiers[i].fee_bps > 10_000 {
                assert(!tiers_valid(tiers@)) by {
                    assert(tiers@[i as int].fee_bps > 10_000);
                }
                return Err(VaultError::InvalidAmount);
            }
            i += 1;
        }
        if fee_structure.reputation_discount_percentage > 100 {
            return Err(VaultError::InvalidAmount);
        }
        storage::set_fee_structure(env, &fee_structure);
        storage::extend_instance_ttl(env);
        env.publish(Event::FeeStructureUpdated { admin, enabled: fee_structure.enabled });
        Ok(())
    }

    /// The fees.
    pub fn get_fee_structure(env: &Env) -> (r: FeeStructure)
        ensures
            r@ == env@.fee_structure(),
    {
        storage::get_fee_structure(env)
    }

    /// The fee of a user for moving an amount of a token, without collecting it.
    pub fn calculate_fee(env: &Env, user: Address, token: Address, amount: i128) -> (r:
        FeeCalculation)
        requires
            env@.fee_fits(user, token, amount),
        ensures
            r == env@.fee(user, token, amount),
    {
        Self::calculate_fee_internal(env, &user, &token, amount)
    }

    /// The fees collected in a token.
    pub fn get_fees_collected(env: &Env, token: Address) -> (r: i128)
        ensures
            r == env@.fees_collected(token),
    {
        storage::get_fees_collected(env, &token)
    }

    /// What a user moved of a token.
    pub fn get_user_volume(env: &Env, user: Address, token: Address) -> (r: i128)
        ensures
            r == env@.user_volume(user, token),
    {
        storage::get_user_volume(env, &user, &token)
    }

    /// Pays all fees collected in a token to a recipient. Only admins may.
    pub fn withdraw_fees(env: &mut Env, admin: Address, token: Address, recipient: Address) -> (r:
        Result<i128, VaultError>)
        requires
            old(env)@.authorized(admin),
        ensures
            (final(env)@, r) == old(env)@.withdraw_fees(admin, token, recipient),
    {
        if storage::get_role(env, &admin) != Role::Admin {
            return Err(VaultError::Unauthorized);
        }
        let amount: i128 = storage::get_fees_collected(env, &token);
        if amount == 0 {
            return Ok(0);
        }
        storage::set_fees_collected(env, &token, 0);
        env.act(Action::Transfer { token, to: recipient, amount });
        storage::extend_instance_ttl(env);
        Ok(amount)
    }
}

} // verus!
