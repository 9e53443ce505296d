//! Prices from an oracle.
//!
//! The oracle is asked outside; its answers come in as arguments.

use vstd::prelude::*;

use crate::env::{Env, EnvModel, Event};
use crate::errors::VaultError;
use crate::math::{divide, sat_add, sat_mul};
use crate::primitives::Address;
use crate::proposals::Outcome;
use crate::storage;
use crate::types::{Observation, Role, VaultOracleConfig, VaultPriceData};
use crate::VaultDAO;

verus! {

/// What one unit of a price counts for: prices have seven decimals.
pub const PRICE_SCALE: i128 = 10_000_000;

/// The value of an amount at a price.
pub open spec fn value_at(amount: i128, price: i128) -> i128 {
    crate::math::quotient(
        crate::math::clamp_i128(amount * price) as int,
        PRICE_SCALE as int,
    ) as i128
}

impl EnvModel {
    /// What asking for a price leaves behind, given the oracle's answer. A price that is too
    /// old is refused, and that is published.
    pub open spec fn asset_price(self, asset: Address, answer: Option<VaultPriceData>) -> Outcome<
        i128,
    > {
        match self.oracle_config() {
            None => (self, Err(VaultError::NotInitialized)),
            Some(oracle) => match answer {
                None => (self, Err(VaultError::InvalidAmount)),
                Some(data) => if crate::math::clamp_u64(self.now() - data.timestamp)
                    > oracle.max_staleness {
                    (
                        self.publish(
                            Event::OraclePriceStale {
                                asset,
                                timestamp: data.timestamp,
                                now: self.now(),
                            },
                        ),
                        Err(VaultError::ConditionsNotMet),
                    )
                } else {
                    (self, Ok(data.price))
                },
            },
        }
    }

    /// What converting an amount leaves behind, given the oracle's answer.
    pub open spec fn usd_value(
        self,
        asset: Address,
        amount: i128,
        answer: Option<VaultPriceData>,
    ) -> Outcome<i128> {
        if amount == 0 {
            (self, Ok(0))
        } else {
            let (after, price) = self.asset_price(asset, answer);
            (
                after,
                match price {
                    Ok(price) => Ok(value_at(amount, price)),
                    Err(error) => if error == VaultError::ConditionsNotMet {
                        Err(VaultError::RetryError)
                    } else {
                        Err(error)
                    },
                },
            )
        }
    }

    /// What valuing several assets leaves behind, given what is held of each and the oracle's
    /// answers: the sum of the values, up to the first that cannot be determined.
    pub open spec fn valuation(self, assets: Seq<Address>, holdings: Seq<Observation>) -> Outcome<
        i128,
    >
        decreases assets.len(),
    {
        if assets.len() == 0 {
            (self, Ok(0))
        } else {
            let (before, earlier) = self.valuation(assets.drop_last(), holdings);
            let held = holdings[assets.len() - 1];
            match earlier {
                Err(error) => (before, Err(error)),
                Ok(total) => if held.balance <= 0 {
                    (before, Ok(total))
                } else {
                    let (after, value) = before.usd_value(assets.last(), held.balance, held.price);
                    match value {
                        Err(error) => (after, Err(error)),
                        Ok(value) => (after, Ok(crate::math::clamp_i128(total + value))),
                    }
                },
            }
        }
    }

    /// What setting the oracle leaves behind.
    pub open spec fn set_oracle(self, admin: Address, oracle: VaultOracleConfig) -> Outcome<()> {
        if self.role(admin) != Role::Admin {
            (self, Err(VaultError::InsufficientRole))
        } else {
            (
                self.with_oracle_config(Some(oracle)).publish(
                    Event::OracleConfigUpdated { admin, oracle: oracle.address },
                ),
                Ok(()),
            )
        }
    }
}

/// A failed valuation of the first assets is a failed valuation of all.
proof fn lemma_valuation_fails(
    env: EnvModel,
    assets: Seq<Address>,
    holdings: Seq<Observation>,
    n: int,
)
    requires
        0 <= n <= assets.len(),
        env.valuation(assets.take(n), holdings).1 is Err,
    ensures
        env.valuation(assets, holdings) == env.valuation(assets.take(n), holdings),
    decreases assets.len() - n,
{
    if n == assets.len() {
        assert(assets.take(n) =~= assets);
    } else {
        assert(assets.take(n + 1).drop_last() =~= assets.take(n));
        lemma_valuation_fails(env, assets, holdings, n + 1);
    }
}

/// The price in the oracle's answer, where there is an oracle and the answer is not too old.
pub(crate) fn find_price(env: &Env, answer: Option<VaultPriceData>) -> (r: Result<
    i128,
    VaultError,
>)
    ensures
        forall|asset: Address| r == (#[trigger] env@.asset_price(asset, answer)).1,
{
    let oracle = match storage::get_oracle_config(env) {
        Some(oracle) => oracle,
        None => return Err(VaultError::NotInitialized),
    };
    match answer {
        Some(data) => if env.now().saturating_sub(data.timestamp) > oracle.max_staleness as u64 {
            Err(VaultError::ConditionsNotMet)
        } else {
            Ok(data.price)
        },
        None => Err(VaultError::InvalidAmount),
    }
}

impl VaultDAO {
    /// Sets the oracle. Only admins may.
    pub fn update_oracle_config(env: &mut Env, admin: Address, oracle_config: VaultOracleConfig) -> (r:
        Result<(), VaultError>)
        requires
            old(env)@.authorized(admin),
        ensures
            (final(env)@, r) == old(env)@.set_oracle(admin, oracle_config),
    {
        if storage::get_role(env, &admin) != Role::Admin {
            return Err(VaultError::InsufficientRole);
        }
        storage::set_oracle_config(env, &Some(oracle_config));
        env.publish(Event::OracleConfigUpdated { admin, oracle: oracle_config.address });
        Ok(())
    }

    /// Sets the oracle. Only admins may.
    pub fn set_oracle_config(env: &mut Env, admin: Address, oracle_config: VaultOracleConfig) -> (r:
        Result<(), VaultError>)
        requires
            old(env)@.authorized(admin),
        ensures
            (final(env)@, r) == old(env)@.set_oracle(admin, oracle_config),
    {
        Self::update_oracle_config(env, admin, oracle_config)
    }

    /// The price of an asset, given the oracle's answer.
    pub fn get_asset_price(env: &mut Env, asset: Address, answer: Option<VaultPriceData>) -> (r:
        Result<i128, VaultError>)
        ensures
            (final(env)@, r) == old(env)@.asset_price(asset, answer),
    {
        match (find_price(env, answer), answer) {
            (Err(VaultError::ConditionsNotMet), Some(data)) => {
                let now: u64 = env.now();
                env.publish(Event::OraclePriceStale { asset, timestamp: data.timestamp, now });
                Err(VaultError::ConditionsNotMet)
            },
            (price, _) => price,
        }
    }

    /// The value of an amount of an asset, given the oracle's answer.
    pub fn convert_to_usd(
        env: &mut Env,
        asset: Address,
        amount: i128,
        answer: Option<VaultPriceData>,
    ) -> (r: Result<i128, VaultError>)
        ensures
            (final(env)@, r) == old(env)@.usd_value(asset, amount, answer),
    {
        if amount == 0 {
            return Ok(0);
        }
        match Self::get_asset_price(env, asset, answer) {
            Ok(price) => Ok(divide(sat_mul(amount, price), PRICE_SCALE)),
            Err(error) => if error == VaultError::ConditionsNotMet {
                Err(VaultError::RetryError)
            } else {
                Err(error)
            },
        }
    }

    /// The value of what the vault holds of several assets, given what it holds of each and
    /// the oracle's answers.
    pub fn get_portfolio_valuation(
        env: &mut Env,
        assets: Vec<Address>,
        holdings: &Vec<Observation>,
    ) -> (r: Result<i128, VaultError>)
        requires
            holdings@.len() == assets@.len(),
        ensures
            (final(env)@, r) == old(env)@.valuation(assets@, holdings@),
    {
        let mut total: i128 = 0;
        let mut i: usize = 0;
        while i < assets.len()
            invariant
                i <= assets.len(),
                holdings@.len() == assets@.len(),
                (env@, Ok::<i128, VaultError>(total)) == old(env)@.valuation(
                    assets@.take(i as int),
                    holdings@,
                ),
            decreases assets.len() - i,
        {
            let held = holdings[i];
            proof {
                assert(assets@.take(i + 1).drop_last() =~= assets@.take(i as int));
                assert(assets@.take(i + 1).last() == assets@[i as int]);
            }
            if held.balance > 0 {
                match Self::convert_to_usd(env, assets[i], held.balance, held.price) {
                    Ok(value) => {
                        total = sat_add(total, value);
                    },
                    Err(error) => {
                        proof {
                            lemma_valuation_fails(old(env)@, assets@, holdings@, i + 1);
                        }
                        return Err(error);
                    },
                }
            }
            i += 1;
        }
        assert(assets@.take(assets@.len() as int) =~= assets@);
        Ok(total)
    }
}

} // verus!
