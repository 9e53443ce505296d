//! Voting power of locked tokens.

use vstd::prelude::*;

use crate::math::{divide, sat_mul};
use crate::types::TokenLock;

verus! {

impl TokenLock {
    /// The locked amount times the lock's multiplier.
    pub open spec fn full_power(self) -> i128 {
        crate::math::quotient(
            crate::math::clamp_i128(self.amount * self.power_multiplier_bps) as int,
            10_000,
        ) as i128
    }

    /// The full power times the share of the duration that is still ahead.
    pub open spec fn decayed_power(self, now: u64) -> i128 {
        if now >= self.unlock_at || self.duration == 0 {
            0
        } else {
            crate::math::quotient(
                crate::math::clamp_i128(self.full_power() * (self.unlock_at - now)) as int,
                self.duration as int,
            ) as i128
        }
    }

    /// The locked amount times the lock's multiplier.
    pub fn calculate_voting_power(&self) -> (r: i128)
        ensures
            r == self.full_power(),
    {
        divide(sat_mul(self.amount, self.power_multiplier_bps as i128), 10_000)
    }

    /// The full power times the share of the duration that is still ahead.
    pub fn calculate_decayed_power(&self, now: u64) -> (r: i128)
        ensures
            r == self.decayed_power(now),
    {
        if now >= self.unlock_at || self.duration == 0 {
            return 0;
        }
        let ahead: u64 = self.unlock_at - now;
        divide(sat_mul(self.calculate_voting_power(), ahead as i128), self.duration as i128)
    }
}

} // verus!
