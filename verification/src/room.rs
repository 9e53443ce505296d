//! Room that the state leaves below the limits of its integers.

use vstd::prelude::*;

use crate::constants::COUNTER_ROOM;
use crate::env::{Env, EnvModel};
use crate::types::{Config, ConfigModel};

verus! {

/// Whether an identifier counter has room for the identifiers of one call.
pub open spec fn counter_fits(counter: u64) -> bool {
    counter <= u64::MAX - COUNTER_ROOM
}

impl ConfigModel {
    /// Whether there is a ledger at which the timelock of an amount, where it has one, ends.
    pub open spec fn unlock_fits(self, amount: i128, now: u64) -> bool {
        amount >= self.timelock_threshold ==> now + self.timelock_delay <= u64::MAX
    }

    /// Whether there is a ledger at which the voting deadline of a new proposal ends.
    pub open spec fn deadline_fits(self, now: u64) -> bool {
        now + self.default_voting_deadline <= u64::MAX
    }

    /// Whether there are ledgers at which timelock and voting deadline of a new proposal end.
    pub open spec fn delays_fit(self, amount: i128, now: u64) -> bool {
        self.unlock_fits(amount, now) && self.deadline_fits(now)
    }
}

impl Config {
    /// Whether there is a ledger at which the timelock of an amount, where it has one, ends.
    pub fn unlock_fits(&self, amount: i128, now: u64) -> (r: bool)
        ensures
            r == self@.unlock_fits(amount, now),
    {
        amount < self.timelock_threshold || self.timelock_delay <= u64::MAX - now
    }

    /// Whether there is a ledger at which the voting deadline of a new proposal ends.
    pub fn deadline_fits(&self, now: u64) -> (r: bool)
        ensures
            r == self@.deadline_fits(now),
    {
        self.default_voting_deadline <= u64::MAX - now
    }

    /// Whether there are ledgers at which timelock and voting deadline of a new proposal end.
    pub fn delays_fit(&self, amount: i128, now: u64) -> (r: bool)
        ensures
            r == self@.delays_fit(amount, now),
    {
        self.unlock_fits(amount, now) && self.deadline_fits(now)
    }
}

impl EnvModel {
    /// Whether identifier counters leave room for a call.
    pub open spec fn has_room(self) -> bool {
        &&& counter_fits(self.proposals.next_id)
        &&& counter_fits(self.proposals.next_comment_id)
        &&& counter_fits(self.members.next_delegation_id)
        &&& counter_fits(self.audit.next_id)
        &&& counter_fits(self.payments.next_recurring_id)
        &&& counter_fits(self.payments.next_stream_id)
        &&& counter_fits(self.payments.next_escrow_id)
        &&& counter_fits(self.payments.next_subscription_id)
        &&& counter_fits(self.programs.next_template_id)
        &&& counter_fits(self.programs.next_funding_round_id)
        &&& counter_fits(self.programs.last_batch_id)
        &&& counter_fits(self.programs.next_proposal_batch_id)
        &&& counter_fits(self.programs.next_recovery_id)
        &&& counter_fits(self.programs.next_dispute_id)
    }
}

impl Env {
    /// Whether identifier counters leave room for a call.
    pub fn has_room(&self) -> (r: bool)
        ensures
            r == self@.has_room(),
    {
        let top: u64 = u64::MAX - COUNTER_ROOM;
        self.proposals.next_id <= top && self.proposals.next_comment_id <= top
            && self.members.next_delegation_id <= top && self.audit.next_id <= top
            && self.payments.next_recurring_id <= top && self.payments.next_stream_id <= top
            && self.payments.next_escrow_id <= top && self.payments.next_subscription_id <= top
            && self.programs.next_template_id <= top && self.programs.next_funding_round_id <= top
            && self.programs.last_batch_id <= top && self.programs.next_proposal_batch_id <= top
            && self.programs.next_recovery_id <= top && self.programs.next_dispute_id <= top
    }
}

} // verus!
