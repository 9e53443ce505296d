//! Insurance and stakes that proposers lock.

use vstd::prelude::*;

use crate::env::{Action, Env, EnvModel, Event};
use crate::math::{divide, sat_sub};
use crate::storage;
use crate::types::{Proposal, ProposalModel, StakeRecord};
use crate::VaultDAO;

verus! {

/// What a rejection takes of a locked amount.
pub open spec fn slashed_share(amount: i128, percentage: u32) -> i128 {
    crate::math::quotient(amount * percentage, 100) as i128
}

impl EnvModel {
    /// The state after a positive amount was paid to the proposer of a proposal.
    pub open spec fn pay_proposer(self, proposal: ProposalModel, amount: i128) -> EnvModel {
        if amount > 0 {
            self.act(Action::Transfer { token: proposal.token, to: proposal.proposer, amount })
        } else {
            self
        }
    }

    /// The state after the insurance of a proposal was returned.
    pub open spec fn return_insurance(self, proposal: ProposalModel) -> EnvModel {
        if proposal.insurance_amount > 0 {
            self.pay_proposer(proposal, proposal.insurance_amount).publish(
                Event::InsuranceReturned {
                    proposal_id: proposal.id,
                    proposer: proposal.proposer,
                    amount: proposal.insurance_amount,
                },
            )
        } else {
            self
        }
    }

    /// The stake of a proposal, if it was neither returned nor slashed.
    pub open spec fn open_stake(self, proposal_id: u64) -> Option<StakeRecord> {
        match self.stake_record(proposal_id) {
            Some(record) => if record.refunded || record.slashed {
                None
            } else {
                Some(record)
            },
            None => None,
        }
    }

    /// The state after the stake of a proposal was returned.
    pub open spec fn return_stake(self, proposal: ProposalModel) -> EnvModel {
        if proposal.stake_amount > 0 {
            match self.open_stake(proposal.id) {
                Some(record) => self.pay_proposer(
                    proposal,
                    proposal.stake_amount,
                ).with_stake_record(
                    StakeRecord { refunded: true, released_at: self.now(), ..record },
                ).publish(
                    Event::StakeRefunded {
                        proposal_id: proposal.id,
                        staker: proposal.proposer,
                        amount: proposal.stake_amount,
                    },
                ),
                None => self,
            }
        } else {
            self
        }
    }

    /// The state after the insurance of a rejected proposal was slashed, or returned where
    /// insurance is not in use.
    pub open spec fn slash_insurance(self, proposal: ProposalModel) -> EnvModel {
        if self.insurance_config().enabled && proposal.insurance_amount > 0 {
            let slashed = slashed_share(
                proposal.insurance_amount,
                self.insurance_config().slash_percentage,
            );
            let kept = crate::math::clamp_i128(proposal.insurance_amount - slashed);
            let paid = self.pay_proposer(proposal, kept);
            let pooled = if slashed > 0 {
                paid.insurance_pool_add(proposal.token, slashed)
            } else {
                paid
            };
            pooled.publish(
                Event::InsuranceSlashed {
                    proposal_id: proposal.id,
                    proposer: proposal.proposer,
                    slashed,
                    kept,
                },
            )
        } else {
            self.return_insurance(proposal)
        }
    }

    /// What a rejection takes of the stake of a proposal.
    pub open spec fn slashed_stake(self, proposal: ProposalModel) -> i128 {
        if self.staking_config().enabled {
            slashed_share(proposal.stake_amount, self.staking_config().slash_percentage)
        } else {
            0
        }
    }

    /// The state after the stake of a rejected proposal was slashed.
    pub open spec fn slash_stake(self, proposal: ProposalModel) -> EnvModel {
        if proposal.stake_amount == 0 {
            self
        } else {
            match self.open_stake(proposal.id) {
                Some(record) => {
                    let slashed = self.slashed_stake(proposal);
                    let rest = crate::math::clamp_i128(proposal.stake_amount - slashed);
                    let paid = self.pay_proposer(proposal, rest);
                    let pooled = if slashed > 0 {
                        paid.stake_pool_add(proposal.token, slashed)
                    } else {
                        paid
                    };
                    pooled.with_stake_record(
                        StakeRecord {
                            slashed: slashed > 0,
                            slashed_amount: slashed,
                            released_at: self.now(),
                            ..record
                        },
                    ).publish(
                        Event::StakeSlashed {
                            proposal_id: proposal.id,
                            staker: proposal.proposer,
                            slashed,
                            returned: rest,
                        },
                    )
                },
                None => self,
            }
        }
    }

    /// Whether slashing the insurance of a proposal stays within the limits of integers.
    pub open spec fn insurance_slash_fits(self, proposal: ProposalModel) -> bool {
        let percentage = self.insurance_config().slash_percentage;
        self.insurance_config().enabled && proposal.insurance_amount > 0 ==> {
            &&& crate::math::fits_i128(proposal.insurance_amount * percentage)
            &&& crate::math::fits_i128(
                self.insurance_pool(proposal.token) + slashed_share(
                    proposal.insurance_amount,
                    percentage,
                ),
            )
        }
    }

    /// Whether slashing the stake of a proposal stays within the limits of integers.
    pub open spec fn stake_slash_fits(self, proposal: ProposalModel) -> bool {
        let percentage = self.staking_config().slash_percentage;
        self.staking_config().enabled && proposal.stake_amount != 0 ==> {
            &&& crate::math::fits_i128(proposal.stake_amount * percentage)
            &&& crate::math::fits_i128(
                self.stake_pool(proposal.token) + self.slashed_stake(proposal),
            )
        }
    }

    /// Whether slashing a proposal stays within the limits of integers.
    pub open spec fn slash_fits(self, proposal: ProposalModel) -> bool {
        self.insurance_slash_fits(proposal) && self.stake_slash_fits(proposal)
    }
}

/// With a slash percentage of at most one hundred, what a rejection takes of a locked amount
/// and what it returns are both not negative and together the whole amount.
pub proof fn law_slashing_splits_the_amount(amount: i128, percentage: u32)
    requires
        amount >= 0,
        percentage <= 100,
    ensures
        0 <= slashed_share(amount, percentage) <= amount,
        slashed_share(amount, percentage) + crate::math::clamp_i128(
            amount - slashed_share(amount, percentage),
        ) == amount,
{
    assert(0 <= amount * percentage <= amount * 100) by (nonlinear_arith)
        requires
            amount >= 0,
            0 <= percentage <= 100,
    ;
}

/// Pays a positive amount to the proposer of a proposal.
fn pay_proposer(env: &mut Env, proposal: &Proposal, amount: i128)
    ensures
        final(env)@ == old(env)@.pay_proposer(proposal@, amount),
{
    if amount > 0 {
        env.act(Action::Transfer { token: proposal.token, to: proposal.proposer, amount });
    }
}

/// Returns the insurance of a proposal.
pub fn return_insurance(env: &mut Env, proposal: &Proposal)
    ensures
        final(env)@ == old(env)@.return_insurance(proposal@),
{
    if proposal.insurance_amount > 0 {
        pay_proposer(env, proposal, proposal.insurance_amount);
        env.publish(
            Event::InsuranceReturned {
                proposal_id: proposal.id,
                proposer: proposal.proposer,
                amount: proposal.insurance_amount,
            },
        );
    }
}

/// Returns the stake of a proposal, unless it was returned or slashed before.
pub fn return_stake(env: &mut Env, proposal: &Proposal)
    ensures
        final(env)@ == old(env)@.return_stake(proposal@),
{
    if proposal.stake_amount > 0 {
        if let Some(record) = storage::get_stake_record(env, proposal.id) {
            if !record.refunded && !record.slashed {
                pay_proposer(env, proposal, proposal.stake_amount);
                let mut changed = record;
                changed.refunded = true;
                changed.released_at = env.now();
                storage::set_stake_record(env, &changed);
                env.publish(
                    Event::StakeRefunded {
                        proposal_id: proposal.id,
                        staker: proposal.proposer,
                        amount: proposal.stake_amount,
                    },
                );
            }
        }
    }
}

impl VaultDAO {
    /// Slashes the insurance of a rejected proposal: a share goes to the insurance pool, the
    /// rest back to the proposer. Where insurance is not in use, all of it goes back.
    pub fn slash_insurance_on_rejection(env: &mut Env, proposal: &Proposal)
        requires
            old(env)@.insurance_slash_fits(proposal@),
        ensures
            final(env)@ == old(env)@.slash_insurance(proposal@),
    {
        let rules = storage::get_insurance_config(env);
        if rules.enabled && proposal.insurance_amount > 0 {
            let slashed: i128 = divide(
                proposal.insurance_amount * rules.slash_percentage as i128,
                100,
            );
            let kept: i128 = sat_sub(proposal.insurance_amount, slashed);
            pay_proposer(env, proposal, kept);
            if slashed > 0 {
                storage::add_to_insurance_pool(env, &proposal.token, slashed);
            }
            env.publish(
                Event::InsuranceSlashed {
                    proposal_id: proposal.id,
                    proposer: proposal.proposer,
                    slashed,
                    kept,
                },
            );
        } else {
            return_insurance(env, proposal);
        }
    }

    /// Slashes the stake of a rejected proposal, unless it was returned or slashed before: a
    /// share goes to the stake pool, the rest back to the proposer.
    pub fn slash_stake_on_rejection(env: &mut Env, proposal: &Proposal)
        requires
            old(env)@.stake_slash_fits(proposal@),
        ensures
            final(env)@ == old(env)@.slash_stake(proposal@),
    {
        if proposal.stake_amount == 0 {
            return;
        }
        if let Some(record) = storage::get_stake_record(env, proposal.id) {
            if record.refunded || record.slashed {
                return;
            }
            let rules = storage::get_staking_config(env);
            let slashed: i128 = if rules.enabled {
                divide(proposal.stake_amount * rules.slash_percentage as i128, 100)
            } else {
                0
            };
            let rest: i128 = sat_sub(proposal.stake_amount, slashed);
            pay_proposer(env, proposal, rest);
            if slashed > 0 {
                storage::add_to_stake_pool(env, &proposal.token, slashed);
            }
            let mut changed = record;
            changed.slashed = slashed > 0;
            changed.slashed_amount = slashed;
            changed.released_at = env.now();
            storage::set_stake_record(env, &changed);
            env.publish(
                Event::StakeSlashed {
                    proposal_id: proposal.id,
                    staker: proposal.proposer,
                    slashed,
                    returned: rest,
                },
            );
        }
    }
}

} // verus!
