//! How many votes a proposal needs, and whether it has them.

use vstd::prelude::*;

use crate::env::{Env, EnvModel};
use crate::errors::VaultError;
use crate::math::{count_u32, divide, floor_sqrt};
use crate::primitives::Address;
use crate::storage;
use crate::types::{
    AmountTier, Config, ConfigModel, Proposal, ProposalModel, ThresholdStrategy,
    ThresholdStrategyModel, VotingStrategy,
};
use crate::VaultDAO;

verus! {

/// The tier that decides for an amount: of those that the amount reaches, the one with the
/// highest amount, and the last of several such.
pub open spec fn best_tier(tiers: Seq<AmountTier>, amount: i128) -> Option<AmountTier>
    decreases tiers.len(),
{
    if tiers.len() == 0 {
        None
    } else {
        let tier = tiers.last();
        let earlier = best_tier(tiers.drop_last(), amount);
        if amount < tier.amount {
            earlier
        } else {
            match earlier {
                Some(best) => if tier.amount >= best.amount {
                    Some(tier)
                } else {
                    earlier
                },
                None => Some(tier),
            }
        }
    }
}

impl EnvModel {
    /// How many approvals a proposal needs.
    pub open spec fn required_approvals(
        self,
        config: ConfigModel,
        amount: i128,
        created_at: u64,
    ) -> u32 {
        match config.threshold_strategy {
            ThresholdStrategyModel::Fixed => config.threshold,
            ThresholdStrategyModel::Percentage(pct) => (crate::math::max_int(
                crate::math::percent_up(config.signers.len() as int, pct as int),
                1,
            ) % 0x1_0000_0000) as u32,
            ThresholdStrategyModel::AmountBased(tiers) => match best_tier(tiers, amount) {
                Some(tier) => tier.approvals,
                None => config.threshold,
            },
            ThresholdStrategyModel::TimeBased(tb) => if self.now() >= created_at
                + tb.reduction_delay {
                tb.reduced_threshold
            } else {
                tb.initial_threshold
            },
        }
    }

    /// The weight of a vote. Under quadratic voting it is the square root of the tokens that
    /// the voter locked; under conviction voting it is their power; else it is one.
    pub open spec fn vote_weight(self, voter: Address) -> u64 {
        match self.voting_strategy() {
            VotingStrategy::Quadratic => match self.token_lock(voter) {
                Some(lock) => if lock.is_active {
                    root(lock.amount)
                } else {
                    1
                },
                None => 1,
            },
            VotingStrategy::Conviction => match self.token_lock(voter) {
                Some(lock) => if lock.is_active {
                    let power = crate::math::quotient(
                        lock.amount * lock.power_multiplier_bps,
                        10_000,
                    );
                    if power > 0 {
                        (power % 0x1_0000_0000_0000_0000) as u64
                    } else {
                        1
                    }
                } else {
                    1
                },
                None => 1,
            },
            _ => 1,
        }
    }

    /// Whether the weight of a vote can be computed.
    pub open spec fn vote_weight_fits(self, voter: Address) -> bool {
        self.voting_strategy() == VotingStrategy::Conviction ==> match self.token_lock(voter) {
            Some(lock) => crate::math::fits_i128(lock.amount * lock.power_multiplier_bps),
            None => true,
        }
    }

    /// The weight of several votes together.
    pub open spec fn total_weight(self, voters: Seq<Address>) -> nat
        decreases voters.len(),
    {
        if voters.len() == 0 {
            0
        } else {
            self.total_weight(voters.drop_last()) + self.vote_weight(voters.last()) as nat
        }
    }

    /// The average weight of the votes of those who may vote, at least one.
    pub open spec fn average_weight(self, voters: Seq<Address>) -> int {
        if voters.len() == 0 {
            1
        } else {
            crate::math::max_int(self.total_weight(voters) as int / voters.len() as int, 1)
        }
    }

    /// Whether a proposal has the approvals that it needs. Under quadratic voting approvals
    /// count by weight, against the needed number of votes of average weight.
    pub open spec fn threshold_reached(self, config: ConfigModel, proposal: ProposalModel) -> bool {
        let required = self.required_approvals(config, proposal.amount, proposal.created_at);
        if self.voting_strategy() == VotingStrategy::Quadratic {
            self.total_weight(proposal.approvals) >= required * self.average_weight(
                proposal.snapshot_signers,
            )
        } else {
            proposal.approvals.len() >= required
        }
    }

    /// Why a proposal lacks votes, if it does.
    pub open spec fn votes_missing(self, config: ConfigModel, proposal: ProposalModel) -> Option<
        VaultError,
    > {
        if !self.threshold_reached(config, proposal) {
            Some(VaultError::ProposalNotApproved)
        } else if proposal.approvals.len() + proposal.abstentions.len() < needed_quorum(config) {
            Some(VaultError::QuorumNotReached)
        } else {
            None
        }
    }
}

/// The square root of an amount, rounded down; zero where the amount is not positive.
pub open spec fn root(value: i128) -> u64 {
    if value <= 0 {
        0
    } else {
        choose|r: u64| #![auto] crate::math::is_floor_sqrt(r as int, value as int)
    }
}

/// How many votes of any kind a proposal needs: the configured number, or else the configured
/// percentage of the signers, rounded up.
pub open spec fn needed_quorum(config: ConfigModel) -> u32 {
    if config.quorum > 0 {
        config.quorum
    } else if config.quorum_percentage > 0 {
        crate::math::clamp_u32(
            crate::math::percent_up(config.signers.len() as int, config.quorum_percentage as int),
        )
    } else {
        0
    }
}

/// The tier that decides is one of those that the amount reaches, and none of those has a
/// higher amount.
pub proof fn law_best_tier_is_highest(tiers: Seq<AmountTier>, amount: i128)
    ensures
        match best_tier(tiers, amount) {
            Some(best) => {
                &&& tiers.contains(best)
                &&& best.amount <= amount
                &&& forall|i: int|
                    0 <= i < tiers.len() && (#[trigger] tiers[i]).amount <= amount
                        ==> tiers[i].amount <= best.amount
            },
            None => forall|i: int| 0 <= i < tiers.len() ==> (#[trigger] tiers[i]).amount > amount,
        },
    decreases tiers.len(),
{
    if tiers.len() > 0 {
        let shorter = tiers.drop_last();
        law_best_tier_is_highest(shorter, amount);
        assert forall|i: int| 0 <= i < shorter.len() implies tiers[i] == shorter[i] by {}
        assert(tiers[tiers.len() - 1] == tiers.last());
        match best_tier(tiers, amount) {
            Some(best) => {
                if best != tiers.last() {
                    let i = choose|i: int| 0 <= i < shorter.len() && shorter[i] == best;
                    assert(tiers[i] == best);
                }
                assert forall|i: int|
                    0 <= i < tiers.len() && (#[trigger] tiers[i]).amount
                        <= amount implies tiers[i].amount <= best.amount by {
                    if i < shorter.len() {
                        assert(shorter[i].amount <= amount);
                    }
                }
            },
            None => {
                assert forall|i: int| 0 <= i < tiers.len() implies (#[trigger] tiers[i]).amount
                    > amount by {
                    if i < shorter.len() {
                        assert(shorter[i].amount > amount);
                    }
                }
            },
        }
    }
}

/// With a percentage of at most one hundred, the threshold is reachable: it asks for at least
/// one and at most all of the signers.
pub proof fn law_percentage_threshold_is_reachable(
    env: EnvModel,
    config: ConfigModel,
    pct: u32,
    amount: i128,
    created_at: u64,
)
    requires
        config.threshold_strategy == ThresholdStrategyModel::Percentage(pct),
        pct <= 100,
        1 <= config.signers.len() <= u32::MAX,
    ensures
        1 <= env.required_approvals(config, amount, created_at) <= config.signers.len(),
{
    let n = config.signers.len() as int;
    assert(0 <= n * pct <= n * 100) by (nonlinear_arith)
        requires
            0 <= pct <= 100,
            n >= 1,
    ;
}

/// The weight of some votes is bounded by their number.
proof fn lemma_total_weight_bound(env: EnvModel, voters: Seq<Address>)
    ensures
        env.total_weight(voters) <= voters.len() * u64::MAX,
    decreases voters.len(),
{
    if voters.len() > 0 {
        lemma_total_weight_bound(env, voters.drop_last());
        assert(voters.len() * u64::MAX == (voters.len() - 1) * u64::MAX + u64::MAX)
            by (nonlinear_arith);
    }
}

/// The weight of several votes together.
fn total_weight(env: &Env, voters: &Vec<Address>) -> (r: u128)
    requires
        env@.voting_strategy() == VotingStrategy::Quadratic,
    ensures
        r == env@.total_weight(voters@),
{
    let mut total: u128 = 0;
    let mut i: usize = 0;
    while i < voters.len()
        invariant
            i <= voters.len(),
            env@.voting_strategy() == VotingStrategy::Quadratic,
            total == env@.total_weight(voters@.take(i as int)),
        decreases voters.len() - i,
    {
        let weight: u64 = VaultDAO::get_snapshot_voting_power(env, &voters[i]);
        proof {
            assert(voters@.take(i + 1).drop_last() =~= voters@.take(i as int));
            lemma_total_weight_bound(env@, voters@.take(i as int));
            assert(i * u64::MAX <= u64::MAX * u64::MAX) by (nonlinear_arith)
                requires
                    0 <= i <= u64::MAX,
            ;
            assert(0xffff_ffff_ffff_ffff * 0xffff_ffff_ffff_ffff + 0xffff_ffff_ffff_ffff
                <= u128::MAX) by (nonlinear_arith);
        }
        total = total + weight as u128;
        i += 1;
    }
    assert(voters@.take(voters@.len() as int) =~= voters@);
    total
}

impl VaultDAO {
    /// How many approvals a proposal needs.
    pub fn calculate_threshold(env: &Env, config: &Config, amount: &i128, created_at: u64) -> (r:
        u32)
        ensures
            r == env@.required_approvals(config@, *amount, created_at),
    {
        match &config.threshold_strategy {
            ThresholdStrategy::Fixed => config.threshold,
            ThresholdStrategy::Percentage(pct) => {
                let signers: u128 = config.signers.len() as u128;
                let percentage: u128 = *pct as u128;
                assert(signers * percentage <= 0xffff_ffff_ffff_ffff * 0xffff_ffff)
                    by (nonlinear_arith)
                    requires
                        0 <= signers <= 0xffff_ffff_ffff_ffff,
                        0 <= percentage <= 0xffff_ffff,
                ;
                let share: u128 = (signers * percentage + 99) / 100;
                let needed: u128 = if share > 1 {
                    share
                } else {
                    1
                };
                (needed % 0x1_0000_0000) as u32
            },
            ThresholdStrategy::AmountBased(tiers) => {
                let mut best: Option<AmountTier> = None;
                let mut i: usize = 0;
                while i < tiers.len()
                    invariant
                        i <= tiers.len(),
                        best == best_tier(tiers@.take(i as int), *amount),
                    decreases tiers.len() - i,
                {
                    assert(tiers@.take(i + 1).drop_last() =~= tiers@.take(i as int));
                    let tier = tiers[i];
                    if *amount >= tier.amount {
                        best = match best {
                            Some(found) => if tier.amount >= found.amount {
                                Some(tier)
                            } else {
                                Some(found)
                            },
                            None => Some(tier),
                        };
                    }
                    i += 1;
                }
                assert(tiers@.take(tiers@.len() as int) =~= tiers@);
                match best {
                    Some(tier) => tier.approvals,
                    None => config.threshold,
                }
            },
            ThresholdStrategy::TimeBased(tb) => {
                let reduced = match created_at.checked_add(tb.reduction_delay) {
                    Some(from) => env.now() >= from,
                    None => false,
                };
                if reduced {
                    tb.reduced_threshold
                } else {
                    tb.initial_threshold
                }
            },
        }
    }

    /// The square root of a value, rounded down and cut to its low 32 bits; zero where the
    /// value is not positive.
    pub fn integer_sqrt(value: i128) -> (r: u32)
        ensures
            value <= 0 ==> r == 0,
            value > 0 ==> exists|full: int| #[trigger]
                crate::math::is_floor_sqrt(full, value as int) && r == full % 0x1_0000_0000,
    {
        if value <= 0 {
            return 0;
        }
        let full: u128 = floor_sqrt(value as u128);
        (full % 0x1_0000_0000) as u32
    }

    /// Accepts every voting strategy.
    pub fn validate_voting_strategy(strategy: &VotingStrategy) -> (r: Result<(), VaultError>)
        ensures
            r == Ok::<(), VaultError>(()),
    {
        match strategy {
            VotingStrategy::Simple => Ok(()),
            VotingStrategy::Weighted => Ok(()),
            VotingStrategy::Quadratic => Ok(()),
            VotingStrategy::Conviction => Ok(()),
        }
    }

    /// How many votes of any kind a proposal needs.
    pub fn effective_quorum(config: &Config) -> (r: u32)
        ensures
            r == needed_quorum(config@),
    {
        if config.quorum > 0 {
            return config.quorum;
        }
        if config.quorum_percentage > 0 {
            let signers: u128 = config.signers.len() as u128;
            let percentage: u128 = config.quorum_percentage as u128;
            assert(signers * percentage <= 0xffff_ffff_ffff_ffff * 0xffff_ffff)
                by (nonlinear_arith)
                requires
                    0 <= signers <= 0xffff_ffff_ffff_ffff,
                    0 <= percentage <= 0xffff_ffff,
            ;
            return count_u32((signers * percentage + 99) / 100);
        }
        0
    }

    /// Whether a proposal has the approvals that it needs.
    pub fn is_threshold_reached(env: &Env, config: &Config, proposal: &Proposal) -> (r: bool)
        ensures
            r == env@.threshold_reached(config@, proposal@),
    {
        let required: u32 = Self::calculate_threshold(
            env,
            config,
            &proposal.amount,
            proposal.created_at,
        );
        match storage::get_voting_strategy(env) {
            VotingStrategy::Simple | VotingStrategy::Weighted | VotingStrategy::Conviction => {
                proposal.approvals.len() as u128 >= required as u128
            },
            VotingStrategy::Quadratic => {
                let weighted_approvals: u128 = total_weight(env, &proposal.approvals);
                let total_voters: u128 = proposal.snapshot_signers.len() as u128;
                let mut average: u128 = 1;
                if total_voters > 0 {
                    let total_weighted: u128 = total_weight(env, &proposal.snapshot_signers);
                    average = total_weighted / total_voters;
                    proof {
                        lemma_total_weight_bound(env@, proposal@.snapshot_signers);
                        assert(average <= u64::MAX) by (nonlinear_arith)
                            requires
                                average == total_weighted as int / total_voters as int,
                                total_weighted <= total_voters * u64::MAX,
                                total_voters > 0,
                        ;
                    }
                }
                if average < 1 {
                    average = 1;
                }
                let needed: u128 = required as u128;
                assert(needed * average <= 0xffff_ffff * 0xffff_ffff_ffff_ffff) by (nonlinear_arith)
                    requires
                        0 <= needed <= 0xffff_ffff,
                        0 <= average <= 0xffff_ffff_ffff_ffff,
                ;
                weighted_approvals >= needed * average
            },
        }
    }

    /// Decides whether a proposal has both the approvals and the quorum that it needs.
    pub fn ensure_vote_requirements_satisfied(
        env: &Env,
        config: &Config,
        proposal: &Proposal,
    ) -> (r: Result<(), VaultError>)
        ensures
            r == crate::errors::unless(env@.votes_missing(config@, proposal@)),
    {
        let quorum_votes: u128 = proposal.approvals.len() as u128 + proposal.abstentions.len()
            as u128;
        if !Self::is_threshold_reached(env, config, proposal) {
            return Err(VaultError::ProposalNotApproved);
        }
        if quorum_votes < Self::effective_quorum(config) as u128 {
            return Err(VaultError::QuorumNotReached);
        }
        Ok(())
    }

    /// The square root of a value, rounded down; zero where the value is not positive.
    pub fn isqrt(value: i128) -> (r: u64)
        ensures
            r == root(value),
            crate::math::is_floor_sqrt(r as int, crate::math::max_int(value as int, 0)),
    {
        if value <= 0 {
            assert(crate::math::is_floor_sqrt(0, 0));
            return 0;
        }
        let r: u64 = floor_sqrt(value as u128) as u64;
        proof {
            assert(crate::math::is_floor_sqrt(r as int, value as int));
            crate::math::law_floor_sqrt_unique(r as int, root(value) as int, value as int);
        }
        r
    }

    /// The weight of a vote.
    pub fn get_snapshot_voting_power(env: &Env, voter: &Address) -> (r: u64)
        requires
            env@.vote_weight_fits(*voter),
        ensures
            r == env@.vote_weight(*voter),
    {
        match storage::get_voting_strategy(env) {
            VotingStrategy::Quadratic => match storage::get_token_lock(env, voter) {
                Some(lock) => if lock.is_active {
                    Self::isqrt(lock.amount)
                } else {
                    1
                },
                None => 1,
            },
            VotingStrategy::Conviction => match storage::get_token_lock(env, voter) {
                Some(lock) => if lock.is_active {
                    let power: i128 = divide(
                        lock.amount * lock.power_multiplier_bps as i128,
                        10_000,
                    );
                    if power > 0 {
                        (power as u128 % 0x1_0000_0000_0000_0000) as u64
                    } else {
                        1
                    }
                } else {
                    1
                },
                None => 1,
            },
            _ => 1,
        }
    }
}

} // verus!
