//! Estimated execution cost of a proposal.

use vstd::prelude::*;

use crate::env::{Env, EnvModel, Event};
use crate::math::sat_mul_u64;
use crate::storage;
use crate::types::{ExecutionFeeEstimate, Proposal, ProposalModel, VaultMetrics};
use crate::VaultDAO;

verus! {

/// How many steps the execution of a proposal takes: the transfer, one per condition, one for
/// insurance and one for a swap.
pub open spec fn operation_count(proposal: ProposalModel) -> u32 {
    let insured: int = if proposal.insurance_amount > 0 {
        1
    } else {
        0
    };
    let swapped: int = if proposal.is_swap {
        1
    } else {
        0
    };
    crate::math::clamp_u32(1 + proposal.conditions.len() + insured + swapped)
}

impl EnvModel {
    /// The estimated execution cost of a proposal.
    pub open spec fn execution_fee(self, proposal: ProposalModel) -> ExecutionFeeEstimate {
        let gas = self.gas_config();
        let resource_fee = crate::math::clamp_u64(gas.condition_cost * operation_count(proposal));
        ExecutionFeeEstimate {
            base_fee: gas.base_cost,
            resource_fee,
            total_fee: crate::math::clamp_u64(gas.base_cost + resource_fee),
            operation_count: operation_count(proposal),
        }
    }

    /// The state after the estimated cost of a proposal was stored and published.
    pub open spec fn estimate_cost(self, proposal: ProposalModel) -> EnvModel {
        let estimate = self.execution_fee(proposal);
        self.with_fee_estimate(proposal.id, estimate).publish(
            Event::ExecutionFeeEstimated {
                proposal_id: proposal.id,
                base_fee: estimate.base_fee,
                resource_fee: estimate.resource_fee,
                total_fee: estimate.total_fee,
            },
        )
    }

    /// The cost limit that a new proposal gets; zero stands for none.
    pub open spec fn new_gas_limit(self) -> u64 {
        if self.gas_config().enabled {
            self.gas_config().default_gas_limit
        } else {
            0
        }
    }

    /// The state after the vault-wide counters were published.
    pub open spec fn publish_metrics(self) -> EnvModel {
        let metrics = self.metrics();
        self.publish(
            Event::MetricsUpdated {
                executed: metrics.executed_count,
                rejected: metrics.rejected_count,
                expired: metrics.expired_count,
                success_rate_bps: metrics.spec_success_rate_bps(),
            },
        )
    }
}

impl VaultMetrics {
    /// Share of executed proposals among those that were decided, in basis points.
    pub open spec fn spec_success_rate_bps(self) -> u32 {
        let decided = self.executed_count + self.rejected_count + self.expired_count;
        if decided == 0 {
            0
        } else {
            (self.executed_count * 10_000 / decided) as u32
        }
    }

    /// Share of executed proposals among those that were decided, in basis points.
    pub fn success_rate_bps(&self) -> (r: u32)
        ensures
            r == self.spec_success_rate_bps(),
            r <= 10_000,
    {
        let decided: u128 = self.executed_count as u128 + self.rejected_count as u128
            + self.expired_count as u128;
        if decided == 0 {
            return 0;
        }
        let rate: u128 = self.executed_count as u128 * 10_000 / decided;
        assert(rate <= 10_000) by (nonlinear_arith)
            requires
                rate == self.executed_count as int * 10_000 / (decided as int),
                self.executed_count <= decided,
                decided > 0,
        ;
        rate as u32
    }

    /// Average number of ledgers from proposal to execution.
    pub open spec fn spec_avg_execution_time_ledgers(self) -> u64 {
        if self.executed_count == 0 {
            0
        } else {
            self.total_execution_time_ledgers / self.executed_count
        }
    }

    /// Average number of ledgers from proposal to execution.
    pub fn avg_execution_time_ledgers(&self) -> (r: u64)
        ensures
            r == self.spec_avg_execution_time_ledgers(),
    {
        if self.executed_count == 0 {
            0
        } else {
            self.total_execution_time_ledgers / self.executed_count
        }
    }
}

/// Publishes the vault-wide counters.
pub fn publish_metrics(env: &mut Env)
    ensures
        final(env)@ == old(env)@.publish_metrics(),
{
    let metrics = storage::get_metrics(env);
    env.publish(
        Event::MetricsUpdated {
            executed: metrics.executed_count,
            rejected: metrics.rejected_count,
            expired: metrics.expired_count,
            success_rate_bps: metrics.success_rate_bps(),
        },
    );
}

/// The cost limit that a new proposal gets; zero stands for none.
pub fn new_gas_limit(env: &Env) -> (r: u64)
    ensures
        r == env@.new_gas_limit(),
{
    let gas_cfg = storage::get_gas_config(env);
    if gas_cfg.enabled {
        gas_cfg.default_gas_limit
    } else {
        0
    }
}

impl VaultDAO {
    /// The estimated execution cost of a proposal.
    pub fn calculate_execution_fee(env: &Env, proposal: &Proposal) -> (r: ExecutionFeeEstimate)
        ensures
            r == env@.execution_fee(proposal@),
    {
        let gas_cfg = storage::get_gas_config(env);
        let mut operation_count: u32 = 1;
        let conditions: u32 = if proposal.conditions.len() > u32::MAX as usize {
            u32::MAX
        } else {
            proposal.conditions.len() as u32
        };
        operation_count = operation_count.saturating_add(conditions);
        if proposal.insurance_amount > 0 {
            operation_count = operation_count.saturating_add(1);
        }
        if proposal.is_swap {
            operation_count = operation_count.saturating_add(1);
        }
        let resource_fee: u64 = sat_mul_u64(gas_cfg.condition_cost, operation_count as u64);
        let total_fee: u64 = gas_cfg.base_cost.saturating_add(resource_fee);
        ExecutionFeeEstimate {
            base_fee: gas_cfg.base_cost,
            resource_fee,
            total_fee,
            operation_count,
        }
    }

    /// Stores and publishes the estimated execution cost of a proposal.
    pub fn persist_execution_fee_estimate(env: &mut Env, proposal: &Proposal) -> (r:
        ExecutionFeeEstimate)
        ensures
            r == old(env)@.execution_fee(proposal@),
            final(env)@ == old(env)@.estimate_cost(proposal@),
    {
        let estimate = Self::calculate_execution_fee(env, proposal);
        storage::set_execution_fee_estimate(env, proposal.id, &estimate);
        env.publish(
            Event::ExecutionFeeEstimated {
                proposal_id: proposal.id,
                base_fee: estimate.base_fee,
                resource_fee: estimate.resource_fee,
                total_fee: estimate.total_fee,
            },
        );
        estimate
    }
}

} // verus!
