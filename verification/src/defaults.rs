//! What the vault assumes where nothing was configured or recorded.

use vstd::prelude::*;

use crate::types::{
    GasConfig, InsuranceConfig, NotificationPreferences, Reputation, ReputationConfig,
    StakingConfig, TimeWeightedConfig, VaultMetrics,
};

verus! {

impl GasConfig {
    /// The value where nothing else was set.
    pub open spec fn spec_default() -> GasConfig {
        GasConfig {
            enabled: false,
            default_gas_limit: 0,
            base_cost: 1_000,
            condition_cost: 500,
        }
    }
}

impl Default for GasConfig {
    fn default() -> (r: GasConfig)
        ensures
            r == GasConfig::spec_default(),
    {
        GasConfig {
            enabled: false,
            default_gas_limit: 0,
            base_cost: 1_000,
            condition_cost: 500,
        }
    }
}

impl InsuranceConfig {
    /// The value where nothing else was set.
    pub open spec fn spec_default() -> InsuranceConfig {
        InsuranceConfig {
            enabled: false,
            min_amount: 0,
            min_insurance_bps: 100,
            slash_percentage: 50,
        }
    }
}

impl Default for InsuranceConfig {
    fn default() -> (r: InsuranceConfig)
        ensures
            r == InsuranceConfig::spec_default(),
    {
        InsuranceConfig {
            enabled: false,
            min_amount: 0,
            min_insurance_bps: 100,
            slash_percentage: 50,
        }
    }
}

impl NotificationPreferences {
    /// The value where nothing else was set.
    pub open spec fn spec_default() -> NotificationPreferences {
        NotificationPreferences {
            notify_on_proposal: true,
            notify_on_approval: true,
            notify_on_execution: true,
            notify_on_rejection: true,
            notify_on_expiry: true,
        }
    }
}

impl Default for NotificationPreferences {
    fn default() -> (r: NotificationPreferences)
        ensures
            r == NotificationPreferences::spec_default(),
    {
        NotificationPreferences {
            notify_on_proposal: true,
            notify_on_approval: true,
            notify_on_execution: true,
            notify_on_rejection: true,
            notify_on_expiry: true,
        }
    }
}

impl Reputation {
    /// The value where nothing else was set.
    pub open spec fn spec_default() -> Reputation {
        Reputation {
            score: 500,
            proposals_executed: 0,
            proposals_rejected: 0,
            proposals_created: 0,
            approvals_given: 0,
            abstentions_given: 0,
            participation_count: 0,
            last_participation_ledger: 0,
            last_decay_ledger: 0,
        }
    }
}

impl Default for Reputation {
    fn default() -> (r: Reputation)
        ensures
            r == Reputation::spec_default(),
    {
        Reputation {
            score: 500,
            proposals_executed: 0,
            proposals_rejected: 0,
            proposals_created: 0,
            approvals_given: 0,
            abstentions_given: 0,
            participation_count: 0,
            last_participation_ledger: 0,
            last_decay_ledger: 0,
        }
    }
}

impl ReputationConfig {
    /// The value where nothing else was set.
    pub open spec fn spec_default() -> ReputationConfig {
        ReputationConfig {
            decay_half_life_ledgers: 518_400,
            decay_min_score: 100,
        }
    }
}

impl Default for ReputationConfig {
    fn default() -> (r: ReputationConfig)
        ensures
            r == ReputationConfig::spec_default(),
    {
        ReputationConfig {
            decay_half_life_ledgers: 518_400,
            decay_min_score: 100,
        }
    }
}

impl StakingConfig {
    /// The value where nothing else was set.
    pub open spec fn spec_default() -> StakingConfig {
        StakingConfig {
            enabled: false,
            min_amount: 0,
            base_stake_bps: 100,
            max_stake_amount: 0,
            reputation_discount_threshold: 750,
            reputation_discount_percentage: 50,
            slash_percentage: 50,
        }
    }
}

impl Default for StakingConfig {
    fn default() -> (r: StakingConfig)
        ensures
            r == StakingConfig::spec_default(),
    {
        StakingConfig {
            enabled: false,
            min_amount: 0,
            base_stake_bps: 100,
            max_stake_amount: 0,
            reputation_discount_threshold: 750,
            reputation_discount_percentage: 50,
            slash_percentage: 50,
        }
    }
}

impl TimeWeightedConfig {
    /// The value where nothing else was set.
    pub open spec fn spec_default() -> TimeWeightedConfig {
        TimeWeightedConfig {
            enabled: false,
            min_lock_duration: 17_280,
            max_lock_duration: 6_307_200,
            early_unlock_penalty_bps: 1_000,
            apply_decay: false,
        }
    }
}

impl Default for TimeWeightedConfig {
    fn default() -> (r: TimeWeightedConfig)
        ensures
            r == TimeWeightedConfig::spec_default(),
    {
        TimeWeightedConfig {
            enabled: false,
            min_lock_duration: 17_280,
            max_lock_duration: 6_307_200,
            early_unlock_penalty_bps: 1_000,
            apply_decay: false,
        }
    }
}

impl VaultMetrics {
    /// The value where nothing else was set.
    pub open spec fn spec_default() -> VaultMetrics {
        VaultMetrics {
            total_proposals: 0,
            executed_count: 0,
            rejected_count: 0,
            expired_count: 0,
            total_execution_time_ledgers: 0,
            total_gas_used: 0,
            last_updated_ledger: 0,
        }
    }
}

impl Default for VaultMetrics {
    fn default() -> (r: VaultMetrics)
        ensures
            r == VaultMetrics::spec_default(),
    {
        VaultMetrics {
            total_proposals: 0,
            executed_count: 0,
            rejected_count: 0,
            expired_count: 0,
            total_execution_time_ledgers: 0,
            total_gas_used: 0,
            last_updated_ledger: 0,
        }
    }
}

} // verus!
