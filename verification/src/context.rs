//! The protocol constants that every rule reads.

use vstd::prelude::*;
use crate::primitives::{Epoch, Gwei, Slot, Version};

verus! {

/// The per-network constants.
#[derive(Clone, Copy, Debug, PartialEq, Eq)]
pub struct Config {
    pub min_genesis_active_validator_count: usize,
    pub min_genesis_time: u64,
    pub genesis_fork_version: Version,
    pub genesis_delay: u64,
    pub seconds_per_slot: u64,
    pub seconds_per_eth1_block: u64,
    pub min_validator_withdrawability_delay: Epoch,
    pub shard_committee_period: Epoch,
    pub eth1_follow_distance: u64,
    pub ejection_balance: Gwei,
    pub churn_limit_quotient: u64,
    pub min_per_epoch_churn_limit: u64,
    pub inactivity_score_bias: u64,
    pub inactivity_score_recovery_rate: u64,
}

/// Every constant of the protocol: the preset of all three forks, the
/// per-network configuration and the fork schedule.
#[derive(Clone, Copy, Debug, PartialEq, Eq)]
pub struct Context {
    pub max_committees_per_slot: u64,
    pub target_committee_size: u64,
    pub max_validators_per_committee: usize,
    pub shuffle_round_count: u64,
    pub hysteresis_quotient: u64,
    pub hysteresis_downward_multiplier: u64,
    pub hysteresis_upward_multiplier: u64,
    pub min_deposit_amount: Gwei,
    pub max_effective_balance: Gwei,
    pub effective_balance_increment: Gwei,
    pub min_attestation_inclusion_delay: Slot,
    pub slots_per_epoch: Slot,
    pub min_seed_lookahead: Epoch,
    pub max_seed_lookahead: Epoch,
    pub min_epochs_to_inactivity_penalty: Epoch,
    pub epochs_per_eth1_voting_period: Epoch,
    pub slots_per_historical_root: Slot,
    pub epochs_per_historical_vector: Epoch,
    pub epochs_per_slashings_vector: Epoch,
    pub historical_roots_limit: u64,
    pub validator_registry_limit: u64,
    pub base_reward_factor: u64,
    pub whistleblower_reward_quotient: u64,
    pub proposer_reward_quotient: u64,
    pub inactivity_penalty_quotient: u64,
    pub min_slashing_penalty_quotient: u64,
    pub proportional_slashing_multiplier: u64,
    pub max_proposer_slashings: usize,
    pub max_attester_slashings: usize,
    pub max_attestations: usize,
    pub max_deposits: usize,
    pub max_voluntary_exits: usize,
    pub inactivity_penalty_quotient_altair: u64,
    pub min_slashing_penalty_quotient_altair: u64,
    pub proportional_slashing_multiplier_altair: u64,
    pub sync_committee_size: usize,
    pub epochs_per_sync_committee_period: Epoch,
    pub min_sync_committee_participants: usize,
    pub inactivity_penalty_quotient_bellatrix: u64,
    pub min_slashing_penalty_quotient_bellatrix: u64,
    pub proportional_slashing_multiplier_bellatrix: u64,
    pub genesis_fork_version: Version,
    pub altair_fork_version: Version,
    pub altair_fork_epoch: Epoch,
    pub bellatrix_fork_version: Version,
    pub bellatrix_fork_epoch: Epoch,
    pub min_genesis_active_validator_count: usize,
    pub min_genesis_time: u64,
    pub genesis_delay: u64,
    pub seconds_per_slot: u64,
    pub seconds_per_eth1_block: u64,
    pub min_validator_withdrawability_delay: Epoch,
    pub shard_committee_period: Epoch,
    pub eth1_follow_distance: u64,
    pub ejection_balance: Gwei,
    pub churn_limit_quotient: u64,
    pub min_per_epoch_churn_limit: u64,
    pub inactivity_score_bias: u64,
    pub inactivity_score_recovery_rate: u64,
}

impl Context {
    /// What the rules divide by is not zero, the history buffers are at least
    /// an epoch long, and the largest effective balance is a whole number of
    /// increments.
    pub open spec fn valid(&self) -> bool {
        &&& self.slots_per_epoch > 0
        &&& self.effective_balance_increment > 0
        &&& self.max_effective_balance % self.effective_balance_increment == 0
        &&& self.hysteresis_quotient > 0
        &&& self.epochs_per_eth1_voting_period > 0
        &&& self.slots_per_historical_root >= self.slots_per_epoch
        &&& self.epochs_per_historical_vector > 0
        &&& self.epochs_per_slashings_vector > 0
        &&& self.epochs_per_sync_committee_period > 0
        &&& self.sync_committee_size > 0
        &&& self.churn_limit_quotient > 0
        &&& self.proposer_reward_quotient > 0
        &&& self.whistleblower_reward_quotient > 0
        &&& self.inactivity_score_bias > 0
        &&& self.inactivity_penalty_quotient > 0
        &&& self.inactivity_penalty_quotient_altair > 0
        &&& self.inactivity_penalty_quotient_bellatrix > 0
        &&& self.min_slashing_penalty_quotient > 0
        &&& self.min_slashing_penalty_quotient_altair > 0
        &&& self.min_slashing_penalty_quotient_bellatrix > 0
        &&& self.target_committee_size > 0
        &&& self.max_committees_per_slot > 0
    }

    /// Decides `valid`.
    pub fn is_valid(&self) -> (r: bool)
        ensures
            r == self.valid(),
    {
        self.slots_per_epoch > 0 && self.effective_balance_increment > 0
            && self.max_effective_balance % self.effective_balance_increment == 0
            && self.hysteresis_quotient > 0 && self.epochs_per_eth1_voting_period > 0
            && self.slots_per_historical_root >= self.slots_per_epoch
            && self.epochs_per_historical_vector > 0 && self.epochs_per_slashings_vector > 0
            && self.epochs_per_sync_committee_period > 0 && self.sync_committee_size > 0
            && self.churn_limit_quotient > 0 && self.proposer_reward_quotient > 0
            && self.whistleblower_reward_quotient > 0 && self.inactivity_score_bias > 0
            && self.inactivity_penalty_quotient > 0 && self.inactivity_penalty_quotient_altair > 0
            && self.inactivity_penalty_quotient_bellatrix > 0
            && self.min_slashing_penalty_quotient > 0
            && self.min_slashing_penalty_quotient_altair > 0
            && self.min_slashing_penalty_quotient_bellatrix > 0 && self.target_committee_size > 0
            && self.max_committees_per_slot > 0
    }

    /// The multiplier of the correlated slashing penalty under the fork
    /// that `epoch` belongs to.
    pub open spec fn slashing_multiplier_at(&self, epoch: Epoch) -> u64 {
        if epoch >= self.bellatrix_fork_epoch {
            self.proportional_slashing_multiplier_bellatrix
        } else if epoch >= self.altair_fork_epoch {
            self.proportional_slashing_multiplier_altair
        } else {
            self.proportional_slashing_multiplier
        }
    }

    /// The multiplier of the correlated slashing penalty at `epoch`.
    pub fn proportional_slashing_multiplier(&self, epoch: Epoch) -> (m: u64)
        ensures
            m == self.slashing_multiplier_at(epoch),
    {
        if epoch >= self.bellatrix_fork_epoch {
            self.proportional_slashing_multiplier_bellatrix
        } else if epoch >= self.altair_fork_epoch {
            self.proportional_slashing_multiplier_altair
        } else {
            self.proportional_slashing_multiplier
        }
    }

    /// The quotient of the inactivity penalty under the fork that `epoch`
    /// belongs to.
    pub open spec fn inactivity_quotient_at(&self, epoch: Epoch) -> u64 {
        if epoch >= self.bellatrix_fork_epoch {
            self.inactivity_penalty_quotient_bellatrix
        } else if epoch >= self.altair_fork_epoch {
            self.inactivity_penalty_quotient_altair
        } else {
            self.inactivity_penalty_quotient
        }
    }

    /// The quotient of the inactivity penalty at `epoch`.
    pub fn inactivity_penalty_quotient_for(&self, epoch: Epoch) -> (q: u64)
        ensures
            q == self.inactivity_quotient_at(epoch),
            self.valid() ==> q > 0,
    {
        if epoch >= self.bellatrix_fork_epoch {
            self.inactivity_penalty_quotient_bellatrix
        } else if epoch >= self.altair_fork_epoch {
            self.inactivity_penalty_quotient_altair
        } else {
            self.inactivity_penalty_quotient
        }
    }

    /// The quotient of the immediate slashing penalty under the fork that
    /// `epoch` belongs to.
    pub open spec fn min_slashing_quotient_at(&self, epoch: Epoch) -> u64 {
        if epoch >= self.bellatrix_fork_epoch {
            self.min_slashing_penalty_quotient_bellatrix
        } else if epoch >= self.altair_fork_epoch {
            self.min_slashing_penalty_quotient_altair
        } else {
            self.min_slashing_penalty_quotient
        }
    }

    /// The quotient of the immediate slashing penalty at `epoch`.
    pub fn min_slashing_penalty_quotient_for(&self, epoch: Epoch) -> (q: u64)
        ensures
            q == self.min_slashing_quotient_at(epoch),
            self.valid() ==> q > 0,
    {
        if epoch >= self.bellatrix_fork_epoch {
            self.min_slashing_penalty_quotient_bellatrix
        } else if epoch >= self.altair_fork_epoch {
            self.min_slashing_penalty_quotient_altair
        } else {
            self.min_slashing_penalty_quotient
        }
    }

    /// The per-network part of the constants.
    pub fn config(&self) -> (c: Config)
        ensures
            c.min_genesis_active_validator_count == self.min_genesis_active_validator_count,
            c.min_genesis_time == self.min_genesis_time,
            c.genesis_fork_version == self.genesis_fork_version,
            c.genesis_delay == self.genesis_delay,
            c.seconds_per_slot == self.seconds_per_slot,
            c.seconds_per_eth1_block == self.seconds_per_eth1_block,
            c.min_validator_withdrawability_delay == self.min_validator_withdrawability_delay,
            c.shard_committee_period == self.shard_committee_period,
            c.eth1_follow_distance == self.eth1_follow_distance,
            c.ejection_balance == self.ejection_balance,
            c.churn_limit_quotient == self.churn_limit_quotient,
            c.min_per_epoch_churn_limit == self.min_per_epoch_churn_limit,
            c.inactivity_score_bias == self.inactivity_score_bias,
            c.inactivity_score_recovery_rate == self.inactivity_score_recovery_rate,
    {
        Config {
            min_genesis_active_validator_count: self.min_genesis_active_validator_count,
            min_genesis_time: self.min_genesis_time,
            genesis_fork_version: self.genesis_fork_version,
            genesis_delay: self.genesis_delay,
            seconds_per_slot: self.seconds_per_slot,
            seconds_per_eth1_block: self.seconds_per_eth1_block,
            min_validator_withdrawability_delay: self.min_validator_withdrawability_delay,
            shard_committee_period: self.shard_committee_period,
            eth1_follow_distance: self.eth1_follow_distance,
            ejection_balance: self.ejection_balance,
            churn_limit_quotient: self.churn_limit_quotient,
            min_per_epoch_churn_limit: self.min_per_epoch_churn_limit,
            inactivity_score_bias: self.inactivity_score_bias,
            inactivity_score_recovery_rate: self.inactivity_score_recovery_rate,
        }
    }

    /// The constants of the main network, as a value to reason about.
    pub open spec fn mainnet() -> Context {
        Context {
            max_committees_per_slot: 64,
            target_committee_size: 128,
            max_validators_per_committee: 2048,
            shuffle_round_count: 90,
            hysteresis_quotient: 4,
            hysteresis_downward_multiplier: 1,
            hysteresis_upward_multiplier: 5,
            min_deposit_amount: 1_000_000_000,
            max_effective_balance: 32_000_000_000,
            effective_balance_increment: 1_000_000_000,
            min_attestation_inclusion_delay: 1,
            slots_per_epoch: 32,
            min_seed_lookahead: 1,
            max_seed_lookahead: 4,
            min_epochs_to_inactivity_penalty: 4,
            epochs_per_eth1_voting_period: 64,
            slots_per_historical_root: 8192,
            epochs_per_historical_vector: 65536,
            epochs_per_slashings_vector: 8192,
            historical_roots_limit: 16_777_216,
            validator_registry_limit: 1_099_511_627_776,
            base_reward_factor: 64,
            whistleblower_reward_quotient: 512,
            proposer_reward_quotient: 8,
            inactivity_penalty_quotient: 67_108_864,
            min_slashing_penalty_quotient: 128,
            proportional_slashing_multiplier: 1,
            max_proposer_slashings: 16,
            max_attester_slashings: 2,
            max_attestations: 128,
            max_deposits: 16,
            max_voluntary_exits: 16,
            inactivity_penalty_quotient_altair: 50_331_648,
            min_slashing_penalty_quotient_altair: 64,
            proportional_slashing_multiplier_altair: 2,
            sync_committee_size: 512,
            epochs_per_sync_committee_period: 256,
            min_sync_committee_participants: 1,
            inactivity_penalty_quotient_bellatrix: 16_777_216,
            min_slashing_penalty_quotient_bellatrix: 32,
            proportional_slashing_multiplier_bellatrix: 3,
            genesis_fork_version: [0u8, 0u8, 0u8, 0u8],
            altair_fork_version: [1u8, 0u8, 0u8, 0u8],
            altair_fork_epoch: 74240,
            bellatrix_fork_version: [2u8, 0u8, 0u8, 0u8],
            bellatrix_fork_epoch: 144896,
            min_genesis_active_validator_count: 16384,
            min_genesis_time: 1_606_824_000,
            genesis_delay: 604_800,
            seconds_per_slot: 12,
            seconds_per_eth1_block: 14,
            min_validator_withdrawability_delay: 256,
            shard_committee_period: 256,
            eth1_follow_distance: 2048,
            ejection_balance: 16_000_000_000,
            churn_limit_quotient: 65536,
            min_per_epoch_churn_limit: 4,
            inactivity_score_bias: 4,
            inactivity_score_recovery_rate: 16,
        }
    }

    /// The constants of the main network.
    pub fn for_mainnet() -> (c: Context)
        ensures
            c == Context::mainnet(),
            c.valid(),
    {
        let c = Context {
            max_committees_per_slot: 64,
            target_committee_size: 128,
            max_validators_per_committee: 2048,
            shuffle_round_count: 90,
            hysteresis_quotient: 4,
            hysteresis_downward_multiplier: 1,
            hysteresis_upward_multiplier: 5,
            min_deposit_amount: 1_000_000_000,
            max_effective_balance: 32_000_000_000,
            effective_balance_increment: 1_000_000_000,
            min_attestation_inclusion_delay: 1,
            slots_per_epoch: 32,
            min_seed_lookahead: 1,
            max_seed_lookahead: 4,
            min_epochs_to_inactivity_penalty: 4,
            epochs_per_eth1_voting_period: 64,
            slots_per_historical_root: 8192,
            epochs_per_historical_vector: 65536,
            epochs_per_slashings_vector: 8192,
            historical_roots_limit: 16_777_216,
            validator_registry_limit: 1_099_511_627_776,
            base_reward_factor: 64,
            whistleblower_reward_quotient: 512,
            proposer_reward_quotient: 8,
            inactivity_penalty_quotient: 67_108_864,
            min_slashing_penalty_quotient: 128,
            proportional_slashing_multiplier: 1,
            max_proposer_slashings: 16,
            max_attester_slashings: 2,
            max_attestations: 128,
            max_deposits: 16,
            max_voluntary_exits: 16,
            inactivity_penalty_quotient_altair: 50_331_648,
            min_slashing_penalty_quotient_altair: 64,
            proportional_slashing_multiplier_altair: 2,
            sync_committee_size: 512,
            epochs_per_sync_committee_period: 256,
            min_sync_committee_participants: 1,
            inactivity_penalty_quotient_bellatrix: 16_777_216,
            min_slashing_penalty_quotient_bellatrix: 32,
            proportional_slashing_multiplier_bellatrix: 3,
            genesis_fork_version: [0u8, 0u8, 0u8, 0u8],
            altair_fork_version: [1u8, 0u8, 0u8, 0u8],
            altair_fork_epoch: 74240,
            bellatrix_fork_version: [2u8, 0u8, 0u8, 0u8],
            bellatrix_fork_epoch: 144896,
            min_genesis_active_validator_count: 16384,
            min_genesis_time: 1_606_824_000,
            genesis_delay: 604_800,
            seconds_per_slot: 12,
            seconds_per_eth1_block: 14,
            min_validator_withdrawability_delay: 256,
            shard_committee_period: 256,
            eth1_follow_distance: 2048,
            ejection_balance: 16_000_000_000,
            churn_limit_quotient: 65536,
            min_per_epoch_churn_limit: 4,
            inactivity_score_bias: 4,
            inactivity_score_recovery_rate: 16,
        };
        assert(c.genesis_fork_version =~= Context::mainnet().genesis_fork_version);
        assert(c.altair_fork_version =~= Context::mainnet().altair_fork_version);
        assert(c.bellatrix_fork_version =~= Context::mainnet().bellatrix_fork_version);
        c
    }

    /// The constants of the small network, as a value to reason about.
    pub open spec fn minimal() -> Context {
        Context {
            max_committees_per_slot: 4,
            target_committee_size: 4,
            max_validators_per_committee: 2048,
            shuffle_round_count: 10,
            hysteresis_quotient: 4,
            hysteresis_downward_multiplier: 1,
            hysteresis_upward_multiplier: 5,
            min_deposit_amount: 1_000_000_000,
            max_effective_balance: 32_000_000_000,
            effective_balance_increment: 1_000_000_000,
            min_attestation_inclusion_delay: 1,
            slots_per_epoch: 8,
            min_seed_lookahead: 1,
            max_seed_lookahead: 4,
            min_epochs_to_inactivity_penalty: 4,
            epochs_per_eth1_voting_period: 4,
            slots_per_historical_root: 64,
            epochs_per_historical_vector: 64,
            epochs_per_slashings_vector: 64,
            historical_roots_limit: 16_777_216,
            validator_registry_limit: 1_099_511_627_776,
            base_reward_factor: 64,
            whistleblower_reward_quotient: 512,
            proposer_reward_quotient: 8,
            inactivity_penalty_quotient: 33_554_432,
            min_slashing_penalty_quotient: 64,
            proportional_slashing_multiplier: 2,
            max_proposer_slashings: 16,
            max_attester_slashings: 2,
            max_attestations: 128,
            max_deposits: 16,
            max_voluntary_exits: 16,
            inactivity_penalty_quotient_altair: 50_331_648,
            min_slashing_penalty_quotient_altair: 64,
            proportional_slashing_multiplier_altair: 2,
            sync_committee_size: 32,
            epochs_per_sync_committee_period: 8,
            min_sync_committee_participants: 1,
            inactivity_penalty_quotient_bellatrix: 16_777_216,
            min_slashing_penalty_quotient_bellatrix: 32,
            proportional_slashing_multiplier_bellatrix: 3,
            genesis_fork_version: [0u8, 0u8, 0u8, 1u8],
            altair_fork_version: [1u8, 0u8, 0u8, 1u8],
            altair_fork_epoch: 0,
            bellatrix_fork_version: [2u8, 0u8, 0u8, 1u8],
            bellatrix_fork_epoch: 0xffff_ffff_ffff_ffff,
            min_genesis_active_validator_count: 64,
            min_genesis_time: 1_578_009_600,
            genesis_delay: 300,
            seconds_per_slot: 6,
            seconds_per_eth1_block: 14,
            min_validator_withdrawability_delay: 256,
            shard_committee_period: 64,
            eth1_follow_distance: 16,
            ejection_balance: 16_000_000_000,
            churn_limit_quotient: 32,
            min_per_epoch_churn_limit: 4,
            inactivity_score_bias: 4,
            inactivity_score_recovery_rate: 16,
        }
    }

    /// The constants of the small network.
    pub fn for_minimal() -> (c: Context)
        ensures
            c == Context::minimal(),
            c.valid(),
    {
        let c = Context {
            max_committees_per_slot: 4,
            target_committee_size: 4,
            max_validators_per_committee: 2048,
            shuffle_round_count: 10,
            hysteresis_quotient: 4,
            hysteresis_downward_multiplier: 1,
            hysteresis_upward_multiplier: 5,
            min_deposit_amount: 1_000_000_000,
            max_effective_balance: 32_000_000_000,
            effective_balance_increment: 1_000_000_000,
            min_attestation_inclusion_delay: 1,
            slots_per_epoch: 8,
            min_seed_lookahead: 1,
            max_seed_lookahead: 4,
            min_epochs_to_inactivity_penalty: 4,
            epochs_per_eth1_voting_period: 4,
            slots_per_historical_root: 64,
            epochs_per_historical_vector: 64,
            epochs_per_slashings_vector: 64,
            historical_roots_limit: 16_777_216,
            validator_registry_limit: 1_099_511_627_776,
            base_reward_factor: 64,
            whistleblower_reward_quotient: 512,
            proposer_reward_quotient: 8,
            inactivity_penalty_quotient: 33_554_432,
            min_slashing_penalty_quotient: 64,
            proportional_slashing_multiplier: 2,
            max_proposer_slashings: 16,
            max_attester_slashings: 2,
            max_attestations: 128,
            max_deposits: 16,
            max_voluntary_exits: 16,
            inactivity_penalty_quotient_altair: 50_331_648,
            min_slashing_penalty_quotient_altair: 64,
            proportional_slashing_multiplier_altair: 2,
            sync_committee_size: 32,
            epochs_per_sync_committee_period: 8,
            min_sync_committee_participants: 1,
            inactivity_penalty_quotient_bellatrix: 16_777_216,
            min_slashing_penalty_quotient_bellatrix: 32,
            proportional_slashing_multiplier_bellatrix: 3,
            genesis_fork_version: [0u8, 0u8, 0u8, 1u8],
            altair_fork_version: [1u8, 0u8, 0u8, 1u8],
            altair_fork_epoch: 0,
            bellatrix_fork_version: [2u8, 0u8, 0u8, 1u8],
            bellatrix_fork_epoch: 0xffff_ffff_ffff_ffff,
            min_genesis_active_validator_count: 64,
            min_genesis_time: 1_578_009_600,
            genesis_delay: 300,
            seconds_per_slot: 6,
            seconds_per_eth1_block: 14,
            min_validator_withdrawability_delay: 256,
            shard_committee_period: 64,
            eth1_follow_distance: 16,
            ejection_balance: 16_000_000_000,
            churn_limit_quotient: 32,
            min_per_epoch_churn_limit: 4,
            inactivity_score_bias: 4,
            inactivity_score_recovery_rate: 16,
        };
        assert(c.genesis_fork_version =~= Context::minimal().genesis_fork_version);
        assert(c.altair_fork_version =~= Context::minimal().altair_fork_version);
        assert(c.bellatrix_fork_version =~= Context::minimal().bellatrix_fork_version);
        c
    }
}

} // verus!
