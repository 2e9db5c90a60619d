use ethereum_consensus::context::Context;
use ethereum_consensus::epoch_processing::{
    get_base_reward, get_finality_delay, get_proposer_reward, is_in_inactivity_leak,
    process_effective_balance_updates, process_epoch, process_eth1_data_reset,
    process_historical_roots_update, process_inactivity_updates,
    process_justification_and_finalization, process_participation_flag_updates,
    process_randao_mixes_reset, process_registry_updates, process_rewards_and_penalties,
    process_slashings, process_slashings_reset, process_sync_committee_updates,
    weigh_justification_and_finalization,
};
use ethereum_consensus::error::TransitionError;
use ethereum_consensus::primitives::FAR_FUTURE_EPOCH;
use ethereum_consensus::slot_processing::process_slots;
use ethereum_consensus::state::{
    BeaconBlockHeader, BeaconState, Checkpoint, Eth1Data, Fork, SyncCommittee, Validator,
};

const ETH: u64 = 1_000_000_000;

fn key(i: usize) -> [u8; 48] {
    let mut k = [0u8; 48];
    k[0] = (i % 251) as u8 + 1;
    k[1] = (i / 251) as u8;
    k[47] = 7;
    k
}

fn validator(i: usize) -> Validator {
    Validator {
        public_key: key(i),
        withdrawal_credentials: [0u8; 32],
        effective_balance: 32 * ETH,
        slashed: false,
        activation_eligibility_epoch: 0,
        activation_epoch: 0,
        exit_epoch: FAR_FUTURE_EPOCH,
        withdrawable_epoch: FAR_FUTURE_EPOCH,
    }
}

fn genesis_state(n: usize, context: &Context) -> BeaconState {
    let committee = SyncCommittee {
        public_keys: (0..context.sync_committee_size).map(|i| key(i % n.max(1))).collect(),
        aggregate_public_key: [0u8; 48],
    };
    BeaconState {
        genesis_time: 0,
        genesis_validators_root: [1u8; 32],
        slot: 0,
        fork: Fork {
            previous_version: context.genesis_fork_version,
            current_version: context.altair_fork_version,
            epoch: 0,
        },
        latest_block_header: BeaconBlockHeader {
            slot: 0,
            proposer_index: 0,
            parent_root: [0u8; 32],
            state_root: [0u8; 32],
            body_root: [2u8; 32],
        },
        block_roots: vec![[0u8; 32]; context.slots_per_historical_root as usize],
        state_roots: vec![[0u8; 32]; context.slots_per_historical_root as usize],
        historical_roots: vec![],
        eth1_data: Eth1Data { deposit_root: [0u8; 32], deposit_count: 0, block_hash: [0u8; 32] },
        eth1_data_votes: vec![],
        eth1_deposit_index: 0,
        validators: (0..n).map(validator).collect(),
        balances: vec![32 * ETH; n],
        randao_mixes: vec![[3u8; 32]; context.epochs_per_historical_vector as usize],
        slashings: vec![0; context.epochs_per_slashings_vector as usize],
        previous_epoch_participation: vec![0; n],
        current_epoch_participation: vec![0; n],
        justification_bits: 0,
        previous_justified_checkpoint: Checkpoint { epoch: 0, root: [0u8; 32] },
        current_justified_checkpoint: Checkpoint { epoch: 0, root: [0u8; 32] },
        finalized_checkpoint: Checkpoint { epoch: 0, root: [0u8; 32] },
        inactivity_scores: vec![0; n],
        current_sync_committee: committee.clone(),
        next_sync_committee: committee,
    }
}

#[test]
fn genesis_state_is_well_formed() {
    let context = Context::for_minimal();
    assert!(context.is_valid());
    assert!(Context::for_mainnet().is_valid());
    let state = genesis_state(64, &context);
    assert!(state.is_well_formed(&context));
    let mut short = state.clone();
    short.balances.pop();
    assert!(!short.is_well_formed(&context));
    let mut odd = state.clone();
    odd.validators[3].effective_balance = 32 * ETH - 1;
    assert!(!odd.is_well_formed(&context));
    let mut wide = state;
    wide.justification_bits = 16;
    assert!(!wide.is_well_formed(&context));
}

#[test]
fn effective_balance_follows_the_hysteresis_bands() {
    let context = Context::for_minimal();
    let mut state = genesis_state(8, &context);
    // within the band below: stays
    state.balances[0] = 32 * ETH - ETH / 4;
    // just outside the band below: drops to whole increments
    state.balances[1] = 32 * ETH - ETH / 4 - 1;
    // within the band above: stays
    state.validators[2].effective_balance = 30 * ETH;
    state.balances[2] = 30 * ETH + 5 * ETH / 4;
    // just outside the band above: rises
    state.validators[3].effective_balance = 30 * ETH;
    state.balances[3] = 30 * ETH + 5 * ETH / 4 + 1;
    // far above the maximum: capped
    state.balances[4] = 100 * ETH;
    state.validators[4].effective_balance = 16 * ETH;
    // an empty balance
    state.balances[5] = 0;
    process_effective_balance_updates(&mut state, &context);
    assert_eq!(state.validators[0].effective_balance, 32 * ETH);
    assert_eq!(state.validators[1].effective_balance, 31 * ETH);
    assert_eq!(state.validators[2].effective_balance, 30 * ETH);
    assert_eq!(state.validators[3].effective_balance, 31 * ETH);
    assert_eq!(state.validators[4].effective_balance, 32 * ETH);
    assert_eq!(state.validators[5].effective_balance, 0);
    assert_eq!(state.validators[6].effective_balance, 32 * ETH);
    for v in state.validators.iter() {
        assert_eq!(v.effective_balance % context.effective_balance_increment, 0);
        assert!(v.effective_balance <= context.max_effective_balance);
    }
    assert!(state.is_well_formed(&context));
}

#[test]
fn eth1_votes_are_cleared_at_the_end_of_a_voting_period() {
    let context = Context::for_minimal();
    let vote = Eth1Data { deposit_root: [9u8; 32], deposit_count: 1, block_hash: [8u8; 32] };
    let mut state = genesis_state(4, &context);
    state.eth1_data_votes = vec![vote; 3];
    state.slot = 2 * 8;
    process_eth1_data_reset(&mut state, &context);
    assert_eq!(state.eth1_data_votes.len(), 3);
    state.slot = 3 * 8 + 7;
    process_eth1_data_reset(&mut state, &context);
    assert!(state.eth1_data_votes.is_empty());
}

#[test]
fn slashings_and_randao_buffers_are_prepared_for_the_next_epoch() {
    let context = Context::for_minimal();
    let mut state = genesis_state(4, &context);
    state.slot = 5 * 8;
    state.slashings = (0..64).map(|i| i as u64 + 1).collect();
    state.randao_mixes[5] = [0xab; 32];
    state.randao_mixes[6] = [0xcd; 32];
    process_slashings_reset(&mut state, &context);
    assert_eq!(state.slashings[6], 0);
    assert_eq!(state.slashings[5], 6);
    assert_eq!(state.slashings[7], 8);
    process_randao_mixes_reset(&mut state, &context);
    assert_eq!(state.randao_mixes[6], [0xab; 32]);
    assert_eq!(state.randao_mixes[5], [0xab; 32]);
    // the buffers wrap around
    state.slot = 63 * 8;
    state.slashings[0] = 77;
    state.randao_mixes[63] = [0x11; 32];
    process_slashings_reset(&mut state, &context);
    process_randao_mixes_reset(&mut state, &context);
    assert_eq!(state.slashings[0], 0);
    assert_eq!(state.randao_mixes[0], [0x11; 32]);
}

#[test]
fn participation_rotates_into_the_previous_epoch() {
    let context = Context::for_minimal();
    let mut state = genesis_state(5, &context);
    state.previous_epoch_participation = vec![7, 7, 7, 7, 7];
    state.current_epoch_participation = vec![1, 2, 3, 4, 5];
    let snapshot = state.current_epoch_participation.clone();
    assert!(process_participation_flag_updates(&mut state).is_ok());
    assert_eq!(state.previous_epoch_participation, snapshot);
    assert_eq!(state.current_epoch_participation, vec![0u8; 5]);
    state.current_epoch_participation = vec![6, 0, 6, 0, 6];
    let snapshot = state.current_epoch_participation.clone();
    assert!(process_participation_flag_updates(&mut state).is_ok());
    assert_eq!(state.previous_epoch_participation, snapshot);
    assert_eq!(state.current_epoch_participation, vec![0u8; 5]);
    assert!(process_participation_flag_updates(&mut state).is_ok());
    assert_eq!(state.previous_epoch_participation, vec![0u8; 5]);
    assert!(state.is_well_formed(&context));
}

#[test]
fn activation_queue_is_ordered_by_eligibility_then_index_and_cut_at_the_churn_limit() {
    let context = Context::for_minimal();
    let mut state = genesis_state(16, &context);
    state.slot = 10 * 8;
    state.finalized_checkpoint.epoch = 6;
    for i in [3usize, 5, 7, 9, 11, 13] {
        state.validators[i].activation_epoch = FAR_FUTURE_EPOCH;
        state.validators[i].activation_eligibility_epoch = 4;
    }
    // one became eligible earlier, one too late to count
    state.validators[13].activation_eligibility_epoch = 2;
    state.validators[3].activation_eligibility_epoch = 7;
    assert_eq!(context.min_per_epoch_churn_limit, 4);
    assert!(process_registry_updates(&mut state, &context).is_ok());
    let activation = 10 + 1 + context.max_seed_lookahead;
    assert_eq!(state.validators[13].activation_epoch, activation);
    assert_eq!(state.validators[5].activation_epoch, activation);
    assert_eq!(state.validators[7].activation_epoch, activation);
    assert_eq!(state.validators[9].activation_epoch, activation);
    assert_eq!(state.validators[11].activation_epoch, FAR_FUTURE_EPOCH);
    assert_eq!(state.validators[3].activation_epoch, FAR_FUTURE_EPOCH);
    assert_eq!(state.validators[0].activation_epoch, 0);
    assert!(state.is_well_formed(&context));
}

#[test]
fn registry_marks_eligibility_and_ejects_low_balances() {
    let context = Context::for_minimal();
    let mut state = genesis_state(8, &context);
    state.slot = 3 * 8;
    state.validators[1].activation_epoch = FAR_FUTURE_EPOCH;
    state.validators[1].activation_eligibility_epoch = FAR_FUTURE_EPOCH;
    state.validators[2].effective_balance = 16 * ETH;
    state.validators[4].effective_balance = 17 * ETH;
    state.validators[6].effective_balance = 15 * ETH;
    assert!(process_registry_updates(&mut state, &context).is_ok());
    assert_eq!(state.validators[1].activation_eligibility_epoch, 4);
    assert_eq!(state.validators[1].activation_epoch, FAR_FUTURE_EPOCH);
    let exit = 3 + 1 + context.max_seed_lookahead;
    assert_eq!(state.validators[2].exit_epoch, exit);
    assert_eq!(
        state.validators[2].withdrawable_epoch,
        exit + context.min_validator_withdrawability_delay
    );
    assert_eq!(state.validators[6].exit_epoch, exit);
    assert_eq!(state.validators[4].exit_epoch, FAR_FUTURE_EPOCH);
    assert_eq!(state.validators[0].exit_epoch, FAR_FUTURE_EPOCH);
}

#[test]
fn exits_beyond_the_churn_limit_move_to_the_next_epoch() {
    let context = Context::for_minimal();
    let mut state = genesis_state(8, &context);
    state.slot = 3 * 8;
    for i in 0..6 {
        state.validators[i].effective_balance = 16 * ETH;
    }
    assert!(process_registry_updates(&mut state, &context).is_ok());
    let exit = 3 + 1 + context.max_seed_lookahead;
    for i in 0..4 {
        assert_eq!(state.validators[i].exit_epoch, exit);
    }
    assert_eq!(state.validators[4].exit_epoch, exit + 1);
    assert_eq!(state.validators[5].exit_epoch, exit + 1);
}

#[test]
fn slashing_penalty_is_proportional_to_the_slashed_balance() {
    let context = Context::for_minimal();
    let mut state = genesis_state(8, &context);
    state.slot = 4 * 8;
    state.slashings[1] = 32 * ETH;
    state.slashings[2] = 32 * ETH;
    state.validators[3].slashed = true;
    state.validators[3].withdrawable_epoch = 4 + 32;
    state.validators[5].slashed = true;
    state.validators[5].withdrawable_epoch = 4 + 33;
    assert!(process_slashings(&mut state, &context).is_ok());
    // 8 validators of 32 are active: total 256; slashed 64 times the multiplier 2 is 128
    // penalty = 32 * 128e9 / 256e9 * 1e9 = 16e9
    assert_eq!(context.proportional_slashing_multiplier(4), 2);
    assert_eq!(state.balances[3], 16 * ETH);
    assert_eq!(state.balances[5], 32 * ETH);
    assert_eq!(state.balances[0], 32 * ETH);
}

#[test]
fn slashing_penalty_is_capped_by_the_total_balance_and_saturates() {
    let context = Context::for_minimal();
    let mut state = genesis_state(4, &context);
    state.slot = 4 * 8;
    state.slashings[0] = 1000 * ETH;
    state.validators[1].slashed = true;
    state.validators[1].withdrawable_epoch = 4 + 32;
    state.balances[1] = 10 * ETH;
    assert!(process_slashings(&mut state, &context).is_ok());
    assert_eq!(state.balances[1], 0);
}

#[test]
fn slashings_that_do_not_fit_are_an_overflow() {
    let context = Context::for_minimal();
    let mut state = genesis_state(4, &context);
    state.slashings[0] = u64::MAX;
    state.slashings[1] = 1;
    let before = state.clone();
    assert_eq!(process_slashings(&mut state, &context), Err(TransitionError::Overflow));
    assert_eq!(state, before);
}

#[test]
fn base_reward_uses_the_square_root_of_the_total_balance() {
    let context = Context::for_minimal();
    let state = genesis_state(64, &context);
    // total 2048e9, square root 1431083; 32e9 * 64 / 1431083 = 1431084, a quarter of it
    assert_eq!(get_base_reward(&state, 0, &context), Ok(357_771));
    assert_eq!(get_proposer_reward(&state, 0, &context), Ok(44_721));
}

#[test]
fn finality_delay_and_leak() {
    let context = Context::for_minimal();
    let mut state = genesis_state(4, &context);
    state.slot = 10 * 8;
    state.finalized_checkpoint.epoch = 5;
    assert_eq!(get_finality_delay(&state, &context), Ok(4));
    assert_eq!(is_in_inactivity_leak(&state, &context), Ok(false));
    state.finalized_checkpoint.epoch = 4;
    assert_eq!(get_finality_delay(&state, &context), Ok(5));
    assert_eq!(is_in_inactivity_leak(&state, &context), Ok(true));
    state.finalized_checkpoint.epoch = 10;
    assert_eq!(get_finality_delay(&state, &context), Err(TransitionError::Underflow));
    assert_eq!(is_in_inactivity_leak(&state, &context), Err(TransitionError::Underflow));
}

#[test]
fn inactivity_scores_move_with_participation() {
    let context = Context::for_minimal();
    let mut state = genesis_state(6, &context);
    state.slot = 3 * 8;
    state.finalized_checkpoint.epoch = 1;
    state.inactivity_scores = vec![0, 5, 0, 5, 9, 9];
    // target flag for the first two, source only for the third
    state.previous_epoch_participation = vec![2, 2, 1, 0, 0, 0];
    // not eligible: exited long ago and not slashed
    state.validators[4].exit_epoch = 1;
    state.validators[4].withdrawable_epoch = 1;
    // slashed: does not count as participating
    state.validators[5].slashed = true;
    state.previous_epoch_participation[5] = 2;
    assert!(process_inactivity_updates(&mut state, &context).is_ok());
    assert_eq!(state.inactivity_scores, vec![0, 3, 3, 8, 9, 12]);
    // in a leak nothing recovers beyond the vote itself
    let mut leaking = genesis_state(3, &context);
    leaking.slot = 10 * 8;
    leaking.inactivity_scores = vec![0, 5, 5];
    leaking.previous_epoch_participation = vec![2, 2, 0];
    assert!(process_inactivity_updates(&mut leaking, &context).is_ok());
    assert_eq!(leaking.inactivity_scores, vec![0, 4, 9]);
    // nothing happens in the genesis epoch
    let mut genesis = genesis_state(3, &context);
    genesis.inactivity_scores = vec![1, 2, 3];
    assert!(process_inactivity_updates(&mut genesis, &context).is_ok());
    assert_eq!(genesis.inactivity_scores, vec![1, 2, 3]);
}

#[test]
fn inactivity_score_overflow_leaves_the_state_alone() {
    let context = Context::for_minimal();
    let mut state = genesis_state(3, &context);
    state.slot = 3 * 8;
    state.inactivity_scores = vec![0, u64::MAX - 1, 0];
    let before = state.clone();
    assert_eq!(process_inactivity_updates(&mut state, &context), Err(TransitionError::Overflow));
    assert_eq!(state, before);
}

#[test]
fn rewards_for_full_participation_and_penalties_for_none() {
    let context = Context::for_minimal();
    let mut state = genesis_state(64, &context);
    state.slot = 3 * 8;
    state.finalized_checkpoint.epoch = 1;
    for i in 0..32 {
        state.previous_epoch_participation[i] = 7;
    }
    assert!(process_rewards_and_penalties(&mut state, &context).is_ok());
    // base reward per increment 44721, base reward 32 * 44721 = 1431072
    // half of the balance took part: 1024 of 2048 increments
    let base = 1_431_072u64;
    let reward = |weight: u64| base * weight * 1024 / (2048 * 64);
    let penalty = |weight: u64| base * weight / 64;
    assert_eq!(state.balances[0], 32 * ETH + reward(14) + reward(26) + reward(14));
    assert_eq!(state.balances[0], 32 * ETH + 156_523 + 290_686 + 156_523);
    assert_eq!(state.balances[63], 32 * ETH - penalty(14) - penalty(26));
    assert_eq!(state.balances[63], 32 * ETH - 313_047 - 581_373);
    // nothing at the end of the genesis epoch
    let mut genesis = genesis_state(4, &context);
    assert!(process_rewards_and_penalties(&mut genesis, &context).is_ok());
    assert_eq!(genesis.balances, vec![32 * ETH; 4]);
}

#[test]
fn inactivity_penalty_grows_with_the_score() {
    let context = Context::for_minimal();
    let mut state = genesis_state(4, &context);
    state.slot = 3 * 8;
    state.finalized_checkpoint.epoch = 1;
    state.previous_epoch_participation = vec![7, 7, 7, 1];
    state.inactivity_scores = vec![0, 0, 0, 1_000_000];
    assert!(process_rewards_and_penalties(&mut state, &context).is_ok());
    // total 128e9: root 357770, per increment 64e9 / 357770 = 178885, base 5724320
    let base = 5_724_320u64;
    let inactivity = 32 * ETH * 1_000_000 / (4 * 50_331_648);
    let source = base * 14 * 128 / (128 * 64);
    assert_eq!(
        state.balances[3],
        32 * ETH + source - base * 26 / 64 - inactivity
    );
    assert_eq!(inactivity, 158_945_719);
}

fn roots_state(context: &Context, epoch: u64) -> BeaconState {
    let mut state = genesis_state(8, context);
    state.slot = epoch * 8 + 7;
    for i in 0..64 {
        state.block_roots[i] = [i as u8; 32];
    }
    state
}

#[test]
fn supermajority_of_the_previous_epoch_justifies_it() {
    let context = Context::for_minimal();
    let mut state = roots_state(&context, 5);
    state.justification_bits = 0b1001;
    state.current_justified_checkpoint = Checkpoint { epoch: 3, root: [0x33; 32] };
    state.previous_justified_checkpoint = Checkpoint { epoch: 2, root: [0x22; 32] };
    assert!(weigh_justification_and_finalization(&mut state, 300, 200, 199, &context).is_ok());
    assert_eq!(state.justification_bits, 0b0010);
    assert_eq!(state.previous_justified_checkpoint, Checkpoint { epoch: 3, root: [0x33; 32] });
    assert_eq!(state.current_justified_checkpoint, Checkpoint { epoch: 4, root: [32u8; 32] });
    assert_eq!(state.finalized_checkpoint.epoch, 0);
    // one short of two thirds justifies nothing
    let mut state = roots_state(&context, 5);
    state.justification_bits = 0b0001;
    assert!(weigh_justification_and_finalization(&mut state, 300, 199, 199, &context).is_ok());
    assert_eq!(state.justification_bits, 0b0010);
    assert_eq!(state.current_justified_checkpoint.epoch, 0);
}

#[test]
fn each_finalization_rule_applies() {
    let context = Context::for_minimal();
    let old_previous = |epoch| Checkpoint { epoch, root: [0xaa; 32] };
    let old_current = |epoch| Checkpoint { epoch, root: [0xbb; 32] };
    // bits 1 to 3 with the old previous justified checkpoint three epochs back
    let mut state = roots_state(&context, 5);
    state.justification_bits = 0b0110;
    state.previous_justified_checkpoint = old_previous(2);
    state.current_justified_checkpoint = old_current(3);
    assert!(weigh_justification_and_finalization(&mut state, 3, 2, 0, &context).is_ok());
    assert_eq!(state.justification_bits, 0b1110);
    assert_eq!(state.finalized_checkpoint, old_previous(2));
    // bits 1 and 2 with the old previous justified checkpoint two epochs back
    let mut state = roots_state(&context, 5);
    state.justification_bits = 0b0010;
    state.previous_justified_checkpoint = old_previous(3);
    state.current_justified_checkpoint = old_current(3);
    assert!(weigh_justification_and_finalization(&mut state, 3, 2, 0, &context).is_ok());
    assert_eq!(state.justification_bits, 0b0110);
    assert_eq!(state.finalized_checkpoint, old_previous(3));
    // bits 0 to 2 with the old current justified checkpoint two epochs back
    let mut state = roots_state(&context, 5);
    state.justification_bits = 0b0010;
    state.previous_justified_checkpoint = old_previous(1);
    state.current_justified_checkpoint = old_current(3);
    assert!(weigh_justification_and_finalization(&mut state, 3, 2, 2, &context).is_ok());
    assert_eq!(state.justification_bits, 0b0111);
    assert_eq!(state.finalized_checkpoint, old_current(3));
    // bits 0 and 1 with the old current justified checkpoint one epoch back
    let mut state = roots_state(&context, 5);
    state.justification_bits = 0b0000;
    state.previous_justified_checkpoint = old_previous(1);
    state.current_justified_checkpoint = old_current(4);
    assert!(weigh_justification_and_finalization(&mut state, 3, 2, 2, &context).is_ok());
    assert_eq!(state.justification_bits, 0b0011);
    assert_eq!(state.finalized_checkpoint, old_current(4));
    assert_eq!(state.current_justified_checkpoint, Checkpoint { epoch: 5, root: [40u8; 32] });
}

#[test]
fn the_first_matching_finalization_rule_decides() {
    let context = Context::for_minimal();
    let mut state = roots_state(&context, 5);
    state.justification_bits = 0b0111;
    state.previous_justified_checkpoint = Checkpoint { epoch: 2, root: [0xaa; 32] };
    state.current_justified_checkpoint = Checkpoint { epoch: 4, root: [0xbb; 32] };
    assert!(weigh_justification_and_finalization(&mut state, 3, 3, 3, &context).is_ok());
    assert_eq!(state.justification_bits, 0b1111);
    assert_eq!(state.finalized_checkpoint, Checkpoint { epoch: 2, root: [0xaa; 32] });
}

#[test]
fn justification_needs_a_remembered_block_root() {
    let context = Context::for_minimal();
    let mut state = roots_state(&context, 20);
    state.slot = 20 * 8 + 7;
    let before = state.clone();
    // the previous epoch starts more than 64 slots back only in a much longer epoch
    assert!(weigh_justification_and_finalization(&mut state, 3, 2, 2, &context).is_ok());
    let mut far = before.clone();
    far.slot = 8;
    far.block_roots = vec![[0u8; 32]; 64];
    // at slot 8 the start slot of the current epoch is not behind the state
    let unchanged = far.clone();
    assert_eq!(
        weigh_justification_and_finalization(&mut far, 3, 0, 3, &context),
        Err(TransitionError::SlotOutOfRange { requested: 8, lower_bound: 0, upper_bound: 8 })
    );
    assert_eq!(far, unchanged);
}

#[test]
fn justification_is_skipped_in_the_first_two_epochs() {
    let context = Context::for_minimal();
    for slot in [7u64, 15] {
        let mut state = genesis_state(8, &context);
        state.slot = slot;
        state.previous_epoch_participation = vec![7; 8];
        state.current_epoch_participation = vec![7; 8];
        let before = state.clone();
        assert!(process_justification_and_finalization(&mut state, &context).is_ok());
        assert_eq!(state, before);
    }
}

#[test]
fn two_fully_participating_epochs_justify_and_finalize() {
    let context = Context::for_minimal();
    let mut state = genesis_state(64, &context);
    assert!(process_slots(&mut state, 23, &context).is_ok());
    assert!(state.is_well_formed(&context));
    assert_eq!(state.current_justified_checkpoint.epoch, 0);
    state.previous_epoch_participation = vec![7; 64];
    assert!(process_slots(&mut state, 24, &context).is_ok());
    assert_eq!(state.current_justified_checkpoint.epoch, 1);
    assert_eq!(state.current_justified_checkpoint.root, state.block_roots[8]);
    assert_eq!(state.justification_bits, 0b0010);
    assert_eq!(state.finalized_checkpoint.epoch, 0);
    assert!(process_slots(&mut state, 31, &context).is_ok());
    state.previous_epoch_participation = vec![7; 64];
    state.current_epoch_participation = vec![7; 64];
    let snapshot = state.current_epoch_participation.clone();
    assert!(process_slots(&mut state, 32, &context).is_ok());
    assert_eq!(state.justification_bits, 0b0111);
    assert_eq!(state.previous_justified_checkpoint.epoch, 1);
    assert_eq!(state.current_justified_checkpoint.epoch, 3);
    assert_eq!(state.finalized_checkpoint.epoch, 1);
    assert_eq!(state.finalized_checkpoint.root, state.block_roots[8]);
    assert_eq!(state.previous_epoch_participation, snapshot);
    assert_eq!(state.current_epoch_participation, vec![0u8; 64]);
    assert!(state.is_well_formed(&context));
    assert!(state.justification_bits < 16);
}

#[test]
fn finality_never_moves_back_over_many_epochs() {
    let context = Context::for_minimal();
    let mut state = genesis_state(16, &context);
    let mut finalized = 0;
    for epoch in 0..7u64 {
        assert!(process_slots(&mut state, epoch * 8 + 7, &context).is_ok());
        if epoch % 3 != 1 {
            state.previous_epoch_participation = vec![7; 16];
        }
        if epoch % 2 == 0 {
            state.current_epoch_participation = vec![7; 16];
        }
        assert!(process_slots(&mut state, epoch * 8 + 8, &context).is_ok());
        assert!(state.finalized_checkpoint.epoch >= finalized);
        assert!(state.justification_bits < 16);
        assert!(
            state.finalized_checkpoint.epoch <= state.previous_justified_checkpoint.epoch
                && state.previous_justified_checkpoint.epoch
                    <= state.current_justified_checkpoint.epoch
        );
        finalized = state.finalized_checkpoint.epoch;
    }
    assert!(finalized > 0);
}

#[test]
fn historical_roots_grow_once_per_stretch_of_history() {
    let context = Context::for_minimal();
    let mut state = genesis_state(4, &context);
    state.slot = 6 * 8;
    assert!(process_historical_roots_update(&mut state, &context).is_ok());
    assert!(state.historical_roots.is_empty());
    state.slot = 7 * 8;
    assert!(process_historical_roots_update(&mut state, &context).is_ok());
    assert_eq!(state.historical_roots.len(), 1);
    let first = state.historical_roots[0];
    state.block_roots[5] = [5u8; 32];
    state.slot = 15 * 8;
    assert!(process_historical_roots_update(&mut state, &context).is_ok());
    assert_eq!(state.historical_roots.len(), 2);
    assert_ne!(state.historical_roots[1], first);
    assert_eq!(state.historical_roots[0], first);
    let mut small = context;
    small.historical_roots_limit = 2;
    let before = state.clone();
    assert_eq!(
        process_historical_roots_update(&mut state, &small),
        Err(TransitionError::ListFull { capacity: 2 })
    );
    assert_eq!(state, before);
}

#[test]
fn sync_committees_stay_between_period_boundaries() {
    let context = Context::for_minimal();
    let mut state = genesis_state(8, &context);
    state.next_sync_committee.aggregate_public_key = [5u8; 48];
    state.slot = 3 * 8;
    let before = state.clone();
    assert!(process_sync_committee_updates(&mut state, &context).is_ok());
    assert_eq!(state, before);
    // at a boundary the keys of this state are no curve points and have no sum
    state.slot = 7 * 8;
    let before = state.clone();
    assert_eq!(
        process_sync_committee_updates(&mut state, &context),
        Err(TransitionError::InvalidPublicKeys)
    );
    assert_eq!(state, before);
}

#[test]
fn a_failing_stage_leaves_the_whole_epoch_undone() {
    let context = Context::for_minimal();
    let mut state = genesis_state(8, &context);
    state.slot = 3 * 8 + 7;
    state.previous_epoch_participation = vec![7; 8];
    state.slashings[0] = u64::MAX;
    state.slashings[1] = u64::MAX;
    let before = state.clone();
    assert_eq!(process_epoch(&mut state, &context), Err(TransitionError::Overflow));
    assert_eq!(state, before);
}

#[test]
fn an_epoch_without_participation_only_costs() {
    let context = Context::for_minimal();
    let mut state = genesis_state(8, &context);
    state.slot = 2 * 8 + 7;
    state.current_epoch_participation = vec![1, 2, 3, 4, 5, 6, 7, 0];
    let snapshot = state.current_epoch_participation.clone();
    assert!(process_epoch(&mut state, &context).is_ok());
    assert_eq!(state.slot, 2 * 8 + 7);
    assert_eq!(state.previous_epoch_participation, snapshot);
    assert_eq!(state.current_epoch_participation, vec![0u8; 8]);
    assert!(state.balances.iter().all(|b| *b < 32 * ETH));
    assert_eq!(state.inactivity_scores, vec![3u64; 8]);
    assert!(state.is_well_formed(&context));
}

#[test]
fn the_presets_hold_the_published_constants() {
    let mainnet = Context::for_mainnet();
    assert_eq!(mainnet.slots_per_epoch, 32);
    assert_eq!(mainnet.shuffle_round_count, 90);
    assert_eq!(mainnet.max_effective_balance, 32 * ETH);
    assert_eq!(mainnet.ejection_balance, 16 * ETH);
    assert_eq!(mainnet.validator_registry_limit, 1 << 40);
    assert_eq!(mainnet.sync_committee_size, 512);
    assert_eq!(mainnet.inactivity_penalty_quotient_altair, 3 << 24);
    assert_eq!(mainnet.proportional_slashing_multiplier(0), 1);
    assert_eq!(mainnet.proportional_slashing_multiplier(74_240), 2);
    assert_eq!(mainnet.proportional_slashing_multiplier(144_896), 3);
    assert_eq!(mainnet.inactivity_penalty_quotient_for(74_239), 1 << 26);
    assert_eq!(mainnet.inactivity_penalty_quotient_for(144_895), 3 << 24);
    assert_eq!(mainnet.min_slashing_penalty_quotient_for(200_000), 32);
    let minimal = Context::for_minimal();
    assert_eq!(minimal.slots_per_epoch, 8);
    assert_eq!(minimal.config().churn_limit_quotient, 32);
    assert_eq!(minimal.config().genesis_fork_version, [0, 0, 0, 1]);
    let mut broken = minimal;
    broken.slots_per_epoch = 0;
    assert!(!broken.is_valid());
    let mut uneven = minimal;
    uneven.max_effective_balance += 1;
    assert!(!uneven.is_valid());
}

#[test]
fn epochs_that_are_set_stay_as_they_are() {
    let context = Context::for_minimal();
    let mut state = genesis_state(16, &context);
    state.validators[2].effective_balance = 16 * ETH;
    state.validators[5].activation_epoch = FAR_FUTURE_EPOCH;
    state.validators[5].activation_eligibility_epoch = FAR_FUTURE_EPOCH;
    state.validators[9].slashed = true;
    state.validators[9].exit_epoch = 3;
    state.validators[9].withdrawable_epoch = 40;
    let mut before = state.validators.clone();
    for epoch in 0..6u64 {
        assert!(process_slots(&mut state, epoch * 8 + 8, &context).is_ok());
        for (old, new) in before.iter().zip(state.validators.iter()) {
            assert_eq!(old.public_key, new.public_key);
            assert!(!old.slashed || new.slashed);
            for (a, b) in [
                (old.activation_eligibility_epoch, new.activation_eligibility_epoch),
                (old.activation_epoch, new.activation_epoch),
                (old.exit_epoch, new.exit_epoch),
            ] {
                assert!(a == FAR_FUTURE_EPOCH || a == b);
            }
            assert!(old.exit_epoch == FAR_FUTURE_EPOCH || old.withdrawable_epoch <= new.withdrawable_epoch);
        }
        before = state.validators.clone();
    }
    assert_eq!(state.validators[2].exit_epoch, 5);
    assert_eq!(state.validators[5].activation_eligibility_epoch, 1);
}
