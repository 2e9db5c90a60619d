use ethereum_consensus::committees::{
    compute_committee, compute_proposer_index, compute_shuffled_index, get_beacon_committee,
    get_beacon_proposer_index, get_committee_count_per_slot, get_next_sync_committee,
    get_next_sync_committee_indices, get_seed,
};
use ethereum_consensus::context::Context;
use ethereum_consensus::crypto::{
    eth_aggregate_public_keys, fast_aggregate_verify, hash, integer_square_root, verify_signature,
};
use ethereum_consensus::domains::{
    compute_domain, compute_signing_root, get_domain, DomainType, SigningData,
};
use ethereum_consensus::error::TransitionError;
use ethereum_consensus::helpers::{
    add_flag, compute_activation_exit_epoch, compute_epoch_at_slot, compute_start_slot_at_epoch,
    decrease_balance, get_active_validator_indices, get_block_root, get_block_root_at_slot,
    get_current_epoch, get_eligible_validator_indices, get_previous_epoch, get_randao_mix,
    get_total_active_balance, get_total_balance, get_unslashed_participating_indices,
    get_validator_churn_limit, has_flag, increase_balance, is_active_validator,
    is_eligible_for_activation, is_eligible_for_activation_queue, is_slashable_validator,
};
use ethereum_consensus::merkle::{is_valid_merkle_branch, merkleize, merkleize_within};
use ethereum_consensus::primitives::{
    bytes_equal, checked_add, checked_mul, checked_sub, is_zero_bytes32, participation_flag_weight,
    saturating_sub, successor_is_multiple, successor_modulo, wide_mul, xor_bytes32,
    FAR_FUTURE_EPOCH,
};
use ethereum_consensus::registry::initiate_validator_exit;
use ethereum_consensus::rewards::{get_base_reward_by_increments, get_base_reward_per_increment};
use ethereum_consensus::ssz::{
    compute_fork_data_root, hash_tree_root_of_bitlist, hash_tree_root_of_bitvector,
    hash_tree_root_of_byte_list, hash_tree_root_of_list, hash_tree_root_of_roots,
    hash_tree_root_of_u64_list, hash_tree_root_of_u64_vector, hash_tree_root_public_key,
    hash_tree_root_signature, mix_in_length,
};
use ethereum_consensus::state::{
    BeaconBlockHeader, BeaconState, Checkpoint, Eth1Data, Fork, SyncCommittee, Validator,
};
use ssz_rs::prelude::{Bitlist, Bitvector, List, Merkleized, Vector};

const ETH: u64 = 1_000_000_000;

fn secret_key(i: usize) -> blst::min_pk::SecretKey {
    let mut ikm = [0u8; 32];
    ikm[0] = i as u8;
    ikm[31] = 42;
    blst::min_pk::SecretKey::key_gen(&ikm, &[]).unwrap()
}

fn validator(i: usize) -> Validator {
    Validator {
        public_key: secret_key(i).sk_to_pk().to_bytes(),
        withdrawal_credentials: [0u8; 32],
        effective_balance: 32 * ETH,
        slashed: false,
        activation_eligibility_epoch: 0,
        activation_epoch: 0,
        exit_epoch: FAR_FUTURE_EPOCH,
        withdrawable_epoch: FAR_FUTURE_EPOCH,
    }
}

fn genesis_state(n: usize, context: &Context) -> BeaconState {
    let validators: Vec<Validator> = (0..n).map(validator).collect();
    let committee = SyncCommittee {
        public_keys: (0..context.sync_committee_size).map(|i| validators[i % n].public_key).collect(),
        aggregate_public_key: validators[0].public_key,
    };
    BeaconState {
        genesis_time: 0,
        genesis_validators_root: [1u8; 32],
        slot: 0,
        fork: Fork { previous_version: [0, 0, 0, 1], current_version: [1, 0, 0, 1], epoch: 0 },
        latest_block_header: BeaconBlockHeader {
            slot: 0,
            proposer_index: 0,
            parent_root: [0u8; 32],
            state_root: [0u8; 32],
            body_root: [2u8; 32],
        },
        block_roots: (0..64).map(|i| [i as u8; 32]).collect(),
        state_roots: vec![[0u8; 32]; 64],
        historical_roots: vec![],
        eth1_data: Eth1Data { deposit_root: [0u8; 32], deposit_count: 0, block_hash: [0u8; 32] },
        eth1_data_votes: vec![],
        eth1_deposit_index: 0,
        validators,
        balances: vec![32 * ETH; n],
        randao_mixes: (0..64).map(|i| [i as u8 + 1; 32]).collect(),
        slashings: vec![0; 64],
        previous_epoch_participation: vec![0; n],
        current_epoch_participation: vec![0; n],
        justification_bits: 0,
        previous_justified_checkpoint: Checkpoint { epoch: 0, root: [0u8; 32] },
        current_justified_checkpoint: Checkpoint { epoch: 0, root: [0u8; 32] },
        finalized_checkpoint: Checkpoint { epoch: 0, root: [0u8; 32] },
        inactivity_scores: vec![0; n],
        current_sync_committee: committee.clone(),
        next_sync_committee: committee,
    }
}

#[test]
fn checked_arithmetic_reports_what_does_not_fit() {
    assert_eq!(checked_add(u64::MAX - 1, 1), Ok(u64::MAX));
    assert_eq!(checked_add(u64::MAX, 1), Err(TransitionError::Overflow));
    assert_eq!(checked_mul(1 << 32, 1 << 31), Ok(1 << 63));
    assert_eq!(checked_mul(1 << 32, 1 << 32), Err(TransitionError::Overflow));
    assert_eq!(checked_sub(5, 5), Ok(0));
    assert_eq!(checked_sub(5, 6), Err(TransitionError::Underflow));
    assert_eq!(saturating_sub(5, 6), 0);
    assert_eq!(saturating_sub(6, 5), 1);
    assert_eq!(wide_mul(u64::MAX, u64::MAX), u64::MAX as u128 * u64::MAX as u128);
    assert!(successor_is_multiple(7, 8));
    assert!(!successor_is_multiple(8, 8));
    assert!(successor_is_multiple(u64::MAX, 1));
    assert!(successor_is_multiple(u64::MAX, 1 << 63));
    assert_eq!(successor_modulo(62, 64), 63);
    assert_eq!(successor_modulo(63, 64), 0);
    assert_eq!(successor_modulo(u64::MAX, 10), 6);
}

#[test]
fn byte_strings_compare_and_combine() {
    assert!(bytes_equal(&[1u8, 2, 3], &[1u8, 2, 3]));
    assert!(!bytes_equal(&[1u8, 2, 3], &[1u8, 2, 4]));
    assert!(is_zero_bytes32(&[0u8; 32]));
    let mut almost = [0u8; 32];
    almost[31] = 1;
    assert!(!is_zero_bytes32(&almost));
    let mut expected = [0x0fu8 ^ 0x35; 32];
    expected[31] ^= 1;
    assert_eq!(xor_bytes32(&[0x0f; 32], &{
        let mut b = [0x35u8; 32];
        b[31] ^= 1;
        b
    }), expected);
    assert_eq!(participation_flag_weight(0), 14);
    assert_eq!(participation_flag_weight(1), 26);
    assert_eq!(participation_flag_weight(2), 14);
}

#[test]
fn participation_flags_are_bits() {
    assert!(!has_flag(0, 0));
    assert_eq!(add_flag(0, 0), 1);
    assert_eq!(add_flag(1, 1), 3);
    assert_eq!(add_flag(3, 2), 7);
    assert_eq!(add_flag(7, 1), 7);
    assert!(has_flag(5, 0) && !has_flag(5, 1) && has_flag(5, 2));
}

#[test]
fn epochs_and_slots_convert() {
    let context = Context::for_minimal();
    assert_eq!(compute_epoch_at_slot(0, &context), 0);
    assert_eq!(compute_epoch_at_slot(7, &context), 0);
    assert_eq!(compute_epoch_at_slot(8, &context), 1);
    assert_eq!(compute_start_slot_at_epoch(3, &context), Ok(24));
    assert_eq!(compute_start_slot_at_epoch(u64::MAX, &context), Err(TransitionError::Overflow));
    assert_eq!(compute_activation_exit_epoch(10, &context), Ok(15));
    assert_eq!(
        compute_activation_exit_epoch(u64::MAX - 4, &context),
        Err(TransitionError::Overflow)
    );
    let mut state = genesis_state(4, &context);
    assert_eq!(get_current_epoch(&state, &context), 0);
    assert_eq!(get_previous_epoch(&state, &context), 0);
    state.slot = 17;
    assert_eq!(get_current_epoch(&state, &context), 2);
    assert_eq!(get_previous_epoch(&state, &context), 1);
}

#[test]
fn validator_predicates() {
    let context = Context::for_minimal();
    let mut v = validator(0);
    v.activation_epoch = 3;
    v.exit_epoch = 6;
    v.withdrawable_epoch = 9;
    assert!(!is_active_validator(&v, 2));
    assert!(is_active_validator(&v, 3));
    assert!(is_active_validator(&v, 5));
    assert!(!is_active_validator(&v, 6));
    assert!(is_slashable_validator(&v, 8));
    assert!(!is_slashable_validator(&v, 9));
    assert!(!is_slashable_validator(&v, 2));
    v.slashed = true;
    assert!(!is_slashable_validator(&v, 5));
    let mut fresh = validator(1);
    fresh.activation_eligibility_epoch = FAR_FUTURE_EPOCH;
    fresh.activation_epoch = FAR_FUTURE_EPOCH;
    assert!(is_eligible_for_activation_queue(&fresh, &context));
    fresh.effective_balance = 31 * ETH;
    assert!(!is_eligible_for_activation_queue(&fresh, &context));
    let mut state = genesis_state(2, &context);
    state.finalized_checkpoint.epoch = 4;
    fresh.activation_eligibility_epoch = 4;
    assert!(is_eligible_for_activation(&state, &fresh));
    fresh.activation_eligibility_epoch = 5;
    assert!(!is_eligible_for_activation(&state, &fresh));
    fresh.activation_eligibility_epoch = 4;
    fresh.activation_epoch = 9;
    assert!(!is_eligible_for_activation(&state, &fresh));
}

#[test]
fn balances_are_summed_over_the_named_validators() {
    let context = Context::for_minimal();
    let mut state = genesis_state(6, &context);
    state.validators[1].effective_balance = 20 * ETH;
    state.validators[4].exit_epoch = 0;
    assert_eq!(get_active_validator_indices(&state, 0), vec![0, 1, 2, 3, 5]);
    assert_eq!(get_total_active_balance(&state, &context), Ok(148 * ETH));
    assert_eq!(get_total_balance(&state, &vec![1, 4], &context), Ok(52 * ETH));
    assert_eq!(get_total_balance(&state, &vec![], &context), Ok(ETH));
    state.validators[0].effective_balance = u64::MAX - 10;
    assert_eq!(get_total_balance(&state, &vec![0, 1], &context), Err(TransitionError::Overflow));
    assert_eq!(get_validator_churn_limit(&state, &context), 4);
    let mut many = context;
    many.churn_limit_quotient = 1;
    many.min_per_epoch_churn_limit = 2;
    assert_eq!(get_validator_churn_limit(&state, &many), 5);
}

#[test]
fn participating_and_eligible_validators() {
    let context = Context::for_minimal();
    let mut state = genesis_state(6, &context);
    state.slot = 16;
    state.previous_epoch_participation = vec![2, 3, 1, 2, 2, 2];
    state.current_epoch_participation = vec![0, 0, 2, 0, 0, 0];
    state.validators[3].slashed = true;
    state.validators[3].withdrawable_epoch = 3;
    state.validators[4].exit_epoch = 1;
    state.validators[4].withdrawable_epoch = 1;
    state.validators[5].slashed = true;
    state.validators[5].exit_epoch = 0;
    state.validators[5].withdrawable_epoch = 2;
    assert_eq!(get_unslashed_participating_indices(&state, 1, 1, &context), vec![0, 1]);
    assert_eq!(get_unslashed_participating_indices(&state, 0, 1, &context), vec![1, 2]);
    assert_eq!(get_unslashed_participating_indices(&state, 1, 2, &context), vec![2]);
    assert_eq!(get_eligible_validator_indices(&state, &context), vec![0, 1, 2, 3]);
}

#[test]
fn history_is_remembered_for_one_buffer_length() {
    let context = Context::for_minimal();
    let mut state = genesis_state(2, &context);
    state.slot = 70;
    assert_eq!(get_block_root_at_slot(&state, 69), Ok([5u8; 32]));
    assert_eq!(get_block_root_at_slot(&state, 6), Ok([6u8; 32]));
    assert_eq!(
        get_block_root_at_slot(&state, 5),
        Err(TransitionError::SlotOutOfRange { requested: 5, lower_bound: 6, upper_bound: 70 })
    );
    assert_eq!(
        get_block_root_at_slot(&state, 70),
        Err(TransitionError::SlotOutOfRange { requested: 70, lower_bound: 6, upper_bound: 70 })
    );
    assert_eq!(get_block_root(&state, 8, &context), Ok([0u8; 32]));
    assert_eq!(get_block_root(&state, 1, &context), Ok([8u8; 32]));
    assert_eq!(get_block_root(&state, u64::MAX, &context), Err(TransitionError::Overflow));
    assert_eq!(get_randao_mix(&state, 3), [4u8; 32]);
    assert_eq!(get_randao_mix(&state, 67), [4u8; 32]);
}

#[test]
fn balances_grow_and_shrink() {
    let context = Context::for_minimal();
    let mut state = genesis_state(3, &context);
    assert_eq!(increase_balance(&mut state, 1, 5), Ok(()));
    assert_eq!(state.balances, vec![32 * ETH, 32 * ETH + 5, 32 * ETH]);
    decrease_balance(&mut state, 2, 7);
    assert_eq!(state.balances[2], 32 * ETH - 7);
    decrease_balance(&mut state, 2, u64::MAX);
    assert_eq!(state.balances[2], 0);
    let before = state.clone();
    assert_eq!(increase_balance(&mut state, 0, u64::MAX), Err(TransitionError::Overflow));
    assert_eq!(state, before);
}

#[test]
fn exit_of_a_validator_that_exits_already_changes_nothing() {
    let context = Context::for_minimal();
    let mut state = genesis_state(3, &context);
    state.validators[1].exit_epoch = 9;
    state.validators[1].withdrawable_epoch = 10;
    let before = state.clone();
    assert_eq!(initiate_validator_exit(&mut state, 1, &context), Ok(()));
    assert_eq!(state, before);
    // the queue starts behind the latest exit that is known
    state.validators[0].exit_epoch = 30;
    assert_eq!(initiate_validator_exit(&mut state, 2, &context), Ok(()));
    assert_eq!(state.validators[2].exit_epoch, 30);
    assert_eq!(state.validators[2].withdrawable_epoch, 30 + 256);
    // an exit so late that nobody could withdraw after it
    state.validators[0].exit_epoch = u64::MAX - 1;
    state.validators[2].exit_epoch = FAR_FUTURE_EPOCH;
    let before = state.clone();
    assert_eq!(initiate_validator_exit(&mut state, 2, &context), Err(TransitionError::Overflow));
    assert_eq!(state, before);
}

#[test]
fn the_integer_square_root_is_exact() {
    assert_eq!(integer_square_root(2_048_000_000_000), 1_431_083);
    assert_eq!(integer_square_root(8), 2);
    assert_eq!(integer_square_root(9), 3);
    assert_eq!(integer_square_root(15), 3);
    for n in [0u64, 1, 2, 99, 100, 101, 1 << 40, u64::MAX - 1, u64::MAX] {
        let r = integer_square_root(n) as u128;
        assert!(r * r <= n as u128 && (n as u128) < (r + 1) * (r + 1));
    }
}

#[test]
fn the_hash_is_sha256() {
    let digest = hash(b"abc");
    assert_eq!(
        digest[..8],
        [0xba, 0x78, 0x16, 0xbf, 0x8f, 0x01, 0xcf, 0xea]
    );
    assert_eq!(digest[28..], [0xf2, 0x00, 0x15, 0xad]);
    assert_ne!(hash(b"abd"), digest);
}

#[test]
fn signatures_verify_only_for_their_key_and_message() {
    let dst = b"BLS_SIG_BLS12381G2_XMD:SHA-256_SSWU_RO_POP_";
    let keys: Vec<[u8; 48]> = (0..3).map(|i| secret_key(i).sk_to_pk().to_bytes()).collect();
    let signature = secret_key(0).sign(b"message", dst, &[]).to_bytes();
    assert!(verify_signature(&keys[0], b"message", &signature));
    assert!(!verify_signature(&keys[1], b"message", &signature));
    assert!(!verify_signature(&keys[0], b"massage", &signature));
    assert!(!verify_signature(&[0u8; 48], b"message", &signature));
    assert!(!verify_signature(&keys[0], b"message", &[0u8; 96]));
    let other_tag = secret_key(0).sign(b"message", b"another tag", &[]).to_bytes();
    assert!(!verify_signature(&keys[0], b"message", &other_tag));
    let signatures: Vec<blst::min_pk::Signature> =
        (0..3).map(|i| secret_key(i).sign(b"together", dst, &[])).collect();
    let refs: Vec<&blst::min_pk::Signature> = signatures.iter().collect();
    let aggregate = blst::min_pk::AggregateSignature::aggregate(&refs, true)
        .unwrap()
        .to_signature()
        .to_bytes();
    assert!(fast_aggregate_verify(&keys, b"together", &aggregate));
    assert!(!fast_aggregate_verify(&keys[..2].to_vec(), b"together", &aggregate));
    assert!(!fast_aggregate_verify(&keys, b"apart", &aggregate));
    assert!(!fast_aggregate_verify(&vec![], b"together", &aggregate));
    let sum = eth_aggregate_public_keys(&keys).unwrap();
    assert!(verify_signature(&sum, b"together", &aggregate));
    assert_eq!(eth_aggregate_public_keys(&vec![keys[1]]), Some(keys[1]));
    assert_eq!(eth_aggregate_public_keys(&vec![]), None);
    assert_eq!(eth_aggregate_public_keys(&vec![keys[0], [1u8; 48]]), None);
}

#[test]
fn domains_are_made_of_the_kind_and_the_fork_data_root() {
    let context = Context::for_minimal();
    assert_eq!(DomainType::BeaconProposer.as_bytes(), [0, 0, 0, 0]);
    assert_eq!(DomainType::Deposit.as_bytes(), [3, 0, 0, 0]);
    assert_eq!(DomainType::SyncCommittee.as_bytes(), [7, 0, 0, 0]);
    assert_eq!(DomainType::ContributionAndProof.as_bytes(), [9, 0, 0, 0]);
    let root = compute_fork_data_root([1, 0, 0, 1], [1u8; 32]);
    let mut chunks = vec![1u8, 0, 0, 1];
    chunks.extend_from_slice(&[0u8; 28]);
    chunks.extend_from_slice(&[1u8; 32]);
    assert_eq!(root, hash(&chunks));
    let domain = compute_domain(DomainType::Randao, Some([1, 0, 0, 1]), Some([1u8; 32]), &context);
    assert_eq!(domain[..4], [2, 0, 0, 0]);
    assert_eq!(domain[4..], root[..28]);
    let default = compute_domain(DomainType::Deposit, None, None, &context);
    assert_eq!(default[4..], compute_fork_data_root([0, 0, 0, 1], [0u8; 32])[..28]);
    let mut state = genesis_state(2, &context);
    state.fork.epoch = 5;
    assert_eq!(get_domain(&state, DomainType::Randao, Some(5), &context), domain);
    assert_eq!(
        get_domain(&state, DomainType::Randao, Some(4), &context),
        compute_domain(DomainType::Randao, Some([0, 0, 0, 1]), Some([1u8; 32]), &context)
    );
    state.slot = 40;
    assert_eq!(get_domain(&state, DomainType::Randao, None, &context), domain);
    let signing = SigningData { object_root: [7u8; 32], domain };
    let mut both = vec![7u8; 32];
    both.extend_from_slice(&domain);
    assert_eq!(signing.hash_tree_root(), hash(&both));
    assert_eq!(compute_signing_root([7u8; 32], domain), hash(&both));
}

#[test]
fn the_shuffle_is_a_permutation() {
    let context = Context::for_minimal();
    let seed = [0x5a; 32];
    for count in [1usize, 2, 7, 64, 100] {
        let mut seen = vec![false; count];
        for i in 0..count {
            let j = compute_shuffled_index(i, count, &seed, &context).unwrap();
            assert!(j < count);
            assert!(!seen[j]);
            seen[j] = true;
        }
    }
    assert_eq!(
        compute_shuffled_index(5, 5, &seed, &context),
        Err(TransitionError::OutOfBounds { index: 5, len: 5 })
    );
    let moved = (0..64)
        .filter(|i| compute_shuffled_index(*i, 64, &seed, &context).unwrap() != *i)
        .count();
    assert!(moved > 32);
    let other = (0..64)
        .filter(|i| {
            compute_shuffled_index(*i, 64, &seed, &context)
                != compute_shuffled_index(*i, 64, &[0x5b; 32], &context)
        })
        .count();
    assert!(other > 32);
}

#[test]
fn committees_of_an_epoch_cover_every_validator_once() {
    let context = Context::for_minimal();
    let state = genesis_state(64, &context);
    assert_eq!(get_committee_count_per_slot(&state, 0, &context), 2);
    let mut seen = vec![0; 64];
    for slot in 0..8 {
        for index in 0..2 {
            let committee = get_beacon_committee(&state, slot, index, &context).unwrap();
            assert_eq!(committee.len(), 4);
            for v in committee {
                seen[v] += 1;
            }
        }
    }
    assert_eq!(seen, vec![1; 64]);
    let indices: Vec<usize> = (10..20).collect();
    let all: Vec<usize> = (0..3)
        .flat_map(|i| compute_committee(&indices, &[1u8; 32], i, 3, &context).unwrap())
        .collect();
    let mut sorted = all.clone();
    sorted.sort();
    assert_eq!(sorted, indices);
    assert_eq!(
        compute_committee(&indices, &[1u8; 32], 3, 3, &context),
        Err(TransitionError::OutOfBounds { index: 10, len: 10 })
    );
    let few = genesis_state(3, &context);
    assert_eq!(get_committee_count_per_slot(&few, 0, &context), 1);
}

#[test]
fn seeds_depend_on_the_kind_the_epoch_and_the_mix() {
    let context = Context::for_minimal();
    let state = genesis_state(4, &context);
    // the mix of epoch 5 is that of epoch 5 + 64 - 1 - 1 = 3 in the buffer
    let mut input = vec![1u8, 0, 0, 0];
    input.extend_from_slice(&5u64.to_le_bytes());
    input.extend_from_slice(&[4u8; 32]);
    assert_eq!(get_seed(&state, 5, DomainType::BeaconAttester, &context), Ok(hash(&input)));
    assert_ne!(
        get_seed(&state, 5, DomainType::BeaconProposer, &context),
        get_seed(&state, 5, DomainType::BeaconAttester, &context)
    );
    let mut short = context;
    short.min_seed_lookahead = u64::MAX - 1;
    assert_eq!(
        get_seed(&state, 5, DomainType::BeaconAttester, &short),
        Err(TransitionError::Underflow)
    );
}

#[test]
fn proposers_are_sampled_by_effective_balance() {
    let context = Context::for_minimal();
    let mut state = genesis_state(16, &context);
    state.slot = 3;
    let proposer = get_beacon_proposer_index(&state, &context).unwrap();
    assert!(proposer < 16);
    assert_eq!(get_beacon_proposer_index(&state, &context), Ok(proposer));
    // a validator without balance is never chosen
    for v in state.validators.iter_mut() {
        v.effective_balance = 0;
    }
    state.validators[11].effective_balance = 32 * ETH;
    for slot in 0..8 {
        state.slot = slot;
        assert_eq!(get_beacon_proposer_index(&state, &context), Ok(11));
    }
    assert_eq!(
        compute_proposer_index(&state, &vec![], &[0u8; 32], &context),
        Err(TransitionError::NoActiveValidators)
    );
    assert_eq!(compute_proposer_index(&state, &vec![11], &[0u8; 32], &context), Ok(11));
    for v in state.validators.iter_mut() {
        v.exit_epoch = 0;
    }
    assert_eq!(
        get_beacon_proposer_index(&state, &context),
        Err(TransitionError::NoActiveValidators)
    );
}

#[test]
fn the_next_sync_committee_is_sampled_from_the_active_validators() {
    let context = Context::for_minimal();
    let mut state = genesis_state(8, &context);
    state.validators[3].effective_balance = 0;
    state.validators[6].exit_epoch = 1;
    let indices = get_next_sync_committee_indices(&state, &context).unwrap();
    assert_eq!(indices.len(), 32);
    assert!(indices.iter().all(|i| *i < 8 && *i != 3 && *i != 6));
    let committee = get_next_sync_committee(&state, &context).unwrap();
    let keys: Vec<[u8; 48]> = indices.iter().map(|i| state.validators[*i].public_key).collect();
    assert_eq!(committee.public_keys, keys);
    assert_eq!(Some(committee.aggregate_public_key), eth_aggregate_public_keys(&keys));
    for v in state.validators.iter_mut() {
        v.exit_epoch = 1;
    }
    assert_eq!(
        get_next_sync_committee_indices(&state, &context),
        Err(TransitionError::NoActiveValidators)
    );
}

#[test]
fn base_rewards_count_increments() {
    let context = Context::for_minimal();
    let mut state = genesis_state(64, &context);
    assert_eq!(get_base_reward_per_increment(&state, &context), Ok(44_721));
    // with 2033e9 in total the square root is 1425833 and an increment earns 44886
    state.validators[5].effective_balance = 17 * ETH;
    assert_eq!(get_base_reward_per_increment(&state, &context), Ok(44_886));
    assert_eq!(get_base_reward_by_increments(&state, 5, &context), Ok(763_062));
    assert_eq!(get_base_reward_by_increments(&state, 6, &context), Ok(1_436_352));
}

fn sha(a: &[u8; 32], b: &[u8; 32]) -> [u8; 32] {
    let mut input = a.to_vec();
    input.extend_from_slice(b);
    hash(&input)
}

#[test]
fn merkle_branches_are_checked_against_the_root() {
    let leaves = [[1u8; 32], [2u8; 32], [3u8; 32], [4u8; 32]];
    let left = sha(&leaves[0], &leaves[1]);
    let right = sha(&leaves[2], &leaves[3]);
    let root = sha(&left, &right);
    assert!(is_valid_merkle_branch(&leaves[2], &vec![leaves[3], left], 2, 2, &root));
    assert!(is_valid_merkle_branch(&leaves[1], &vec![leaves[0], right], 2, 1, &root));
    assert!(!is_valid_merkle_branch(&leaves[1], &vec![leaves[0], right], 2, 0, &root));
    assert!(!is_valid_merkle_branch(&leaves[1], &vec![leaves[0]], 2, 1, &root));
    assert!(!is_valid_merkle_branch(&leaves[1], &vec![leaves[0], right], 2, 1, &left));
    assert!(is_valid_merkle_branch(&root, &vec![], 0, 0, &root));
    assert!(!is_valid_merkle_branch(&root, &vec![], 65, 0, &root));
    let mut chunks = vec![];
    for leaf in leaves {
        chunks.extend_from_slice(&leaf);
    }
    assert_eq!(merkleize(&chunks), root);
    assert_eq!(merkleize(&leaves[0].to_vec()), leaves[0]);
    assert_eq!(merkleize(&chunks[..96].to_vec()), sha(&left, &sha(&leaves[2], &[0u8; 32])));
    assert_eq!(merkleize_within(&chunks, 4), Ok(root));
    assert_eq!(merkleize_within(&chunks, 3), Err(TransitionError::Merkleization));
    let zeros = sha(&[0u8; 32], &[0u8; 32]);
    assert_eq!(merkleize_within(&chunks, 8), Ok(sha(&root, &sha(&zeros, &zeros))));
    assert_eq!(merkleize_within(&vec![], 2), Ok(zeros));
}

#[test]
fn roots_of_lists_and_vectors_are_those_of_the_serialization_library() {
    let numbers: Vec<u64> = (1..=11).map(|i| i * 1_000_003).collect();
    let mut list = List::<u64, 40>::try_from(numbers.clone()).unwrap();
    assert_eq!(
        hash_tree_root_of_u64_list(&numbers, 40).unwrap()[..],
        list.hash_tree_root().unwrap().as_ref()[..]
    );
    let mut empty = List::<u64, 40>::default();
    assert_eq!(
        hash_tree_root_of_u64_list(&vec![], 40).unwrap()[..],
        empty.hash_tree_root().unwrap().as_ref()[..]
    );
    let mut vector = Vector::<u64, 11>::try_from(numbers.clone()).unwrap();
    assert_eq!(
        hash_tree_root_of_u64_vector(&numbers)[..],
        vector.hash_tree_root().unwrap().as_ref()[..]
    );
    let bytes: Vec<u8> = (0..70).collect();
    let mut byte_list = List::<u8, 1000>::try_from(bytes.clone()).unwrap();
    assert_eq!(
        hash_tree_root_of_byte_list(&bytes, 1000).unwrap()[..],
        byte_list.hash_tree_root().unwrap().as_ref()[..]
    );
    let roots: Vec<[u8; 32]> = (0..5u8).map(|i| [i; 32]).collect();
    let as_vectors: Vec<Vector<u8, 32>> =
        roots.iter().map(|r| Vector::try_from(r.to_vec()).unwrap()).collect();
    let mut root_vector = Vector::<Vector<u8, 32>, 5>::try_from(as_vectors.clone()).unwrap();
    assert_eq!(
        hash_tree_root_of_roots(&roots)[..],
        root_vector.hash_tree_root().unwrap().as_ref()[..]
    );
    let mut root_list = List::<Vector<u8, 32>, 1024>::try_from(as_vectors).unwrap();
    assert_eq!(
        hash_tree_root_of_list(&roots, 1024).unwrap()[..],
        root_list.hash_tree_root().unwrap().as_ref()[..]
    );
    assert_eq!(hash_tree_root_of_list(&roots, 4), Err(TransitionError::Merkleization));
    let bits: Vec<bool> = (0..300).map(|i| i % 3 == 0 || i % 7 == 0).collect();
    let mut bitlist = Bitlist::<2048>::default();
    for b in bits.iter() {
        bitlist.push(*b);
    }
    assert_eq!(
        hash_tree_root_of_bitlist(&bits, 2048).unwrap()[..],
        bitlist.hash_tree_root().unwrap().as_ref()[..]
    );
    let mut bitvector = Bitvector::<300>::default();
    for (i, b) in bits.iter().enumerate() {
        bitvector.set(i, *b);
    }
    assert_eq!(
        hash_tree_root_of_bitvector(&bits)[..],
        bitvector.hash_tree_root().unwrap().as_ref()[..]
    );
    let key: Vec<u8> = (0..48).collect();
    let mut key_vector = Vector::<u8, 48>::try_from(key.clone()).unwrap();
    let key_array: [u8; 48] = key.try_into().unwrap();
    assert_eq!(
        hash_tree_root_public_key(&key_array)[..],
        key_vector.hash_tree_root().unwrap().as_ref()[..]
    );
    let signature: Vec<u8> = (0..96).collect();
    let mut signature_vector = Vector::<u8, 96>::try_from(signature.clone()).unwrap();
    let signature_array: [u8; 96] = signature.try_into().unwrap();
    assert_eq!(
        hash_tree_root_signature(&signature_array)[..],
        signature_vector.hash_tree_root().unwrap().as_ref()[..]
    );
    let mut length = [0u8; 32];
    length[0] = 5;
    assert_eq!(mix_in_length(&[9u8; 32], 5), sha(&[9u8; 32], &length));
}

#[test]
fn the_root_of_a_state_depends_on_every_field() {
    let context = Context::for_minimal();
    let state = genesis_state(4, &context);
    let root = state.hash_tree_root(&context).unwrap();
    let mut changed: Vec<BeaconState> = vec![];
    let mut s = state.clone();
    s.genesis_time = 1;
    changed.push(s);
    let mut s = state.clone();
    s.slot = 1;
    changed.push(s);
    let mut s = state.clone();
    s.fork.epoch = 1;
    changed.push(s);
    let mut s = state.clone();
    s.latest_block_header.proposer_index = 1;
    changed.push(s);
    let mut s = state.clone();
    s.block_roots[63] = [9u8; 32];
    changed.push(s);
    let mut s = state.clone();
    s.state_roots[0] = [9u8; 32];
    changed.push(s);
    let mut s = state.clone();
    s.historical_roots.push([0u8; 32]);
    changed.push(s);
    let mut s = state.clone();
    s.eth1_data.deposit_count = 1;
    changed.push(s);
    let mut s = state.clone();
    s.eth1_data_votes.push(state.eth1_data);
    changed.push(s);
    let mut s = state.clone();
    s.eth1_deposit_index = 1;
    changed.push(s);
    let mut s = state.clone();
    s.validators[3].slashed = true;
    changed.push(s);
    let mut s = state.clone();
    s.balances[2] += 1;
    changed.push(s);
    let mut s = state.clone();
    s.randao_mixes[1] = [0u8; 32];
    changed.push(s);
    let mut s = state.clone();
    s.slashings[5] = 1;
    changed.push(s);
    let mut s = state.clone();
    s.previous_epoch_participation[0] = 1;
    changed.push(s);
    let mut s = state.clone();
    s.current_epoch_participation[0] = 1;
    changed.push(s);
    let mut s = state.clone();
    s.justification_bits = 1;
    changed.push(s);
    let mut s = state.clone();
    s.previous_justified_checkpoint.epoch = 1;
    changed.push(s);
    let mut s = state.clone();
    s.current_justified_checkpoint.epoch = 1;
    changed.push(s);
    let mut s = state.clone();
    s.finalized_checkpoint.epoch = 1;
    changed.push(s);
    let mut s = state.clone();
    s.inactivity_scores[1] = 1;
    changed.push(s);
    let mut s = state.clone();
    s.current_sync_committee.aggregate_public_key = [1u8; 48];
    changed.push(s);
    let mut s = state.clone();
    s.next_sync_committee.public_keys[31] = [1u8; 48];
    changed.push(s);
    let mut roots = vec![root];
    for s in changed {
        let r = s.hash_tree_root(&context).unwrap();
        assert!(!roots.contains(&r));
        roots.push(r);
    }
    assert_eq!(state.duplicate(), state);
    let mut small = context;
    small.validator_registry_limit = 3;
    assert_eq!(state.hash_tree_root(&small), Err(TransitionError::Merkleization));
}
