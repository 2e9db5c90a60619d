use blst::min_pk::{AggregateSignature, SecretKey, Signature};
use ethereum_consensus::attestations::{
    get_attestation_participation_flag_indices, get_attesting_indices, get_indexed_attestation,
    is_valid_indexed_attestation, TimelinessFlags,
};
use ethereum_consensus::block_processing::{
    process_attestation, process_attester_slashing, process_block, process_block_header,
    process_deposit, process_eth1_data, process_operations, process_proposer_slashing,
    process_randao, process_sync_aggregate, process_voluntary_exit,
};
use ethereum_consensus::committees::{get_beacon_committee, get_beacon_proposer_index};
use ethereum_consensus::context::Context;
use ethereum_consensus::crypto::hash;
use ethereum_consensus::domains::{compute_domain, compute_signing_root, get_domain, DomainType};
use ethereum_consensus::error::{
    InvalidAttestation, InvalidAttesterSlashing, InvalidBeaconBlockHeader, InvalidDeposit,
    InvalidIndexedAttestation, InvalidOperation, InvalidProposerSlashing, InvalidSyncAggregate,
    InvalidVoluntaryExit, OperationKind, TransitionError,
};
use ethereum_consensus::helpers::{get_block_root, get_block_root_at_slot};
use ethereum_consensus::operations::{
    Attestation, AttestationData, AttesterSlashing, BeaconBlock, BeaconBlockBody, Deposit,
    DepositData, DepositMessage, IndexedAttestation, ProposerSlashing, SignedBeaconBlock,
    SignedBeaconBlockHeader, SignedVoluntaryExit, SyncAggregate, VoluntaryExit,
};
use ethereum_consensus::primitives::FAR_FUTURE_EPOCH;
use ethereum_consensus::slashing::slash_validator;
use ethereum_consensus::slot_processing::process_slots;
use ethereum_consensus::state::{
    BeaconBlockHeader, BeaconState, Checkpoint, Eth1Data, Fork, SyncCommittee, Validator,
};
use ethereum_consensus::state_transition::{apply_block, state_transition, verify_block_signature};

const ETH: u64 = 1_000_000_000;
const DST: &[u8] = b"BLS_SIG_BLS12381G2_XMD:SHA-256_SSWU_RO_POP_";

fn secret_key(i: usize) -> SecretKey {
    let mut ikm = [0u8; 32];
    ikm[0] = i as u8;
    ikm[1] = (i >> 8) as u8;
    ikm[31] = 42;
    SecretKey::key_gen(&ikm, &[]).unwrap()
}

fn public_key(i: usize) -> [u8; 48] {
    secret_key(i).sk_to_pk().to_bytes()
}

fn sign(i: usize, message: &[u8]) -> [u8; 96] {
    secret_key(i).sign(message, DST, &[]).to_bytes()
}

fn sign_together(signers: &[usize], message: &[u8]) -> [u8; 96] {
    let signatures: Vec<Signature> =
        signers.iter().map(|i| secret_key(*i).sign(message, DST, &[])).collect();
    let refs: Vec<&Signature> = signatures.iter().collect();
    AggregateSignature::aggregate(&refs, true).unwrap().to_signature().to_bytes()
}

fn validator(i: usize) -> Validator {
    Validator {
        public_key: public_key(i),
        withdrawal_credentials: [0u8; 32],
        effective_balance: 32 * ETH,
        slashed: false,
        activation_eligibility_epoch: 0,
        activation_epoch: 0,
        exit_epoch: FAR_FUTURE_EPOCH,
        withdrawable_epoch: FAR_FUTURE_EPOCH,
    }
}

fn genesis_state(n: usize, context: &Context) -> BeaconState {
    let validators: Vec<Validator> = (0..n).map(validator).collect();
    let committee = SyncCommittee {
        public_keys: (0..context.sync_committee_size).map(|i| validators[i % n].public_key).collect(),
        aggregate_public_key: validators[0].public_key,
    };
    BeaconState {
        genesis_time: 0,
        genesis_validators_root: [1u8; 32],
        slot: 0,
        fork: Fork {
            previous_version: context.genesis_fork_version,
            current_version: context.altair_fork_version,
            epoch: 0,
        },
        latest_block_header: BeaconBlockHeader {
            slot: 0,
            proposer_index: 0,
            parent_root: [0u8; 32],
            state_root: [0u8; 32],
            body_root: [2u8; 32],
        },
        block_roots: vec![[0u8; 32]; context.slots_per_historical_root as usize],
        state_roots: vec![[0u8; 32]; context.slots_per_historical_root as usize],
        historical_roots: vec![],
        eth1_data: Eth1Data { deposit_root: [0u8; 32], deposit_count: 0, block_hash: [0u8; 32] },
        eth1_data_votes: vec![],
        eth1_deposit_index: 0,
        validators,
        balances: vec![32 * ETH; n],
        randao_mixes: vec![[3u8; 32]; context.epochs_per_historical_vector as usize],
        slashings: vec![0; context.epochs_per_slashings_vector as usize],
        previous_epoch_participation: vec![0; n],
        current_epoch_participation: vec![0; n],
        justification_bits: 0,
        previous_justified_checkpoint: Checkpoint { epoch: 0, root: [0u8; 32] },
        current_justified_checkpoint: Checkpoint { epoch: 0, root: [0u8; 32] },
        finalized_checkpoint: Checkpoint { epoch: 0, root: [0u8; 32] },
        inactivity_scores: vec![0; n],
        current_sync_committee: committee.clone(),
        next_sync_committee: committee,
    }
}

/// A state at slot 10 whose block roots are all different.
fn attesting_state(context: &Context) -> BeaconState {
    let mut state = genesis_state(64, context);
    state.slot = 10;
    for i in 0..64 {
        state.block_roots[i] = [i as u8 + 100; 32];
    }
    state.current_justified_checkpoint = Checkpoint { epoch: 0, root: [0x77; 32] };
    state
}

fn attestation_data(state: &BeaconState, slot: u64, context: &Context) -> AttestationData {
    let epoch = slot / context.slots_per_epoch;
    AttestationData {
        slot,
        index: 0,
        beacon_block_root: get_block_root_at_slot(state, slot).unwrap(),
        source: state.current_justified_checkpoint,
        target: Checkpoint { epoch, root: get_block_root(state, epoch, context).unwrap() },
    }
}

fn signed_attestation(state: &BeaconState, data: AttestationData, context: &Context) -> Attestation {
    let committee = get_beacon_committee(state, data.slot, data.index as u64, context).unwrap();
    let domain = get_domain(state, DomainType::BeaconAttester, Some(data.target.epoch), context);
    let root = compute_signing_root(data.hash_tree_root(), domain);
    Attestation {
        aggregation_bits: vec![true; committee.len()],
        data,
        signature: sign_together(&committee, &root),
    }
}

fn attestation_error(e: InvalidAttestation) -> TransitionError {
    TransitionError::InvalidOperation(InvalidOperation::Attestation(e))
}

#[test]
fn a_timely_attestation_sets_all_flags_and_pays_the_proposer() {
    let context = Context::for_minimal();
    let mut state = attesting_state(&context);
    let data = attestation_data(&state, 9, &context);
    let attestation = signed_attestation(&state, data, &context);
    let committee = get_beacon_committee(&state, 9, 0, &context).unwrap();
    assert_eq!(committee.len(), 4);
    let proposer = get_beacon_proposer_index(&state, &context).unwrap();
    let before = state.clone();
    assert_eq!(process_attestation(&mut state, &attestation, &context), Ok(()));
    for i in 0..64 {
        let expected = if committee.contains(&i) { 7 } else { 0 };
        assert_eq!(state.current_epoch_participation[i], expected);
    }
    assert_eq!(state.previous_epoch_participation, before.previous_epoch_participation);
    // four attesters, base reward 32 * 44721, all three flags new: weight 54
    let numerator = 4 * 32 * 44_721 * 54u64;
    assert_eq!(numerator / 448, 689_981);
    for i in 0..64 {
        let expected = if i == proposer { 32 * ETH + 689_981 } else { 32 * ETH };
        assert_eq!(state.balances[i], expected);
    }
    assert!(state.is_well_formed(&context));
    // the same attestation again sets nothing new and pays nothing
    let again = state.clone();
    assert_eq!(process_attestation(&mut state, &attestation, &context), Ok(()));
    assert_eq!(state, again);
}

#[test]
fn a_late_attestation_with_a_wrong_head_earns_fewer_flags() {
    let context = Context::for_minimal();
    let mut state = attesting_state(&context);
    // included three slots late: no longer within the square root of an epoch
    state.slot = 12;
    let mut data = attestation_data(&state, 9, &context);
    data.beacon_block_root = [0xee; 32];
    assert_eq!(
        get_attestation_participation_flag_indices(&state, &data, 3, &context),
        Ok(TimelinessFlags { source: false, target: true, head: false })
    );
    assert_eq!(
        get_attestation_participation_flag_indices(&state, &data, 2, &context),
        Ok(TimelinessFlags { source: true, target: true, head: false })
    );
    let attestation = signed_attestation(&state, data, &context);
    let committee = get_beacon_committee(&state, 9, 0, &context).unwrap();
    let proposer = get_beacon_proposer_index(&state, &context).unwrap();
    assert_eq!(process_attestation(&mut state, &attestation, &context), Ok(()));
    for i in committee.iter() {
        assert_eq!(state.current_epoch_participation[*i], 2);
    }
    assert_eq!(state.balances[proposer], 32 * ETH + 4 * 32 * 44_721 * 26 / 448);
    // a wrong target leaves the source flag only
    let mut data = attestation_data(&state, 9, &context);
    data.target.root = [0xdd; 32];
    assert_eq!(
        get_attestation_participation_flag_indices(&state, &data, 1, &context),
        Ok(TimelinessFlags { source: true, target: false, head: false })
    );
}

#[test]
fn an_attestation_with_the_wrong_number_of_bits_is_rejected_and_changes_nothing() {
    let context = Context::for_minimal();
    let mut state = attesting_state(&context);
    let data = attestation_data(&state, 9, &context);
    let mut attestation = signed_attestation(&state, data, &context);
    let before = state.clone();
    for length in [0usize, 3, 5, 64] {
        attestation.aggregation_bits = vec![true; length];
        assert_eq!(
            process_attestation(&mut state, &attestation, &context),
            Err(attestation_error(InvalidAttestation::Bitfield { expected_length: 4, length }))
        );
        assert_eq!(state, before);
    }
    // and so is the block that carries it
    let mut body = empty_body(&state);
    body.attestations.push(attestation);
    assert_eq!(
        process_operations(&mut state, &body, &context),
        Err(attestation_error(InvalidAttestation::Bitfield { expected_length: 4, length: 64 }))
    );
    assert_eq!(state, before);
}

#[test]
fn attestations_are_checked_in_order() {
    let context = Context::for_minimal();
    let mut state = attesting_state(&context);
    state.slot = 26;
    let good = attestation_data(&state, 25, &context);
    let before = state.clone();
    let mut check = |data: AttestationData, expected: TransitionError| {
        let attestation = Attestation { aggregation_bits: vec![true; 4], data, signature: [0; 96] };
        assert_eq!(process_attestation(&mut state, &attestation, &context), Err(expected));
        assert_eq!(state, before);
    };
    let mut data = good;
    data.target.epoch = 1;
    check(data, attestation_error(InvalidAttestation::InvalidTargetEpoch { target: 1, current: 3 }));
    let mut data = good;
    data.target.epoch = 4;
    check(data, attestation_error(InvalidAttestation::InvalidTargetEpoch { target: 4, current: 3 }));
    let mut data = good;
    data.slot = 23;
    check(data, attestation_error(InvalidAttestation::InvalidSlot { slot: 23, epoch: 2, target: 3 }));
    let mut data = good;
    data.slot = 26;
    check(
        data,
        attestation_error(InvalidAttestation::NotTimely {
            state_slot: 26,
            attestation_slot: 26,
            lower_bound: 27,
            upper_bound: 34,
        }),
    );
    let mut data = good;
    data.slot = 17;
    data.target.epoch = 2;
    check(
        data,
        attestation_error(InvalidAttestation::NotTimely {
            state_slot: 26,
            attestation_slot: 17,
            lower_bound: 18,
            upper_bound: 25,
        }),
    );
    let mut data = good;
    data.index = 2;
    check(data, attestation_error(InvalidAttestation::InvalidIndex { index: 2, committee_count: 2 }));
    let mut data = good;
    data.source = Checkpoint { epoch: 0, root: [0x78; 32] };
    check(
        data,
        attestation_error(InvalidAttestation::InvalidSource {
            expected_epoch: 0,
            expected_root: [0x77; 32],
            source_epoch: 0,
            source_root: [0x78; 32],
        }),
    );
    check(
        good,
        TransitionError::InvalidOperation(InvalidOperation::IndexedAttestation(
            InvalidIndexedAttestation::InvalidSignature([0; 96]),
        )),
    );
}

#[test]
fn an_attestation_that_nobody_signed_is_empty() {
    let context = Context::for_minimal();
    let mut state = attesting_state(&context);
    let data = attestation_data(&state, 9, &context);
    let attestation = Attestation { aggregation_bits: vec![false; 4], data, signature: [0; 96] };
    assert_eq!(get_attesting_indices(&state, &data, &attestation.aggregation_bits, &context), Ok(vec![]));
    assert_eq!(
        process_attestation(&mut state, &attestation, &context),
        Err(TransitionError::InvalidOperation(InvalidOperation::IndexedAttestation(
            InvalidIndexedAttestation::AttestingIndicesEmpty
        )))
    );
}

#[test]
fn a_partial_attestation_names_its_signers_in_ascending_order() {
    let context = Context::for_minimal();
    let mut state = attesting_state(&context);
    let data = attestation_data(&state, 9, &context);
    let committee = get_beacon_committee(&state, 9, 0, &context).unwrap();
    let bits = vec![true, false, true, true];
    let mut signers = vec![committee[0], committee[2], committee[3]];
    let indices = get_attesting_indices(&state, &data, &bits, &context).unwrap();
    signers.sort();
    assert_eq!(indices, signers);
    let domain = get_domain(&state, DomainType::BeaconAttester, Some(1), &context);
    let root = compute_signing_root(data.hash_tree_root(), domain);
    let attestation =
        Attestation { aggregation_bits: bits, data, signature: sign_together(&signers, &root) };
    let indexed = get_indexed_attestation(&state, &attestation, &context).unwrap();
    assert_eq!(indexed.attesting_indices, signers);
    assert_eq!(is_valid_indexed_attestation(&state, &indexed, &context), Ok(()));
    assert_eq!(process_attestation(&mut state, &attestation, &context), Ok(()));
    assert_eq!(state.current_epoch_participation[committee[1]], 0);
    assert_eq!(state.current_epoch_participation[committee[0]], 7);
    // signed by the whole committee the same bits do not verify
    let all = signed_attestation(&state, data, &context);
    let wrong = Attestation {
        aggregation_bits: vec![true, false, true, true],
        data,
        signature: all.signature,
    };
    assert_eq!(
        process_attestation(&mut state, &wrong, &context),
        Err(TransitionError::InvalidOperation(InvalidOperation::IndexedAttestation(
            InvalidIndexedAttestation::InvalidSignature(all.signature)
        )))
    );
}

#[test]
fn indexed_attestations_must_be_sorted_and_name_validators() {
    let context = Context::for_minimal();
    let state = attesting_state(&context);
    let data = attestation_data(&state, 9, &context);
    let indexed = |indices: Vec<usize>| IndexedAttestation {
        attesting_indices: indices,
        data,
        signature: [0; 96],
    };
    let fault = |e| Err(TransitionError::InvalidOperation(InvalidOperation::IndexedAttestation(e)));
    assert_eq!(
        is_valid_indexed_attestation(&state, &indexed(vec![]), &context),
        fault(InvalidIndexedAttestation::AttestingIndicesEmpty)
    );
    assert_eq!(
        is_valid_indexed_attestation(&state, &indexed(vec![3, 2]), &context),
        fault(InvalidIndexedAttestation::AttestingIndicesNotSorted)
    );
    assert_eq!(
        is_valid_indexed_attestation(&state, &indexed(vec![2, 2]), &context),
        fault(InvalidIndexedAttestation::AttestingIndicesNotSorted)
    );
    assert_eq!(
        is_valid_indexed_attestation(&state, &indexed(vec![2, 64]), &context),
        fault(InvalidIndexedAttestation::InvalidIndex(64))
    );
    assert_eq!(
        is_valid_indexed_attestation(&state, &indexed(vec![2, 5]), &context),
        fault(InvalidIndexedAttestation::InvalidSignature([0; 96]))
    );
}

fn sha(a: &[u8; 32], b: &[u8; 32]) -> [u8; 32] {
    let mut input = a.to_vec();
    input.extend_from_slice(b);
    hash(&input)
}

/// The proof of the only leaf of a deposit tree, and the root of the tree.
fn deposit_proof(leaf: [u8; 32]) -> (Vec<[u8; 32]>, [u8; 32]) {
    let mut proof = vec![];
    let mut zero = [0u8; 32];
    let mut node = leaf;
    for _ in 0..32 {
        proof.push(zero);
        node = sha(&node, &zero);
        zero = sha(&zero, &zero);
    }
    let mut count = [0u8; 32];
    count[0] = 1;
    proof.push(count);
    (proof, sha(&node, &count))
}

fn deposit_for(key: usize, amount: u64, context: &Context) -> Deposit {
    let message = DepositMessage {
        public_key: public_key(key),
        withdrawal_credentials: [9u8; 32],
        amount,
    };
    let domain = compute_domain(DomainType::Deposit, None, None, context);
    let root = compute_signing_root(message.hash_tree_root(), domain);
    let data = DepositData {
        public_key: message.public_key,
        withdrawal_credentials: message.withdrawal_credentials,
        amount,
        signature: sign(key, &root),
    };
    Deposit { proof: deposit_proof(data.hash_tree_root()).0, data }
}

fn expect_deposit(state: &mut BeaconState, deposit: &Deposit) {
    state.eth1_data.deposit_root = deposit_proof(deposit.data.hash_tree_root()).1;
    state.eth1_data.deposit_count = state.eth1_deposit_index + 1;
}

#[test]
fn a_deposit_for_a_new_key_adds_a_validator() {
    let context = Context::for_minimal();
    let mut state = genesis_state(8, &context);
    let deposit = deposit_for(100, 17 * ETH + 5, &context);
    expect_deposit(&mut state, &deposit);
    assert_eq!(process_deposit(&mut state, &deposit, &context), Ok(()));
    assert_eq!(state.validators.len(), 9);
    assert_eq!(state.balances, [vec![32 * ETH; 8], vec![17 * ETH + 5]].concat());
    assert_eq!(
        state.validators[8],
        Validator {
            public_key: public_key(100),
            withdrawal_credentials: [9u8; 32],
            effective_balance: 17 * ETH,
            slashed: false,
            activation_eligibility_epoch: FAR_FUTURE_EPOCH,
            activation_epoch: FAR_FUTURE_EPOCH,
            exit_epoch: FAR_FUTURE_EPOCH,
            withdrawable_epoch: FAR_FUTURE_EPOCH,
        }
    );
    assert_eq!(state.previous_epoch_participation.len(), 9);
    assert_eq!(state.current_epoch_participation[8], 0);
    assert_eq!(state.inactivity_scores[8], 0);
    assert_eq!(state.eth1_deposit_index, 1);
    assert!(state.is_well_formed(&context));
}

#[test]
fn a_deposit_above_the_maximum_is_capped_in_the_effective_balance() {
    let context = Context::for_minimal();
    let mut state = genesis_state(2, &context);
    let deposit = deposit_for(50, 40 * ETH, &context);
    expect_deposit(&mut state, &deposit);
    assert_eq!(process_deposit(&mut state, &deposit, &context), Ok(()));
    assert_eq!(state.validators[2].effective_balance, 32 * ETH);
    assert_eq!(state.balances[2], 40 * ETH);
}

#[test]
fn a_deposit_for_a_known_key_only_tops_up() {
    let context = Context::for_minimal();
    let mut state = genesis_state(8, &context);
    state.eth1_deposit_index = 0;
    let mut deposit = deposit_for(5, 3 * ETH, &context);
    // the signature is not even looked at
    deposit.data.signature = [0xff; 96];
    deposit.proof = deposit_proof(deposit.data.hash_tree_root()).0;
    expect_deposit(&mut state, &deposit);
    let before = state.clone();
    assert_eq!(process_deposit(&mut state, &deposit, &context), Ok(()));
    assert_eq!(state.validators, before.validators);
    assert_eq!(state.balances[5], 35 * ETH);
    assert_eq!(state.balances.len(), 8);
    assert_eq!(state.eth1_deposit_index, before.eth1_deposit_index + 1);
    let mut expected = before;
    expected.balances[5] = 35 * ETH;
    expected.eth1_deposit_index = 1;
    assert_eq!(state, expected);
}

#[test]
fn deposits_with_a_bad_proof_or_signature_are_rejected() {
    let context = Context::for_minimal();
    let mut state = genesis_state(8, &context);
    let deposit = deposit_for(100, 32 * ETH, &context);
    expect_deposit(&mut state, &deposit);
    let before = state.clone();
    let mut unsigned = deposit.clone();
    unsigned.data.signature = sign(101, b"something else");
    unsigned.proof = deposit_proof(unsigned.data.hash_tree_root()).0;
    state.eth1_data.deposit_root = deposit_proof(unsigned.data.hash_tree_root()).1;
    let with_other_root = state.clone();
    assert_eq!(
        process_deposit(&mut state, &unsigned, &context),
        Err(TransitionError::InvalidOperation(InvalidOperation::Deposit(
            InvalidDeposit::InvalidSignature(unsigned.data.signature)
        )))
    );
    assert_eq!(state, with_other_root);
    let mut state = before.clone();
    let mut broken = deposit.clone();
    broken.proof[7] = [1u8; 32];
    assert_eq!(
        process_deposit(&mut state, &broken, &context),
        Err(TransitionError::InvalidOperation(InvalidOperation::Deposit(
            InvalidDeposit::InvalidProof {
                leaf: deposit.data.hash_tree_root(),
                depth: 33,
                index: 0,
                root: state.eth1_data.deposit_root,
            }
        )))
    );
    let mut short = deposit.clone();
    short.proof.pop();
    assert!(process_deposit(&mut state, &short, &context).is_err());
    // the proof is for the place of the deposit index
    state.eth1_deposit_index = 1;
    assert!(process_deposit(&mut state, &deposit, &context).is_err());
    state.eth1_deposit_index = 0;
    assert_eq!(state, before);
    // a full registry takes no new validator
    let mut small = context;
    small.validator_registry_limit = 8;
    assert_eq!(
        process_deposit(&mut state, &deposit, &small),
        Err(TransitionError::ListFull { capacity: 8 })
    );
    assert_eq!(state, before);
}

fn sync_aggregate_for(state: &BeaconState, bits: Vec<bool>, context: &Context) -> SyncAggregate {
    let previous_slot = state.slot.max(1) - 1;
    let domain = get_domain(
        state,
        DomainType::SyncCommittee,
        Some(previous_slot / context.slots_per_epoch),
        context,
    );
    let root = compute_signing_root(get_block_root_at_slot(state, previous_slot).unwrap(), domain);
    let signers: Vec<usize> = (0..bits.len()).filter(|i| bits[*i]).collect();
    SyncAggregate { sync_committee_signature: sign_together(&signers, &root), sync_committee_bits: bits }
}

#[test]
fn a_full_sync_aggregate_pays_every_member_and_the_proposer() {
    let context = Context::for_minimal();
    let mut state = attesting_state(&context);
    let aggregate = sync_aggregate_for(&state, vec![true; 32], &context);
    let proposer = get_beacon_proposer_index(&state, &context).unwrap();
    assert_eq!(process_sync_aggregate(&mut state, &aggregate, &context), Ok(()));
    // 44721 per increment, 2048 increments, two 64ths of it spread over 8 slots and 32 members
    let participant = 44_721 * 2048 * 2 / 64 / 8 / 32u64;
    assert_eq!(participant, 11_180);
    let to_proposer = participant * 8 / 56;
    assert_eq!(to_proposer, 1_597);
    for i in 0..64 {
        let mut expected = 32 * ETH;
        if i < 32 {
            expected += participant;
        }
        if i == proposer {
            expected += 32 * to_proposer;
        }
        assert_eq!(state.balances[i], expected);
    }
}

#[test]
fn members_that_did_not_sign_are_penalized() {
    let context = Context::for_minimal();
    let mut state = attesting_state(&context);
    let mut bits = vec![false; 32];
    bits[4] = true;
    bits[9] = true;
    state.balances[20] = 100;
    let aggregate = sync_aggregate_for(&state, bits, &context);
    let proposer = get_beacon_proposer_index(&state, &context).unwrap();
    assert_eq!(process_sync_aggregate(&mut state, &aggregate, &context), Ok(()));
    for i in 0..64 {
        let mut expected = if i == 20 { 100 } else { 32 * ETH };
        if i == 4 || i == 9 {
            expected += 11_180;
        } else if i < 32 {
            expected = expected.saturating_sub(11_180);
        }
        if i == proposer {
            expected += 2 * 1_597;
        }
        assert_eq!(state.balances[i], expected, "validator {i}");
    }
    assert_eq!(state.balances[20], 0);
}

#[test]
fn sync_aggregates_with_a_bad_signature_or_shape_are_rejected() {
    let context = Context::for_minimal();
    let mut state = attesting_state(&context);
    let before = state.clone();
    let good = sync_aggregate_for(&state, vec![true; 32], &context);
    let mut fewer = good.clone();
    fewer.sync_committee_bits[0] = false;
    let domain = get_domain(&state, DomainType::SyncCommittee, Some(1), &context);
    let root = compute_signing_root(state.block_roots[9], domain);
    assert_eq!(
        process_sync_aggregate(&mut state, &fewer, &context),
        Err(TransitionError::InvalidOperation(InvalidOperation::SyncAggregate(
            InvalidSyncAggregate::InvalidSignature {
                signature: good.sync_committee_signature,
                root,
            }
        )))
    );
    let mut short = good.clone();
    short.sync_committee_bits.pop();
    assert_eq!(
        process_sync_aggregate(&mut state, &short, &context),
        Err(TransitionError::InvalidOperation(InvalidOperation::SyncAggregate(
            InvalidSyncAggregate::InvalidBitsLength { expected_length: 32, length: 31 }
        )))
    );
    assert_eq!(state, before);
    // a member that is no validator
    state.current_sync_committee.public_keys[3] = public_key(500);
    let mut signers: Vec<usize> = (0..32).collect();
    signers[3] = 500;
    let mut strange = good.clone();
    strange.sync_committee_signature = sign_together(&signers, &root);
    assert_eq!(
        process_sync_aggregate(&mut state, &strange, &context),
        Err(TransitionError::InvalidOperation(InvalidOperation::SyncAggregate(
            InvalidSyncAggregate::UnknownMember { position: 3 }
        )))
    );
    // at the first slot there is no previous block root
    let mut first = genesis_state(64, &context);
    assert_eq!(
        process_sync_aggregate(&mut first, &good, &context),
        Err(TransitionError::SlotOutOfRange { requested: 0, lower_bound: 0, upper_bound: 0 })
    );
}

fn signed_exit(state: &BeaconState, index: usize, epoch: u64, context: &Context) -> SignedVoluntaryExit {
    let message = VoluntaryExit { epoch, validator_index: index };
    let domain = get_domain(state, DomainType::VoluntaryExit, Some(epoch), context);
    let root = compute_signing_root(message.hash_tree_root(), domain);
    SignedVoluntaryExit { message, signature: sign(index, &root) }
}

#[test]
fn a_voluntary_exit_sends_the_validator_to_the_exit_queue() {
    let context = Context::for_minimal();
    let mut state = genesis_state(8, &context);
    state.slot = 70 * 8;
    let exit = signed_exit(&state, 3, 70, &context);
    assert_eq!(process_voluntary_exit(&mut state, &exit, &context), Ok(()));
    assert_eq!(state.validators[3].exit_epoch, 75);
    assert_eq!(state.validators[3].withdrawable_epoch, 75 + 256);
    assert_eq!(state.validators[2].exit_epoch, FAR_FUTURE_EPOCH);
    let fault = |e| Err(TransitionError::InvalidOperation(InvalidOperation::VoluntaryExit(e)));
    assert_eq!(
        process_voluntary_exit(&mut state, &exit, &context),
        fault(InvalidVoluntaryExit::ValidatorAlreadyExited { index: 3, epoch: 75 })
    );
    let before = state.clone();
    assert_eq!(
        { let op = signed_exit(&state, 8, 70, &context); process_voluntary_exit(&mut state, &op, &context) },
        fault(InvalidVoluntaryExit::InvalidIndex(8))
    );
    assert_eq!(
        { let op = signed_exit(&state, 4, 71, &context); process_voluntary_exit(&mut state, &op, &context) },
        fault(InvalidVoluntaryExit::EarlyExit { current_epoch: 70, exit_epoch: 71 })
    );
    let mut other = signed_exit(&state, 4, 70, &context);
    other.signature = exit.signature;
    assert_eq!(
        process_voluntary_exit(&mut state, &other, &context),
        fault(InvalidVoluntaryExit::InvalidSignature(exit.signature))
    );
    state.validators[5].activation_epoch = 7;
    assert_eq!(
        { let op = signed_exit(&state, 5, 70, &context); process_voluntary_exit(&mut state, &op, &context) },
        fault(InvalidVoluntaryExit::ValidatorIsNotActiveForLongEnough {
            current_epoch: 70,
            minimum_time_active: 71,
        })
    );
    state.validators[5].activation_epoch = 71;
    assert_eq!(
        { let op = signed_exit(&state, 5, 70, &context); process_voluntary_exit(&mut state, &op, &context) },
        fault(InvalidVoluntaryExit::InactiveValidator(70))
    );
    state.validators[5].activation_epoch = 0;
    assert_eq!(state, before);
}

fn signed_header(state: &BeaconState, header: BeaconBlockHeader, context: &Context) -> SignedBeaconBlockHeader {
    let domain = get_domain(
        state,
        DomainType::BeaconProposer,
        Some(header.slot / context.slots_per_epoch),
        context,
    );
    let root = compute_signing_root(header.hash_tree_root(), domain);
    SignedBeaconBlockHeader { message: header, signature: sign(header.proposer_index, &root) }
}

fn header(slot: u64, proposer_index: usize, mark: u8) -> BeaconBlockHeader {
    BeaconBlockHeader {
        slot,
        proposer_index,
        parent_root: [mark; 32],
        state_root: [0u8; 32],
        body_root: [0u8; 32],
    }
}

#[test]
fn slashing_a_validator_moves_balance_to_the_proposer() {
    let context = Context::for_minimal();
    let mut state = attesting_state(&context);
    let proposer = get_beacon_proposer_index(&state, &context).unwrap();
    let index = (proposer + 1) % 64;
    assert_eq!(slash_validator(&mut state, index, None, &context), Ok(()));
    let v = state.validators[index];
    assert!(v.slashed);
    assert_eq!(v.exit_epoch, 1 + 1 + 4);
    assert_eq!(v.withdrawable_epoch, 6 + 256);
    assert_eq!(state.slashings[1], 32 * ETH);
    // a 64th is taken at once; a 512th goes to the proposer, who is the whistleblower too
    assert_eq!(state.balances[index], 32 * ETH - 32 * ETH / 64);
    assert_eq!(state.balances[proposer], 32 * ETH + 32 * ETH / 512);
    // with a whistleblower the proposer keeps an eighth of the reward
    let mut state = attesting_state(&context);
    let whistleblower = (proposer + 2) % 64;
    assert_eq!(slash_validator(&mut state, index, Some(whistleblower), &context), Ok(()));
    let reward = 32 * ETH / 512;
    assert_eq!(state.balances[proposer], 32 * ETH + reward / 8);
    assert_eq!(state.balances[whistleblower], 32 * ETH + reward - reward / 8);
    // a validator that exits late anyway keeps its later withdrawable epoch
    let mut state = attesting_state(&context);
    state.validators[index].exit_epoch = 1000;
    state.validators[index].withdrawable_epoch = 2000;
    assert_eq!(slash_validator(&mut state, index, None, &context), Ok(()));
    assert_eq!(state.validators[index].exit_epoch, 1000);
    assert_eq!(state.validators[index].withdrawable_epoch, 2000);
    // the proposer itself can be slashed
    let mut state = attesting_state(&context);
    assert_eq!(slash_validator(&mut state, proposer, None, &context), Ok(()));
    assert_eq!(state.balances[proposer], 32 * ETH - 32 * ETH / 64 + 32 * ETH / 512);
}

#[test]
fn a_failed_slashing_changes_nothing() {
    let context = Context::for_minimal();
    let mut state = attesting_state(&context);
    state.slashings[1] = u64::MAX - 5;
    let before = state.clone();
    assert_eq!(slash_validator(&mut state, 7, None, &context), Err(TransitionError::Overflow));
    assert_eq!(state, before);
}

#[test]
fn two_headers_for_one_slot_slash_the_proposer() {
    let context = Context::for_minimal();
    let mut state = attesting_state(&context);
    let slashing = ProposerSlashing {
        signed_header_1: signed_header(&state, header(9, 6, 1), &context),
        signed_header_2: signed_header(&state, header(9, 6, 2), &context),
    };
    let before = state.clone();
    assert_eq!(process_proposer_slashing(&mut state, &slashing, &context), Ok(()));
    assert!(state.validators[6].slashed);
    let fault = |e| Err(TransitionError::InvalidOperation(InvalidOperation::ProposerSlashing(e)));
    assert_eq!(
        process_proposer_slashing(&mut state, &slashing, &context),
        fault(InvalidProposerSlashing::ProposerIsNotSlashable(6))
    );
    let mut state = before.clone();
    let with = |a: SignedBeaconBlockHeader, b: SignedBeaconBlockHeader| ProposerSlashing {
        signed_header_1: a,
        signed_header_2: b,
    };
    let one = slashing.signed_header_1;
    let two = slashing.signed_header_2;
    assert_eq!(
        { let op = with(one, signed_header(&state, header(8, 6, 2), &context)); process_proposer_slashing(&mut state, &op, &context) },
        fault(InvalidProposerSlashing::SlotMismatch(9, 8))
    );
    assert_eq!(
        { let op = with(one, signed_header(&state, header(9, 7, 2), &context)); process_proposer_slashing(&mut state, &op, &context) },
        fault(InvalidProposerSlashing::ProposerMismatch(6, 7))
    );
    assert_eq!(
        process_proposer_slashing(&mut state, &with(one, one), &context),
        fault(InvalidProposerSlashing::HeadersAreEqual)
    );
    let far = SignedBeaconBlockHeader { message: header(9, 64, 1), signature: [0; 96] };
    let far_too = SignedBeaconBlockHeader { message: header(9, 64, 2), signature: [0; 96] };
    assert_eq!(
        process_proposer_slashing(&mut state, &with(far, far_too), &context),
        fault(InvalidProposerSlashing::InvalidIndex(64))
    );
    let mut forged = two;
    forged.signature = one.signature;
    assert_eq!(
        process_proposer_slashing(&mut state, &with(one, forged), &context),
        fault(InvalidProposerSlashing::InvalidSignature(one.signature))
    );
    let mut other = one;
    other.signature = two.signature;
    assert_eq!(
        process_proposer_slashing(&mut state, &with(other, two), &context),
        fault(InvalidProposerSlashing::InvalidSignature(two.signature))
    );
    assert_eq!(state, before);
}

fn indexed(state: &BeaconState, indices: Vec<usize>, data: AttestationData, context: &Context) -> IndexedAttestation {
    let domain = get_domain(state, DomainType::BeaconAttester, Some(data.target.epoch), context);
    let root = compute_signing_root(data.hash_tree_root(), domain);
    IndexedAttestation { signature: sign_together(&indices, &root), attesting_indices: indices, data }
}

#[test]
fn validators_that_voted_twice_are_slashed() {
    let context = Context::for_minimal();
    let mut state = attesting_state(&context);
    let first = attestation_data(&state, 9, &context);
    let mut second = first;
    second.beacon_block_root = [0xcc; 32];
    state.validators[12].slashed = true;
    let slashing = AttesterSlashing {
        attestation_1: indexed(&state, vec![3, 5, 12, 20], first, &context),
        attestation_2: indexed(&state, vec![5, 12, 20, 30], second, &context),
    };
    let before = state.clone();
    assert_eq!(process_attester_slashing(&mut state, &slashing, &context), Ok(()));
    assert!(state.validators[5].slashed);
    assert!(state.validators[20].slashed);
    assert!(!state.validators[3].slashed);
    assert!(!state.validators[30].slashed);
    assert_eq!(state.validators[12], before.validators[12]);
    assert_eq!(state.slashings[1], 64 * ETH);
    assert!(state.is_well_formed(&context));
    let fault = |e| Err(TransitionError::InvalidOperation(InvalidOperation::AttesterSlashing(e)));
    let unchanged = state.clone();
    assert_eq!(
        process_attester_slashing(&mut state, &slashing, &context),
        fault(InvalidAttesterSlashing::NoSlashings)
    );
    assert_eq!(state, unchanged);
    let mut state = before.clone();
    let same = AttesterSlashing {
        attestation_1: slashing.attestation_1.clone(),
        attestation_2: slashing.attestation_1.clone(),
    };
    assert_eq!(
        process_attester_slashing(&mut state, &same, &context),
        fault(InvalidAttesterSlashing::NotSlashable)
    );
    let mut unsigned = slashing.clone();
    unsigned.attestation_2.signature = slashing.attestation_1.signature;
    assert_eq!(
        process_attester_slashing(&mut state, &unsigned, &context),
        Err(TransitionError::InvalidOperation(InvalidOperation::IndexedAttestation(
            InvalidIndexedAttestation::InvalidSignature(slashing.attestation_1.signature)
        )))
    );
    assert_eq!(state, before);
}

#[test]
fn a_surrounding_vote_is_slashable() {
    let context = Context::for_minimal();
    let mut state = attesting_state(&context);
    state.slot = 40;
    let mut outer = attestation_data(&state, 33, &context);
    outer.source.epoch = 1;
    outer.target.epoch = 4;
    let mut inner = outer;
    inner.source.epoch = 2;
    inner.target.epoch = 3;
    let slashing = AttesterSlashing {
        attestation_1: indexed(&state, vec![8], outer, &context),
        attestation_2: indexed(&state, vec![8], inner, &context),
    };
    assert_eq!(process_attester_slashing(&mut state, &slashing, &context), Ok(()));
    assert!(state.validators[8].slashed);
    // the other way round the first does not surround the second
    let mut state = attesting_state(&context);
    state.slot = 40;
    let reversed = AttesterSlashing {
        attestation_1: slashing.attestation_2.clone(),
        attestation_2: slashing.attestation_1.clone(),
    };
    assert_eq!(
        process_attester_slashing(&mut state, &reversed, &context),
        Err(TransitionError::InvalidOperation(InvalidOperation::AttesterSlashing(
            InvalidAttesterSlashing::NotSlashable
        )))
    );
}

fn empty_body(state: &BeaconState) -> BeaconBlockBody {
    BeaconBlockBody {
        randao_reveal: [0u8; 96],
        eth1_data: state.eth1_data,
        graffiti: [0x67; 32],
        proposer_slashings: vec![],
        attester_slashings: vec![],
        attestations: vec![],
        deposits: vec![],
        voluntary_exits: vec![],
        sync_aggregate: SyncAggregate { sync_committee_bits: vec![], sync_committee_signature: [0u8; 96] },
    }
}

#[test]
fn a_block_may_not_carry_more_operations_than_allowed() {
    let context = Context::for_minimal();
    let mut state = attesting_state(&context);
    let before = state.clone();
    let exit = signed_exit(&state, 1, 0, &context);
    let mut body = empty_body(&state);
    body.voluntary_exits = vec![exit; 17];
    assert_eq!(
        process_operations(&mut state, &body, &context),
        Err(TransitionError::TooManyOperations {
            kind: OperationKind::VoluntaryExit,
            count: 17,
            limit: 16,
        })
    );
    let mut body = empty_body(&state);
    let data = attestation_data(&state, 9, &context);
    body.attester_slashings = vec![
        AttesterSlashing {
            attestation_1: IndexedAttestation { attesting_indices: vec![], data, signature: [0; 96] },
            attestation_2: IndexedAttestation { attesting_indices: vec![], data, signature: [0; 96] },
        };
        3
    ];
    assert_eq!(
        process_operations(&mut state, &body, &context),
        Err(TransitionError::TooManyOperations {
            kind: OperationKind::AttesterSlashing,
            count: 3,
            limit: 2,
        })
    );
    assert_eq!(state, before);
}

#[test]
fn a_block_must_carry_the_deposits_that_are_due() {
    let context = Context::for_minimal();
    let mut state = attesting_state(&context);
    state.eth1_data.deposit_count = 3;
    state.eth1_deposit_index = 1;
    let body = empty_body(&state);
    assert_eq!(
        process_operations(&mut state, &body, &context),
        Err(TransitionError::DepositCountMismatch { outstanding: 2, provided: 0 })
    );
    state.eth1_data.deposit_count = 100;
    assert_eq!(
        process_operations(&mut state, &body, &context),
        Err(TransitionError::DepositCountMismatch { outstanding: 16, provided: 0 })
    );
    state.eth1_data.deposit_count = 0;
    assert_eq!(process_operations(&mut state, &body, &context), Err(TransitionError::Underflow));
    state.eth1_data.deposit_count = 1;
    assert_eq!(process_operations(&mut state, &body, &context), Ok(()));
}

#[test]
fn operations_are_all_applied_or_none() {
    let context = Context::for_minimal();
    let mut state = attesting_state(&context);
    let data = attestation_data(&state, 9, &context);
    let mut body = empty_body(&state);
    body.attestations.push(signed_attestation(&state, data, &context));
    body.voluntary_exits.push(signed_exit(&state, 1, 5, &context));
    let before = state.clone();
    assert_eq!(
        process_operations(&mut state, &body, &context),
        Err(TransitionError::InvalidOperation(InvalidOperation::VoluntaryExit(
            InvalidVoluntaryExit::EarlyExit { current_epoch: 1, exit_epoch: 5 }
        )))
    );
    assert_eq!(state, before);
    body.voluntary_exits.clear();
    body.proposer_slashings.push(ProposerSlashing {
        signed_header_1: signed_header(&state, header(9, 6, 1), &context),
        signed_header_2: signed_header(&state, header(9, 6, 2), &context),
    });
    assert_eq!(process_operations(&mut state, &body, &context), Ok(()));
    assert!(state.validators[6].slashed);
    assert_ne!(state.current_epoch_participation, before.current_epoch_participation);
}

#[test]
fn eth1_votes_are_counted() {
    let context = Context::for_minimal();
    let mut state = genesis_state(4, &context);
    let vote = Eth1Data { deposit_root: [4u8; 32], deposit_count: 9, block_hash: [5u8; 32] };
    let other = Eth1Data { deposit_root: [4u8; 32], deposit_count: 9, block_hash: [6u8; 32] };
    let mut body = empty_body(&state);
    let initial = state.eth1_data;
    // the voting period holds 32 votes: the 17th for one vote decides
    for i in 0..31 {
        body.eth1_data = if i % 2 == 0 { vote } else { other };
        assert_eq!(process_eth1_data(&mut state, &body, &context), Ok(()));
        assert_eq!(state.eth1_data_votes.len(), i + 1);
        assert_eq!(state.eth1_data, initial, "after {} votes", i + 1);
    }
    body.eth1_data = vote;
    assert_eq!(process_eth1_data(&mut state, &body, &context), Ok(()));
    assert_eq!(state.eth1_data, vote);
    let before = state.clone();
    assert_eq!(
        process_eth1_data(&mut state, &body, &context),
        Err(TransitionError::InvalidEth1Vote { votes: 32, capacity: 32 })
    );
    assert_eq!(state, before);
}

fn epoch_root(epoch: u64) -> [u8; 32] {
    let mut root = [0u8; 32];
    root[..8].copy_from_slice(&epoch.to_le_bytes());
    root
}

fn randao_reveal(state: &BeaconState, proposer: usize, context: &Context) -> [u8; 96] {
    let epoch = state.slot / context.slots_per_epoch;
    let domain = get_domain(state, DomainType::Randao, Some(epoch), context);
    sign(proposer, &compute_signing_root(epoch_root(epoch), domain))
}

#[test]
fn the_randao_reveal_is_mixed_in() {
    let context = Context::for_minimal();
    let mut state = attesting_state(&context);
    state.randao_mixes[1] = [0x0f; 32];
    let proposer = get_beacon_proposer_index(&state, &context).unwrap();
    let mut body = empty_body(&state);
    body.randao_reveal = randao_reveal(&state, proposer, &context);
    let before = state.clone();
    assert_eq!(process_randao(&mut state, &body, &context), Ok(()));
    let digest = hash(&body.randao_reveal);
    for i in 0..32 {
        assert_eq!(state.randao_mixes[1][i], 0x0f ^ digest[i]);
    }
    assert_eq!(state.randao_mixes[0], before.randao_mixes[0]);
    let mut state = before.clone();
    body.randao_reveal = randao_reveal(&state, (proposer + 1) % 64, &context);
    assert_eq!(
        process_randao(&mut state, &body, &context),
        Err(TransitionError::InvalidRandao(body.randao_reveal))
    );
    assert_eq!(state, before);
}

/// A block for the slot after the state's that every check accepts.
fn next_block(state: &BeaconState, context: &Context) -> SignedBeaconBlock {
    let mut advanced = state.clone();
    process_slots(&mut advanced, state.slot + 1, context).unwrap();
    let proposer = get_beacon_proposer_index(&advanced, context).unwrap();
    let mut body = empty_body(&advanced);
    body.randao_reveal = randao_reveal(&advanced, proposer, context);
    body.sync_aggregate = sync_aggregate_for(&advanced, vec![true; 32], context);
    let mut block = BeaconBlock {
        slot: advanced.slot,
        proposer_index: proposer,
        parent_root: advanced.latest_block_header.hash_tree_root(),
        state_root: [0u8; 32],
        body,
    };
    let mut after = advanced.clone();
    process_block(&mut after, &block, context).unwrap();
    block.state_root = after.hash_tree_root(context).unwrap();
    let domain = get_domain(&advanced, DomainType::BeaconProposer, None, context);
    let header = block.header(context).unwrap();
    let signature = sign(proposer, &compute_signing_root(header.hash_tree_root(), domain));
    SignedBeaconBlock { message: block, signature }
}

#[test]
fn a_chain_of_valid_blocks_is_applied() {
    let context = Context::for_minimal();
    let mut state = genesis_state(64, &context);
    for slot in 1..=3u64 {
        let block = next_block(&state, &context);
        assert_eq!(apply_block(&mut state, &block, &context, true), Ok(()));
        assert_eq!(state.slot, slot);
        assert_eq!(state.latest_block_header.slot, slot);
        assert_eq!(state.latest_block_header.state_root, [0u8; 32]);
        assert_eq!(state.hash_tree_root(&context), Ok(block.message.state_root));
        assert!(state.is_well_formed(&context));
    }
    // the parent of each block is the block before it
    assert_eq!(state.block_roots[2], state.latest_block_header.parent_root);
    assert!(state.balances.iter().all(|b| *b >= 32 * ETH));
}

#[test]
fn a_block_with_a_wrong_state_root_or_signature_changes_nothing() {
    let context = Context::for_minimal();
    let mut state = genesis_state(64, &context);
    let before = state.clone();
    let good = next_block(&state, &context);
    let mut wrong = good.clone();
    wrong.message.state_root = [0x55; 32];
    assert_eq!(
        apply_block(&mut state, &wrong, &context, false),
        Err(TransitionError::InvalidStateRoot {
            expected: good.message.state_root,
            declared: [0x55; 32],
        })
    );
    assert_eq!(state, before);
    // with the state root changed the signature is not the block's any more
    assert_eq!(
        apply_block(&mut state, &wrong, &context, true),
        Err(TransitionError::InvalidBlockSignature(good.signature))
    );
    assert_eq!(state, before);
    let mut unsigned = good.clone();
    unsigned.signature = [0u8; 96];
    assert_eq!(
        apply_block(&mut state, &unsigned, &context, true),
        Err(TransitionError::InvalidBlockSignature([0u8; 96]))
    );
    assert_eq!(state, before);
    // without the check of signatures of blocks the block is fine
    assert_eq!(apply_block(&mut state, &unsigned, &context, false), Ok(()));
    assert_eq!(state.slot, 1);
    // a block for a slot that is not ahead
    let after = state.clone();
    assert_eq!(
        apply_block(&mut state, &good, &context, true),
        Err(TransitionError::TransitionToPreviousSlot { requested: 1, current: 1 })
    );
    assert_eq!(state, after);
    let mut advanced = before.clone();
    process_slots(&mut advanced, 1, &context).unwrap();
    assert_eq!(verify_block_signature(&advanced, &good, &context), Ok(()));
    let mut nobody = good.clone();
    nobody.message.proposer_index = 64;
    assert_eq!(
        verify_block_signature(&advanced, &nobody, &context),
        Err(TransitionError::OutOfBounds { index: 64, len: 64 })
    );
}

#[test]
fn block_headers_are_checked() {
    let context = Context::for_minimal();
    let genesis = genesis_state(64, &context);
    let good = next_block(&genesis, &context).message;
    let mut state = genesis.clone();
    process_slots(&mut state, 1, &context).unwrap();
    let before = state.clone();
    let proposer = good.proposer_index;
    let fault = |e| Err(TransitionError::InvalidHeader(e));
    let mut block = good.clone();
    block.slot = 2;
    assert_eq!(
        process_block_header(&mut state, &block, &context),
        fault(InvalidBeaconBlockHeader::StateSlotMismatch { state_slot: 1, block_slot: 2 })
    );
    let mut block = good.clone();
    block.proposer_index = (proposer + 1) % 64;
    assert_eq!(
        process_block_header(&mut state, &block, &context),
        fault(InvalidBeaconBlockHeader::ProposerIndexMismatch {
            block_proposer_index: (proposer + 1) % 64,
            proposer_index: proposer,
        })
    );
    let mut block = good.clone();
    block.parent_root = [0x12; 32];
    assert_eq!(
        process_block_header(&mut state, &block, &context),
        fault(InvalidBeaconBlockHeader::ParentBlockRootMismatch {
            expected: good.parent_root,
            provided: [0x12; 32],
        })
    );
    state.latest_block_header.slot = 1;
    assert_eq!(
        process_block_header(&mut state, &good, &context),
        fault(InvalidBeaconBlockHeader::OlderThanLatestBlockHeader {
            block_slot: 1,
            latest_block_header_slot: 1,
        })
    );
    state.latest_block_header.slot = 0;
    state.validators[proposer].slashed = true;
    assert_eq!(
        process_block_header(&mut state, &good, &context),
        fault(InvalidBeaconBlockHeader::ProposerSlashed(proposer))
    );
    state.validators[proposer].slashed = false;
    assert_eq!(state, before);
    assert_eq!(process_block_header(&mut state, &good, &context), Ok(()));
    assert_eq!(
        state.latest_block_header,
        BeaconBlockHeader {
            slot: 1,
            proposer_index: proposer,
            parent_root: good.parent_root,
            state_root: [0u8; 32],
            body_root: good.body.hash_tree_root(&context).unwrap(),
        }
    );
}

#[test]
fn a_block_that_fails_late_leaves_no_trace() {
    let context = Context::for_minimal();
    let genesis = genesis_state(64, &context);
    let mut block = next_block(&genesis, &context).message;
    block.body.sync_aggregate.sync_committee_bits[7] = false;
    let mut state = genesis.clone();
    process_slots(&mut state, 1, &context).unwrap();
    let before = state.clone();
    assert!(matches!(
        process_block(&mut state, &block, &context),
        Err(TransitionError::InvalidOperation(InvalidOperation::SyncAggregate(
            InvalidSyncAggregate::InvalidSignature { .. }
        )))
    ));
    assert_eq!(state, before);
}

#[test]
fn the_transition_with_all_checks_needs_the_signature() {
    let context = Context::for_minimal();
    let mut state = genesis_state(64, &context);
    let before = state.clone();
    let good = next_block(&state, &context);
    let mut unsigned = good.clone();
    unsigned.signature = [1u8; 96];
    assert_eq!(
        state_transition(&mut state, &unsigned, &context),
        Err(TransitionError::InvalidBlockSignature([1u8; 96]))
    );
    assert_eq!(state, before);
    assert_eq!(state_transition(&mut state, &good, &context), Ok(()));
    assert_eq!(state.slot, 1);
    // a block two slots on passes an empty slot
    let mut skipped = state.clone();
    process_slots(&mut skipped, 2, &context).unwrap();
    let later = next_block(&skipped, &context);
    assert_eq!(later.message.slot, 3);
    assert_eq!(state_transition(&mut state, &later, &context), Ok(()));
    assert_eq!(state.slot, 3);
    assert_eq!(state.block_roots[1], state.block_roots[2]);
    assert_ne!(state.state_roots[1], state.state_roots[2]);
}
