//! The transition from one state to the next by a signed block.

use vstd::prelude::*;
use crate::attestations::{domain_array, lemma_domain_array};
use crate::block_processing::{block_processed, process_block};
use crate::context::Context;
use crate::crypto::{signature_valid, verify_signature};
use crate::domains::{compute_signing_root, get_domain, signing_root, state_domain, DomainType};
use crate::epoch_processing::finality_settled;
use crate::error::TransitionError;
use crate::operations::SignedBeaconBlock;
use crate::primitives::{bytes_equal, Root};
use crate::roots::{block_header, state_root};
use crate::slot_processing::{process_slots, slots_processed};
use crate::ssz::header_root;
use crate::state::{registry_moves_on, follows, wf, BeaconState, StateView};

verus! {

/// The reason for which the signature of a block is not accepted, if any:
/// the block names no validator as its proposer, has no root, or does not
/// carry the signature of its proposer over its root under the proposer
/// domain of the current epoch.
pub open spec fn block_signature_fault(s: StateView, signed: SignedBeaconBlock, c: Context) -> Option<
    TransitionError,
> {
    if signed.message.proposer_index >= s.validators.len() {
        Some(
            TransitionError::OutOfBounds {
                index: signed.message.proposer_index,
                len: s.validators.len() as usize,
            },
        )
    } else {
        match block_header(signed.message, c) {
            Err(e) => Some(e),
            Ok(header) => if !signature_valid(
                s.validators[signed.message.proposer_index as int].public_key,
                signing_root(
                    header_root(header),
                    domain_array(state_domain(s, DomainType::BeaconProposer, None, c)),
                )@,
                signed.signature,
            ) {
                Some(TransitionError::InvalidBlockSignature(signed.signature))
            } else {
                None
            },
        }
    }
}

/// Checks the signature of a block against the key of its proposer.
pub fn verify_block_signature(
    state: &BeaconState,
    signed_block: &SignedBeaconBlock,
    context: &Context,
) -> (r: Result<(), TransitionError>)
    requires
        context.valid(),
    ensures
        match block_signature_fault(state@, *signed_block, *context) {
            Some(e) => r == Err::<(), TransitionError>(e),
            None => r is Ok,
        },
{
    let index = signed_block.message.proposer_index;
    if index >= state.validators.len() {
        return Err(TransitionError::OutOfBounds { index, len: state.validators.len() });
    }
    let header = signed_block.message.header(context)?;
    let domain = get_domain(state, DomainType::BeaconProposer, None, context);
    proof {
        lemma_domain_array(domain);
    }
    let root = compute_signing_root(header.hash_tree_root(), domain);
    if !verify_signature(
        &state.validators[index].public_key,
        root.as_slice(),
        &signed_block.signature,
    ) {
        return Err(TransitionError::InvalidBlockSignature(signed_block.signature));
    }
    Ok(())
}

/// The state that a block leads to, where it has the root that the block
/// declares.
pub open spec fn confirmed(s: StateView, declared: Root, c: Context) -> Result<
    StateView,
    TransitionError,
> {
    match state_root(s, c) {
        Err(e) => Err(e),
        Ok(root) => if declared != root {
            Err(TransitionError::InvalidStateRoot { expected: root, declared })
        } else {
            Ok(s)
        },
    }
}

/// The state after a signed block was applied: the state is advanced to the
/// slot of the block, the signature of the block is verified where that is
/// asked for, the block is processed, and the state that results has the
/// root that the block declares.
pub open spec fn block_applied(
    s: StateView,
    signed: SignedBeaconBlock,
    c: Context,
    verify_signatures: bool,
) -> Result<StateView, TransitionError> {
    match slots_processed(s, signed.message.slot, c) {
        Err(e) => Err(e),
        Ok(s1) => match (if verify_signatures {
            block_signature_fault(s1, signed, c)
        } else {
            None
        }) {
            Some(e) => Err(e),
            None => match block_processed(s1, signed.message, c) {
                Err(e) => Err(e),
                Ok(s2) => confirmed(s2, signed.message.state_root, c),
            },
        },
    }
}

/// Applies a signed block to a state, or leaves the state as it was.
pub fn apply_block(
    state: &mut BeaconState,
    signed_block: &SignedBeaconBlock,
    context: &Context,
    verify_signatures: bool,
) -> (r: Result<(), TransitionError>)
    requires
        context.valid(),
        wf(old(state)@, *context),
    ensures
        follows(
            old(state)@,
            final(state)@,
            r,
            block_applied(old(state)@, *signed_block, *context, verify_signatures),
        ),
        wf(final(state)@, *context),
        final(state)@.slot >= old(state)@.slot,
        final(state)@.justification_bits < 16,
        finality_settled(old(state)@, *context) ==> finality_settled(final(state)@, *context)
            && final(state)@.finalized_checkpoint.epoch >= old(state)@.finalized_checkpoint.epoch,
        registry_moves_on(old(state)@, final(state)@),
{
    let backup = state.duplicate();
    process_slots(state, signed_block.message.slot, context)?;
    if verify_signatures {
        if let Err(e) = verify_block_signature(state, signed_block, context) {
            state.restore(backup);
            return Err(e);
        }
    }
    if let Err(e) = process_block(state, &signed_block.message, context) {
        state.restore(backup);
        return Err(e);
    }
    match state.hash_tree_root(context) {
        Err(e) => {
            state.restore(backup);
            Err(e)
        },
        Ok(root) => {
            if !bytes_equal(&signed_block.message.state_root, &root) {
                state.restore(backup);
                return Err(
                    TransitionError::InvalidStateRoot {
                        expected: root,
                        declared: signed_block.message.state_root,
                    },
                );
            }
            Ok(())
        },
    }
}

/// Applies a signed block to a state, with every signature verified.
pub fn state_transition(
    state: &mut BeaconState,
    signed_block: &SignedBeaconBlock,
    context: &Context,
) -> (r: Result<(), TransitionError>)
    requires
        context.valid(),
        wf(old(state)@, *context),
    ensures
        follows(
            old(state)@,
            final(state)@,
            r,
            block_applied(old(state)@, *signed_block, *context, true),
        ),
        wf(final(state)@, *context),
{
    apply_block(state, signed_block, context, true)
}

} // verus!
