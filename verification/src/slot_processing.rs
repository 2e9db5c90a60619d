//! The passage of slots.

use vstd::prelude::*;
use crate::context::Context;
use crate::epoch_processing::{epoch_processed, finality_settled, process_epoch};
use crate::error::TransitionError;
use crate::primitives::{
    checked_add, is_zero_bytes32, successor_is_multiple, sum_of, zero_bytes32, Slot,
};
use crate::roots::state_root;
use crate::ssz::header_root;
use crate::state::{registry_moves_on, follows, wf, BeaconBlockHeader, BeaconState, StateView};

verus! {

/// The latest block header with its state root filled in, where it had none
/// yet.
pub open spec fn completed_header(s: StateView, root: crate::primitives::Root) -> BeaconBlockHeader {
    if s.latest_block_header.state_root == zero_bytes32() {
        BeaconBlockHeader { state_root: root, ..s.latest_block_header }
    } else {
        s.latest_block_header
    }
}

/// The state after its slot was recorded: the root of the state goes into
/// the place of the slot in the buffer of state roots, where it overwrites
/// the oldest entry; the latest block header learns the state root if it had
/// none; and the root of that header goes into the place of the slot in the
/// buffer of block roots.
pub open spec fn slot_processed(s: StateView, c: Context) -> Result<StateView, TransitionError> {
    match state_root(s, c) {
        Err(e) => Err(e),
        Ok(root) => Ok(
            StateView {
                state_roots: s.state_roots.update(
                    s.slot as int % s.state_roots.len() as int,
                    root,
                ),
                latest_block_header: completed_header(s, root),
                block_roots: s.block_roots.update(
                    s.slot as int % s.block_roots.len() as int,
                    header_root(completed_header(s, root)),
                ),
                ..s
            },
        ),
    }
}

/// Records the state's slot in its history.
pub fn process_slot(state: &mut BeaconState, context: &Context) -> (r: Result<(), TransitionError>)
    requires
        context.valid(),
        wf(old(state)@, *context),
    ensures
        follows(old(state)@, final(state)@, r, slot_processed(old(state)@, *context)),
        wf(final(state)@, *context),
        crate::state::same_finality(old(state)@, final(state)@),
        crate::state::registry_moves_on(old(state)@, final(state)@),
{
    let previous_state_root = state.hash_tree_root(context)?;
    let length = state.state_roots.len();
    let position = (state.slot % (length as u64)) as usize;
    state.state_roots[position] = previous_state_root;
    if is_zero_bytes32(&state.latest_block_header.state_root) {
        state.latest_block_header.state_root = previous_state_root;
    }
    let previous_block_root = state.latest_block_header.hash_tree_root();
    state.block_roots[position] = previous_block_root;
    proof {
        let expected = slot_processed(old(state)@, *context)->Ok_0;
        assert(state@.state_roots =~= expected.state_roots);
        assert(state@.block_roots =~= expected.block_roots);
    }
    Ok(())
}

/// The state one slot on: its slot is recorded, the epoch is processed
/// where the slot is the last of its epoch, and the slot moves on by one.
pub open spec fn slot_advanced(s: StateView, c: Context) -> Result<StateView, TransitionError> {
    match slot_processed(s, c) {
        Err(e) => Err(e),
        Ok(t) => {
            let after_epoch = if (t.slot + 1) % (c.slots_per_epoch as int) == 0 {
                epoch_processed(t, c)
            } else {
                Ok(t)
            };
            match after_epoch {
                Err(e) => Err(e),
                Ok(u) => match sum_of(u.slot, 1) {
                    Err(e) => Err(e),
                    Ok(next) => Ok(StateView { slot: next, ..u }),
                },
            }
        },
    }
}

/// The state `n` slots on.
pub open spec fn advanced_by(s: StateView, n: nat, c: Context) -> Result<StateView, TransitionError>
    decreases n,
{
    if n == 0 {
        Ok(s)
    } else {
        match advanced_by(s, (n - 1) as nat, c) {
            Ok(t) => slot_advanced(t, c),
            Err(e) => Err(e),
        }
    }
}

/// The state advanced to the slot `target`, which must lie ahead of it.
pub open spec fn slots_processed(s: StateView, target: Slot, c: Context) -> Result<
    StateView,
    TransitionError,
> {
    if s.slot >= target {
        Err(TransitionError::TransitionToPreviousSlot { requested: target, current: s.slot })
    } else {
        advanced_by(s, (target - s.slot) as nat, c)
    }
}

proof fn lemma_advance_fails(s: StateView, m: nat, n: nat, c: Context)
    requires
        m <= n,
        advanced_by(s, m, c) is Err,
    ensures
        advanced_by(s, n, c) == advanced_by(s, m, c),
    decreases n,
{
    if m < n {
        lemma_advance_fails(s, m, (n - 1) as nat, c);
    }
}

/// The previous epoch of a slot is the current epoch of the slot before it
/// where the slot starts an epoch, and the previous epoch of the slot before
/// it otherwise.
proof fn lemma_epoch_of_next_slot(slot: Slot, c: Context)
    requires
        c.valid(),
        slot < u64::MAX,
    ensures
        (slot + 1) % (c.slots_per_epoch as int) == 0 ==> (slot + 1) / (c.slots_per_epoch as int)
            == slot / c.slots_per_epoch + 1,
        (slot + 1) % (c.slots_per_epoch as int) != 0 ==> (slot + 1) / (c.slots_per_epoch as int)
            == slot / c.slots_per_epoch,
{
    let d = c.slots_per_epoch as int;
    let q = slot as int / d;
    let m = slot as int % d;
    vstd::arithmetic::div_mod::lemma_fundamental_div_mod(slot as int, d);
    if m == d - 1 {
        assert(slot + 1 == (q + 1) * d + 0) by (nonlinear_arith)
            requires
                slot == d * q + m,
                m == d - 1,
        ;
        vstd::arithmetic::div_mod::lemma_fundamental_div_mod_converse(slot + 1, d, q + 1, 0);
    } else {
        assert(slot + 1 == q * d + (m + 1)) by (nonlinear_arith)
            requires
                slot == d * q + m,
        ;
        vstd::arithmetic::div_mod::lemma_fundamental_div_mod_converse(slot + 1, d, q, m + 1);
    }
}

fn advance_slot(state: &mut BeaconState, context: &Context) -> (r: Result<(), TransitionError>)
    requires
        context.valid(),
        wf(old(state)@, *context),
    ensures
        follows(old(state)@, final(state)@, r, slot_advanced(old(state)@, *context)),
        wf(final(state)@, *context),
        r is Ok ==> final(state)@.slot == old(state)@.slot + 1,
        final(state)@.justification_bits < 16,
        finality_settled(old(state)@, *context) ==> finality_settled(final(state)@, *context)
            && final(state)@.finalized_checkpoint.epoch >= old(state)@.finalized_checkpoint.epoch,
        registry_moves_on(old(state)@, final(state)@),
{
    let backup = state.duplicate();
    process_slot(state, context)?;
    if successor_is_multiple(state.slot, context.slots_per_epoch) {
        if let Err(e) = process_epoch(state, context) {
            state.restore(backup);
            return Err(e);
        }
    }
    match checked_add(state.slot, 1) {
        Ok(next) => {
            proof {
                lemma_epoch_of_next_slot(state.slot, *context);
            }
            state.slot = next;
        },
        Err(e) => {
            state.restore(backup);
            return Err(e);
        },
    }
    Ok(())
}

/// Advances the state to a later slot, epoch by epoch.
pub fn process_slots(state: &mut BeaconState, slot: Slot, context: &Context) -> (r: Result<
    (),
    TransitionError,
>)
    requires
        context.valid(),
        wf(old(state)@, *context),
    ensures
        follows(old(state)@, final(state)@, r, slots_processed(old(state)@, slot, *context)),
        wf(final(state)@, *context),
        r is Ok ==> final(state)@.slot == slot,
        final(state)@.slot >= old(state)@.slot,
        final(state)@.justification_bits < 16,
        finality_settled(old(state)@, *context) ==> finality_settled(final(state)@, *context)
            && final(state)@.finalized_checkpoint.epoch >= old(state)@.finalized_checkpoint.epoch,
        registry_moves_on(old(state)@, final(state)@),
{
    if state.slot >= slot {
        return Err(
            TransitionError::TransitionToPreviousSlot { requested: slot, current: state.slot },
        );
    }
    let backup = state.duplicate();
    let ghost start = state@.slot;
    while state.slot < slot
        invariant
            context.valid(),
            wf(state@, *context),
            wf(old(state)@, *context),
            backup@ == old(state)@,
            start == old(state)@.slot,
            start <= state@.slot <= slot,
            start < slot,
            state@.justification_bits < 16,
            registry_moves_on(old(state)@, state@),
            advanced_by(old(state)@, (state@.slot - start) as nat, *context) == Ok::<
                StateView,
                TransitionError,
            >(state@),
            finality_settled(old(state)@, *context) ==> finality_settled(state@, *context)
                && state@.finalized_checkpoint.epoch >= old(state)@.finalized_checkpoint.epoch,
        decreases slot - state.slot,
    {
        let ghost before = state@.slot;
        match advance_slot(state, context) {
            Ok(()) => {},
            Err(e) => {
                proof {
                    lemma_advance_fails(
                        old(state)@,
                        (before - start + 1) as nat,
                        (slot - start) as nat,
                        *context,
                    );
                }
                state.restore(backup);
                return Err(e);
            },
        }
    }
    Ok(())
}

} // verus!
