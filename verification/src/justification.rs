//! Justification and finalization of checkpoints.

use vstd::prelude::*;
use crate::context::Context;
use crate::error::TransitionError;
use crate::helpers::{
    block_root, current_epoch, get_block_root, get_current_epoch, get_previous_epoch,
    get_total_active_balance, get_total_balance, get_unslashed_participating_indices,
    previous_epoch, total_active_balance, total_balance, unslashed_participating_indices,
};
use crate::primitives::{
    wide_mul, Epoch, Gwei, GENESIS_EPOCH, TIMELY_TARGET_FLAG_INDEX,
};
use crate::state::{registry_moves_on, follows, wf, BeaconState, Checkpoint, StateView};

verus! {

/// Whether `target_balance` is at least two thirds of `total_balance`.
pub open spec fn supermajority(target_balance: Gwei, total_balance: Gwei) -> bool {
    target_balance * 3 >= total_balance * 2
}

fn is_supermajority(target_balance: Gwei, total_balance: Gwei) -> (r: bool)
    ensures
        r == supermajority(target_balance, total_balance),
{
    wide_mul(target_balance, 3) >= wide_mul(total_balance, 2)
}

/// The justification bits moved up by one epoch: bit 0 is clear, and what
/// was bit 3 is gone.
pub open spec fn shifted_bits(bits: u8) -> u8 {
    (bits & 0x07) << 1
}

/// The justified checkpoint and the bits after one epoch was weighed: where
/// `target_balance` is a supermajority the epoch's checkpoint is justified
/// and its bit set, and nothing changes otherwise.
pub open spec fn justified(
    s: StateView,
    justified_checkpoint: Checkpoint,
    bits: u8,
    target_balance: Gwei,
    total_balance: Gwei,
    epoch: Epoch,
    bit: u8,
    c: Context,
) -> Result<(Checkpoint, u8), TransitionError> {
    if supermajority(target_balance, total_balance) {
        match block_root(s, epoch, c) {
            Ok(root) => Ok((Checkpoint { epoch, root }, bits | bit)),
            Err(e) => Err(e),
        }
    } else {
        Ok((justified_checkpoint, bits))
    }
}

/// The finalized checkpoint after the bits were updated. The first rule
/// that matches decides, the most specific first: bits 1 to 3 with the old
/// previous justified checkpoint three epochs back; bits 1 and 2 with it two
/// epochs back; bits 0 to 2 with the old current justified checkpoint two
/// epochs back; bits 0 and 1 with it one epoch back.
pub open spec fn finalized(
    finalized_checkpoint: Checkpoint,
    old_previous_justified: Checkpoint,
    old_current_justified: Checkpoint,
    bits: u8,
    current_epoch: Epoch,
) -> Checkpoint {
    if bits & 0x0e == 0x0e && old_previous_justified.epoch + 3 == current_epoch {
        old_previous_justified
    } else if bits & 0x06 == 0x06 && old_previous_justified.epoch + 2 == current_epoch {
        old_previous_justified
    } else if bits & 0x07 == 0x07 && old_current_justified.epoch + 2 == current_epoch {
        old_current_justified
    } else if bits & 0x03 == 0x03 && old_current_justified.epoch + 1 == current_epoch {
        old_current_justified
    } else {
        finalized_checkpoint
    }
}

/// The state after the target balances of the previous and the current
/// epoch were weighed against the total active balance.
pub open spec fn weighed(
    s: StateView,
    total_active_balance: Gwei,
    previous_epoch_target_balance: Gwei,
    current_epoch_target_balance: Gwei,
    c: Context,
) -> Result<StateView, TransitionError> {
    let old_previous_justified = s.previous_justified_checkpoint;
    let old_current_justified = s.current_justified_checkpoint;
    match justified(
        s,
        old_current_justified,
        shifted_bits(s.justification_bits),
        previous_epoch_target_balance,
        total_active_balance,
        previous_epoch(s, c),
        2,
        c,
    ) {
        Err(e) => Err(e),
        Ok((after_previous, bits_after_previous)) => match justified(
            s,
            after_previous,
            bits_after_previous,
            current_epoch_target_balance,
            total_active_balance,
            current_epoch(s, c),
            1,
            c,
        ) {
            Err(e) => Err(e),
            Ok((after_current, bits)) => Ok(
                StateView {
                    previous_justified_checkpoint: old_current_justified,
                    current_justified_checkpoint: after_current,
                    justification_bits: bits,
                    finalized_checkpoint: finalized(
                        s.finalized_checkpoint,
                        old_previous_justified,
                        old_current_justified,
                        bits,
                        current_epoch(s, c),
                    ),
                    ..s
                },
            ),
        },
    }
}

fn justify(
    state: &BeaconState,
    justified_checkpoint: Checkpoint,
    bits: u8,
    target_balance: Gwei,
    total_balance: Gwei,
    epoch: Epoch,
    bit: u8,
    context: &Context,
) -> (r: Result<(Checkpoint, u8), TransitionError>)
    requires
        context.valid(),
        wf(state@, *context),
        bits < 16,
        bit == 1 || bit == 2,
    ensures
        r == justified(
            state@,
            justified_checkpoint,
            bits,
            target_balance,
            total_balance,
            epoch,
            bit,
            *context,
        ),
        r matches Ok(p) ==> p.1 < 16,
{
    if is_supermajority(target_balance, total_balance) {
        let root = get_block_root(state, epoch, context)?;
        assert(bits | bit < 16) by (bit_vector)
            requires
                bits < 16,
                bit == 1 || bit == 2,
        ;
        Ok((Checkpoint { epoch, root }, bits | bit))
    } else {
        Ok((justified_checkpoint, bits))
    }
}

fn finalize(
    finalized_checkpoint: Checkpoint,
    old_previous_justified: Checkpoint,
    old_current_justified: Checkpoint,
    bits: u8,
    current_epoch: Epoch,
) -> (r: Checkpoint)
    ensures
        r == finalized(
            finalized_checkpoint,
            old_previous_justified,
            old_current_justified,
            bits,
            current_epoch,
        ),
{
    let now = current_epoch as u128;
    if bits & 0x0e == 0x0e && old_previous_justified.epoch as u128 + 3 == now {
        old_previous_justified
    } else if bits & 0x06 == 0x06 && old_previous_justified.epoch as u128 + 2 == now {
        old_previous_justified
    } else if bits & 0x07 == 0x07 && old_current_justified.epoch as u128 + 2 == now {
        old_current_justified
    } else if bits & 0x03 == 0x03 && old_current_justified.epoch as u128 + 1 == now {
        old_current_justified
    } else {
        finalized_checkpoint
    }
}

/// Justifies and finalizes checkpoints by the given balances.
pub fn weigh_justification_and_finalization(
    state: &mut BeaconState,
    total_active_balance: Gwei,
    previous_epoch_target_balance: Gwei,
    current_epoch_target_balance: Gwei,
    context: &Context,
) -> (r: Result<(), TransitionError>)
    requires
        context.valid(),
        wf(old(state)@, *context),
    ensures
        follows(
            old(state)@,
            final(state)@,
            r,
            weighed(
                old(state)@,
                total_active_balance,
                previous_epoch_target_balance,
                current_epoch_target_balance,
                *context,
            ),
        ),
        wf(final(state)@, *context),
        final(state)@.justification_bits < 16,
        final(state)@.current_epoch_participation == old(state)@.current_epoch_participation,
        registry_moves_on(old(state)@, final(state)@),
{
    let previous_epoch = get_previous_epoch(state, context);
    let current_epoch = get_current_epoch(state, context);
    let old_previous_justified = state.previous_justified_checkpoint;
    let old_current_justified = state.current_justified_checkpoint;
    let old_bits = state.justification_bits;
    let shifted = (old_bits & 0x07) << 1;
    assert(shifted < 16) by (bit_vector)
        requires
            shifted == (old_bits & 0x07) << 1,
    ;
    let (after_previous, bits_after_previous) = justify(
        state,
        old_current_justified,
        shifted,
        previous_epoch_target_balance,
        total_active_balance,
        previous_epoch,
        2,
        context,
    )?;
    let (after_current, bits) = justify(
        state,
        after_previous,
        bits_after_previous,
        current_epoch_target_balance,
        total_active_balance,
        current_epoch,
        1,
        context,
    )?;
    let finalized_checkpoint = finalize(
        state.finalized_checkpoint,
        old_previous_justified,
        old_current_justified,
        bits,
        current_epoch,
    );
    state.previous_justified_checkpoint = old_current_justified;
    state.current_justified_checkpoint = after_current;
    state.justification_bits = bits;
    state.finalized_checkpoint = finalized_checkpoint;
    Ok(())
}

/// The state after justification and finalization. Nothing happens in the
/// first two epochs. After them the balance of the unslashed validators with
/// a timely target vote is taken for the previous and for the current
/// epoch, and both are weighed against the total active balance.
pub open spec fn justification_and_finalization(s: StateView, c: Context) -> Result<
    StateView,
    TransitionError,
> {
    if current_epoch(s, c) <= GENESIS_EPOCH + 1 {
        Ok(s)
    } else {
        match total_active_balance(s, c) {
            Err(e) => Err(e),
            Ok(total) => match total_balance(
                s,
                unslashed_participating_indices(
                    s,
                    TIMELY_TARGET_FLAG_INDEX as int,
                    previous_epoch(s, c),
                    c,
                ),
                c,
            ) {
                Err(e) => Err(e),
                Ok(previous_target) => match total_balance(
                    s,
                    unslashed_participating_indices(
                        s,
                        TIMELY_TARGET_FLAG_INDEX as int,
                        current_epoch(s, c),
                        c,
                    ),
                    c,
                ) {
                    Err(e) => Err(e),
                    Ok(current_target) => weighed(s, total, previous_target, current_target, c),
                },
            },
        }
    }
}

/// Justifies and finalizes checkpoints by the participation of the last two epochs.
pub fn process_justification_and_finalization(state: &mut BeaconState, context: &Context) -> (r:
    Result<(), TransitionError>)
    requires
        context.valid(),
        wf(old(state)@, *context),
    ensures
        follows(
            old(state)@,
            final(state)@,
            r,
            justification_and_finalization(old(state)@, *context),
        ),
        wf(final(state)@, *context),
        final(state)@.justification_bits < 16,
        final(state)@.current_epoch_participation == old(state)@.current_epoch_participation,
        registry_moves_on(old(state)@, final(state)@),
{
    let current_epoch = get_current_epoch(state, context);
    if current_epoch <= GENESIS_EPOCH + 1 {
        return Ok(());
    }
    let previous_epoch = get_previous_epoch(state, context);
    let previous_indices = get_unslashed_participating_indices(
        state,
        TIMELY_TARGET_FLAG_INDEX,
        previous_epoch,
        context,
    );
    let current_indices = get_unslashed_participating_indices(
        state,
        TIMELY_TARGET_FLAG_INDEX,
        current_epoch,
        context,
    );
    let total_active_balance = get_total_active_balance(state, context)?;
    let previous_target_balance = get_total_balance(state, &previous_indices, context)?;
    let current_target_balance = get_total_balance(state, &current_indices, context)?;
    weigh_justification_and_finalization(
        state,
        total_active_balance,
        previous_target_balance,
        current_target_balance,
        context,
    )
}

/// Whether the three checkpoints of a state are in order: what is finalized
/// is no later than what was justified before, and that no later than what
/// is justified now.
pub open spec fn checkpoints_ordered(s: StateView) -> bool {
    s.finalized_checkpoint.epoch <= s.previous_justified_checkpoint.epoch
        && s.previous_justified_checkpoint.epoch <= s.current_justified_checkpoint.epoch
}

/// Weighing never moves the finalized checkpoint back, leaves the
/// justification bitfield with four bits, and keeps the checkpoints in
/// order, where they were in order and the justified checkpoint is not
/// ahead of the previous epoch.
pub proof fn lemma_weighing_keeps_finality(
    s: StateView,
    total_active_balance: Gwei,
    previous_epoch_target_balance: Gwei,
    current_epoch_target_balance: Gwei,
    c: Context,
)
    requires
        c.valid(),
        checkpoints_ordered(s),
        s.current_justified_checkpoint.epoch <= previous_epoch(s, c),
        weighed(
            s,
            total_active_balance,
            previous_epoch_target_balance,
            current_epoch_target_balance,
            c,
        ) is Ok,
    ensures
        ({
            let t = weighed(
                s,
                total_active_balance,
                previous_epoch_target_balance,
                current_epoch_target_balance,
                c,
            )->Ok_0;
            &&& t.finalized_checkpoint.epoch >= s.finalized_checkpoint.epoch
            &&& checkpoints_ordered(t)
            &&& t.current_justified_checkpoint.epoch <= current_epoch(t, c)
            &&& t.slot == s.slot
        }),
{
}

/// Justification and finalization never move the finalized checkpoint
/// back, and keep the checkpoints in order, where they were in order and the
/// justified checkpoint is not ahead of the previous epoch.
pub proof fn lemma_justification_keeps_finality(s: StateView, c: Context)
    requires
        c.valid(),
        checkpoints_ordered(s),
        s.current_justified_checkpoint.epoch <= previous_epoch(s, c),
        justification_and_finalization(s, c) is Ok,
    ensures
        ({
            let t = justification_and_finalization(s, c)->Ok_0;
            &&& t.finalized_checkpoint.epoch >= s.finalized_checkpoint.epoch
            &&& checkpoints_ordered(t)
            &&& t.current_justified_checkpoint.epoch <= current_epoch(t, c)
            &&& t.slot == s.slot
        }),
{
}

} // verus!
