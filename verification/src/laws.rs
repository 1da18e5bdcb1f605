use vstd::prelude::*;

use crate::model::{ChainSwapV, ReceiveSwapV};
use crate::persist::{
    apply_chain_update, apply_receive_update, ChainSwapUpdate, ReceiveSwapUpdate,
};

verus! {

/// A chain swap record after a whole sequence of conditional updates, applied
/// in order. Each exec `try_handle_chain_swap_update` realizes exactly one
/// `apply_chain_update` step on the addressed record.
pub open spec fn apply_chain_updates(s: ChainSwapV, ops: Seq<ChainSwapUpdate>) -> ChainSwapV
    decreases ops.len(),
{
    if ops.len() == 0 {
        s
    } else {
        apply_chain_updates(apply_chain_update(s, ops.first()), ops.drop_first())
    }
}

/// A receive swap record after a whole sequence of conditional updates.
pub open spec fn apply_receive_updates(s: ReceiveSwapV, ops: Seq<ReceiveSwapUpdate>) -> ReceiveSwapV
    decreases ops.len(),
{
    if ops.len() == 0 {
        s
    } else {
        apply_receive_updates(apply_receive_update(s, ops.first()), ops.drop_first())
    }
}

/// Splitting a sequence of updates at any point composes.
pub proof fn lemma_apply_chain_updates_split(s: ChainSwapV, ops: Seq<ChainSwapUpdate>, i: int)
    requires
        0 <= i <= ops.len(),
    ensures
        apply_chain_updates(s, ops) == apply_chain_updates(
            apply_chain_updates(s, ops.take(i)),
            ops.skip(i),
        ),
    decreases i,
{
    if i > 0 {
        assert(ops.take(i).first() == ops.first());
        assert(ops.take(i).drop_first() =~= ops.drop_first().take(i - 1));
        assert(ops.skip(i) =~= ops.drop_first().skip(i - 1));
        lemma_apply_chain_updates_split(apply_chain_update(s, ops.first()), ops.drop_first(), i - 1);
    } else {
        assert(ops.take(0) =~= Seq::<ChainSwapUpdate>::empty());
        assert(ops.skip(0) =~= ops);
    }
}

pub proof fn lemma_apply_receive_updates_split(s: ReceiveSwapV, ops: Seq<ReceiveSwapUpdate>, i: int)
    requires
        0 <= i <= ops.len(),
    ensures
        apply_receive_updates(s, ops) == apply_receive_updates(
            apply_receive_updates(s, ops.take(i)),
            ops.skip(i),
        ),
    decreases i,
{
    if i > 0 {
        assert(ops.take(i).first() == ops.first());
        assert(ops.take(i).drop_first() =~= ops.drop_first().take(i - 1));
        assert(ops.skip(i) =~= ops.drop_first().skip(i - 1));
        lemma_apply_receive_updates_split(
            apply_receive_update(s, ops.first()),
            ops.drop_first(),
            i - 1,
        );
    } else {
        assert(ops.take(0) =~= Seq::<ReceiveSwapUpdate>::empty());
        assert(ops.skip(0) =~= ops);
    }
}

/// Write-once invariant: once a chain swap's `lockup_tx_id` or
/// `refund_tx_id` is non-null, no later sequence of conditional updates
/// changes it, whatever their arguments.
pub proof fn lemma_chain_write_once(s: ChainSwapV, ops: Seq<ChainSwapUpdate>)
    ensures
        s.lockup_tx_id is Some ==> apply_chain_updates(s, ops).lockup_tx_id == s.lockup_tx_id,
        s.refund_tx_id is Some ==> apply_chain_updates(s, ops).refund_tx_id == s.refund_tx_id,
    decreases ops.len(),
{
    if ops.len() > 0 {
        lemma_chain_write_once(apply_chain_update(s, ops.first()), ops.drop_first());
    }
}

/// Write-once invariant from any point of a call sequence: a transaction id
/// that is non-null after the first `i` updates keeps that exact value
/// through the rest of the sequence.
pub proof fn lemma_chain_write_once_mid(s: ChainSwapV, ops: Seq<ChainSwapUpdate>, i: int)
    requires
        0 <= i <= ops.len(),
    ensures
        apply_chain_updates(s, ops.take(i)).lockup_tx_id is Some ==> apply_chain_updates(
            s,
            ops,
        ).lockup_tx_id == apply_chain_updates(s, ops.take(i)).lockup_tx_id,
        apply_chain_updates(s, ops.take(i)).refund_tx_id is Some ==> apply_chain_updates(
            s,
            ops,
        ).refund_tx_id == apply_chain_updates(s, ops.take(i)).refund_tx_id,
{
    lemma_apply_chain_updates_split(s, ops, i);
    lemma_chain_write_once(apply_chain_updates(s, ops.take(i)), ops.skip(i));
}

/// Write-once invariant for receive swaps: `claim_tx_id` and
/// `lockup_tx_id`, once non-null, are never changed by later updates.
pub proof fn lemma_receive_write_once(s: ReceiveSwapV, ops: Seq<ReceiveSwapUpdate>)
    ensures
        s.claim_tx_id is Some ==> apply_receive_updates(s, ops).claim_tx_id == s.claim_tx_id,
        s.lockup_tx_id is Some ==> apply_receive_updates(s, ops).lockup_tx_id == s.lockup_tx_id,
    decreases ops.len(),
{
    if ops.len() > 0 {
        lemma_receive_write_once(apply_receive_update(s, ops.first()), ops.drop_first());
    }
}

/// Write-once invariant for receive swaps from any point of a call sequence.
pub proof fn lemma_receive_write_once_mid(s: ReceiveSwapV, ops: Seq<ReceiveSwapUpdate>, i: int)
    requires
        0 <= i <= ops.len(),
    ensures
        apply_receive_updates(s, ops.take(i)).claim_tx_id is Some ==> apply_receive_updates(
            s,
            ops,
        ).claim_tx_id == apply_receive_updates(s, ops.take(i)).claim_tx_id,
        apply_receive_updates(s, ops.take(i)).lockup_tx_id is Some ==> apply_receive_updates(
            s,
            ops,
        ).lockup_tx_id == apply_receive_updates(s, ops.take(i)).lockup_tx_id,
{
    lemma_apply_receive_updates_split(s, ops, i);
    lemma_receive_write_once(apply_receive_updates(s, ops.take(i)), ops.skip(i));
}

} // verus!
