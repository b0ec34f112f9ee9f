use crate::state::StreamStateView;
use crate::transaction::{IndexedStreamView, StreamTxView};
use crate::validate::{claim_ok, create_ok, payout_exists};
use vstd::prelude::*;

verus! {

/// The invariant every valid stream state satisfies: the claimed amount
/// never exceeds the total, the schedule is well ordered, and a beneficiary
/// is pinned.
pub open spec fn well_formed(s: StreamStateView) -> bool {
    &&& s.claimed_amount <= s.total_amount
    &&& s.start_time < s.end_time
    &&& s.beneficiary_dest.len() > 0
}

/// Claim conservation: an accepted CLAIM consumes exactly the predecessor's
/// remaining escrow, pays exactly the claimed increment to the pinned
/// beneficiary through a coin output distinct from the successor's escrow,
/// and leaves exactly the successor's remaining balance at the successor's
/// position.
pub proof fn lemma_claim_conservation(
    prev: IndexedStreamView,
    next: IndexedStreamView,
    tx: StreamTxView,
    now: u64,
)
    requires
        claim_ok(prev, next, tx, now),
    ensures
        tx.coin_ins is Some && 0 <= prev.index < tx.coin_ins->Some_0.len(),
        tx.coin_ins->Some_0[prev.index].amount == prev.state.total_amount
            - prev.state.claimed_amount,
        tx.coin_outs is Some,
        payout_exists(
            tx.coin_outs->Some_0,
            next.state.beneficiary_dest,
            next.state.claimed_amount - prev.state.claimed_amount,
            next.index,
        ),
        0 <= next.index < tx.coin_outs->Some_0.len(),
        tx.coin_outs->Some_0[next.index].amount == next.state.total_amount
            - next.state.claimed_amount,
        tx.coin_ins->Some_0[prev.index].amount == (next.state.claimed_amount
            - prev.state.claimed_amount) + tx.coin_outs->Some_0[next.index].amount,
{
}

/// Immutable fields: a CLAIM that changes the total, the schedule or the
/// beneficiary is rejected, whatever else the transaction declares.
pub proof fn lemma_claim_immutable_fields(
    prev: IndexedStreamView,
    next: IndexedStreamView,
    tx: StreamTxView,
    now: u64,
)
    requires
        next.state.total_amount != prev.state.total_amount
            || next.state.start_time != prev.state.start_time
            || next.state.end_time != prev.state.end_time
            || next.state.beneficiary_dest != prev.state.beneficiary_dest,
    ensures
        !claim_ok(prev, next, tx, now),
{
}

/// No double-spend of vesting: a CLAIM whose successor claims more than has
/// vested at `now`, or less than was already claimed, is rejected.
pub proof fn lemma_no_double_spend(
    prev: IndexedStreamView,
    next: IndexedStreamView,
    tx: StreamTxView,
    now: u64,
)
    requires
        next.state.claimed_amount > crate::state::vested_amount(prev.state, now)
            || next.state.claimed_amount < prev.state.claimed_amount,
    ensures
        !claim_ok(prev, next, tx, now),
{
}

/// An accepted CREATE establishes the stream-state invariant.
pub proof fn lemma_create_establishes_well_formed(out: IndexedStreamView, tx: StreamTxView)
    requires
        create_ok(out, tx),
    ensures
        well_formed(out.state),
{
}

/// An accepted CLAIM preserves the stream-state invariant from predecessor
/// to successor.
pub proof fn lemma_claim_preserves_well_formed(
    prev: IndexedStreamView,
    next: IndexedStreamView,
    tx: StreamTxView,
    now: u64,
)
    requires
        well_formed(prev.state),
        claim_ok(prev, next, tx, now),
    ensures
        well_formed(next.state),
{
}

} // verus!
