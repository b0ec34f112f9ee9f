use crate::state::{vested_amount, StreamState};
use crate::transaction::{
    coins_view, projected, stream_states_in, stream_states_out, IndexedStreamState,
    IndexedStreamView, NativeCoin, NativeCoinView, StreamTx, StreamTxView,
};
use vstd::prelude::*;

verus! {

/// Whether a CREATE transaction is acceptable: the single produced stream
/// output must declare a positive total, a well-ordered schedule, nothing
/// claimed yet and a non-empty beneficiary, and the transaction must declare
/// a native coin list covering every output, with the coin at the stream's
/// position escrowing exactly `total_amount`.
pub open spec fn create_ok(out: IndexedStreamView, tx: StreamTxView) -> bool {
    match tx.coin_outs {
        None => false,
        Some(coins) => {
            &&& coins.len() == tx.outs.len()
            &&& out.state.total_amount > 0
            &&& out.state.start_time < out.state.end_time
            &&& out.state.claimed_amount == 0
            &&& out.state.beneficiary_dest.len() > 0
            &&& 0 <= out.index < coins.len()
            &&& coins[out.index].amount == out.state.total_amount
        },
    }
}

/// Whether some coin output other than the one at index `except` pays
/// exactly `amount` to `dest`. The exclusion keeps the payout distinct from
/// the successor's own escrow output: the claimed increment must actually
/// leave the stream, not stay folded into the remainder coin.
pub open spec fn payout_exists(
    coins: Seq<NativeCoinView>,
    dest: Seq<u8>,
    amount: int,
    except: int,
) -> bool {
    exists|i: int|
        0 <= i < coins.len() && i != except && coins[i].dest == dest && coins[i].amount == amount
}

/// Whether a CLAIM transaction is acceptable: the claim must not start
/// before the schedule does, the successor must carry the predecessor's
/// schedule and beneficiary unchanged, the claimed amount may only grow and
/// never past the total nor past what has vested at `now`, and the native
/// coins must conserve value exactly — the consumed escrow equals the
/// predecessor's remaining balance, a distinct output pays the claimed
/// increment to the beneficiary, and the successor's escrow equals the
/// remaining balance the successor state declares.
pub open spec fn claim_ok(
    prev: IndexedStreamView,
    next: IndexedStreamView,
    tx: StreamTxView,
    now: u64,
) -> bool {
    &&& now >= prev.state.start_time
    &&& next.state.total_amount == prev.state.total_amount
    &&& next.state.start_time == prev.state.start_time
    &&& next.state.end_time == prev.state.end_time
    &&& next.state.claimed_amount >= prev.state.claimed_amount
    &&& next.state.claimed_amount <= next.state.total_amount
    &&& next.state.claimed_amount <= vested_amount(prev.state, now)
    &&& next.state.beneficiary_dest == prev.state.beneficiary_dest
    &&& next.state.beneficiary_dest.len() > 0
    &&& match (tx.coin_ins, tx.coin_outs) {
        (Some(coin_ins), Some(coin_outs)) => {
            &&& coin_ins.len() == tx.ins.len()
            &&& coin_outs.len() == tx.outs.len()
            &&& prev.state.claimed_amount <= prev.state.total_amount
            &&& 0 <= prev.index < coin_ins.len()
            &&& coin_ins[prev.index].amount == prev.state.total_amount
                - prev.state.claimed_amount
            &&& next.state.claimed_amount - prev.state.claimed_amount
                <= coin_ins[prev.index].amount
            &&& payout_exists(
                coin_outs,
                next.state.beneficiary_dest,
                next.state.claimed_amount - prev.state.claimed_amount,
                next.index,
            )
            &&& next.state.total_amount - next.state.claimed_amount == coin_ins[prev.index].amount
                - (next.state.claimed_amount - prev.state.claimed_amount)
            &&& 0 <= next.index < coin_outs.len()
            &&& coin_outs[next.index].amount == next.state.total_amount
                - next.state.claimed_amount
        },
        _ => false,
    }
}

/// The transaction's declared coin outputs, or `None` when they are absent
/// or do not cover every output (either way the transaction is rejected).
fn coin_outs_required(tx: &StreamTx) -> (r: Option<&Vec<NativeCoin>>)
    ensures
        match r {
            Some(c) => tx@.coin_outs == Some(coins_view(c@)) && c@.len() == tx@.outs.len(),
            None => !(tx@.coin_outs is Some && tx@.coin_outs->Some_0.len() == tx@.outs.len()),
        },
{
    match &tx.coin_outs {
        Some(coins) => {
            if coins.len() != tx.outs.len() {
                None
            } else {
                Some(coins)
            }
        },
        None => None,
    }
}

/// The transaction's declared coin inputs, or `None` when they are absent
/// or do not cover every input (either way the transaction is rejected).
fn coin_ins_required(tx: &StreamTx) -> (r: Option<&Vec<NativeCoin>>)
    ensures
        match r {
            Some(c) => tx@.coin_ins == Some(coins_view(c@)) && c@.len() == tx@.ins.len(),
            None => !(tx@.coin_ins is Some && tx@.coin_ins->Some_0.len() == tx@.ins.len()),
        },
{
    match &tx.coin_ins {
        Some(coins) => {
            if coins.len() != tx.ins.len() {
                None
            } else {
                Some(coins)
            }
        },
        None => None,
    }
}

fn bytes_eq(a: &Vec<u8>, b: &Vec<u8>) -> (r: bool)
    ensures
        r == (a@ == b@),
{
    if a.len() != b.len() {
        return false;
    }
    let mut i: usize = 0;
    while i < a.len()
        invariant
            i <= a.len(),
            a@.len() == b@.len(),
            forall|j: int| 0 <= j < i ==> a@[j] == b@[j],
        decreases a.len() - i,
    {
        if a[i] != b[i] {
            return false;
        }
        i += 1;
    }
    proof {
        assert(a@ =~= b@);
    }
    true
}

fn payout_present(coins: &Vec<NativeCoin>, dest: &Vec<u8>, amount: u64, except: usize) -> (r:
    bool)
    ensures
        r == payout_exists(coins_view(coins@), dest@, amount as int, except as int),
{
    let mut i: usize = 0;
    while i < coins.len()
        invariant
            i <= coins.len(),
            forall|j: int| 0 <= j < i
                ==> !(j != except as int && coins_view(coins@)[j].dest == dest@ && coins_view(
                coins@,
            )[j].amount == amount),
        decreases coins.len() - i,
    {
        let c = &coins[i];
        if i != except && c.amount == amount && bytes_eq(&c.dest, dest) {
            proof {
                assert(coins_view(coins@)[i as int].dest == dest@);
                assert(coins_view(coins@)[i as int].amount == amount);
            }
            return true;
        }
        i += 1;
    }
    false
}

/// Decides a CREATE transition: accepted exactly when [`create_ok`] holds of
/// the produced stream output and the transaction.
pub fn validate_create(out: &IndexedStreamState, tx: &StreamTx) -> (r: bool)
    ensures
        r == create_ok(out@, tx@),
{
    let coins = match coin_outs_required(tx) {
        Some(c) => c,
        None => return false,
    };
    if out.state.total_amount == 0 {
        return false;
    }
    if out.state.start_time >= out.state.end_time {
        return false;
    }
    if out.state.claimed_amount != 0 {
        return false;
    }
    if out.state.beneficiary_dest.len() == 0 {
        return false;
    }
    if out.index >= coins.len() {
        return false;
    }
    coins[out.index].amount == out.state.total_amount
}

/// Decides a CLAIM transition: accepted exactly when [`claim_ok`] holds of
/// the consumed and produced stream states, the transaction and the witness
/// time `now`.
pub fn validate_claim(
    prev: &IndexedStreamState,
    next: &IndexedStreamState,
    tx: &StreamTx,
    now: u64,
) -> (r: bool)
    ensures
        r == claim_ok(prev@, next@, tx@, now),
{
    if now < prev.state.start_time {
        return false;
    }
    if next.state.total_amount != prev.state.total_amount {
        return false;
    }
    if next.state.start_time != prev.state.start_time
        || next.state.end_time != prev.state.end_time {
        return false;
    }
    if next.state.claimed_amount < prev.state.claimed_amount {
        return false;
    }
    if next.state.claimed_amount > next.state.total_amount {
        return false;
    }
    let vested = prev.state.vested_at(now);
    if next.state.claimed_amount > vested {
        return false;
    }
    if !bytes_eq(&prev.state.beneficiary_dest, &next.state.beneficiary_dest) {
        return false;
    }
    if next.state.beneficiary_dest.len() == 0 {
        return false;
    }
    let coin_ins = match coin_ins_required(tx) {
        Some(c) => c,
        None => return false,
    };
    let coins = match coin_outs_required(tx) {
        Some(c) => c,
        None => return false,
    };
    if prev.state.claimed_amount > prev.state.total_amount {
        return false;
    }
    let prev_remaining: u64 = prev.state.total_amount - prev.state.claimed_amount;
    if prev.index >= coin_ins.len() {
        return false;
    }
    let input_amount: u64 = coin_ins[prev.index].amount;
    if input_amount != prev_remaining {
        return false;
    }
    let delta: u64 = next.state.claimed_amount - prev.state.claimed_amount;
    if delta > input_amount {
        return false;
    }
    let remaining_after_claim: u64 = input_amount - delta;
    if !payout_present(coins, &next.state.beneficiary_dest, delta, next.index) {
        return false;
    }
    let expected_remaining: u64 = next.state.total_amount - next.state.claimed_amount;
    if expected_remaining != remaining_after_claim {
        return false;
    }
    if next.index >= coins.len() {
        return false;
    }
    coins[next.index].amount == expected_remaining
}

/// Whether the transaction is an acceptable stream transition at time `now`:
/// exactly one produced stream output and no consumed one makes a CREATE,
/// one of each makes a CLAIM, and any other arity is rejected outright.
pub open spec fn contract_ok(tx: StreamTxView, now: u64) -> bool {
    let ins = projected(tx.ins);
    let outs = projected(tx.outs);
    if ins.len() == 0 && outs.len() == 1 {
        create_ok(outs[0], tx)
    } else if ins.len() == 1 && outs.len() == 1 {
        claim_ok(ins[0], outs[0], tx, now)
    } else {
        false
    }
}

/// [`contract_ok`] once the witness has decoded; a witness that does not
/// decode to a time rejects the transaction outright.
pub open spec fn contract_with_witness_ok(tx: StreamTxView, witness_now: Option<u64>) -> bool {
    match witness_now {
        Some(now) => contract_ok(tx, now),
        None => false,
    }
}

/// Classifies the transaction by the number of stream states on its inputs
/// and outputs and runs the matching transition rule. `witness_now` is the
/// witness-supplied current time, already decoded by the caller; `None`
/// stands for a witness that did not decode to a 64-bit time.
pub fn stream_contract_satisfied(tx: &StreamTx, witness_now: Option<u64>) -> (r: bool)
    ensures
        r == contract_with_witness_ok(tx@, witness_now),
{
    let now: u64 = match witness_now {
        Some(v) => v,
        None => return false,
    };
    let ins = stream_states_in(tx);
    let outs = stream_states_out(tx);
    if ins.len() == 0 && outs.len() == 1 {
        validate_create(&outs[0], tx)
    } else if ins.len() == 1 && outs.len() == 1 {
        validate_claim(&ins[0], &outs[0], tx, now)
    } else {
        false
    }
}

/// The contract's single entry point: accepts exactly when the reserved
/// public input is empty, the witness decoded to a time, and the transaction
/// is an acceptable stream transition at that time.
pub fn app_contract(tx: &StreamTx, public_input_empty: bool, witness_now: Option<u64>) -> (r:
    bool)
    ensures
        r == (public_input_empty && contract_with_witness_ok(tx@, witness_now)),
{
    if !public_input_empty {
        return false;
    }
    stream_contract_satisfied(tx, witness_now)
}

} // verus!
