use vesting_stream::state::StreamState;
use vesting_stream::transaction::{stream_states_in, stream_states_out, NativeCoin, StreamTx};
use vesting_stream::validate::{validate_claim, validate_create};

fn beneficiary() -> Vec<u8> {
    vec![0x51, 0x21]
}

fn stream_dest() -> Vec<u8> {
    vec![0x76, 0xa9]
}

fn stream_state(total: u64, claimed: u64) -> StreamState {
    StreamState {
        total_amount: total,
        claimed_amount: claimed,
        start_time: 1_000,
        end_time: 2_000,
        beneficiary_dest: beneficiary(),
    }
}

fn native_output(dest: Vec<u8>, amount: u64) -> NativeCoin {
    NativeCoin { amount, dest }
}

fn tx(
    ins_states: Vec<StreamState>,
    outs_states: Vec<Option<StreamState>>,
    coin_ins: Option<Vec<NativeCoin>>,
    coin_outs: Vec<NativeCoin>,
) -> StreamTx {
    StreamTx {
        ins: ins_states.into_iter().map(Some).collect(),
        outs: outs_states,
        coin_ins,
        coin_outs: Some(coin_outs),
    }
}

#[test]
fn test_vested_at_linear() {
    let s = stream_state(100, 0);

    assert_eq!(s.vested_at(900), 0);
    assert_eq!(s.vested_at(1000), 0);
    assert_eq!(s.vested_at(1500), 50);
    assert_eq!(s.vested_at(2000), 100);
    assert_eq!(s.vested_at(2100), 100);
}

#[test]
fn validate_create_requires_amount_and_beneficiary() {
    let stream = stream_state(100, 0);
    let coins = vec![native_output(stream_dest(), 100)];
    let tx = tx(vec![], vec![Some(stream.clone())], None, coins);
    let outs = stream_states_out(&tx);
    assert_eq!(outs.len(), 1);
    assert!(validate_create(&outs[0], &tx));
}

#[test]
fn claim_rejects_over_vesting() {
    let prev = stream_state(100, 0);
    let next = stream_state(100, 60); // vested(1500)=50, so reject

    let outs = vec![None, Some(next.clone())];
    let coins = vec![
        native_output(beneficiary(), 60),
        native_output(stream_dest(), 40),
    ];
    let coin_ins = vec![native_output(stream_dest(), 100)];
    let tx = tx(vec![prev.clone()], outs, Some(coin_ins), coins);
    let outs_indexed = stream_states_out(&tx);
    assert_eq!(outs_indexed.len(), 1);
    let ins_indexed = stream_states_in(&tx);
    assert_eq!(ins_indexed.len(), 1);
    assert!(!validate_claim(&ins_indexed[0], &outs_indexed[0], &tx, 1500));
}

#[test]
fn claim_rejects_payout_mismatch() {
    let prev = stream_state(100, 20);
    let next = stream_state(100, 50);

    // wrong dest (stream_dest instead of beneficiary)
    let outs = vec![None, Some(next.clone())];
    let coins = vec![
        native_output(stream_dest(), 30),
        native_output(stream_dest(), 50),
    ];
    let coin_ins = vec![native_output(stream_dest(), 80)];
    let tx = tx(vec![prev.clone()], outs, Some(coin_ins), coins);
    let outs_indexed = stream_states_out(&tx);
    assert_eq!(outs_indexed.len(), 1);
    let ins_indexed = stream_states_in(&tx);
    assert_eq!(ins_indexed.len(), 1);
    assert!(!validate_claim(&ins_indexed[0], &outs_indexed[0], &tx, 1_500));
}

#[test]
fn claim_rejects_remainder_mismatch() {
    let prev = stream_state(100, 20);
    let next = stream_state(100, 50); // delta=30, remainder=50

    let outs = vec![None, Some(next.clone())];
    let coins = vec![
        native_output(beneficiary(), 30),
        native_output(stream_dest(), 55), // wrong remainder
    ];
    let coin_ins = vec![native_output(stream_dest(), 80)];
    let tx = tx(vec![prev.clone()], outs, Some(coin_ins), coins);
    let outs_indexed = stream_states_out(&tx);
    assert_eq!(outs_indexed.len(), 1);
    let ins_indexed = stream_states_in(&tx);
    assert_eq!(ins_indexed.len(), 1);
    assert!(!validate_claim(&ins_indexed[0], &outs_indexed[0], &tx, 1_500));
}

#[test]
fn claim_accepts_valid_transition() {
    let prev = stream_state(100, 20);
    let next = stream_state(100, 60); // delta = 40, remainder 40

    let outs = vec![None, Some(next.clone())];
    let coin_ins = vec![native_output(stream_dest(), 80)];
    let coin_outs = vec![
        native_output(beneficiary(), 40),
        native_output(stream_dest(), 40),
    ];
    let tx = tx(vec![prev.clone()], outs, Some(coin_ins), coin_outs);
    let outs_indexed = stream_states_out(&tx);
    let ins_indexed = stream_states_in(&tx);
    assert_eq!(outs_indexed.len(), 1);
    assert_eq!(ins_indexed.len(), 1);
    assert!(validate_claim(&ins_indexed[0], &outs_indexed[0], &tx, 1_800));
}

#[test]
fn claim_rejects_wrong_input_amount() {
    let prev = stream_state(100, 10); // remaining 90, but coin_in says 80
    let next = stream_state(100, 40);

    let outs = vec![None, Some(next.clone())];
    let coin_ins = vec![native_output(stream_dest(), 80)];
    let coin_outs = vec![
        native_output(beneficiary(), 30),
        native_output(stream_dest(), 60),
    ];
    let tx = tx(vec![prev.clone()], outs, Some(coin_ins), coin_outs);
    let outs_indexed = stream_states_out(&tx);
    let ins_indexed = stream_states_in(&tx);
    assert_eq!(outs_indexed.len(), 1);
    assert_eq!(ins_indexed.len(), 1);
    assert!(!validate_claim(&ins_indexed[0], &outs_indexed[0], &tx, 1_500));
}
