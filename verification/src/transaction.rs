use crate::state::{StreamState, StreamStateView};
use vstd::prelude::*;

verus! {

/// The native ledger value attached to one transaction input or output:
/// an amount of the base coin and the destination it is locked to.
pub struct NativeCoin {
    pub amount: u64,
    pub dest: Vec<u8>,
}

/// Mathematical image of a [`NativeCoin`].
pub struct NativeCoinView {
    pub amount: u64,
    pub dest: Seq<u8>,
}

impl View for NativeCoin {
    type V = NativeCoinView;

    open spec fn view(&self) -> NativeCoinView {
        NativeCoinView { amount: self.amount, dest: self.dest@ }
    }
}

/// A [`StreamState`] paired with its original position among the
/// transaction's inputs or outputs. The position matters because the
/// conservation checks look up the native coin at the same index.
pub struct IndexedStreamState {
    pub state: StreamState,
    pub index: usize,
}

/// Mathematical image of an [`IndexedStreamState`].
pub struct IndexedStreamView {
    pub state: StreamStateView,
    pub index: int,
}

impl View for IndexedStreamState {
    type V = IndexedStreamView;

    open spec fn view(&self) -> IndexedStreamView {
        IndexedStreamView { state: self.state@, index: self.index as int }
    }
}

/// The validator's read-only view of one candidate ledger transaction.
///
/// Each input and output position carries the stream state decoded at that
/// position, or `None` where no state of this application is attached (the
/// position then belongs to another concern multiplexed onto the same
/// transaction). The two optional coin lists declare the native amounts
/// aligned positionally with the inputs and outputs respectively; a
/// transaction without them cannot be validated.
pub struct StreamTx {
    pub ins: Vec<Option<StreamState>>,
    pub outs: Vec<Option<StreamState>>,
    pub coin_ins: Option<Vec<NativeCoin>>,
    pub coin_outs: Option<Vec<NativeCoin>>,
}

/// Mathematical image of a [`StreamTx`].
pub struct StreamTxView {
    pub ins: Seq<Option<StreamStateView>>,
    pub outs: Seq<Option<StreamStateView>>,
    pub coin_ins: Option<Seq<NativeCoinView>>,
    pub coin_outs: Option<Seq<NativeCoinView>>,
}

pub open spec fn slot_view(o: Option<StreamState>) -> Option<StreamStateView> {
    match o {
        Some(s) => Some(s@),
        None => None,
    }
}

pub open spec fn slots_view(v: Seq<Option<StreamState>>) -> Seq<Option<StreamStateView>> {
    v.map_values(|o: Option<StreamState>| slot_view(o))
}

pub open spec fn coins_view(v: Seq<NativeCoin>) -> Seq<NativeCoinView> {
    v.map_values(|c: NativeCoin| c@)
}

impl View for StreamTx {
    type V = StreamTxView;

    open spec fn view(&self) -> StreamTxView {
        StreamTxView {
            ins: slots_view(self.ins@),
            outs: slots_view(self.outs@),
            coin_ins: match self.coin_ins {
                Some(v) => Some(coins_view(v@)),
                None => None,
            },
            coin_outs: match self.coin_outs {
                Some(v) => Some(coins_view(v@)),
                None => None,
            },
        }
    }
}

/// The ordered projection of the stream states present in `slots`, each
/// paired with its original position. Positions without a stream state are
/// skipped; order and original indices are preserved.
pub open spec fn projected(slots: Seq<Option<StreamStateView>>) -> Seq<IndexedStreamView>
    decreases slots.len(),
{
    if slots.len() == 0 {
        Seq::empty()
    } else {
        let prefix = projected(slots.drop_last());
        match slots.last() {
            Some(s) => prefix.push(IndexedStreamView { state: s, index: slots.len() - 1 }),
            None => prefix,
        }
    }
}

pub open spec fn indexed_views(v: Seq<IndexedStreamState>) -> Seq<IndexedStreamView> {
    v.map_values(|x: IndexedStreamState| x@)
}

fn project_slots(slots: &Vec<Option<StreamState>>) -> (r: Vec<IndexedStreamState>)
    ensures
        indexed_views(r@) == projected(slots_view(slots@)),
{
    let ghost all = slots_view(slots@);
    let mut r: Vec<IndexedStreamState> = Vec::new();
    let mut i: usize = 0;
    while i < slots.len()
        invariant
            i <= slots.len(),
            all == slots_view(slots@),
            all.len() == slots@.len(),
            indexed_views(r@) =~= projected(all.take(i as int)),
        decreases slots.len() - i,
    {
        proof {
            assert(all.take(i + 1).drop_last() =~= all.take(i as int));
            assert(all.take(i + 1).last() == slot_view(slots@[i as int]));
        }
        match (&slots[i]).as_ref() {
            Some(s) => {
                r.push(IndexedStreamState { state: s.clone(), index: i });
            }
            None => {}
        }
        i += 1;
    }
    proof {
        assert(all.take(slots@.len() as int) =~= all);
    }
    r
}

/// The stream states attached to the transaction's inputs, in input order,
/// each paired with its original input position.
pub fn stream_states_in(tx: &StreamTx) -> (r: Vec<IndexedStreamState>)
    ensures
        indexed_views(r@) == projected(tx@.ins),
{
    project_slots(&tx.ins)
}

/// The stream states attached to the transaction's outputs, in output order,
/// each paired with its original output position.
pub fn stream_states_out(tx: &StreamTx) -> (r: Vec<IndexedStreamState>)
    ensures
        indexed_views(r@) == projected(tx@.outs),
{
    project_slots(&tx.outs)
}

} // verus!
