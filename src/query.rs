use vstd::prelude::*;

use crate::execute::Tx;
use crate::msg::GetTxsResponse;
use crate::state::State;

verus! {

/// The pending records, in order of submission.
pub open spec fn list_pending(state: State) -> Seq<Tx> {
    state.pending_txs@
}

/// The fulfilled records, in order of fulfillment.
pub open spec fn list_fulfilled(state: State) -> Seq<Tx> {
    state.fulfilled_txs@
}

/// A copy of every record of `txs`.
fn copy_txs(txs: &Vec<Tx>) -> (r: Vec<Tx>)
    ensures
        r@ == txs@,
{
    let mut out: Vec<Tx> = Vec::new();
    let mut i: usize = 0;
    while i < txs.len()
        invariant
            i <= txs.len(),
            out@ == txs@.subrange(0, i as int),
        decreases txs.len() - i,
    {
        out.push(txs[i].clone());
        i += 1;
    }
    assert(txs@.subrange(0, txs@.len() as int) == txs@);
    out
}

/// The pending records.
pub fn query_pending_txs(state: &State) -> (r: GetTxsResponse)
    ensures
        r.txs@ == list_pending(*state),
{
    GetTxsResponse { txs: copy_txs(&state.pending_txs) }
}

/// The fulfilled records.
pub fn query_fulfilled_txs(state: &State) -> (r: GetTxsResponse)
    ensures
        r.txs@ == list_fulfilled(*state),
{
    GetTxsResponse { txs: copy_txs(&state.fulfilled_txs) }
}

} // verus!
