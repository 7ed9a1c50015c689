use vstd::prelude::*;

use std::collections::HashMap;

use crate::execute::Tx;

verus! {

/// The order book: the module account allowed to edit it, the pending and
/// fulfilled records, and the id that the next record will get.
#[derive(Debug, PartialEq, Eq)]
pub struct State {
    pub module_account: String,
    pub pending_txs: Vec<Tx>,
    pub fulfilled_txs: Vec<Tx>,
    pub next_id: u64,
}

/// Who is owed reimbursement for a claim whose transfer is still in flight.
#[derive(Debug, PartialEq, Eq)]
pub struct FulfillState {
    pub fulfiller_addr: String,
}

impl Clone for FulfillState {
    fn clone(&self) -> (r: FulfillState)
        ensures
            r == *self,
    {
        FulfillState { fulfiller_addr: self.fulfiller_addr.clone() }
    }
}

/// Everything the order book keeps between calls: the state, and one entry
/// per claim whose transfer has not been confirmed yet, keyed by record id.
#[derive(Debug)]
pub struct Store {
    pub state: State,
    pub fulfill_reply_states: HashMap<u64, FulfillState>,
}

/// Some record in `txs` has this id.
pub open spec fn has_id(txs: Seq<Tx>, id: u64) -> bool {
    exists|i: int| 0 <= i < txs.len() && txs[i].id == id
}

/// `i` is the first position in `txs` of a record with this id.
pub open spec fn first_match(txs: Seq<Tx>, id: u64, i: int) -> bool {
    &&& 0 <= i < txs.len()
    &&& txs[i].id == id
    &&& forall|j: int| 0 <= j < i ==> txs[j].id != id
}

/// The first position of a record with this id (meaningful where `has_id`).
pub open spec fn position_of(txs: Seq<Tx>, id: u64) -> int {
    choose|i: int| first_match(txs, id, i)
}

/// The ids of `txs`, in order, strictly increase.
pub open spec fn ids_increasing(txs: Seq<Tx>) -> bool {
    forall|i: int, j: int| 0 <= i < j < txs.len() ==> txs[i].id < txs[j].id
}

/// No two records of `txs` share an id.
pub open spec fn ids_distinct(txs: Seq<Tx>) -> bool {
    forall|i: int, j: int| 0 <= i < txs.len() && 0 <= j < txs.len() && i != j ==> txs[i].id != txs[j].id
}

/// Every id in `txs` was handed out before `next_id`.
pub open spec fn ids_below(txs: Seq<Tx>, next_id: u64) -> bool {
    forall|i: int| 0 <= i < txs.len() ==> txs[i].id < next_id
}

/// No id occurs in both lists.
pub open spec fn ids_disjoint(a: Seq<Tx>, b: Seq<Tx>) -> bool {
    forall|i: int, j: int| 0 <= i < a.len() && 0 <= j < b.len() ==> a[i].id != b[j].id
}

impl State {
    /// The invariant of the order book: pending records in order of
    /// submission, ids unique within and across the two lists, and every id
    /// below the next one to be handed out.
    pub open spec fn wf(&self) -> bool {
        &&& ids_increasing(self.pending_txs@)
        &&& ids_distinct(self.fulfilled_txs@)
        &&& ids_below(self.pending_txs@, self.next_id)
        &&& ids_below(self.fulfilled_txs@, self.next_id)
        &&& ids_disjoint(self.pending_txs@, self.fulfilled_txs@)
    }
}

/// A first match is the only one.
pub proof fn lemma_first_match_unique(txs: Seq<Tx>, id: u64, i: int)
    requires
        first_match(txs, id, i),
    ensures
        position_of(txs, id) == i,
        has_id(txs, id),
{
    let k = position_of(txs, id);
    assert(first_match(txs, id, k));
    if k < i {
        assert(txs[k].id != id);
    } else if i < k {
        assert(txs[i].id != id);
    }
}


/// In a list of increasing ids, the record holding an id is its first match.
pub proof fn lemma_increasing_first_match(txs: Seq<Tx>, id: u64)
    requires
        ids_increasing(txs),
        has_id(txs, id),
    ensures
        first_match(txs, id, position_of(txs, id)),
{
    let w = choose|w: int| 0 <= w < txs.len() && txs[w].id == id;
    assert(forall|j: int| 0 <= j < w ==> txs[j].id < txs[w].id);
    lemma_first_match_unique(txs, id, w);
}

} // verus!
