use vstd::prelude::*;

use crate::error::ContractError;
use crate::host::{Coin, MessageInfo, Reply, SubMsgResult, TransferRequest};
use crate::state::{
    first_match, has_id, ids_below, ids_disjoint, ids_distinct, ids_increasing,
    lemma_first_match_unique, position_of, FulfillState, State, Store,
};

verus! {

broadcast use vstd::std_specs::hash::group_hash_axioms;

/// One bridged transfer. Before fulfillment `destination_addr` is where the
/// funds go; once fulfilled it names the market maker to reimburse.
#[derive(Debug, PartialEq, Eq)]
pub struct Tx {
    pub id: u64,
    pub destination_addr: String,
    pub coin: Coin,
}

impl Clone for Tx {
    fn clone(&self) -> (r: Tx)
        ensures
            r == *self,
    {
        Tx { id: self.id, destination_addr: self.destination_addr.clone(), coin: self.coin.clone() }
    }
}

/// A result with its success value forgotten.
pub open spec fn unit_of<T>(r: Result<T, ContractError>) -> Result<(), ContractError> {
    match r {
        Ok(_) => Ok(()),
        Err(e) => Err(e),
    }
}

/// What submitting a record does: only the module account may, and the
/// record gets the next id.
pub open spec fn add_pending_tx_post(
    old: State,
    sender: String,
    destination_addr: String,
    coin: Coin,
    r: Result<(), ContractError>,
    new: State,
) -> bool {
    if sender@ != old.module_account@ {
        r == Err::<(), ContractError>(ContractError::Unauthorized {  }) && new == old
    } else {
        &&& r == Ok::<(), ContractError>(())
        &&& new.pending_txs@ == old.pending_txs@.push(
            Tx { id: old.next_id, destination_addr, coin },
        )
        &&& new.fulfilled_txs == old.fulfilled_txs
        &&& new.module_account == old.module_account
        &&& new.next_id == old.next_id + 1
    }
}

/// The record with this id leaves the pending list and is appended to the
/// fulfilled list, with `fulfiller` as its new destination.
pub open spec fn moved_to_fulfilled(old: State, new: State, id: u64, fulfiller: String) -> bool {
    let i = position_of(old.pending_txs@, id);
    let tx = old.pending_txs@[i];
    &&& new.pending_txs@ == old.pending_txs@.remove(i)
    &&& new.fulfilled_txs@ == old.fulfilled_txs@.push(
        Tx { id: tx.id, destination_addr: fulfiller, coin: tx.coin },
    )
    &&& new.module_account == old.module_account
    &&& new.next_id == old.next_id
}

/// What a claim does: it names the record's destination and the attached coin
/// in a transfer request, and notes who is owed reimbursement.
pub open spec fn fulfill_pending_tx_post(
    old: Store,
    info: MessageInfo,
    tx_id: u64,
    r: Result<TransferRequest, ContractError>,
    new: Store,
) -> bool {
    let pending = old.state.pending_txs@;
    if !has_id(pending, tx_id) {
        r == Err::<TransferRequest, ContractError>(ContractError::TransactionNotFound { id: tx_id })
            && new == old
    } else if info.funds@.len() != 1 {
        r == Err::<TransferRequest, ContractError>(
            ContractError::MultipleCoinError { num_coins: info.funds@.len() as usize },
        ) && new == old
    } else if old.fulfill_reply_states@.contains_key(tx_id) {
        r == Err::<TransferRequest, ContractError>(ContractError::AlreadyClaimed { id: tx_id })
            && new == old
    } else {
        &&& r == Ok::<TransferRequest, ContractError>(
            TransferRequest {
                reply_id: tx_id,
                to_address: pending[position_of(pending, tx_id)].destination_addr,
                amount: info.funds@[0],
            },
        )
        &&& new.state == old.state
        &&& new.fulfill_reply_states@ == old.fulfill_reply_states@.insert(
            tx_id,
            FulfillState { fulfiller_addr: info.sender },
        )
    }
}

/// What the host's report on a transfer does to the state: on success the
/// record is moved to the fulfilled list.
pub open spec fn move_pending_tx_to_fulfilled_tx_post(
    old: State,
    msg: Reply,
    fulfill_state: FulfillState,
    r: Result<(), ContractError>,
    new: State,
) -> bool {
    match msg.result {
        SubMsgResult::Failure(_) => {
            r == Err::<(), ContractError>(ContractError::TransferFailed { id: msg.id }) && new == old
        },
        SubMsgResult::Success => {
            if !has_id(old.pending_txs@, msg.id) {
                r == Err::<(), ContractError>(ContractError::TransactionNotFound { id: msg.id })
                    && new == old
            } else {
                r == Ok::<(), ContractError>(()) && moved_to_fulfilled(
                    old,
                    new,
                    msg.id,
                    fulfill_state.fulfiller_addr,
                )
            }
        },
    }
}

/// What removing a pending record does: only the module account may.
pub open spec fn remove_pending_tx_post(
    old: State,
    sender: String,
    tx_id: u64,
    r: Result<(), ContractError>,
    new: State,
) -> bool {
    if sender@ != old.module_account@ {
        r == Err::<(), ContractError>(ContractError::Unauthorized {  }) && new == old
    } else if !has_id(old.pending_txs@, tx_id) {
        r == Err::<(), ContractError>(ContractError::TransactionNotFound { id: tx_id })
            && new == old
    } else {
        &&& r == Ok::<(), ContractError>(())
        &&& new.pending_txs@ == old.pending_txs@.remove(position_of(old.pending_txs@, tx_id))
        &&& new.fulfilled_txs == old.fulfilled_txs
        &&& new.module_account == old.module_account
        &&& new.next_id == old.next_id
    }
}

/// What removing a fulfilled record does: only the module account may.
pub open spec fn remove_fulfilled_tx_post(
    old: State,
    sender: String,
    tx_id: u64,
    r: Result<(), ContractError>,
    new: State,
) -> bool {
    if sender@ != old.module_account@ {
        r == Err::<(), ContractError>(ContractError::Unauthorized {  }) && new == old
    } else if !has_id(old.fulfilled_txs@, tx_id) {
        r == Err::<(), ContractError>(ContractError::TransactionNotFound { id: tx_id })
            && new == old
    } else {
        &&& r == Ok::<(), ContractError>(())
        &&& new.fulfilled_txs@ == old.fulfilled_txs@.remove(
            position_of(old.fulfilled_txs@, tx_id),
        )
        &&& new.pending_txs == old.pending_txs
        &&& new.module_account == old.module_account
        &&& new.next_id == old.next_id
    }
}

/// The first position in `txs` of a record with this id.
fn position(txs: &Vec<Tx>, tx_id: u64) -> (r: Option<usize>)
    ensures
        match r {
            Some(i) => first_match(txs@, tx_id, i as int),
            None => !has_id(txs@, tx_id),
        },
{
    let mut i: usize = 0;
    while i < txs.len()
        invariant
            i <= txs.len(),
            forall|j: int| 0 <= j < i ==> txs@[j].id != tx_id,
        decreases txs.len() - i,
    {
        if txs[i].id == tx_id {
            return Some(i);
        }
        i += 1;
    }
    None
}

/// Claims a pending record for the caller, who attaches the coin to be
/// sent to the record's destination. The record stays pending until the
/// host confirms the transfer; meanwhile the caller is noted as the party
/// to reimburse, and no second claim on the record is taken.
pub fn fulfill_pending_tx(store: &mut Store, info: &MessageInfo, tx_id: u64) -> (r: Result<
    TransferRequest,
    ContractError,
>)
    ensures
        fulfill_pending_tx_post(*old(store), *info, tx_id, r, *final(store)),
        final(store).state == old(store).state,
{
    let index = match position(&store.state.pending_txs, tx_id) {
        Some(i) => i,
        None => {
            return Err(ContractError::TransactionNotFound { id: tx_id });
        },
    };
    if info.funds.len() != 1 {
        return Err(ContractError::MultipleCoinError { num_coins: info.funds.len() });
    }
    if store.fulfill_reply_states.contains_key(&tx_id) {
        return Err(ContractError::AlreadyClaimed { id: tx_id });
    }
    proof {
        lemma_first_match_unique(store.state.pending_txs@, tx_id, index as int);
    }
    let transfer = TransferRequest {
        reply_id: tx_id,
        to_address: store.state.pending_txs[index].destination_addr.clone(),
        amount: info.funds[0].clone(),
    };
    store.fulfill_reply_states.insert(tx_id, FulfillState { fulfiller_addr: info.sender.clone() });
    Ok(transfer)
}


/// Taking one record out keeps the pending invariants.
proof fn lemma_remove_keeps(txs: Seq<Tx>, other: Seq<Tx>, i: int, next_id: u64)
    requires
        0 <= i < txs.len(),
        ids_increasing(txs),
        ids_below(txs, next_id),
        ids_disjoint(txs, other),
    ensures
        ids_increasing(txs.remove(i)),
        ids_below(txs.remove(i), next_id),
        ids_disjoint(txs.remove(i), other),
{
    let r = txs.remove(i);
    assert forall|a: int, b: int| 0 <= a < b < r.len() implies r[a].id < r[b].id by {
        let a0 = if a < i { a } else { a + 1 };
        let b0 = if b < i { b } else { b + 1 };
        assert(r[a] == txs[a0] && r[b] == txs[b0]);
    }
    assert forall|a: int| 0 <= a < r.len() implies r[a].id < next_id by {
        let a0 = if a < i { a } else { a + 1 };
        assert(r[a] == txs[a0]);
    }
    assert forall|a: int, b: int| 0 <= a < r.len() && 0 <= b < other.len() implies r[a].id
        != other[b].id by {
        let a0 = if a < i { a } else { a + 1 };
        assert(r[a] == txs[a0]);
    }
}

/// Taking one record out of a list with distinct ids keeps them distinct.
proof fn lemma_remove_keeps_distinct(txs: Seq<Tx>, other: Seq<Tx>, i: int, next_id: u64)
    requires
        0 <= i < txs.len(),
        ids_distinct(txs),
        ids_below(txs, next_id),
        ids_disjoint(other, txs),
    ensures
        ids_distinct(txs.remove(i)),
        ids_below(txs.remove(i), next_id),
        ids_disjoint(other, txs.remove(i)),
{
    let r = txs.remove(i);
    assert forall|a: int, b: int|
        0 <= a < r.len() && 0 <= b < r.len() && a != b implies r[a].id != r[b].id by {
        let a0 = if a < i { a } else { a + 1 };
        let b0 = if b < i { b } else { b + 1 };
        assert(r[a] == txs[a0] && r[b] == txs[b0]);
    }
    assert forall|a: int| 0 <= a < r.len() implies r[a].id < next_id by {
        let a0 = if a < i { a } else { a + 1 };
        assert(r[a] == txs[a0]);
    }
    assert forall|a: int, b: int| 0 <= a < other.len() && 0 <= b < r.len() implies other[a].id
        != r[b].id by {
        let b0 = if b < i { b } else { b + 1 };
        assert(r[b] == txs[b0]);
    }
}

/// Moving a record from the pending to the fulfilled list keeps the
/// invariant.
proof fn lemma_move_keeps_wf(old: State, new: State, id: u64, fulfiller: String)
    requires
        old.wf(),
        first_match(old.pending_txs@, id, position_of(old.pending_txs@, id)),
        moved_to_fulfilled(old, new, id, fulfiller),
    ensures
        new.wf(),
{
    let p = old.pending_txs@;
    let f = old.fulfilled_txs@;
    let i = position_of(p, id);
    lemma_remove_keeps(p, f, i, old.next_id);
    let np = new.pending_txs@;
    let nf = new.fulfilled_txs@;
    assert forall|a: int, b: int|
        0 <= a < nf.len() && 0 <= b < nf.len() && a != b implies nf[a].id != nf[b].id by {
        if a < f.len() && b < f.len() {
            assert(nf[a] == f[a] && nf[b] == f[b]);
        } else if a < f.len() {
            assert(nf[a] == f[a]);
        } else {
            assert(nf[b] == f[b]);
        }
    }
    assert forall|a: int| 0 <= a < nf.len() implies nf[a].id < new.next_id by {
        if a < f.len() {
            assert(nf[a] == f[a]);
        }
    }
    assert forall|a: int, b: int| 0 <= a < np.len() && 0 <= b < nf.len() implies np[a].id
        != nf[b].id by {
        if b < f.len() {
            assert(nf[b] == f[b]);
        } else {
            let a0 = if a < i { a } else { a + 1 };
            assert(np[a] == p[a0]);
        }
    }
}

/// Moves the confirmed record `msg.id` from the pending to the fulfilled
/// list, naming the market maker of `fulfill_state` as the party to
/// reimburse. Fails, changing nothing, where the host reports that the
/// transfer failed or no such record is pending.
pub fn move_pending_tx_to_fulfilled_tx(
    state: &mut State,
    msg: Reply,
    fulfill_state: FulfillState,
) -> (r: Result<(), ContractError>)
    ensures
        move_pending_tx_to_fulfilled_tx_post(*old(state), msg, fulfill_state, r, *final(state)),
        old(state).wf() ==> final(state).wf(),
{
    match msg.result {
        SubMsgResult::Success => {
            match position(&state.pending_txs, msg.id) {
                Some(index) => {
                    proof {
                        lemma_first_match_unique(state.pending_txs@, msg.id, index as int);
                    }
                    let ghost before = *state;
                    let mut tx = state.pending_txs.remove(index);
                    tx.destination_addr = fulfill_state.fulfiller_addr;
                    state.fulfilled_txs.push(tx);
                    proof {
                        if before.wf() {
                            lemma_move_keeps_wf(before, *state, msg.id, fulfill_state.fulfiller_addr);
                        }
                    }
                    Ok(())
                },
                None => Err(ContractError::TransactionNotFound { id: msg.id }),
            }
        },
        SubMsgResult::Failure(_) => Err(ContractError::TransferFailed { id: msg.id }),
    }
}


/// Adds a pending record for `destination_addr` under the next id. Only
/// the module account may submit.
pub fn add_pending_tx(
    state: &mut State,
    info: &MessageInfo,
    destination_addr: String,
    coin: Coin,
) -> (r: Result<(), ContractError>)
    requires
        info.sender@ == old(state).module_account@ ==> old(state).next_id < u64::MAX,
    ensures
        add_pending_tx_post(*old(state), info.sender, destination_addr, coin, r, *final(state)),
        old(state).wf() ==> final(state).wf(),
{
    if info.sender != state.module_account {
        return Err(ContractError::Unauthorized {  });
    }
    let new_id = state.next_id;
    state.pending_txs.push(Tx { id: new_id, destination_addr, coin });
    state.next_id = new_id + 1;
    Ok(())
}

/// Removes and returns the pending record with this id. Only the module
/// account may remove.
pub fn remove_pending_tx(state: &mut State, info: &MessageInfo, tx_id: u64) -> (r: Result<
    Tx,
    ContractError,
>)
    ensures
        remove_pending_tx_post(*old(state), info.sender, tx_id, unit_of(r), *final(state)),
        r is Ok ==> r->Ok_0 == old(state).pending_txs@[position_of(old(state).pending_txs@, tx_id)],
        old(state).wf() ==> final(state).wf(),
{
    if info.sender != state.module_account {
        return Err(ContractError::Unauthorized {  });
    }
    match position(&state.pending_txs, tx_id) {
        Some(index) => {
            proof {
                lemma_first_match_unique(state.pending_txs@, tx_id, index as int);
                if state.wf() {
                    lemma_remove_keeps(
                        state.pending_txs@,
                        state.fulfilled_txs@,
                        index as int,
                        state.next_id,
                    );
                }
            }
            Ok(state.pending_txs.remove(index))
        },
        None => Err(ContractError::TransactionNotFound { id: tx_id }),
    }
}

/// Removes and returns the fulfilled record with this id, once its market
/// maker has been reimbursed. Only the module account may remove.
pub fn remove_fulfilled_tx(state: &mut State, info: &MessageInfo, tx_id: u64) -> (r: Result<
    Tx,
    ContractError,
>)
    ensures
        remove_fulfilled_tx_post(*old(state), info.sender, tx_id, unit_of(r), *final(state)),
        r is Ok ==> r->Ok_0 == old(state).fulfilled_txs@[position_of(
            old(state).fulfilled_txs@,
            tx_id,
        )],
        old(state).wf() ==> final(state).wf(),
{
    if info.sender != state.module_account {
        return Err(ContractError::Unauthorized {  });
    }
    match position(&state.fulfilled_txs, tx_id) {
        Some(index) => {
            proof {
                lemma_first_match_unique(state.fulfilled_txs@, tx_id, index as int);
                if state.wf() {
                    lemma_remove_keeps_distinct(
                        state.fulfilled_txs@,
                        state.pending_txs@,
                        index as int,
                        state.next_id,
                    );
                }
            }
            Ok(state.fulfilled_txs.remove(index))
        },
        None => Err(ContractError::TransactionNotFound { id: tx_id }),
    }
}

} // verus!
