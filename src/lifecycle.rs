//! Facts about sequences of operations on the order book.
use vstd::prelude::*;

use crate::contract::{reply_post, ReplyOutcome};
use crate::error::ContractError;
use crate::execute::{add_pending_tx_post, fulfill_pending_tx_post, Tx};
use crate::host::{Coin, MessageInfo, Reply, TransferRequest};
use crate::msg::GetTxsResponse;
use crate::query::{list_fulfilled, list_pending};
use crate::state::{has_id, lemma_increasing_first_match, position_of, State, Store};

verus! {

/// The id handed out by step `k` of a run of successful submissions.
pub open spec fn submitted_id(states: Seq<State>, k: int) -> u64 {
    states[k + 1].pending_txs@.last().id
}

/// Along a run of successful submissions the next id grows by one per step.
proof fn lemma_next_id_grows(
    states: Seq<State>,
    senders: Seq<String>,
    dests: Seq<String>,
    coins: Seq<Coin>,
    k: int,
    l: int,
)
    requires
        states.len() == dests.len() + 1,
        senders.len() == dests.len(),
        coins.len() == dests.len(),
        forall|m: int|
            0 <= m < dests.len() ==> #[trigger] add_pending_tx_post(
                states[m],
                senders[m],
                dests[m],
                coins[m],
                Ok(()),
                states[m + 1],
            ),
        0 <= k <= l <= dests.len(),
    ensures
        states[l].next_id == states[k].next_id + (l - k),
    decreases l - k,
{
    if k < l {
        let m = l - 1;
        lemma_next_id_grows(states, senders, dests, coins, k, m);
        assert(add_pending_tx_post(states[m], senders[m], dests[m], coins[m], Ok(()), states[m + 1]));
    }
}

/// Records submitted one after another get strictly increasing ids, so no
/// two of them share an id: each gets the next id, and the next id grows.
pub proof fn lemma_submitted_ids_increase(
    states: Seq<State>,
    senders: Seq<String>,
    dests: Seq<String>,
    coins: Seq<Coin>,
)
    requires
        states.len() == dests.len() + 1,
        senders.len() == dests.len(),
        coins.len() == dests.len(),
        forall|m: int|
            0 <= m < dests.len() ==> #[trigger] add_pending_tx_post(
                states[m],
                senders[m],
                dests[m],
                coins[m],
                Ok(()),
                states[m + 1],
            ),
    ensures
        forall|k: int| 0 <= k < dests.len() ==> submitted_id(states, k) == states[k].next_id,
        forall|k: int, l: int|
            0 <= k < l < dests.len() ==> submitted_id(states, k) < submitted_id(states, l),
{
    assert forall|k: int| 0 <= k < dests.len() implies submitted_id(states, k)
        == states[k].next_id by {
        assert(add_pending_tx_post(
            states[k],
            senders[k],
            dests[k],
            coins[k],
            Ok(()),
            states[k + 1],
        ));
    }
    assert forall|k: int, l: int| 0 <= k < l < dests.len() implies submitted_id(states, k)
        < submitted_id(states, l) by {
        lemma_next_id_grows(states, senders, dests, coins, k, l);
    }
}

/// In a well-formed state no record is both pending and fulfilled.
pub proof fn lemma_lists_disjoint(state: State)
    requires
        state.wf(),
    ensures
        forall|i: int, j: int|
            0 <= i < list_pending(state).len() && 0 <= j < list_fulfilled(state).len() ==> #[trigger] list_pending(state)[i].id
                != #[trigger] list_fulfilled(state)[j].id,
{
}

/// A successful claim on a pending record, followed by the host's report
/// that the transfer succeeded, takes the record off the pending list and
/// appends it to the fulfilled list with the claimant as its destination and
/// its coin unchanged.
pub proof fn lemma_claim_then_confirm(
    s0: Store,
    info: MessageInfo,
    tx_id: u64,
    transfer: TransferRequest,
    s1: Store,
    msg: Reply,
    r: Result<ReplyOutcome, ContractError>,
    s2: Store,
)
    requires
        s0.state.wf(),
        fulfill_pending_tx_post(s0, info, tx_id, Ok(transfer), s1),
        msg.id == tx_id,
        msg.result is Success,
        reply_post(s1, msg, r, s2),
    ensures
        r == Ok::<ReplyOutcome, ContractError>(ReplyOutcome::Fulfilled { id: tx_id }),
        !has_id(list_pending(s2.state), tx_id),
        list_fulfilled(s2.state) == list_fulfilled(s0.state).push(
            Tx {
                id: tx_id,
                destination_addr: info.sender,
                coin: list_pending(s0.state)[position_of(list_pending(s0.state), tx_id)].coin,
            },
        ),
        !s2.fulfill_reply_states@.contains_key(tx_id),
{
    let p = s0.state.pending_txs@;
    lemma_increasing_first_match(p, tx_id);
    let i = position_of(p, tx_id);
    let np = s2.state.pending_txs@;
    assert forall|a: int| 0 <= a < np.len() implies np[a].id != tx_id by {
        let a0 = if a < i { a } else { a + 1 };
        assert(np[a] == p[a0]);
    }
}

/// Once a transfer's success has been handled, a second report of it fails
/// with `TransactionNotFound` and changes nothing, so the record is never
/// fulfilled twice.
pub proof fn lemma_no_double_finalize(
    s0: Store,
    msg: Reply,
    r1: Result<ReplyOutcome, ContractError>,
    s1: Store,
    r2: Result<ReplyOutcome, ContractError>,
    s2: Store,
)
    requires
        msg.result is Success,
        reply_post(s0, msg, r1, s1),
        r1 is Ok,
        reply_post(s1, msg, r2, s2),
    ensures
        r2 == Err::<ReplyOutcome, ContractError>(ContractError::TransactionNotFound { id: msg.id }),
        s2 == s1,
{
}

/// Two queries of the pending list with no change in between agree.
pub proof fn lemma_query_pending_idempotent(state: State, r1: GetTxsResponse, r2: GetTxsResponse)
    requires
        r1.txs@ == list_pending(state),
        r2.txs@ == list_pending(state),
    ensures
        r1.txs@ == r2.txs@,
{
}

} // verus!
