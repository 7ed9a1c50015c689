use vstd::prelude::*;

use std::collections::HashMap;

use crate::error::ContractError;
use crate::execute::{
    add_pending_tx, add_pending_tx_post, fulfill_pending_tx, fulfill_pending_tx_post,
    move_pending_tx_to_fulfilled_tx, moved_to_fulfilled, remove_fulfilled_tx,
    remove_fulfilled_tx_post, remove_pending_tx, remove_pending_tx_post, unit_of,
};
use crate::host::{MessageInfo, Reply, SubMsgResult, TransferRequest};
use crate::msg::{ExecuteMsg, GetTxsResponse, InstantiateMsg, MigrateMsg, QueryMsg};
use crate::query::{list_fulfilled, list_pending, query_fulfilled_txs, query_pending_txs};
use crate::state::{has_id, State, Store};

verus! {

broadcast use vstd::std_specs::hash::group_hash_axioms;

/// What the host's report on a transfer settled.
#[derive(Clone, Copy, Debug, PartialEq, Eq)]
pub enum ReplyOutcome {
    /// The transfer went through and the record is now fulfilled.
    Fulfilled { id: u64 },
    /// The transfer failed: the claim is dropped and the record stays
    /// pending, open to a new claim. Reported so that operators see it.
    TransferFailed { id: u64 },
}

/// What the host's report on a transfer does: the claim it answers is
/// settled, and on success the record is moved to the fulfilled list with
/// the claimant as the party to reimburse.
pub open spec fn reply_post(
    old: Store,
    msg: Reply,
    r: Result<ReplyOutcome, ContractError>,
    new: Store,
) -> bool {
    let claims = old.fulfill_reply_states@;
    if !claims.contains_key(msg.id) {
        r == Err::<ReplyOutcome, ContractError>(ContractError::TransactionNotFound { id: msg.id })
            && new == old
    } else {
        match msg.result {
            SubMsgResult::Success => {
                if !has_id(old.state.pending_txs@, msg.id) {
                    r == Err::<ReplyOutcome, ContractError>(
                        ContractError::TransactionNotFound { id: msg.id },
                    ) && new == old
                } else {
                    &&& r == Ok::<ReplyOutcome, ContractError>(
                        ReplyOutcome::Fulfilled { id: msg.id },
                    )
                    &&& moved_to_fulfilled(
                        old.state,
                        new.state,
                        msg.id,
                        claims[msg.id].fulfiller_addr,
                    )
                    &&& new.fulfill_reply_states@ == claims.remove(msg.id)
                }
            },
            SubMsgResult::Failure(_) => {
                &&& r == Ok::<ReplyOutcome, ContractError>(
                    ReplyOutcome::TransferFailed { id: msg.id },
                )
                &&& new.state == old.state
                &&& new.fulfill_reply_states@ == claims.remove(msg.id)
            },
        }
    }
}

/// An empty order book, edited by the module account that `msg` names.
/// The first record will get id 1.
pub fn instantiate(msg: InstantiateMsg) -> (r: Store)
    ensures
        r.state.module_account == msg.module_account,
        r.state.pending_txs@ == Seq::<crate::execute::Tx>::empty(),
        r.state.fulfilled_txs@ == Seq::<crate::execute::Tx>::empty(),
        r.state.next_id == 1,
        r.fulfill_reply_states@ == Map::<u64, crate::state::FulfillState>::empty(),
        r.state.wf(),
{
    Store {
        state: State {
            module_account: msg.module_account,
            pending_txs: Vec::new(),
            fulfilled_txs: Vec::new(),
            next_id: 1,
        },
        fulfill_reply_states: HashMap::new(),
    }
}

/// Migration changes nothing.
pub fn migrate(store: &mut Store, msg: MigrateMsg) -> (r: Result<(), ContractError>)
    ensures
        r is Ok,
        *final(store) == *old(store),
{
    Ok(())
}

/// Runs one operation on behalf of `info.sender`. A claim hands back the
/// transfer that the host is to make; the other operations hand back none.
pub fn execute(store: &mut Store, info: &MessageInfo, msg: ExecuteMsg) -> (r: Result<
    Option<TransferRequest>,
    ContractError,
>)
    requires
        msg is AddTx && info.sender@ == old(store).state.module_account@ ==> old(
            store,
        ).state.next_id < u64::MAX,
    ensures
        old(store).state.wf() ==> final(store).state.wf(),
        match msg {
            ExecuteMsg::AddTx { destination_addr, output_coin } => {
                &&& add_pending_tx_post(
                    old(store).state,
                    info.sender,
                    destination_addr,
                    output_coin,
                    unit_of(r),
                    final(store).state,
                )
                &&& final(store).fulfill_reply_states == old(store).fulfill_reply_states
                &&& r is Ok ==> r->Ok_0 is None
            },
            ExecuteMsg::FulfillTx { tx_id } => match r {
                Ok(Some(t)) => fulfill_pending_tx_post(
                    *old(store),
                    *info,
                    tx_id,
                    Ok(t),
                    *final(store),
                ),
                Ok(None) => false,
                Err(e) => fulfill_pending_tx_post(*old(store), *info, tx_id, Err(e), *final(store)),
            },
            ExecuteMsg::RemoveTx { tx_id } => {
                &&& remove_pending_tx_post(
                    old(store).state,
                    info.sender,
                    tx_id,
                    unit_of(r),
                    final(store).state,
                )
                &&& final(store).fulfill_reply_states == old(store).fulfill_reply_states
                &&& r is Ok ==> r->Ok_0 is None
            },
            ExecuteMsg::RemoveFulfilledTx { tx_id } => {
                &&& remove_fulfilled_tx_post(
                    old(store).state,
                    info.sender,
                    tx_id,
                    unit_of(r),
                    final(store).state,
                )
                &&& final(store).fulfill_reply_states == old(store).fulfill_reply_states
                &&& r is Ok ==> r->Ok_0 is None
            },
        },
{
    match msg {
        ExecuteMsg::AddTx { destination_addr, output_coin } => {
            match add_pending_tx(&mut store.state, info, destination_addr, output_coin) {
                Ok(()) => Ok(None),
                Err(e) => Err(e),
            }
        },
        ExecuteMsg::FulfillTx { tx_id } => match fulfill_pending_tx(store, info, tx_id) {
            Ok(t) => Ok(Some(t)),
            Err(e) => Err(e),
        },
        ExecuteMsg::RemoveTx { tx_id } => match remove_pending_tx(&mut store.state, info, tx_id) {
            Ok(_) => Ok(None),
            Err(e) => Err(e),
        },
        ExecuteMsg::RemoveFulfilledTx { tx_id } => {
            match remove_fulfilled_tx(&mut store.state, info, tx_id) {
                Ok(_) => Ok(None),
                Err(e) => Err(e),
            }
        },
    }
}

/// Answers a read-only query.
pub fn query(state: &State, msg: QueryMsg) -> (r: GetTxsResponse)
    ensures
        r.txs@ == match msg {
            QueryMsg::GetPendingTxs {  } => list_pending(*state),
            QueryMsg::GetFulfilledTxs {  } => list_fulfilled(*state),
        },
{
    match msg {
        QueryMsg::GetPendingTxs {  } => query_pending_txs(state),
        QueryMsg::GetFulfilledTxs {  } => query_fulfilled_txs(state),
    }
}

/// Handles the host's report on the transfer issued under `msg.id`. Fails,
/// changing nothing, where no claim awaits that report, or where the
/// transfer succeeded but the record is no longer pending.
pub fn reply(store: &mut Store, msg: Reply) -> (r: Result<ReplyOutcome, ContractError>)
    ensures
        reply_post(*old(store), msg, r, *final(store)),
        old(store).state.wf() ==> final(store).state.wf(),
{
    let id = msg.id;
    let fulfill_state = match store.fulfill_reply_states.get(&id) {
        Some(fs) => fs.clone(),
        None => {
            return Err(ContractError::TransactionNotFound { id });
        },
    };
    if matches!(msg.result, SubMsgResult::Success) {
        match move_pending_tx_to_fulfilled_tx(&mut store.state, msg, fulfill_state) {
            Ok(()) => {
                store.fulfill_reply_states.remove(&id);
                Ok(ReplyOutcome::Fulfilled { id })
            },
            Err(e) => Err(e),
        }
    } else {
        store.fulfill_reply_states.remove(&id);
        Ok(ReplyOutcome::TransferFailed { id })
    }
}

} // verus!
