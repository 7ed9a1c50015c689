use catalyst::contract::{execute, instantiate, migrate, query, reply, ReplyOutcome};
use catalyst::execute::Tx;
use catalyst::host::{Coin, MessageInfo, Reply, SubMsgResult};
use catalyst::msg::{ExecuteMsg, InstantiateMsg, MigrateMsg, QueryMsg};
use catalyst::state::Store;
use catalyst::ContractError;

fn info(sender: &str, funds: Vec<Coin>) -> MessageInfo {
    MessageInfo { sender: sender.to_string(), funds }
}

fn coin(amount: u128, denom: &str) -> Coin {
    Coin { denom: denom.to_string(), amount }
}

fn setup() -> Store {
    instantiate(InstantiateMsg { module_account: "module_account".to_string() })
}

fn pending(store: &Store) -> Vec<Tx> {
    query(&store.state, QueryMsg::GetPendingTxs {}).txs
}

fn fulfilled(store: &Store) -> Vec<Tx> {
    query(&store.state, QueryMsg::GetFulfilledTxs {}).txs
}

fn add(store: &mut Store, dest: &str, output_coin: Coin) {
    let msg = ExecuteMsg::AddTx { destination_addr: dest.to_string(), output_coin };
    assert_eq!(execute(store, &info("module_account", vec![]), msg), Ok(None));
}

#[test]
fn tx_lifecycle_fulfilled() {
    let mut store = setup();
    let dest = "dest";
    let bob = "bob";

    add(&mut store, dest, coin(1_000_000, "ufoo"));
    let pending_txs = pending(&store);
    let fulfilled_txs = fulfilled(&store);
    assert_eq!(pending_txs[0].id, 1);
    assert_eq!(pending_txs[0].destination_addr, dest);
    assert_eq!(pending_txs[0].coin, coin(1_000_000, "ufoo"));
    assert_eq!(fulfilled_txs.len(), 0);

    let transfer = execute(
        &mut store,
        &info(bob, vec![coin(1_000_000, "ufoo")]),
        ExecuteMsg::FulfillTx { tx_id: 1 },
    )
    .unwrap()
    .unwrap();
    assert_eq!(transfer.to_address, dest);
    let outcome = reply(&mut store, Reply { id: transfer.reply_id, result: SubMsgResult::Success });
    assert_eq!(outcome, Ok(ReplyOutcome::Fulfilled { id: 1 }));

    let pending_txs = pending(&store);
    let fulfilled_txs = fulfilled(&store);
    assert_eq!(pending_txs.len(), 0);
    assert_eq!(fulfilled_txs[0].id, 1);
    assert_eq!(fulfilled_txs[0].destination_addr, bob);
    assert_eq!(fulfilled_txs[0].coin, coin(1_000_000, "ufoo"));
}

#[test]
fn tx_lifecycle_not_fulfilled() {
    let mut store = setup();
    let dest = "dest";

    add(&mut store, dest, coin(1_000_000, "ufoo"));
    let pending_txs = pending(&store);
    let fulfilled_txs = fulfilled(&store);
    assert_eq!(pending_txs[0].id, 1);
    assert_eq!(pending_txs[0].destination_addr, dest);
    assert_eq!(pending_txs[0].coin, coin(1_000_000, "ufoo"));
    assert_eq!(fulfilled_txs.len(), 0);

    let r = execute(&mut store, &info("module_account", vec![]), ExecuteMsg::RemoveTx { tx_id: 1 });
    assert_eq!(r, Ok(None));

    assert_eq!(pending(&store).len(), 0);
    assert_eq!(fulfilled(&store).len(), 0);
}

#[test]
fn instantiate_starts_empty_at_id_one() {
    let store = setup();
    assert_eq!(store.state.module_account, "module_account");
    assert!(store.state.pending_txs.is_empty());
    assert!(store.state.fulfilled_txs.is_empty());
    assert_eq!(store.state.next_id, 1);
    assert!(store.fulfill_reply_states.is_empty());
}

#[test]
fn submitted_ids_increase() {
    let mut store = setup();
    for k in 0..5u128 {
        add(&mut store, "d", coin(k, "u"));
    }
    let ids: Vec<u64> = pending(&store).iter().map(|tx| tx.id).collect();
    assert_eq!(ids, vec![1, 2, 3, 4, 5]);
    let r = execute(&mut store, &info("module_account", vec![]), ExecuteMsg::RemoveTx { tx_id: 5 });
    assert_eq!(r, Ok(None));
    add(&mut store, "d", coin(6, "u"));
    assert_eq!(pending(&store).last().unwrap().id, 6);
}

#[test]
fn lists_stay_disjoint() {
    let mut store = setup();
    for _ in 0..3 {
        add(&mut store, "d", coin(1, "u"));
    }
    execute(&mut store, &info("mm", vec![coin(1, "u")]), ExecuteMsg::FulfillTx { tx_id: 2 }).unwrap();
    reply(&mut store, Reply { id: 2, result: SubMsgResult::Success }).unwrap();
    let p: Vec<u64> = pending(&store).iter().map(|tx| tx.id).collect();
    let f: Vec<u64> = fulfilled(&store).iter().map(|tx| tx.id).collect();
    assert_eq!(p, vec![1, 3]);
    assert_eq!(f, vec![2]);
    assert!(p.iter().all(|id| !f.contains(id)));
}

#[test]
fn non_principal_operations_are_unauthorized() {
    let mut store = setup();
    add(&mut store, "d", coin(1, "u"));
    execute(&mut store, &info("mm", vec![coin(1, "u")]), ExecuteMsg::FulfillTx { tx_id: 1 }).unwrap();
    reply(&mut store, Reply { id: 1, result: SubMsgResult::Success }).unwrap();
    add(&mut store, "d", coin(2, "u"));
    let before_pending = pending(&store);
    let before_fulfilled = fulfilled(&store);
    let mallory = info("mallory", vec![]);
    let msgs = vec![
        ExecuteMsg::AddTx { destination_addr: "x".to_string(), output_coin: coin(3, "u") },
        ExecuteMsg::RemoveTx { tx_id: 2 },
        ExecuteMsg::RemoveFulfilledTx { tx_id: 1 },
    ];
    for msg in msgs {
        assert_eq!(execute(&mut store, &mallory, msg), Err(ContractError::Unauthorized {}));
    }
    assert_eq!(pending(&store), before_pending);
    assert_eq!(fulfilled(&store), before_fulfilled);
    assert_eq!(store.state.next_id, 3);
}

#[test]
fn claim_with_zero_or_two_coins_is_refused() {
    let mut store = setup();
    add(&mut store, "d", coin(1, "u"));
    let r0 = execute(&mut store, &info("mm", vec![]), ExecuteMsg::FulfillTx { tx_id: 1 });
    assert_eq!(r0, Err(ContractError::MultipleCoinError { num_coins: 0 }));
    let r2 = execute(
        &mut store,
        &info("mm", vec![coin(1, "u"), coin(1, "v")]),
        ExecuteMsg::FulfillTx { tx_id: 1 },
    );
    assert_eq!(r2, Err(ContractError::MultipleCoinError { num_coins: 2 }));
    assert!(store.fulfill_reply_states.is_empty());
    assert_eq!(pending(&store).len(), 1);
    assert_eq!(fulfilled(&store).len(), 0);
}

#[test]
fn finalization_moves_record_to_fulfiller() {
    let mut store = setup();
    add(&mut store, "D", coin(42, "v"));
    let transfer = execute(&mut store, &info("F", vec![coin(42, "v")]), ExecuteMsg::FulfillTx { tx_id: 1 })
        .unwrap()
        .unwrap();
    assert_eq!(transfer.reply_id, 1);
    assert_eq!(transfer.to_address, "D");
    assert_eq!(transfer.amount, coin(42, "v"));
    reply(&mut store, Reply { id: 1, result: SubMsgResult::Success }).unwrap();
    assert!(pending(&store).iter().all(|tx| tx.id != 1));
    assert_eq!(fulfilled(&store), vec![Tx { id: 1, destination_addr: "F".to_string(), coin: coin(42, "v") }]);
    assert!(store.fulfill_reply_states.is_empty());
}

#[test]
fn removal_leaves_the_other_two() {
    let mut store = setup();
    for _ in 0..3 {
        add(&mut store, "d", coin(1, "u"));
    }
    let r = execute(&mut store, &info("module_account", vec![]), ExecuteMsg::RemoveTx { tx_id: 2 });
    assert_eq!(r, Ok(None));
    let ids: Vec<u64> = pending(&store).iter().map(|tx| tx.id).collect();
    assert_eq!(ids, vec![1, 3]);
}

#[test]
fn second_success_report_is_not_found() {
    let mut store = setup();
    add(&mut store, "d", coin(1, "u"));
    execute(&mut store, &info("mm", vec![coin(1, "u")]), ExecuteMsg::FulfillTx { tx_id: 1 }).unwrap();
    assert_eq!(
        reply(&mut store, Reply { id: 1, result: SubMsgResult::Success }),
        Ok(ReplyOutcome::Fulfilled { id: 1 })
    );
    assert_eq!(
        reply(&mut store, Reply { id: 1, result: SubMsgResult::Success }),
        Err(ContractError::TransactionNotFound { id: 1 })
    );
    assert_eq!(fulfilled(&store).len(), 1);
}

#[test]
fn failed_transfer_reopens_the_record() {
    let mut store = setup();
    add(&mut store, "d", coin(1, "u"));
    execute(&mut store, &info("mm", vec![coin(1, "u")]), ExecuteMsg::FulfillTx { tx_id: 1 }).unwrap();
    let r = reply(&mut store, Reply { id: 1, result: SubMsgResult::Failure("send failed".to_string()) });
    assert_eq!(r, Ok(ReplyOutcome::TransferFailed { id: 1 }));
    assert_eq!(pending(&store).len(), 1);
    assert!(store.fulfill_reply_states.is_empty());
    let again = execute(&mut store, &info("mm2", vec![coin(1, "u")]), ExecuteMsg::FulfillTx { tx_id: 1 });
    assert!(again.is_ok());
}

#[test]
fn reply_for_removed_record_is_not_found() {
    let mut store = setup();
    add(&mut store, "d", coin(1, "u"));
    execute(&mut store, &info("mm", vec![coin(1, "u")]), ExecuteMsg::FulfillTx { tx_id: 1 }).unwrap();
    execute(&mut store, &info("module_account", vec![]), ExecuteMsg::RemoveTx { tx_id: 1 }).unwrap();
    let r = reply(&mut store, Reply { id: 1, result: SubMsgResult::Success });
    assert_eq!(r, Err(ContractError::TransactionNotFound { id: 1 }));
    assert_eq!(store.fulfill_reply_states.len(), 1);
    assert_eq!(fulfilled(&store).len(), 0);
}

#[test]
fn reply_without_claim_is_not_found() {
    let mut store = setup();
    add(&mut store, "d", coin(1, "u"));
    let r = reply(&mut store, Reply { id: 1, result: SubMsgResult::Success });
    assert_eq!(r, Err(ContractError::TransactionNotFound { id: 1 }));
    assert_eq!(pending(&store).len(), 1);
}

#[test]
fn remove_fulfilled_through_execute() {
    let mut store = setup();
    add(&mut store, "d", coin(1, "u"));
    execute(&mut store, &info("mm", vec![coin(1, "u")]), ExecuteMsg::FulfillTx { tx_id: 1 }).unwrap();
    reply(&mut store, Reply { id: 1, result: SubMsgResult::Success }).unwrap();
    let r = execute(&mut store, &info("module_account", vec![]), ExecuteMsg::RemoveFulfilledTx { tx_id: 1 });
    assert_eq!(r, Ok(None));
    assert_eq!(fulfilled(&store).len(), 0);
}

#[test]
fn migrate_succeeds_and_keeps_state() {
    let mut store = setup();
    add(&mut store, "d", coin(1, "u"));
    assert_eq!(migrate(&mut store, MigrateMsg {}), Ok(()));
    assert_eq!(pending(&store).len(), 1);
}
