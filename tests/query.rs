use catalyst::execute::{add_pending_tx, move_pending_tx_to_fulfilled_tx};
use catalyst::host::{Coin, MessageInfo, Reply, SubMsgResult};
use catalyst::query::{query_fulfilled_txs, query_pending_txs};
use catalyst::state::{FulfillState, State};

fn three_pending_one_fulfilled() -> State {
    let info = MessageInfo {
        sender: "module_account".to_string(),
        funds: vec![Coin { denom: "token".to_string(), amount: 2 }],
    };
    let owner = "owner".to_string();
    let output_coin = Coin { denom: "token".to_string(), amount: 100 };
    let mut state = State {
        module_account: "module_account".to_string(),
        pending_txs: vec![],
        fulfilled_txs: vec![],
        next_id: 0,
    };
    for _ in 0..3 {
        add_pending_tx(&mut state, &info, owner.clone(), output_coin.clone()).unwrap();
    }
    let msg = Reply { id: 0, result: SubMsgResult::Success };
    move_pending_tx_to_fulfilled_tx(
        &mut state,
        msg,
        FulfillState { fulfiller_addr: info.sender.clone() },
    )
    .unwrap();
    state
}

#[test]
fn test_query_pending_txs() {
    let state = three_pending_one_fulfilled();
    let response = query_pending_txs(&state);
    assert_eq!(response.txs.len(), 2);
}

#[test]
fn test_query_fulfilled_txs() {
    let state = three_pending_one_fulfilled();
    let response = query_fulfilled_txs(&state);
    assert_eq!(response.txs.len(), 1);
}

#[test]
fn query_pending_txs_twice_agrees() {
    let state = three_pending_one_fulfilled();
    let first = query_pending_txs(&state);
    let second = query_pending_txs(&state);
    assert_eq!(first, second);
    let ids: Vec<u64> = first.txs.iter().map(|tx| tx.id).collect();
    assert_eq!(ids, vec![1, 2]);
}
