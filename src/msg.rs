use vstd::prelude::*;

use crate::execute::Tx;
use crate::host::Coin;

verus! {

/// Sets up the order book with the module account that may edit it.
#[derive(Debug, PartialEq, Eq)]
pub struct InstantiateMsg {
    pub module_account: String,
}

/// The operations that callers send to the order book.
#[derive(Debug, PartialEq, Eq)]
pub enum ExecuteMsg {
    /// Submit a pending record (module account only).
    AddTx { destination_addr: String, output_coin: Coin },
    /// Claim a pending record, attaching the coin to send (anyone).
    FulfillTx { tx_id: u64 },
    /// Drop a pending record (module account only).
    RemoveTx { tx_id: u64 },
    /// Drop a fulfilled record once its market maker is paid (module account only).
    RemoveFulfilledTx { tx_id: u64 },
}

/// Migration carries no options: there is nothing to migrate yet.
#[derive(Debug, PartialEq, Eq)]
pub struct MigrateMsg {}

/// The read-only views of the order book.
#[derive(Debug, PartialEq, Eq)]
pub enum QueryMsg {
    GetPendingTxs {},
    GetFulfilledTxs {},
}

/// A snapshot of one of the two lists, in list order.
#[derive(Debug, PartialEq, Eq)]
pub struct GetTxsResponse {
    pub txs: Vec<Tx>,
}

} // verus!
