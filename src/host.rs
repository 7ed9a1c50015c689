//! Plain values exchanged with the host chain: funds, caller information,
//! the outcome of a deferred transfer and the request to make one.
use vstd::prelude::*;

verus! {

/// An amount of one denomination.
#[derive(Debug, PartialEq, Eq)]
pub struct Coin {
    pub denom: String,
    pub amount: u128,
}

impl Clone for Coin {
    fn clone(&self) -> (r: Coin)
        ensures
            r == *self,
    {
        Coin { denom: self.denom.clone(), amount: self.amount }
    }
}

/// Who sent the current message, and the funds attached to it.
#[derive(Debug, PartialEq, Eq)]
pub struct MessageInfo {
    pub sender: String,
    pub funds: Vec<Coin>,
}

/// Outcome of a deferred transfer, as the host reports it.
#[derive(Debug, PartialEq, Eq)]
pub enum SubMsgResult {
    Success,
    Failure(String),
}

/// The host's callback for a deferred transfer: the correlation id it was
/// issued with and its outcome.
#[derive(Debug, PartialEq, Eq)]
pub struct Reply {
    pub id: u64,
    pub result: SubMsgResult,
}

/// A request to the host: send `amount` to `to_address`, and report back
/// under `reply_id` once the send has succeeded.
#[derive(Debug, PartialEq, Eq)]
pub struct TransferRequest {
    pub reply_id: u64,
    pub to_address: String,
    pub amount: Coin,
}

} // verus!
