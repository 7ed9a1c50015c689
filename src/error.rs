use vstd::prelude::*;

verus! {

/// Every way in which an operation of the order book can be refused.
///
/// A refused operation leaves the store exactly as it found it.
#[derive(Debug, PartialEq, Eq)]
pub enum ContractError {
    /// The caller is not the module account.
    Unauthorized {},
    /// A free-form error for callers of the library.
    CustomError { val: String },
    /// No record with this id in the list that the operation reads.
    TransactionNotFound { id: u64 },
    /// A claim must attach exactly one coin.
    MultipleCoinError { num_coins: usize },
    /// A claim on this record is already awaiting its transfer's outcome.
    AlreadyClaimed { id: u64 },
    /// The host reported that the transfer with this id failed.
    TransferFailed { id: u64 },
}

} // verus!
