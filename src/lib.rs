//! Escrow order book for cross-chain bridging.
//!
//! A module account records pending incoming transfers; any market maker may
//! advance the funds to the destination, and once the host confirms that
//! transfer the record moves to the fulfilled list, now naming the market
//! maker as the party to reimburse.
pub mod contract;
pub mod error;
pub mod execute;
pub mod host;
pub mod lifecycle;
pub mod msg;
pub mod query;
pub mod state;

pub use crate::error::ContractError;
