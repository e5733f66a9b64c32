//! A token faucet ledger: an owner funds a pool of fungible-token credits,
//! accounts draw from it up to a per-account cap, and the books are settled
//! only once the token contract has answered the transfer.
//!
//! Every entry point takes what the host would supply (the calling account,
//! the attached deposit) as plain arguments and answers with a `Result`, so
//! the bookkeeping can be stated and proved without a host.

pub mod accounts;
pub mod contract;
pub mod laws;
pub mod model;
pub mod totals;
pub mod types;

pub use accounts::AccountBook;
pub use contract::{FaucetContract, FaucetInfo, FungibleTokenReceiver, TransferRequest};
pub use types::{FaucetError, StorageKey, FAUCET_CALLBACK_GAS, FT_TRANSFER_GAS, ONE_YOCTO_NEAR};
