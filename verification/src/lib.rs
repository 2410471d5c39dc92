//! Decisions of the gas-donation worker: which wallets to fund, by how much,
//! how failed attempts are retried, and how suspicious activity is recorded.
pub mod wei;
pub mod retry;
pub mod error;
pub mod address;
pub mod gas;
pub mod wallet;
pub mod activity;
