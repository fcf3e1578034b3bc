//! The wallets table and the messages that act on it.

pub mod error;
pub mod executor;
pub mod laws;
pub mod store;
pub mod wallet;
