//! A CosmWasm contract that pays a fixed, price-adjusted amount to its
//! owner once an interchain TWAP query answers, and donates the rest of its
//! balance to the community pool.
//!
//! The library holds the contract's decisions as verified functions over a
//! model of its storage; reading and writing chain storage, querying balances
//! and the JSON layer live in the application crate around it.

pub mod error;
pub mod ack;
pub mod msg;
pub mod types;
pub mod state;
pub mod text;
pub mod proto;
pub mod contract;
pub mod ibc;
pub mod laws;
