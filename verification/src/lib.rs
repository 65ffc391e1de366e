//! A recurring-purchase ("dollar-cost-averaging") order book driven by keeper
//! bots: users deposit a source asset and declare a target asset, an interval
//! and a per-purchase amount; keepers trigger purchases, paid from a per-user
//! tip balance.
//!
//! The library is the pure core of the contract: every handler is a function
//! from the loaded state and the invocation's inputs to the new state, the
//! outbound transfer/swap instructions and an event record, or exactly one
//! error. Storage, address validation, allowance queries and message
//! serialization are the host's job and stay outside.
pub mod asset;
pub mod contract;
pub mod dca;
pub mod decimal;
pub mod error;
pub mod get_token_allowance;
pub mod handlers;
pub mod laws;
pub mod queries;
pub mod response;
pub mod router;
pub mod search;
pub mod state;
pub mod text;
