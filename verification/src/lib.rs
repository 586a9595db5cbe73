//! A client library for the Hyperliquid exchange: request and response types,
//! EIP-712 and L1 action signing, request payload construction and the
//! bookkeeping of websocket subscriptions.
pub mod api;
pub mod chain;
pub mod cli;
pub mod client;
pub mod error;
pub mod example_helpers;
pub mod helpers;
pub mod signature;
pub mod tui;
pub mod types;
pub mod utils;
