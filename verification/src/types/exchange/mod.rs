//! Types of the exchange endpoint.
pub mod base;
pub mod order;
