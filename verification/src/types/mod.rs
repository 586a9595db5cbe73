//! Request and response types of the API.
pub mod chain;
pub mod exchange;
pub mod info;
pub mod signature;
pub mod ws;
pub mod decimal;
