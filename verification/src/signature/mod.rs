//! Hashing and signing of exchange actions.
pub mod eip712;
pub mod sign;
