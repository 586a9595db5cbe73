//! Types of the info endpoint.
pub mod perpetual;
pub mod spot;
pub mod user;
