//! Signatures as sent to the exchange.
use vstd::prelude::*;

verus! {

/// An Ethereum ECDSA signature as sent to the exchange: `r` and `s` as
/// `0x`-prefixed hexadecimal numerals and the recovery byte `v` (27 or 28).
#[derive(Debug, Clone)]
pub struct Eip712Signature {
    pub r: String,
    pub s: String,
    pub v: u8,
}

} // verus!
