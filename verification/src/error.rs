//! The errors of the library.
use vstd::prelude::*;

verus! {

/// Declares `alloy::signers::Error`, the error of a failed signing operation.
#[verifier::external_type_specification]
#[verifier::external_body]
pub struct ExSignerError(alloy::signers::Error);

/// Declares `alloy::primitives::SignatureError`, the error of a failed signature recovery.
#[verifier::external_type_specification]
#[verifier::external_body]
pub struct ExSignatureError(alloy::primitives::SignatureError);

/// Errors of the subscription bookkeeping.
#[derive(Debug, Clone)]
pub enum SubscriptionError {
    SubscriptionExist { method: String },
    MissingSubscription(crate::types::ws::SubscriptionKey),
}

/// The errors of the library. Errors of the transport, serialisation and
/// channel layers, which the library itself does not produce, carry the
/// message of the underlying error.
#[derive(Debug)]
pub enum HyperliquidError {
    NetworkError(String),
    InvalidResponse(String),
    Api { status: u16, body: String },
    InvalidRequestParameter { method: String, parameter: String, reason: String },
    SubscriptionError(SubscriptionError),
    SignerRequired,
    SendError(String),
    RecvError(String),
    WebSocketError(String),
    AlloySignError(alloy::signers::Error),
    RmpSerde(String),
    FromUtf8Error(String),
    IoError(String),
    TungsteniteError(String),
    SignatureError(alloy::primitives::SignatureError),
    MissingConfiguration { parameter: String },
    JsonSerialization(String),
    Internal(String),
    InvalidPrice(String),
    SignatureFailure(String),
    Wallet(String),
    GenericParse(String),
}

pub type Result<T> = core::result::Result<T, HyperliquidError>;

} // verus!
