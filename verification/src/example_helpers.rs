//! Addresses and client configurations used by the examples.
use vstd::prelude::*;
use crate::client::{mainnet_url, testnet_url, ws_url, ClientView, HyperliquidClient};
use crate::error::HyperliquidError;
use crate::signature::sign::Wallet;
use crate::types::chain::NetworkType;

verus! {

/// A testnet client with a wallet and the testnet websocket endpoint.
pub fn testnet_client_with(signer: Wallet) -> (res: Result<HyperliquidClient, HyperliquidError>)
    ensures
        res matches Ok(c) && c@ == (ClientView {
            network: NetworkType::Testnet,
            base_url: testnet_url(),
            ws_endpoint: Some(ws_url(NetworkType::Testnet)),
            wallet: Some(signer.secret()),
        }),
{
    let mut b = HyperliquidClient::builder();
    b.testnet().with_wallet(signer).with_subscriptions();
    b.build()
}

/// A mainnet client with a wallet and the mainnet websocket endpoint.
pub fn mainnet_client_with(signer: Wallet) -> (res: Result<HyperliquidClient, HyperliquidError>)
    ensures
        res matches Ok(c) && c@ == (ClientView {
            network: NetworkType::Mainnet,
            base_url: mainnet_url(),
            ws_endpoint: Some(ws_url(NetworkType::Mainnet)),
            wallet: Some(signer.secret()),
        }),
{
    let mut b = HyperliquidClient::builder();
    b.mainnet().with_wallet(signer).with_subscriptions();
    b.build()
}

/// An example user address.
pub fn user() -> (s: String)
    ensures
        s@ == "0x06B825B202450B598E962AA3F0816e8d336337d9"@,
{
    String::from_str("0x06B825B202450B598E962AA3F0816e8d336337d9")
}

/// An example builder address.
pub fn builder() -> (s: String)
    ensures
        s@ == "0xeCe9Aa540e6dA813aF0356342E45167A67F54962"@,
{
    String::from_str("0xeCe9Aa540e6dA813aF0356342E45167A67F54962")
}

/// No vault: the empty string.
pub fn vault_address() -> (s: String)
    ensures
        s@ == Seq::<char>::empty(),
{
    String::new()
}

} // verus!
