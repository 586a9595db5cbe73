//! Ready-made clients and addresses for trying the library out.
use vstd::prelude::*;
use crate::client::{testnet_url, mainnet_url, ClientView, HyperliquidClient};
use crate::error::HyperliquidError;
use crate::types::chain::NetworkType;

verus! {

/// A testnet client without a wallet.
pub fn testnet_client() -> (res: Result<HyperliquidClient, HyperliquidError>)
    ensures
        res matches Ok(c) && c@ == (ClientView {
            network: NetworkType::Testnet,
            base_url: testnet_url(),
            ws_endpoint: None,
            wallet: None,
        }),
{
    let mut b = HyperliquidClient::builder();
    b.testnet();
    b.build()
}

/// A mainnet client without a wallet.
pub fn mainnet_client() -> (res: Result<HyperliquidClient, HyperliquidError>)
    ensures
        res matches Ok(c) && c@ == (ClientView {
            network: NetworkType::Mainnet,
            base_url: mainnet_url(),
            ws_endpoint: None,
            wallet: None,
        }),
{
    let mut b = HyperliquidClient::builder();
    b.mainnet();
    b.build()
}

/// An example user address.
pub fn user() -> (s: String)
    ensures
        s@ == "0x06B825B202450B598E962AA3F0816e8d336337d9"@,
{
    String::from_str("0x06B825B202450B598E962AA3F0816e8d336337d9")
}

/// An example builder address.
pub fn builder() -> (s: String)
    ensures
        s@ == "0xeCe9Aa540e6dA813aF0356342E45167A67F54962"@,
{
    String::from_str("0xeCe9Aa540e6dA813aF0356342E45167A67F54962")
}

/// No vault: the empty string.
pub fn vault_address() -> (s: String)
    ensures
        s@ == Seq::<char>::empty(),
{
    String::new()
}

} // verus!
