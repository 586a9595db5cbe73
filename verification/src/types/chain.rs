//! The networks a client can talk to.
use vstd::prelude::*;

verus! {

/// The Hyperliquid network a client talks to.
#[derive(Clone, Copy, Debug, PartialEq, Eq, Structural)]
pub enum NetworkType {
    Mainnet,
    Testnet,
}

impl NetworkType {
    /// The chain id used in the EIP-712 domain of user-signed actions.
    pub open spec fn spec_signature_chain_id(self) -> u64 {
        match self {
            NetworkType::Mainnet => 42161,
            NetworkType::Testnet => 421614,
        }
    }

    /// The name of the network as it appears in user-signed actions.
    pub open spec fn spec_hyperliquid_chain(self) -> Seq<char> {
        match self {
            NetworkType::Mainnet => "Mainnet"@,
            NetworkType::Testnet => "Testnet"@,
        }
    }

    pub fn signature_chain_id(&self) -> (id: u64)
        ensures
            id == self.spec_signature_chain_id(),
    {
        match self {
            NetworkType::Mainnet => 42161,
            NetworkType::Testnet => 421_614,
        }
    }

    pub fn hyperliquid_chain(&self) -> (name: String)
        ensures
            name@ == self.spec_hyperliquid_chain(),
    {
        match self {
            NetworkType::Mainnet => String::from_str("Mainnet"),
            NetworkType::Testnet => String::from_str("Testnet"),
        }
    }
}

} // verus!
