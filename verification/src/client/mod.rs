//! The client configuration: the API endpoint, the network, the websocket
//! endpoint and the optional wallet, and the builder that assembles it.
use vstd::prelude::*;
use crate::utils::opt_string_view;
use crate::api::exchange::ExchangeApi;
use crate::api::info::InfoApi;
use crate::error::HyperliquidError;
use crate::signature::sign::Wallet;
use crate::types::chain::NetworkType;

verus! {

/// The secret key of an optional wallet.
pub open spec fn opt_wallet_view(o: Option<Wallet>) -> Option<Seq<u8>> {
    match o {
        Some(w) => Some(w.secret()),
        None => None,
    }
}

/// The mainnet REST endpoint.
pub open spec fn mainnet_url() -> Seq<char> {
    "https://api.hyperliquid.xyz"@
}

/// The testnet REST endpoint.
pub open spec fn testnet_url() -> Seq<char> {
    "https://api.hyperliquid-testnet.xyz"@
}

/// The websocket endpoint of a network.
pub open spec fn ws_url(network: NetworkType) -> Seq<char> {
    match network {
        NetworkType::Mainnet => "wss://api.hyperliquid.xyz/ws"@,
        NetworkType::Testnet => "wss://api.hyperliquid-testnet.xyz/ws"@,
    }
}

/// A configured client: where requests go, on which network, and with
/// which wallet they are signed.
pub struct HyperliquidClient {
    network: NetworkType,
    base_url: String,
    ws_endpoint: Option<String>,
    wallet: Option<Wallet>,
}

/// The view of a client.
pub struct ClientView {
    pub network: NetworkType,
    pub base_url: Seq<char>,
    pub ws_endpoint: Option<Seq<char>>,
    pub wallet: Option<Seq<u8>>,
}

impl View for HyperliquidClient {
    type V = ClientView;

    closed spec fn view(&self) -> ClientView {
        ClientView {
            network: self.network,
            base_url: self.base_url@,
            ws_endpoint: opt_string_view(self.ws_endpoint),
            wallet: opt_wallet_view(self.wallet),
        }
    }
}

impl HyperliquidClient {
    pub fn new(
        network: NetworkType,
        base_url: String,
        ws_endpoint: Option<String>,
        wallet: Option<Wallet>,
    ) -> (c: HyperliquidClient)
        ensures
            c@ == (ClientView {
                network,
                base_url: base_url@,
                ws_endpoint: opt_string_view(ws_endpoint),
                wallet: opt_wallet_view(wallet),
            }),
    {
        HyperliquidClient { network, base_url, ws_endpoint, wallet }
    }

    pub fn builder() -> (b: HyperliquidClientBuilder)
        ensures
            b@ == HyperliquidClientBuilder::empty_view(),
    {
        HyperliquidClientBuilder::new()
    }

    pub fn base_url(&self) -> (u: &str)
        ensures
            u@ == self@.base_url,
    {
        self.base_url.as_str()
    }

    /// The wallet that signs exchange actions, if any.
    pub fn signer(&self) -> (w: Option<&Wallet>)
        ensures
            match w {
                Some(w) => self@.wallet == Some(w.secret()),
                None => self@.wallet is None,
            },
    {
        match &self.wallet {
            Some(w) => Some(w),
            None => None,
        }
    }

    pub fn network_type(&self) -> (n: NetworkType)
        ensures
            n == self@.network,
    {
        self.network
    }

    pub fn is_mainnet(&self) -> (b: bool)
        ensures
            b == (self@.network == NetworkType::Mainnet),
    {
        match self.network {
            NetworkType::Mainnet => true,
            NetworkType::Testnet => false,
        }
    }

    pub fn ws_endpoint(&self) -> (e: Option<&str>)
        ensures
            match e {
                Some(s) => self@.ws_endpoint == Some(s@),
                None => self@.ws_endpoint is None,
            },
    {
        match &self.ws_endpoint {
            Some(s) => Some(s.as_str()),
            None => None,
        }
    }

    pub fn info(&self) -> (api: InfoApi<'_>)
        ensures
            api.client() == self,
    {
        InfoApi::new(self)
    }

    pub fn exchange(&self) -> (api: ExchangeApi<'_>)
        ensures
            api.client() == self,
    {
        ExchangeApi::new(self)
    }
}

/// Builder for configuring and producing a [`HyperliquidClient`].
pub struct HyperliquidClientBuilder {
    base_url: Option<String>,
    network: Option<NetworkType>,
    wallet: Option<Wallet>,
    ws_endpoint: Option<String>,
}

/// The view of a builder: what has been configured so far.
pub struct BuilderView {
    pub base_url: Option<Seq<char>>,
    pub network: Option<NetworkType>,
    pub wallet: Option<Seq<u8>>,
    pub ws_endpoint: Option<Seq<char>>,
}

impl View for HyperliquidClientBuilder {
    type V = BuilderView;

    closed spec fn view(&self) -> BuilderView {
        BuilderView {
            base_url: opt_string_view(self.base_url),
            network: self.network,
            wallet: opt_wallet_view(self.wallet),
            ws_endpoint: opt_string_view(self.ws_endpoint),
        }
    }
}

impl Default for HyperliquidClientBuilder {
    fn default() -> (b: Self)
        ensures
            b@ == HyperliquidClientBuilder::empty_view(),
    {
        Self::new()
    }
}

impl HyperliquidClientBuilder {
    /// The view of a builder with nothing configured.
    pub open spec fn empty_view() -> BuilderView {
        BuilderView { base_url: None, network: None, wallet: None, ws_endpoint: None }
    }

    pub fn new() -> (b: Self)
        ensures
            b@ == Self::empty_view(),
    {
        HyperliquidClientBuilder { base_url: None, network: None, wallet: None, ws_endpoint: None }
    }

    /// Targets the testnet endpoint.
    pub fn testnet(&mut self) -> (r: &mut Self)
        ensures
            r@ == (BuilderView {
                base_url: Some(testnet_url()),
                network: Some(NetworkType::Testnet),
                ..old(self)@
            }),
            final(self)@ == final(r)@,
    {
        self.base_url = Some(String::from_str("https://api.hyperliquid-testnet.xyz"));
        self.network = Some(NetworkType::Testnet);
        self
    }

    /// Targets the mainnet endpoint.
    pub fn mainnet(&mut self) -> (r: &mut Self)
        ensures
            r@ == (BuilderView {
                base_url: Some(mainnet_url()),
                network: Some(NetworkType::Mainnet),
                ..old(self)@
            }),
            final(self)@ == final(r)@,
    {
        self.base_url = Some(String::from_str("https://api.hyperliquid.xyz"));
        self.network = Some(NetworkType::Mainnet);
        self
    }

    /// Sends requests to a custom endpoint; the network is left as it is.
    pub fn with_custom_url(&mut self, endpoint: String) -> (r: &mut Self)
        ensures
            r@ == (BuilderView { base_url: Some(endpoint@), ..old(self)@ }),
            final(self)@ == final(r)@,
    {
        self.base_url = Some(endpoint);
        self
    }

    /// Signs exchange actions with the given wallet.
    pub fn with_wallet(&mut self, signer: Wallet) -> (r: &mut Self)
        ensures
            r@ == (BuilderView { wallet: Some(signer.secret()), ..old(self)@ }),
            final(self)@ == final(r)@,
    {
        self.wallet = Some(signer);
        self
    }

    /// Sets the websocket endpoint of the chosen network; a network must
    /// have been chosen first.
    pub fn with_subscriptions(&mut self) -> (r: &mut Self)
        requires
            old(self)@.network is Some,
        ensures
            r@ == (BuilderView { ws_endpoint: Some(ws_url(old(self)@.network->0)), ..old(self)@ }),
            final(self)@ == final(r)@,
    {
        match self.network {
            Some(NetworkType::Mainnet) => {
                self.ws_endpoint = Some(String::from_str("wss://api.hyperliquid.xyz/ws"));
            },
            Some(NetworkType::Testnet) => {
                self.ws_endpoint = Some(String::from_str("wss://api.hyperliquid-testnet.xyz/ws"));
            },
            None => {},
        }
        self
    }

    /// Builds the client: an endpoint is required, and the network defaults
    /// to testnet.
    pub fn build(&self) -> (res: Result<HyperliquidClient, HyperliquidError>)
        ensures
            match self@.base_url {
                None => res matches Err(HyperliquidError::MissingConfiguration { parameter })
                    && parameter@ == "Must create client with mainnet or testnet configuration."@,
                Some(url) => res matches Ok(c) && c@ == (ClientView {
                    network: match self@.network {
                        Some(n) => n,
                        None => NetworkType::Testnet,
                    },
                    base_url: url,
                    ws_endpoint: self@.ws_endpoint,
                    wallet: self@.wallet,
                }),
            },
    {
        let base_url = match &self.base_url {
            Some(u) => u.clone(),
            None => {
                return Err(
                    HyperliquidError::MissingConfiguration {
                        parameter: String::from_str("Must create client with mainnet or testnet configuration."),
                    },
                );
            },
        };
        let network = match self.network {
            Some(n) => n,
            None => NetworkType::Testnet,
        };
        let ws_endpoint = match &self.ws_endpoint {
            Some(e) => Some(e.clone()),
            None => None,
        };
        let wallet = match &self.wallet {
            Some(w) => Some(w.clone()),
            None => None,
        };
        Ok(HyperliquidClient::new(network, base_url, ws_endpoint, wallet))
    }
}

} // verus!
