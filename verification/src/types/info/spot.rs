//! Plain response types of the spot queries of the info endpoint.
use vstd::prelude::*;

verus! {

#[derive(Debug, Clone)]
pub struct EvmContract {
    pub address: String,
    pub evm_extra_wei_decimals: i64,
}

#[derive(Debug, Clone)]
pub struct SpotMarket {
    pub name: String,
    pub tokens: [u32; 2],
    pub index: u32,
    pub is_canonical: bool,
}

#[derive(Debug, Clone)]
pub struct TokenSpec {
    pub name: String,
    pub sz_decimals: u8,
    pub wei_decimals: u8,
}

/// Response type for POST /info with type "spotMeta"
#[derive(Debug, Clone)]
pub struct SpotToken {
    pub name: String,
    pub sz_decimals: u8,
    pub wei_decimals: u8,
    pub index: u32,
    pub token_id: String,
    pub is_canonical: bool,
    pub evm_contract: Option<EvmContract>,
    pub full_name: Option<String>,
    pub deployer_trading_fee_share: String,
}

#[derive(Debug, Clone)]
pub struct SpotMetadata {
    pub tokens: Vec<SpotToken>,
    pub universe: Vec<SpotMarket>,
}

/// Response type for POST /info with type "spotMetaAndAssetCtxs"
#[derive(Debug, Clone)]
pub struct SpotAssetContext {
    pub day_ntl_vlm: String,
    pub mark_px: Option<String>,
    pub mid_px: Option<String>,
    pub prev_day_px: Option<String>,
}

pub type SpotMetaAndAssetContexts = (SpotMetadata, Vec<SpotAssetContext>);

/// Response type for POST /info with type "spotClearinghouseState"
#[derive(Debug, Clone)]
pub struct SpotBalance {
    pub coin: String,
    pub token: i64,
    pub hold: String,
    pub total: String,
    pub entry_ntl: String,
}

#[derive(Debug, Clone)]
pub struct SpotClearinghouseState {
    pub balances: Vec<SpotBalance>,
}

#[derive(Debug, Clone)]
pub struct DeployState {
    pub token: i64,
    pub spec: TokenSpec,
    pub full_name: String,
    pub spots: Vec<u32>,
    pub max_supply: u64,
    pub hyperliquidity_genesis_balance: u64,
    pub total_genesis_balance_wei: u64,
    /// Array of [address, balance] pairs
    pub user_genesis_balances: Vec<(String, String)>,
    /// Array of [token_id, balance] pairs
    pub existing_token_genesis_balances: Vec<(i64, String)>,
}

#[derive(Debug, Clone)]
pub struct GasAuction {
    pub start_time_seconds: u64,
    pub duration_seconds: u64,
    pub start_gas: String,
    pub current_gas: Option<String>,
    pub end_gas: String,
}

#[derive(Debug, Clone)]
pub struct SpotDeployState {
    pub states: Vec<DeployState>,
    pub gas_auction: GasAuction,
}

/// Response type for POST /info with type "spotPairDeployAuctionStatus"
#[derive(Debug, Clone)]
pub struct SpotPairDeployAuctionStatus {
    pub start_time_seconds: u64,
    pub duration_seconds: u64,
    pub start_gas: String,
    pub current_gas: Option<String>,
    pub end_gas: Option<String>,
}

/// Response type for POST /info with type "tokenDetails"
#[derive(Debug, Clone)]
pub struct TokenGenesis {
    /// Array of [address, balance] pairs
    pub user_balances: Vec<(String, String)>,
    pub existing_token_balances: Vec<String>,
}

#[derive(Debug, Clone)]
pub struct TokenDetails {
    pub name: String,
    pub max_supply: String,
    pub total_supply: String,
    pub circulating_supply: String,
    pub sz_decimals: u8,
    pub wei_decimals: u8,
    pub mid_px: String,
    pub mark_px: String,
    pub prev_day_px: String,
    pub genesis: TokenGenesis,
    pub deployer: String,
    pub deploy_gas: String,
    pub deploy_time: String,
    pub seeded_usdc: String,
    pub non_circulating_user_balances: Vec<String>,
    pub future_emissions: String,
}

} // verus!
