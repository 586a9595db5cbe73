//! Types of the websocket API: feed channels, subscription requests and
//! the data pushed on the feeds.
use vstd::prelude::*;

verus! {

/// The channels of the websocket API.
#[derive(Debug, Clone, Copy, PartialEq, Eq, Structural)]
pub enum SubscriptionKey {
    AllMids,
    Candle,
    Trades,
    L2Book,
    Notification,
    WebData3,
    TwapStates,
    OpenOrders,
    UserEvents,
    UserNonFundingLedgerUpdate,
    ActiveAssetCtx,
    ActiveAssetData,
    UserTwapSliceFills,
    UserTwapHistory,
    Bbo,
    Ping,
}

impl SubscriptionKey {
    /// The channel name under which the key is displayed.
    pub open spec fn spec_name(self) -> Seq<char> {
        match self {
            SubscriptionKey::AllMids => "allMids"@,
            SubscriptionKey::Candle => "candle"@,
            SubscriptionKey::Trades => "trades"@,
            SubscriptionKey::L2Book => "l2Book"@,
            SubscriptionKey::Notification => "notification"@,
            SubscriptionKey::WebData3 => "webData3"@,
            SubscriptionKey::TwapStates => "twapStates"@,
            SubscriptionKey::OpenOrders => "openOrders"@,
            SubscriptionKey::UserEvents => "userEvents"@,
            SubscriptionKey::UserNonFundingLedgerUpdate => "userNonFundingLedgerUpdate"@,
            SubscriptionKey::ActiveAssetCtx => "activeAssetCtx"@,
            SubscriptionKey::ActiveAssetData => "activeAssetData"@,
            SubscriptionKey::UserTwapSliceFills => "userTwapSliceFills"@,
            SubscriptionKey::UserTwapHistory => "userTwapHistory"@,
            SubscriptionKey::Bbo => "bbo"@,
            SubscriptionKey::Ping => "pong"@,
        }
    }

    /// The text the key is displayed as.
    pub fn to_string(&self) -> (s: String)
        ensures
            s@ == self.spec_name(),
    {
        match self {
            SubscriptionKey::AllMids => String::from_str("allMids"),
            SubscriptionKey::Candle => String::from_str("candle"),
            SubscriptionKey::Trades => String::from_str("trades"),
            SubscriptionKey::L2Book => String::from_str("l2Book"),
            SubscriptionKey::Notification => String::from_str("notification"),
            SubscriptionKey::WebData3 => String::from_str("webData3"),
            SubscriptionKey::TwapStates => String::from_str("twapStates"),
            SubscriptionKey::OpenOrders => String::from_str("openOrders"),
            SubscriptionKey::UserEvents => String::from_str("userEvents"),
            SubscriptionKey::UserNonFundingLedgerUpdate => String::from_str("userNonFundingLedgerUpdate"),
            SubscriptionKey::ActiveAssetCtx => String::from_str("activeAssetCtx"),
            SubscriptionKey::ActiveAssetData => String::from_str("activeAssetData"),
            SubscriptionKey::UserTwapSliceFills => String::from_str("userTwapSliceFills"),
            SubscriptionKey::UserTwapHistory => String::from_str("userTwapHistory"),
            SubscriptionKey::Bbo => String::from_str("bbo"),
            SubscriptionKey::Ping => String::from_str("pong"),
        }
    }
}

/// An error reported on the websocket.
#[derive(Debug, Clone)]
pub struct SubscriptionError {
    pub data: String,
}

/// A subscribe or unsubscribe request: the method and the subscription's JSON name.
#[derive(Debug, Clone)]
pub struct SubscriptionConfirmation {
    pub method: String,
    pub subscription: crate::api::request_util::JsonObject,
}

/// A trade on the websocket feed.
#[derive(Debug, Clone)]
pub struct WsTrade {
    pub coin: String,
    pub side: String,
    pub px: String,
    pub sz: String,
    pub hash: String,
    pub time: u64,
    /// 50-bit hash of (buyer oid, seller oid); `(block time, coin, tid)` is
    /// globally unique.
    pub tid: u64,
    /// [buyer, seller]
    pub users: [String; 2],
}

/// An order book level.
#[derive(Debug, Clone)]
pub struct WsLevel {
    /// Price.
    pub px: String,
    /// Size.
    pub sz: String,
    /// Number of orders.
    pub n: u32,
}

/// An order book snapshot, pushed on each block at least 0.5s after the last push.
#[derive(Debug, Clone)]
pub struct WsBook {
    pub coin: String,
    /// [bids, asks]
    pub levels: [Vec<WsLevel>; 2],
    pub time: u64,
}

/// Best bid and offer.
#[derive(Debug, Clone)]
pub struct WsBbo {
    pub coin: String,
    pub time: u64,
    /// [bid, ask]
    pub bbo: [Option<WsLevel>; 2],
}

/// A notification.
#[derive(Debug, Clone)]
pub struct WsNotification {
    pub notification: String,
}

/// All mid prices, by coin.
#[derive(Debug, Clone)]
pub struct WsAllMids {
    pub mids: std::collections::HashMap<String, String>,
}

/// A user's funding payments.
#[derive(Debug, Clone)]
pub struct WsUserFundings {
    pub is_snapshot: bool,
    pub user: String,
    pub fundings: Vec<Fundings>,
}

/// A funding payment.
#[derive(Debug, Clone)]
pub struct Fundings {
    pub time: u64,
    pub coin: String,
    pub usdc: String,
    pub szi: String,
    pub funding_rate: String,
}

/// A liquidation event.
#[derive(Debug, Clone)]
pub struct WsLiquidation {
    pub lid: u64,
    pub liquidator: String,
    pub liquidated_user: String,
    pub liquidated_ntl_pos: String,
    pub liquidated_account_value: String,
}

/// A cancellation not made by the user.
#[derive(Debug, Clone)]
pub struct WsNonUserCancel {
    pub coin: String,
    pub oid: u64,
}

/// An order with its status.
#[derive(Debug, Clone)]
pub struct WsOrder {
    pub order: WsBasicOrder,
    pub status: String,
    pub status_timestamp: u64,
}

/// The basic data of an order.
#[derive(Debug, Clone)]
pub struct WsBasicOrder {
    pub coin: String,
    pub side: String,
    pub limit_px: String,
    pub sz: String,
    pub oid: u64,
    pub timestamp: u64,
    pub orig_sz: String,
    pub cloid: Option<String>,
}

/// The status of a TWAP with its description.
#[derive(Debug, Clone)]
pub struct WsTwapStatusInfo {
    /// "activated" | "terminated" | "finished" | "error"
    pub status: String,
    pub description: String,
}

/// A leading vault.
#[derive(Debug, Clone)]
pub struct LeadingVault {
    pub address: String,
    pub name: String,
}

/// Candlestick data
#[derive(Debug, Clone)]
pub struct WsCandle {
    /// Open time in milliseconds
    pub t: u64,
    /// Close time in milliseconds
    pub close_time: u64,
    /// Coin
    pub s: String,
    /// Interval
    pub i: String,
    /// Open price
    pub o: String,
    /// Close price
    pub c: String,
    /// High price
    pub h: String,
    /// Low price
    pub l: String,
    /// Volume (base unit)
    pub v: String,
    /// Number of trades
    pub n: u64,
}

/// WebSocket user event
/// Can be fills, funding, liquidation, or non-user cancels
#[derive(Debug, Clone)]
pub enum WsUserEvent {
    Fills {
        fills: Vec<WsFill>,
    },
    Funding {
        funding: WsUserFundings,
    },
    Liquidation {
        liquidation: WsLiquidation,
    },
    NonUserCancel {
        non_user_cancel: Vec<WsNonUserCancel>,
    },
}

/// WebSocket user fills with optional snapshot flag
#[derive(Debug, Clone)]
pub struct WsUserFills {
    pub is_snapshot: Option<bool>,
    pub user: String,
    pub fills: Vec<WsFill>,
}

/// Fill liquidation details
#[derive(Debug, Clone)]
pub struct FillLiquidation {
    pub liquidated_user: Option<String>,
    pub mark_px: String,
    /// "market" | "backstop"
    pub method: String,
}

/// WebSocket fill data
#[derive(Debug, Clone)]
pub struct WsFill {
    pub coin: String,
    /// Price
    pub px: String,
    /// Size
    pub sz: String,
    pub side: String,
    pub time: u64,
    pub start_position: String,
    /// Used for frontend display
    pub dir: String,
    pub closed_pnl: String,
    /// L1 transaction hash
    pub hash: String,
    /// Order ID
    pub oid: u64,
    /// Whether order crossed the spread (was taker)
    pub crossed: bool,
    /// Negative means rebate
    pub fee: String,
    /// Unique trade ID
    pub tid: u64,
    pub liquidation: Option<FillLiquidation>,
    /// The token the fee was paid in
    pub fee_token: String,
    /// Amount paid to builder, also included in fee
    pub builder_fee: Option<String>,
}

/// Shared asset context fields
#[derive(Debug, Clone)]
pub struct SharedAssetCtx {
    pub day_ntl_vlm: String,
    pub prev_day_px: String,
    pub mark_px: String,
    pub mid_px: Option<String>,
}

/// Perpetuals asset context
#[derive(Debug, Clone)]
pub struct PerpsAssetCtx {
    pub day_ntl_vlm: String,
    pub prev_day_px: String,
    pub mark_px: String,
    pub mid_px: Option<String>,
    pub funding: String,
    pub open_interest: String,
    pub oracle_px: String,
}

/// Spot asset context
#[derive(Debug, Clone)]
pub struct SpotAssetCtx {
    pub day_ntl_vlm: String,
    pub prev_day_px: String,
    pub mark_px: String,
    pub mid_px: Option<String>,
    pub circulating_supply: String,
}

/// Leverage information
#[derive(Debug, Clone)]
pub struct Leverage {
    pub raw_usd: Option<String>,
    pub leverage_type: String,
    pub value: u32,
}

/// WebSocket active asset data for a user
#[derive(Debug, Clone)]
pub struct WsActiveAssetData {
    pub user: String,
    pub coin: String,
    pub leverage: Leverage,
    pub max_trade_szs: [String; 2],
    pub available_to_trade: [String; 2],
}

/// WebSocket TWAP slice fill
#[derive(Debug, Clone)]
pub struct WsTwapSliceFill {
    pub fill: WsFill,
    pub twap_id: u64,
}

/// WebSocket user TWAP slice fills
#[derive(Debug, Clone)]
pub struct WsUserTwapSliceFills {
    pub is_snapshot: Option<bool>,
    pub user: String,
    pub twap_slice_fills: Vec<WsTwapSliceFill>,
}

/// TWAP state
#[derive(Debug, Clone)]
pub struct WsTwapState {
    pub coin: String,
    pub user: String,
    pub side: String,
    pub sz: String,
    pub executed_sz: String,
    pub executed_ntl: String,
    pub minutes: u32,
    pub reduce_only: bool,
    pub randomize: bool,
    pub timestamp: u64,
}

/// WebSocket TWAP history entry
#[derive(Debug, Clone)]
pub struct WsTwapHistory {
    pub state: WsTwapState,
    pub status: WsTwapStatusInfo,
    pub time: u64,
}

/// WebSocket user TWAP history
#[derive(Debug, Clone)]
pub struct WsUserTwapHistory {
    pub is_snapshot: Option<bool>,
    pub user: String,
    pub history: Vec<WsTwapHistory>,
}

/// User state information
#[derive(Debug, Clone)]
pub struct UserState {
    pub agent_address: Option<String>,
    pub agent_valid_until: Option<u64>,
    pub server_time: u64,
    pub cum_ledger: String,
    pub is_vault: bool,
    pub user: String,
    pub opt_out_of_spot_dusting: Option<bool>,
    pub dex_abstraction_enabled: Option<bool>,
}

/// Perpetuals DEX state
#[derive(Debug, Clone)]
pub struct PerpDexState {
    pub total_vault_equity: String,
    pub perps_at_open_interest_cap: Option<Vec<String>>,
    pub leading_vaults: Option<Vec<LeadingVault>>,
}

/// WebSocket web data (`WebData3`)
#[derive(Debug, Clone)]
pub struct WsWebData3 {
    pub user_state: UserState,
    pub perp_dex_states: Vec<PerpDexState>,
}

/// Margin summary
#[derive(Debug, Clone)]
pub struct MarginSummary {
    pub account_value: String,
    pub total_ntl_pos: String,
    pub total_raw_usd: String,
    pub total_margin_used: String,
}

/// Position information
#[derive(Debug, Clone)]
pub struct Position {
    pub coin: String,
    pub entry_px: String,
    pub leverage: Leverage,
    pub liquidation_px: Option<String>,
    pub margin_used: String,
    pub position_value: String,
    pub return_on_equity: String,
    pub szi: String,
    pub unrealized_pnl: String,
}

/// Asset position (one-way)
#[derive(Debug, Clone)]
pub struct AssetPosition {
    pub type_: String,
    pub position: Position,
}

/// Clearinghouse state
#[derive(Debug, Clone)]
pub struct WsClearinghouseState {
    pub dex: String,
    pub user: String,
    pub clearinghouse_state: ClearinghouseStateData,
}

#[derive(Debug, Clone)]
pub struct ClearinghouseStateData {
    pub asset_positions: Vec<AssetPosition>,
    pub margin_summary: MarginSummary,
    pub cross_margin_summary: MarginSummary,
    pub cross_maintenance_margin_used: String,
    pub withdrawable: String,
    pub time: u64,
}

/// Order information
#[derive(Debug, Clone)]
pub struct Order {
    pub coin: String,
    pub side: String,
    pub limit_px: String,
    pub sz: String,
    pub oid: u64,
    pub timestamp: u64,
    pub orig_sz: String,
}

/// Open orders for a user
#[derive(Debug, Clone)]
pub struct WsOpenOrders {
    pub dex: String,
    pub user: String,
    pub orders: Vec<Order>,
}

/// TWAP states for a user
#[derive(Debug, Clone)]
pub struct WsTwapStates {
    pub dex: String,
    pub user: String,
    pub states: Vec<(u64, WsTwapState)>,
}

#[derive(Debug, Clone)]
pub struct WsNonFundingLedgerUpdate {
    pub time: u64,
    pub hash: String,
    pub delta: WsLedgerUpdate,
}

/// WebSocket user non-funding ledger update
#[derive(Debug, Clone)]
pub struct WsUserNonFundingLedgerUpdate {
    pub is_snapshot: bool,
    pub user: String,
    pub non_funding_ledger_updates: Vec<WsNonFundingLedgerUpdate>
}

/// WebSocket ledger update
/// Can be deposit, withdraw, transfer, liquidation, vault operations, etc.
#[derive(Debug, Clone)]
pub enum WsLedgerUpdate {
    Deposit(WsDeposit),
    Withdraw(WsWithdraw),
    InternalTransfer(WsInternalTransfer),
    SubAccountTransfer(WsSubAccountTransfer),
    Liquidation(WsLedgerLiquidation),
    VaultCreate(WsVaultDelta),
    VaultDeposit(WsVaultDelta),
    VaultDistribution(WsVaultDelta),
    VaultWithdraw(WsVaultWithdrawal),
    VaultLeaderCommission(WsVaultLeaderCommission),
    SpotTransfer(WsSpotTransfer),
    AccountClassTransfer(WsAccountClassTransfer),
    SpotGenesis(WsSpotGenesis),
    RewardsClaim(WsRewardsClaim),
}

/// Deposit ledger update
#[derive(Debug, Clone)]
pub struct WsDeposit {
    pub usdc: String,
}

/// Withdraw ledger update
#[derive(Debug, Clone)]
pub struct WsWithdraw {
    pub usdc: String,
    pub nonce: u64,
    pub fee: String,
}

/// Internal transfer ledger update
#[derive(Debug, Clone)]
pub struct WsInternalTransfer {
    pub usdc: String,
    pub user: String,
    pub destination: String,
    pub fee: String,
}

/// Sub-account transfer ledger update
#[derive(Debug, Clone)]
pub struct WsSubAccountTransfer {
    pub usdc: String,
    pub user: String,
    pub destination: String,
}

/// Liquidated position
#[derive(Debug, Clone)]
pub struct LiquidatedPosition {
    pub coin: String,
    pub szi: String,
}

/// Liquidation ledger update
#[derive(Debug, Clone)]
pub struct WsLedgerLiquidation {
    /// For isolated positions this is the isolated account value
    pub account_value: String,
    /// "Cross" | "Isolated"
    pub leverage_type: String,
    pub liquidated_positions: Vec<LiquidatedPosition>,
}

/// Vault delta ledger update
#[derive(Debug, Clone)]
pub struct WsVaultDelta {
    pub vault: String,
    pub usdc: String,
}

/// Vault withdrawal ledger update
#[derive(Debug, Clone)]
pub struct WsVaultWithdrawal {
    pub vault: String,
    pub user: String,
    pub requested_usd: String,
    pub commission: String,
    pub closing_cost: String,
    pub basis: String,
    pub net_withdrawn_usd: String,
}

/// Vault leader commission ledger update
#[derive(Debug, Clone)]
pub struct WsVaultLeaderCommission {
    pub user: String,
    pub usdc: String,
}

/// Spot transfer ledger update
#[derive(Debug, Clone)]
pub struct WsSpotTransfer {
    pub token: String,
    pub amount: String,
    pub usdc_value: String,
    pub user: String,
    pub destination: String,
    pub fee: String,
}

/// Account class transfer ledger update
#[derive(Debug, Clone)]
pub struct WsAccountClassTransfer {
    pub usdc: String,
    pub to_perp: bool,
}

/// Spot genesis ledger update
#[derive(Debug, Clone)]
pub struct WsSpotGenesis {
    pub token: String,
    pub amount: String,
}

/// Rewards claim ledger update
#[derive(Debug, Clone)]
pub struct WsRewardsClaim {
    pub amount: String,
}

/// WebSocket active perpetuals asset context
#[derive(Debug, Clone)]
pub struct WsActiveAssetCtx {
    pub coin: String,
    pub ctx: PerpsAssetCtx,
}

#[derive(Debug, Clone)]
pub struct WsActiveSpotAssetCtx {
    pub coin: String,
    pub ctx: SpotAssetCtx,
}

/// Messages delivered over websocket subscription channels.
///
/// The `channel` field selects the subscription stream, while `data` contains
/// the stream-specific payload deserialized into a strongly typed variant.
#[derive(Debug, Clone)]
pub enum SubscriptionResponse {
    /// Server-side error emitted over the websocket connection.
    Error(String),

    /// Acknowledgement or status response for subscribe / unsubscribe requests.
    SubscriptionResponse(SubscriptionConfirmation),

    /// Pong response to client ping (keepalive)
    Pong,

    AllMids(WsAllMids),
    Candle(WsCandle),
    Trades(Vec<WsTrade>),
    L2Book(WsBook),
    Notification(WsNotification),
    WebData3(WsWebData3),
    ClearinghouseState(WsClearinghouseState),
    TwapStates(WsTwapStates),
    UserFills(WsUserFills),
    OpenOrders(WsOpenOrders),
    UserEvents(WsUserEvent),
    UserFundings(WsUserFundings),
    UserNonFundingLedgerUpdates(WsUserNonFundingLedgerUpdate),
    ActiveAssetCtx(WsActiveAssetCtx),
    ActiveAssetData(WsActiveAssetData),
    UserTwapSliceFills(WsUserTwapSliceFills),
    UserTwapHistory(WsUserTwapHistory),
    Bbo(WsBbo),
}

} // verus!
