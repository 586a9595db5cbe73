//! Request types, and plain response types, of the user queries of the info endpoint.
use vstd::prelude::*;

verus! {

#[derive(Debug, Clone)]
pub struct OpenOrdersRequest {
    pub type_: String,
    pub user: String,
    pub dex: Option<String>,
}

#[derive(Debug, Clone)]
pub struct FrontendOpenOrdersRequest {
    pub type_: String,
    pub user: String,
    pub dex: Option<String>,
}

#[derive(Debug, Clone)]
pub struct UserFillsRequest {
    pub type_: String,
    pub user: String,
    pub aggregate_by_time: Option<bool>,
}

#[derive(Debug, Clone)]
pub struct UserFillsByTimeRequest {
    pub type_: String,
    pub user: String,
    pub start_time: u32,
    pub end_time: Option<u32>,
    pub aggregate_by_time: Option<bool>,
}

#[derive(Debug, Clone)]
pub struct UserRateLimitsRequest {
    pub type_: String,
    pub user: String,
}

/// An order id or a client order id.
#[derive(Debug, Clone)]
pub enum OrderId {
    Numeric(u64),
    ClientId(String),
}

#[derive(Debug, Clone)]
pub struct OrderStatusRequest {
    pub user: String,
    pub type_: String,
    pub oid: OrderId,
}

#[derive(Debug, Clone)]
pub struct CandleSnapshotRequest {
    pub coin: String,
    pub interval: String,
    pub start_time: u64,
    pub end_time: u64,
}

#[allow(non_snake_case)]
#[derive(Debug, Clone)]
pub struct Candle {
    pub T: u64,
    pub c: String,
    pub h: String,
    pub i: String,
    pub l: String,
    pub n: u64,
    pub o: String,
    pub s: String,
    pub t: u64,
    pub v: String,
}

pub type CandleSnapshot = Vec<Candle>;

#[derive(Debug, Clone)]
pub struct CandleSnapshotRequestBody {
    pub type_: String,
    pub req: CandleSnapshotRequest,
}

#[derive(Debug, Clone)]
pub struct BuilderFeeApprovalRequest {
    pub type_: String,
    pub user: String,
    pub builder: String,
}

pub type BuilderFeeApproval = u64;

#[derive(Debug, Clone, Copy)]
pub struct Children;

#[derive(Debug, Clone)]
pub struct Leverage {
    pub leverage_type: String,
    pub value: u32,
    pub raw_usd: String,
}

#[derive(Debug, Clone)]
pub struct VaultDetailsRequest {
    pub type_: String,
    pub vault_address: String,
    pub user: Option<String>,
}

#[derive(Debug, Clone, Copy)]
pub struct FollowerState;

#[derive(Debug, Clone)]
pub struct RelationshipData {
    pub child_addresses: Vec<String>,
}

#[derive(Debug, Clone)]
pub struct VaultRelationship {
    pub relationship_type: String,
    pub data: RelationshipData,
}

#[derive(Debug, Clone)]
pub struct UserRequest {
    pub type_: String,
    pub user: String,
}

#[derive(Debug, Clone)]
pub struct UserRole {
    pub role: String,
}

#[derive(Debug, Clone)]
pub struct ReferredBy {
    pub referrer: String,
    pub code: String,
}

#[derive(Debug, Clone, Copy)]
pub struct RewardHistory;

/// Response for request with type "referral"
#[derive(Debug, Clone)]
pub struct UserReferralInformation {
    pub referred_by: Option<ReferredBy>,
    pub cum_vlm: String,
    pub unclaimed_rewards: String,
    pub claimed_rewards: String,
    pub builder_rewards: String,
    pub token_to_state: Vec<TokenStateEntry>,
    pub referrer_state: Option<ReferrerState>,
    pub reward_history: Vec<RewardHistory>,
}

#[derive(Debug, Clone)]
pub struct StakingLink {
    pub type_: String,
    pub staking_user: String,
}

#[derive(Debug, Clone)]
pub struct UserHIP3DexAbstractionStateRequest {
    pub type_: String,
    pub user: String,
}

pub type UserHIP3DexAbstractionState = bool;

#[derive(Debug, Clone)]
pub struct AlignedQuoteTokenInfoRequest {
    pub type_: String,
    pub token: usize,
}

/// The mid prices of all coins: each coin with the decimal text of its mid
/// price, in the order the response map yields them.
#[derive(Debug)]
pub struct AllMids(pub Vec<(String, String)>);

/// The map that pairs of a key and a value make when inserted in order: a
/// later pair for a key replaces the value of an earlier one.
pub open spec fn pairs_map(s: Seq<(Seq<char>, Seq<char>)>) -> Map<Seq<char>, Seq<char>>
    decreases s.len(),
{
    if s.len() == 0 {
        Map::empty()
    } else {
        pairs_map(s.drop_last()).insert(s.last().0, s.last().1)
    }
}

/// The view of pairs of strings.
pub open spec fn string_pairs_view(v: Seq<(String, String)>) -> Seq<(Seq<char>, Seq<char>)> {
    v.map_values(|p: (String, String)| (p.0@, p.1@))
}

/// No two pairs share their first string.
pub open spec fn distinct_keys(v: Seq<(String, String)>) -> bool {
    forall|i: int, j: int| 0 <= i < j < v.len() ==> #[trigger] v[i].0@ != #[trigger] v[j].0@
}

impl AllMids {
    /// No coin is listed twice, as in the map of the response.
    pub open spec fn well_formed(&self) -> bool {
        distinct_keys(self.0@)
    }

    /// The mid price of each listed coin.
    pub open spec fn prices(&self) -> Map<Seq<char>, Seq<char>> {
        pairs_map(string_pairs_view(self.0@))
    }

    /// The mid prices given as coin and price pairs, in order; a coin given
    /// twice keeps its first place and takes its last price.
    pub fn from_pairs(pairs: Vec<(String, String)>) -> (m: AllMids)
        ensures
            m.well_formed(),
            m.prices() == pairs_map(string_pairs_view(pairs@)),
    {
        let mut out: Vec<(String, String)> = Vec::new();
        let mut i: usize = 0;
        while i < pairs.len()
            invariant
                i <= pairs@.len(),
                distinct_keys(out@),
                pairs_map(string_pairs_view(out@)) == pairs_map(string_pairs_view(pairs@.take(i as int))),
            decreases pairs@.len() - i,
        {
            let coin = pairs[i].0.clone();
            let price = pairs[i].1.clone();
            let ghost before = out@;
            let mut j: usize = 0;
            let mut found = false;
            while j < out.len() && !found
                invariant
                    j <= out@.len(),
                    out@ == before,
                    found ==> j < out@.len() && out@[j as int].0@ == coin@,
                    forall|k: int| 0 <= k < j ==> out@[k].0@ != coin@,
                decreases out@.len() - j + (if found { 0int } else { 1int }),
            {
                if out[j].0 == coin {
                    found = true;
                } else {
                    j = j + 1;
                }
            }
            proof {
                assert(string_pairs_view(pairs@.take(i + 1)).drop_last() =~= string_pairs_view(pairs@.take(i as int)));
                assert(string_pairs_view(pairs@.take(i + 1)).last() == (coin@, price@));
            }
            let ghost sv = string_pairs_view(before);
            assert(distinct_keys(before));
            assert forall|a: int, b: int| 0 <= a < b < sv.len() implies #[trigger] sv[a].0 != #[trigger] sv[b].0 by {
                assert(before[a].0@ != before[b].0@);
            }
            if found {
                out.set(j, (coin, price));
                assert forall|a: int, b: int| 0 <= a < b < out@.len() implies #[trigger] out@[a].0@ != #[trigger] out@[b].0@ by {
                    assert(before[a].0@ != before[b].0@);
                }
                proof {
                    lemma_pairs_map_update(string_pairs_view(before), j as int, coin@, price@);
                    assert(string_pairs_view(out@) =~= string_pairs_view(before).update(j as int, (coin@, price@)));
                }
            } else {
                out.push((coin, price));
                assert forall|a: int, b: int| 0 <= a < b < out@.len() implies #[trigger] out@[a].0@ != #[trigger] out@[b].0@ by {
                    if b < before.len() {
                        assert(before[a].0@ != before[b].0@);
                    } else {
                        assert(before[a].0@ != coin@);
                    }
                }
                proof {
                    assert(string_pairs_view(out@) =~= string_pairs_view(before).push((coin@, price@)));
                    assert(string_pairs_view(out@).drop_last() =~= string_pairs_view(before));
                }
            }
            i = i + 1;
        }
        assert(pairs@.take(pairs@.len() as int) =~= pairs@);
        AllMids(out)
    }
}

/// In pairs with distinct keys, replacing the value at the place of a key is
/// inserting that key with the new value.
proof fn lemma_pairs_map_update(s: Seq<(Seq<char>, Seq<char>)>, j: int, k: Seq<char>, v: Seq<char>)
    requires
        0 <= j < s.len(),
        s[j].0 == k,
        forall|a: int, b: int| 0 <= a < b < s.len() ==> #[trigger] s[a].0 != #[trigger] s[b].0,
    ensures
        pairs_map(s.update(j, (k, v))) == pairs_map(s).insert(k, v),
    decreases s.len(),
{
    let t = s.update(j, (k, v));
    if j == s.len() - 1 {
        assert(t.drop_last() =~= s.drop_last());
        lemma_pairs_map_absent(s.drop_last(), k);
        assert(pairs_map(t) =~= pairs_map(s).insert(k, v));
    } else {
        lemma_pairs_map_update(s.drop_last(), j, k, v);
        assert(t.drop_last() =~= s.drop_last().update(j, (k, v)));
        assert(s.last().0 != k);
        assert(pairs_map(t) =~= pairs_map(s).insert(k, v));
    }
}

/// A key that no pair holds is not in their map.
proof fn lemma_pairs_map_absent(s: Seq<(Seq<char>, Seq<char>)>, k: Seq<char>)
    requires
        forall|a: int| 0 <= a < s.len() ==> #[trigger] s[a].0 != k,
    ensures
        !pairs_map(s).contains_key(k),
    decreases s.len(),
{
    if s.len() > 0 {
        lemma_pairs_map_absent(s.drop_last(), k);
    }
}

/// A bid or an ask of an order book snapshot: price and size as decimal
/// text, and the number of orders.
#[derive(Debug, Clone)]
pub struct BidOrAsk {
    pub px: String,
    pub sz: String,
    pub n: u64,
}

/// An order book snapshot: `levels` holds the bids, then the asks.
#[derive(Debug)]
pub struct L2BookSnapshot {
    pub coin: String,
    pub time: u64,
    pub levels: (Vec<BidOrAsk>, Vec<BidOrAsk>),
}

#[derive(Debug, Clone)]
pub struct OpenOrder {
    pub coin: String,
    pub limit_px: String,
    pub oid: u64,
    pub side: String,
    pub sz: String,
    pub timestamp: u64,
}

/// Response for "openOrders" request type.
pub type OpenOrders = Vec<OpenOrder>;

#[derive(Debug, Clone)]
pub struct FrontendOpenOrder {
    pub coin: String,
    pub is_position_tpsl: bool,
    pub is_trigger: bool,
    pub limit_px: String,
    pub oid: u64,
    pub order_type: String,
    pub orig_sz: String,
    pub reduce_only: bool,
    pub side: String,
    pub sz: String,
    pub timestamp: u64,
    pub trigger_condition: String,
    pub trigger_px: String,
}

/// Response for `FrontendOpenOrders` request type.
pub type FrontendOpenOrders = Vec<FrontendOpenOrder>;

#[derive(Debug, Clone)]
pub struct PerpetualFill {
    pub closed_pnl: String,
    /// Refer to `<https://hyperliquid.gitbook.io/hyperliquid-docs/for-developers/api/asset-ids>` for more information
    /// on how asset IDs work.
    pub coin: String,
    pub crossed: bool,
    pub dir: String,
    pub hash: String,
    pub oid: u64,
    pub px: String,
    pub side: String,
    pub start_position: String,
    pub sz: String,
    pub time: u64,
    pub fee: String,
    pub fee_token: String,
    pub builder_fee: Option<String>,
    pub tid: u64,
}

#[derive(Debug, Clone)]
pub struct SpotFill {
    /// Refer to `<https://hyperliquid.gitbook.io/hyperliquid-docs/for-developers/api/asset-ids>` for more information
    /// on how asset IDs work.
    pub coin: String,
    pub px: String,
    pub sz: String,
    pub side: String,
    pub time: u64,
    pub start_position: String,
    pub dir: String,
    pub closed_pnl: String,
    pub hash: String,
    pub oid: u64,
    pub crossed: bool,
    pub fee: String,
    pub tid: u64,
    pub fee_token: String,
}

/// Response for "userFills" request type.
#[derive(Debug, Clone)]
pub enum Fill {
    Perp(PerpetualFill),
    Spot(SpotFill),
}

pub type UserFills = Vec<Fill>;

/// Response for "userFillsByTime" request type.
pub type UserFillsByTime = (PerpetualFill, SpotFill);

/// Response for "userRateLimit" request type.
#[derive(Debug, Clone)]
pub struct UserRateLimits {
    pub cum_vlm: String,
    /// max(0, `cumulative_used` minus reserved)
    pub n_requests_used: u64,
    pub n_requests_cap: u64,
    pub n_requests_surplus: u64,
}

#[derive(Debug)]
pub struct ServerOrder {
    pub order: Order,
    pub status: String,
    pub status_timestamp: u64,
}

/// Top-level response from the server for an "order" request
#[derive(Debug)]
pub struct OrderStatus {
    pub status: String,
    pub order: ServerOrder,
}

#[derive(Debug)]
pub enum OrderWithStatus {
    Success { order: Box<ServerOrder> },
    UnknownOid { status: String },
}

#[derive(Debug)]
pub struct Order {
    pub coin: String,
    pub side: String,
    pub limit_px: String,
    pub sz: String,
    pub oid: u64,
    pub timestamp: u64,
    pub trigger_condition: String,
    pub is_trigger: bool,
    pub trigger_px: String,
    pub children: Vec<Self>,
    pub is_position_tpsl: bool,
    pub reduce_only: bool,
    pub order_type: String,
    pub orig_sz: String,
    pub tif: String,
    pub cloid: Option<String>,
}

#[derive(Debug)]
pub struct HistoricalOrder {
    pub order: Order,
    pub status: String,
    pub status_timestamp: u64,
}

/// Response for request with type "historicalOrders"
pub type UserHistoricalOrders = Vec<HistoricalOrder>;

#[derive(Debug, Clone)]
pub struct SliceFill {
    pub closed_pnl: String,
    pub coin: String,
    pub crossed: bool,
    pub dir: String,
    pub hash: String,
    pub oid: u64,
    pub px: String,
    pub side: String,
    pub start_position: String,
    pub sz: String,
    pub time: u64,
    pub fee: String,
    pub fee_token: String,
    pub tid: u64,
}

#[derive(Debug, Clone)]
pub struct Twap {
    pub fill: SliceFill,
    pub twap_id: u32,
}

/// Response for request with type "userTwapSliceFills"
pub type TwapSliceFills = Vec<Twap>;

#[derive(Debug, Clone)]
pub struct ClearinghouseState {
    pub margin_summary: MarginSummary,
    pub cross_margin_summary: MarginSummary,
    pub cross_maintenance_margin_used: String,
    pub withdrawable: String,
    pub asset_positions: Vec<AssetPosition>,
    pub time: u64,
}

#[derive(Debug, Clone)]
pub struct MarginSummary {
    pub account_value: String,
    pub total_ntl_pos: String,
    pub total_raw_usd: String,
    pub total_margin_used: String,
}

#[derive(Debug, Clone)]
pub struct AssetPosition {
    pub position_type: String,
    pub position: Position,
}

#[derive(Debug, Clone)]
pub struct Position {
    pub coin: String,
    pub szi: String,
    pub leverage: Leverage,
    pub entry_px: String,
    pub position_value: String,
    pub unrealized_pnl: String,
    pub return_on_equity: String,
    pub liquidation_px: String,
    pub margin_used: String,
    pub max_leverage: u32,
    pub cum_funding: CumFunding,
}

#[derive(Debug, Clone)]
pub struct CumFunding {
    pub all_time: String,
    pub since_open: String,
    pub since_change: String
}

#[derive(Debug, Clone)]
pub struct SpotState {
    pub balances: Vec<SpotBalance>,
}

#[derive(Debug, Clone)]
pub struct SpotBalance {
    pub coin: String,
    pub token: u64,
    pub total: String,
    pub hold: String,
    pub entry_ntl: String,
}

#[derive(Debug, Clone)]
pub struct SubAccount {
    pub name: String,
    pub sub_account_user: String,
    pub master: String,
    pub clearinghouse_state: ClearinghouseState,
    pub spot_state: SpotState,
}

/// Response for request with types "subAccounts"
pub type UserSubAccounts = Option<Vec<SubAccount>>;

#[derive(Debug, Clone)]
pub struct PortfolioEntry(
    pub String,
    pub HistoryEntry,
);

#[derive(Debug, Clone)]
pub struct HistoryPoint(
    pub u64,
    pub String
);

#[derive(Debug, Clone)]
pub struct Follower {
    pub user: String,
    pub vault_equity: String,
    pub pnl: String,
    pub all_time_pnl: String,
    pub days_following: u64,
    pub vault_entry_time: u64,
    pub lockup_until: u64,
}

/// Response for request with type "vaultDetails"
#[derive(Debug, Clone)]
pub struct VaultDetails {
    pub name: String,
    pub vault_address: String,
    pub leader: String,
    pub description: String,
    pub portfolio: Vec<PortfolioEntry>,
    pub apr: String,
    pub follower_state: Option<FollowerState>,
    pub leader_fraction: String,
    pub leader_commission: String,
    pub followers: Vec<Follower>,
    pub max_distributable: String,
    pub max_wthdrawable: String,
    pub is_closed: bool,
    pub relationship: VaultRelationship,
    pub allow_deposits: bool,
    pub always_close_on_withdraw: bool,
}

#[derive(Debug, Clone)]
pub struct VaultDeposit {
    pub vault_address: String,
    pub equity: String,
}

/// Response for equest with type "userVaultEquities"
pub type UserVaultDeposits = Vec<VaultDeposit>;

#[derive(Debug, Clone)]
pub struct HistoryEntry {
    pub account_value_history: Vec<HistoryPoint>,
    pub pnl_history: Vec<HistoryPoint>,
    pub vlm: String,
}

#[derive(Debug, Clone)]
pub struct HistoryOverview(
    pub String,
    pub HistoryEntry,
);

/// Response for request with type "portfolio"
pub type UserPortfolio = Vec<HistoryOverview>;

#[derive(Debug, Clone)]
pub enum TokenStateEntry {
    Index(u64),
    State(TokenState),
}

#[derive(Debug, Clone)]
pub struct TokenState {
    pub cum_vlm: String,
    pub unclaimed_rewards: String,
    pub claimed_rewards: String,
    pub builder_rewards: String,
}

#[derive(Debug, Clone)]
pub struct ReferrerState {
    pub stage: String,
    pub data: Option<ReferrerData>,
}

#[derive(Debug, Clone)]
pub enum ReferrerData {
    Ready {
        code: String,
        referral_states: Vec<ReferralState>,
    },
    NeedToTrade {
        required: String,
    },
}

#[derive(Debug, Clone)]
pub struct ReferralState {
    pub cum_vlm: String,
    pub cum_rewarded_fees_since_referred: String,
    pub cum_fees_rewarded_to_referrer: String,
    pub time_joined: u64,
    pub user: String,
}

#[derive(Debug, Clone)]
pub struct DailyUserVlm {
    pub date: String,
    pub user_cross: String,
    pub user_add: String,
    pub exchange: String,
}

#[derive(Debug, Clone)]
pub struct FeeSchedule {
    pub cross: String,
    pub add: String,
    pub spot_cross: String,
    pub spot_add: String,
    pub tiers: FeeTiers,
    pub referral_discount: String,
    pub staking_discount_tiers: Vec<StakingDiscount>,
}

#[derive(Debug, Clone)]
pub struct FeeTiers {
    pub vip: Vec<VipTier>,
    pub mm: Vec<MmTier>,
}

#[derive(Debug, Clone)]
pub struct VipTier {
    pub ntl_cutoff: String,
    pub cross: String,
    pub add: String,
    pub spot_cross: String,
    pub spot_add: String,
}

#[derive(Debug, Clone)]
pub struct MmTier {
    pub maker_fraction_cutoff: String,
    pub add: String,
}

#[derive(Debug, Clone)]
pub struct StakingDiscount {
    pub bps_of_max_supply: String,
    pub discount: String,
}

/// Response for request with type "userFees".
#[derive(Debug, Clone)]
pub struct UserFees {
    pub daily_user_vlm: Vec<DailyUserVlm>,
    pub fee_schedule: FeeSchedule,
    pub user_cross_rate: String,
    pub user_add_rate: String,
    pub user_spot_cross_rate: String,
    pub user_spot_add_rate: String,
    pub active_referral_discount: String,
    pub trial: Option<String>,
    pub fee_trial_escrow: String,
    pub next_trial_available_timestamp: Option<String>,
    pub staking_link: Option<StakingLink>,
    pub active_staking_discount: StakingDiscount,
}

#[derive(Debug, Clone)]
pub struct StakingDelegation {
    pub validator: String,
    pub amount: String,
    pub locked_until_timestamp: u64,
}

/// Response for the "delegations" request type.
pub type UserStakingDelegations = Vec<StakingDelegation>;

/// Response for the "delegatorSummary" request type.
#[derive(Debug, Clone)]
pub struct UserStakingSummary {
    pub delegated: String,
    pub undelegated: String,
    pub total_pending_withdrawal: String,
    pub n_pending_withdrawals: u32,
}

#[derive(Debug, Clone)]
pub struct Delegate {
    pub validator: String,
    pub amount: String,
    pub is_undelegate: bool,
}

#[derive(Debug, Clone)]
pub struct Delta {
    pub delegate: Delegate,
}

#[derive(Debug, Clone)]
pub struct StakingHistory {
    pub time: u64,
    pub hash: String,
    pub delta: Delta,
}

/// Response for the "delegatorHistory" request type.
pub type UserStakingHistory = Vec<StakingHistory>;

#[derive(Debug, Clone)]
pub struct StakingReward {
    pub time: u64,
    pub source: String,
    pub total_amount: String,
}

/// Response for the "delegatorRewards" request type.
pub type UserStakingRewards = Vec<StakingReward>;

pub type DailyAmountOwed = (String, String);

/// Response for the "alignedQuoteTokenInfo" request type.
#[derive(Debug, Clone)]
pub struct AlignedQuoteTokenInfo {
    pub is_aligned: bool,
    pub first_aligned_time: u64,
    pub evm_minted_supply: String,
    pub daily_amount_owed: Vec<DailyAmountOwed>,
    pub predicted_rate: String,
}

} // verus!
