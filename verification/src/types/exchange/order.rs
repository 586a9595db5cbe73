//! Request and action types of the exchange endpoint, used to interact with
//! and trade on the Hyperliquid chain.
use vstd::prelude::*;
use vstd::utf8::encode_utf8;
use crate::signature::eip712::{get_hyperliquid_domain, keccak256, keccak256_digest, zero_address, Eip712, Eip712Domain};
use crate::types::decimal::{decimal_round_dp_text, DecimalValue};
use crate::types::info::perpetual::AssetInfo;
use crate::utils::{abi_string_tail, abi_word, append_abi_string_tail, be_bytes, append_bytes, u64_to_be_bytes};

verus! {

/// Client order id: an optional 128-bit hex string.
pub type Cloid = String;

/// Time-in-force of a limit order.
#[derive(Debug, Clone, Copy, PartialEq, Eq, Structural)]
pub enum Tif {
    /// Add liquidity only (post only).
    Alo,
    /// Immediate or cancel.
    Ioc,
    /// Good til canceled.
    Gtc,
}

/// Limit order type.
#[derive(Debug, Clone, Copy, PartialEq, Eq, Structural)]
pub struct LimitOrder {
    pub tif: Tif,
}

/// Take-profit or stop-loss.
#[derive(Debug, Clone, Copy, PartialEq, Eq, Structural)]
pub enum Tpsl {
    Tp,
    Sl,
}

/// Trigger order type.
#[derive(Debug, Clone)]
pub struct TriggerOrder {
    pub is_market: bool,
    pub trigger_px: String,
    pub tpsl: Tpsl,
}

/// Order type (limit or trigger).
#[derive(Debug, Clone)]
pub enum OrderType {
    Limit(LimitOrder),
    Trigger(TriggerOrder),
}

/// Side of an order.
#[derive(Debug, Clone, Copy, PartialEq, Eq, Structural)]
pub enum OrderSide {
    Buy,
    Sell,
}

/// Builder fee configuration.
#[derive(Debug, Clone)]
pub struct Builder {
    /// Address that should receive the additional fee.
    pub b: String,
    /// Fee size in tenths of a basis point (e.g. 10 = 1bp).
    pub f: u32,
}

/// Single order request.
#[derive(Debug, Clone)]
pub struct OrderRequest {
    /// Asset index.
    pub a: u32,
    /// Is buy.
    pub b: bool,
    /// Price.
    pub p: String,
    /// Size.
    pub s: String,
    /// Reduce only.
    pub r: bool,
    /// Order type.
    pub t: OrderType,
    /// Client order id.
    pub c: Option<Cloid>,
}

impl OrderRequest {
    /// A market order: an immediate-or-cancel limit order at the price
    /// rounded to whole ticks and the size rounded to the asset's size
    /// decimals, not reduce-only and without a client order id.
    pub fn new_market_order(
        asset_idx: u32,
        asset_info: &AssetInfo,
        is_buy: bool,
        price: DecimalValue,
        size: DecimalValue,
    ) -> (o: OrderRequest)
        ensures
            o.a == asset_idx,
            o.b == is_buy,
            o.p@ == decimal_round_dp_text(price.spec_mantissa(), price.spec_scale(), 0),
            o.s@ == decimal_round_dp_text(size.spec_mantissa(), size.spec_scale(), asset_info.sz_decimals as u32),
            !o.r,
            o.t == OrderType::Limit(LimitOrder { tif: Tif::Ioc }),
            o.c is None,
    {
        let sz_decimals: u32 = asset_info.sz_decimals as u32;
        let px_decimals: u32 = 0;
        OrderRequest {
            a: asset_idx,
            b: is_buy,
            p: price.round_dp_text(px_decimals),
            s: size.round_dp_text(sz_decimals),
            r: false,
            t: OrderType::Limit(LimitOrder { tif: Tif::Ioc }),
            c: None,
        }
    }
}

/// Grouping of orders.
#[derive(Debug, Clone, Copy, PartialEq, Eq, Structural)]
pub enum Grouping {
    Na,
    NormalTpsl,
    PositionTpsl,
}

/// Action of type "order".
#[derive(Debug, Clone)]
pub struct OrderAction {
    pub type_: String,
    pub orders: Vec<OrderRequest>,
    pub grouping: Grouping,
    pub builder: Option<Builder>,
}

/// Cancellation of an order by asset index and order id.
#[derive(Debug, Clone, Copy, PartialEq, Eq, Structural)]
pub struct CancelRequest {
    /// Asset index.
    pub a: u32,
    /// Order id.
    pub o: u64,
}

/// Action of type "cancel".
#[derive(Debug, Clone)]
pub struct CancelAction {
    pub type_: String,
    pub cancels: Vec<CancelRequest>,
}

/// Cancellation of an order by client order id.
#[derive(Debug, Clone)]
pub struct CancelByCloidRequest {
    pub asset: u32,
    pub cloid: String,
}

/// Action of type "cancelByCloid".
#[derive(Debug, Clone)]
pub struct CancelByCloidAction {
    pub type_: String,
    pub cancels: Vec<CancelByCloidRequest>,
}

/// Action of type "scheduleCancel".
#[derive(Debug, Clone)]
pub struct ScheduleCancelAction {
    pub type_: String,
    pub time: Option<u64>,
}

/// Action of type "modify".
#[derive(Debug, Clone)]
pub struct ModifyAction {
    pub type_: String,
    pub oid: u64,
    pub order: OrderRequest,
}

/// A modification of one order.
#[derive(Debug, Clone)]
pub struct ModifyRequest {
    pub oid: u64,
    pub order: OrderRequest,
}

/// Action of type "batchModify".
#[derive(Debug, Clone)]
pub struct BatchModifyAction {
    pub type_: String,
    pub modifies: Vec<ModifyRequest>,
}

/// Action of type "updateLeverage".
#[derive(Debug, Clone)]
pub struct UpdateLeverageAction {
    pub type_: String,
    pub asset: u32,
    pub is_cross: bool,
    pub leverage: u32,
}

/// Action of type "updateIsolatedMargin". `ntli` is the change of margin in
/// millionths of a USD: positive to add margin, negative to remove it.
#[derive(Debug, Clone)]
pub struct UpdateIsolatedMarginAction {
    pub type_: String,
    pub asset: u32,
    pub is_buy: bool,
    pub ntli: i64,
}

/// Action of type "usdSend".
#[derive(Debug, Clone)]
pub struct UsdSendAction {
    pub type_: String,
    pub hyperliquid_chain: String,
    pub signature_chain_id: u64,
    pub destination: String,
    pub amount: String,
    pub time: u64,
}

/// Action of type "spotSend".
#[derive(Debug, Clone)]
pub struct SpotSendAction {
    pub type_: String,
    pub hyperliquid_chain: String,
    pub signature_chain_id: u64,
    pub destination: String,
    pub token: String,
    pub amount: String,
    pub time: u64,
}

/// Action of type "withdraw3".
#[derive(Debug, Clone)]
pub struct WithdrawAction {
    pub type_: String,
    pub hyperliquid_chain: String,
    pub signature_chain_id: u64,
    pub amount: String,
    pub time: u64,
    pub destination: String,
}

/// Action of type "usdClassTransfer".
#[derive(Debug, Clone)]
pub struct UsdClassTransferAction {
    pub type_: String,
    pub hyperliquid_chain: String,
    pub signature_chain_id: u64,
    pub amount: String,
    pub to_perp: bool,
    pub nonce: u64,
}

/// Action of type "sendAsset".
#[derive(Debug, Clone)]
pub struct SendAssetAction {
    pub type_: String,
    pub hyperliquid_chain: String,
    pub signature_chain_id: u64,
    pub destination: String,
    pub source_dex: String,
    pub destination_dex: String,
    pub token: String,
    pub amount: String,
    pub from_sub_account: String,
    pub nonce: u64,
}

/// Action of type "cDeposit".
#[derive(Debug, Clone)]
pub struct CDepositAction {
    pub type_: String,
    pub hyperliquid_chain: String,
    pub signature_chain_id: u64,
    pub wei: u64,
    pub nonce: u64,
}

/// Action of type "cWithdraw".
#[derive(Debug, Clone)]
pub struct CWithdrawAction {
    pub type_: String,
    pub hyperliquid_chain: String,
    pub signature_chain_id: u64,
    pub wei: u64,
    pub nonce: u64,
}

/// Action of type "tokenDelegate".
#[derive(Debug, Clone)]
pub struct TokenDelegateAction {
    pub type_: String,
    pub hyperliquid_chain: String,
    pub signature_chain_id: u64,
    pub validator: String,
    pub is_undelegate: bool,
    pub wei: u64,
    pub nonce: u64,
}

/// Action of type "vaultTransfer".
#[derive(Debug, Clone)]
pub struct VaultTransferAction {
    pub type_: String,
    pub vault_address: String,
    pub is_deposit: bool,
    pub usd: u64,
}

/// Action of type "approveAgent".
#[derive(Debug, Clone)]
pub struct ApproveAgentAction {
    pub type_: String,
    pub hyperliquid_chain: String,
    pub signature_chain_id: u64,
    pub agent_address: String,
    pub agent_name: Option<String>,
    pub nonce: u64,
}

/// Action of type "approveBuilderFee".
#[derive(Debug, Clone)]
pub struct ApproveBuilderFeeAction {
    pub type_: String,
    pub hyperliquid_chain: String,
    pub signature_chain_id: u64,
    /// e.g. "0.001%"
    pub max_fee_rate: String,
    pub builder: String,
    pub nonce: u64,
}

/// A TWAP order.
#[derive(Debug, Clone)]
pub struct TwapRequest {
    /// Asset index.
    pub a: u32,
    /// Is buy.
    pub b: bool,
    /// Size.
    pub s: String,
    /// Reduce only.
    pub r: bool,
    /// Minutes.
    pub m: u32,
    /// Randomize.
    pub t: bool,
}

/// Action of type "twapOrder".
#[derive(Debug, Clone)]
pub struct TwapOrderAction {
    pub type_: String,
    pub twap: TwapRequest,
}

/// Action of type "twapCancel".
#[derive(Debug, Clone)]
pub struct TwapCancelAction {
    pub type_: String,
    /// Asset index.
    pub a: usize,
    /// TWAP id.
    pub t: u32,
}

/// Action of type "reserveRequestWeight".
#[derive(Debug, Clone)]
pub struct ReserveRequestWeightAction {
    pub type_: String,
    pub weight: u32,
}

/// Action of type "noop".
#[derive(Debug, Clone)]
pub struct NoopAction {
    pub type_: String,
}

/// Action of type "userDexAbstraction".
#[derive(Debug, Clone)]
pub struct UserDexAbstractionAction {
    pub type_: String,
    pub hyperliquid_chain: String,
    pub signature_chain_id: u64,
    pub user: String,
    pub enabled: bool,
    pub nonce: u64,
}

/// Action of type "agentEnableDexAbstraction".
#[derive(Debug, Clone)]
pub struct AgentEnableDexAbstractionAction {
    pub type_: String,
}

/// Action of type "validatorL1Stream".
#[derive(Debug, Clone)]
pub struct ValidatorL1StreamAction {
    pub type_: String,
    /// e.g. "0.04" for 4%
    pub risk_free_rate: String,
}

/// The Keccak-256 hash of the UTF-8 bytes of a string.
pub open spec fn hash_str(s: Seq<char>) -> Seq<u8> {
    keccak256_digest(encode_utf8(s))
}

/// Appends the Keccak-256 hash of the UTF-8 bytes of `s`.
fn append_str_hash(v: &mut Vec<u8>, s: &str)
    ensures
        final(v)@ == old(v)@ + hash_str(s@),
{
    let h = keccak256(s.as_bytes());
    append_bytes(v, h.as_slice());
}

/// Appends the ABI word of an unsigned integer.
fn append_word(v: &mut Vec<u8>, x: u64)
    ensures
        final(v)@ == old(v)@ + abi_word(x as nat),
{
    let w = u64_to_be_bytes(x, 32);
    append_bytes(v, w.as_slice());
}

/// The domain of a user-signed action on a signature chain.
fn eip_712_domain(chain_id: u64) -> (d: Eip712Domain)
    ensures
        d@ == ("HyperliquidSignTransaction"@, "1"@, chain_id, zero_address()),
{
    get_hyperliquid_domain(chain_id)
}

/// The view of the domain of user-signed actions on a signature chain.
pub open spec fn user_signed_domain(chain_id: u64) -> (Seq<char>, Seq<char>, u64, Seq<u8>) {
    ("HyperliquidSignTransaction"@, "1"@, chain_id, zero_address())
}

/// The `hashStruct` of `HyperliquidTransaction:UsdSend`.
pub open spec fn usd_send_struct_hash(chain: Seq<char>, destination: Seq<char>, amount: Seq<char>, time: u64) -> Seq<u8> {
    keccak256_digest(
        hash_str("HyperliquidTransaction:UsdSend(string hyperliquidChain,string destination,string amount,uint64 time)"@)
            + hash_str(chain) + hash_str(destination) + hash_str(amount) + abi_word(time as nat),
    )
}

/// The `hashStruct` of `HyperliquidTransaction:UsdClassTransfer`.
pub open spec fn usd_class_transfer_struct_hash(chain: Seq<char>, amount: Seq<char>, to_perp: bool, nonce: u64) -> Seq<u8> {
    keccak256_digest(
        hash_str("HyperliquidTransaction:UsdClassTransfer(string hyperliquidChain,string amount,bool toPerp,uint64 nonce)"@)
            + hash_str(chain) + hash_str(amount) + abi_word(if to_perp { 1nat } else { 0nat }) + abi_word(
            nonce as nat,
        ),
    )
}

/// The ABI encoding of a boolean: a 32-byte word whose bytes are all zero but
/// the last, which is 1 for `true` and 0 for `false`.
pub open spec fn abi_bool(b: bool) -> Seq<u8> {
    Seq::new(32, |i: int| if i == 31 && b { 1u8 } else { 0u8 })
}

/// The big-endian encoding of zero is all zero bytes.
proof fn lemma_be_bytes_of_zero(n: nat)
    ensures
        be_bytes(0, n) == Seq::new(n, |i: int| 0u8),
    decreases n,
{
    if n > 0 {
        lemma_be_bytes_of_zero((n - 1) as nat);
        assert(be_bytes(0, n) =~= Seq::new(n, |i: int| 0u8));
    }
}

/// The ABI words of 0 and 1 are the ABI booleans.
proof fn lemma_abi_word_of_bool(b: bool)
    ensures
        abi_word(if b { 1nat } else { 0nat }) == abi_bool(b),
{
    lemma_be_bytes_of_zero(31);
    lemma_be_bytes_of_zero(32);
    assert(abi_word(if b { 1nat } else { 0nat }) =~= abi_bool(b));
}

/// A class transfer signs its direction: the struct hashed for it holds, after
/// the hashed type, chain and amount, the ABI boolean of `to_perp` (its last
/// byte 1 for spot to perp, 0 for perp to spot), then the nonce word. Two
/// transfers that differ only in direction hash words that differ.
pub proof fn lemma_usd_class_transfer_signs_direction(chain: Seq<char>, amount: Seq<char>, to_perp: bool, nonce: u64)
    ensures
        usd_class_transfer_struct_hash(chain, amount, to_perp, nonce) == keccak256_digest(
            hash_str("HyperliquidTransaction:UsdClassTransfer(string hyperliquidChain,string amount,bool toPerp,uint64 nonce)"@)
                + hash_str(chain) + hash_str(amount) + abi_bool(to_perp) + abi_word(nonce as nat),
        ),
        abi_bool(to_perp)[31] == (if to_perp { 1u8 } else { 0u8 }),
        abi_bool(to_perp) != abi_bool(!to_perp),
{
    lemma_abi_word_of_bool(to_perp);
    assert(abi_bool(to_perp)[31] != abi_bool(!to_perp)[31]);
}

/// The `hashStruct` of `HyperliquidTransaction:SendAsset`.
pub open spec fn send_asset_struct_hash(
    chain: Seq<char>,
    destination: Seq<char>,
    source_dex: Seq<char>,
    destination_dex: Seq<char>,
    token: Seq<char>,
    amount: Seq<char>,
    from_sub_account: Seq<char>,
    nonce: u64,
) -> Seq<u8> {
    keccak256_digest(
        hash_str("HyperliquidTransaction:SendAsset(string hyperliquidChain,string destination,string sourceDex,string destinationDex,string token,string amount,string fromSubAccount,uint64 nonce)"@)
            + hash_str(chain) + hash_str(destination) + hash_str(source_dex) + hash_str(destination_dex)
            + hash_str(token) + hash_str(amount) + hash_str(from_sub_account) + abi_word(nonce as nat),
    )
}

impl Eip712 for UsdSendAction {
    open spec fn spec_domain(&self) -> (Seq<char>, Seq<char>, u64, Seq<u8>) {
        user_signed_domain(self.signature_chain_id)
    }

    open spec fn spec_struct_hash(&self) -> Seq<u8> {
        usd_send_struct_hash(self.hyperliquid_chain@, self.destination@, self.amount@, self.time)
    }

    fn domain(&self) -> (d: Eip712Domain) {
        eip_712_domain(self.signature_chain_id)
    }

    fn struct_hash(&self) -> (h: Vec<u8>) {
        let mut data: Vec<u8> = Vec::new();
        append_str_hash(&mut data, "HyperliquidTransaction:UsdSend(string hyperliquidChain,string destination,string amount,uint64 time)");
        append_str_hash(&mut data, self.hyperliquid_chain.as_str());
        append_str_hash(&mut data, self.destination.as_str());
        append_str_hash(&mut data, self.amount.as_str());
        append_word(&mut data, self.time);
        keccak256(data.as_slice())
    }
}

impl Eip712 for SpotSendAction {
    open spec fn spec_domain(&self) -> (Seq<char>, Seq<char>, u64, Seq<u8>) {
        user_signed_domain(self.signature_chain_id)
    }

    open spec fn spec_struct_hash(&self) -> Seq<u8> {
        keccak256_digest(
            hash_str("HyperliquidTransaction:SpotSend(string hyperliquidChain,string destination,string token,string amount,uint64 time)"@)
                + hash_str(self.hyperliquid_chain@) + hash_str(self.destination@) + hash_str(
                self.token@,
            ) + hash_str(self.amount@) + abi_word(self.time as nat),
        )
    }

    fn domain(&self) -> (d: Eip712Domain) {
        eip_712_domain(self.signature_chain_id)
    }

    fn struct_hash(&self) -> (h: Vec<u8>) {
        let mut data: Vec<u8> = Vec::new();
        append_str_hash(&mut data, "HyperliquidTransaction:SpotSend(string hyperliquidChain,string destination,string token,string amount,uint64 time)");
        append_str_hash(&mut data, self.hyperliquid_chain.as_str());
        append_str_hash(&mut data, self.destination.as_str());
        append_str_hash(&mut data, self.token.as_str());
        append_str_hash(&mut data, self.amount.as_str());
        append_word(&mut data, self.time);
        keccak256(data.as_slice())
    }
}

impl Eip712 for WithdrawAction {
    open spec fn spec_domain(&self) -> (Seq<char>, Seq<char>, u64, Seq<u8>) {
        user_signed_domain(self.signature_chain_id)
    }

    open spec fn spec_struct_hash(&self) -> Seq<u8> {
        keccak256_digest(
            hash_str("HyperliquidTransaction:Withdraw(string hyperliquidChain,string destination,string amount,uint64 time)"@)
                + hash_str(self.hyperliquid_chain@) + hash_str(self.destination@) + hash_str(
                self.amount@,
            ) + abi_word(self.time as nat),
        )
    }

    fn domain(&self) -> (d: Eip712Domain) {
        eip_712_domain(self.signature_chain_id)
    }

    fn struct_hash(&self) -> (h: Vec<u8>) {
        let mut data: Vec<u8> = Vec::new();
        append_str_hash(&mut data, "HyperliquidTransaction:Withdraw(string hyperliquidChain,string destination,string amount,uint64 time)");
        append_str_hash(&mut data, self.hyperliquid_chain.as_str());
        append_str_hash(&mut data, self.destination.as_str());
        append_str_hash(&mut data, self.amount.as_str());
        append_word(&mut data, self.time);
        keccak256(data.as_slice())
    }
}

impl Eip712 for UsdClassTransferAction {
    open spec fn spec_domain(&self) -> (Seq<char>, Seq<char>, u64, Seq<u8>) {
        user_signed_domain(self.signature_chain_id)
    }

    open spec fn spec_struct_hash(&self) -> Seq<u8> {
        usd_class_transfer_struct_hash(self.hyperliquid_chain@, self.amount@, self.to_perp, self.nonce)
    }

    fn domain(&self) -> (d: Eip712Domain) {
        eip_712_domain(self.signature_chain_id)
    }

    fn struct_hash(&self) -> (h: Vec<u8>) {
        let mut data: Vec<u8> = Vec::new();
        append_str_hash(&mut data, "HyperliquidTransaction:UsdClassTransfer(string hyperliquidChain,string amount,bool toPerp,uint64 nonce)");
        append_str_hash(&mut data, self.hyperliquid_chain.as_str());
        append_str_hash(&mut data, self.amount.as_str());
        append_word(&mut data, if self.to_perp { 1 } else { 0 });
        append_word(&mut data, self.nonce);
        keccak256(data.as_slice())
    }
}

impl Eip712 for SendAssetAction {
    open spec fn spec_domain(&self) -> (Seq<char>, Seq<char>, u64, Seq<u8>) {
        user_signed_domain(self.signature_chain_id)
    }

    open spec fn spec_struct_hash(&self) -> Seq<u8> {
        send_asset_struct_hash(
            self.hyperliquid_chain@,
            self.destination@,
            self.source_dex@,
            self.destination_dex@,
            self.token@,
            self.amount@,
            self.from_sub_account@,
            self.nonce,
        )
    }

    fn domain(&self) -> (d: Eip712Domain) {
        eip_712_domain(self.signature_chain_id)
    }

    fn struct_hash(&self) -> (h: Vec<u8>) {
        let mut data: Vec<u8> = Vec::new();
        append_str_hash(&mut data, "HyperliquidTransaction:SendAsset(string hyperliquidChain,string destination,string sourceDex,string destinationDex,string token,string amount,string fromSubAccount,uint64 nonce)");
        append_str_hash(&mut data, self.hyperliquid_chain.as_str());
        append_str_hash(&mut data, self.destination.as_str());
        append_str_hash(&mut data, self.source_dex.as_str());
        append_str_hash(&mut data, self.destination_dex.as_str());
        append_str_hash(&mut data, self.token.as_str());
        append_str_hash(&mut data, self.amount.as_str());
        append_str_hash(&mut data, self.from_sub_account.as_str());
        append_word(&mut data, self.nonce);
        keccak256(data.as_slice())
    }
}

/// The agent name hashed into an approval: the empty string when absent.
pub open spec fn agent_name_view(name: Option<String>) -> Seq<char> {
    match name {
        Some(n) => n@,
        None => Seq::empty(),
    }
}

impl Eip712 for ApproveAgentAction {
    open spec fn spec_domain(&self) -> (Seq<char>, Seq<char>, u64, Seq<u8>) {
        user_signed_domain(self.signature_chain_id)
    }

    /// The agent address is a Rust string here, so the tuple is ABI-encoded
    /// with a dynamic `string` member: an offset word of 32, the five head
    /// words (the string's head being its offset, 160), then the string.
    open spec fn spec_struct_hash(&self) -> Seq<u8> {
        keccak256_digest(
            abi_word(32) + hash_str("HyperliquidTransaction:ApproveAgent(string hyperliquidChain,address agentAddress,string agentName,uint64 nonce)"@)
                + hash_str(self.hyperliquid_chain@) + abi_word(160) + hash_str(
                agent_name_view(self.agent_name),
            ) + abi_word(self.nonce as nat) + abi_string_tail(encode_utf8(self.agent_address@)),
        )
    }

    fn domain(&self) -> (d: Eip712Domain) {
        eip_712_domain(self.signature_chain_id)
    }

    fn struct_hash(&self) -> (h: Vec<u8>) {
        let mut data: Vec<u8> = Vec::new();
        append_word(&mut data, 32);
        append_str_hash(&mut data, "HyperliquidTransaction:ApproveAgent(string hyperliquidChain,address agentAddress,string agentName,uint64 nonce)");
        append_str_hash(&mut data, self.hyperliquid_chain.as_str());
        append_word(&mut data, 160);
        match &self.agent_name {
            Some(n) => append_str_hash(&mut data, n.as_str()),
            None => {
                let empty = String::new();
                append_str_hash(&mut data, empty.as_str());
            },
        }
        append_word(&mut data, self.nonce);
        append_abi_string_tail(&mut data, self.agent_address.as_str().as_bytes());
        keccak256(data.as_slice())
    }
}

impl Eip712 for ApproveBuilderFeeAction {
    open spec fn spec_domain(&self) -> (Seq<char>, Seq<char>, u64, Seq<u8>) {
        user_signed_domain(self.signature_chain_id)
    }

    /// The builder address is a Rust string here, so the tuple is ABI-encoded
    /// with a dynamic `string` member, as for `ApproveAgentAction`.
    open spec fn spec_struct_hash(&self) -> Seq<u8> {
        keccak256_digest(
            abi_word(32) + hash_str("HyperliquidTransaction:ApproveBuilderFee(string hyperliquidChain,string maxFeeRate,address builder,uint64 nonce)"@)
                + hash_str(self.hyperliquid_chain@) + hash_str(self.max_fee_rate@) + abi_word(160)
                + abi_word(self.nonce as nat) + abi_string_tail(encode_utf8(self.builder@)),
        )
    }

    fn domain(&self) -> (d: Eip712Domain) {
        eip_712_domain(self.signature_chain_id)
    }

    fn struct_hash(&self) -> (h: Vec<u8>) {
        let mut data: Vec<u8> = Vec::new();
        append_word(&mut data, 32);
        append_str_hash(&mut data, "HyperliquidTransaction:ApproveBuilderFee(string hyperliquidChain,string maxFeeRate,address builder,uint64 nonce)");
        append_str_hash(&mut data, self.hyperliquid_chain.as_str());
        append_str_hash(&mut data, self.max_fee_rate.as_str());
        append_word(&mut data, 160);
        append_word(&mut data, self.nonce);
        append_abi_string_tail(&mut data, self.builder.as_str().as_bytes());
        keccak256(data.as_slice())
    }
}

} // verus!
