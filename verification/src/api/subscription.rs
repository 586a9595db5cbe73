//! Subscriptions of the websocket API: their identity, the JSON that names
//! them on the wire, and the bookkeeping of the active ones.
use vstd::prelude::*;
use crate::utils::opt_string_view;
use crate::api::request_util::{is_supported_interval, supported_intervals, JsonObject, JsonValue, JsonValueV};
use crate::error::HyperliquidError;
use crate::types::ws::{SubscriptionConfirmation, SubscriptionKey};
use crate::utils::str_eq;

verus! {

/// Configurable parameters for subscriptions.
#[derive(Debug, Clone, Copy)]
pub struct SubscriptionConfig {
    /// Capacity for the underlying broadcast channel.
    channel_capacity: usize,
}

impl SubscriptionConfig {
    pub closed spec fn spec_channel_capacity(&self) -> usize {
        self.channel_capacity
    }

    /// Capacity for the underlying broadcast channel.
    pub fn channel_capacity(&self) -> (c: usize)
        ensures
            c == self.spec_channel_capacity(),
    {
        self.channel_capacity
    }
}

impl Default for SubscriptionConfig {
    fn default() -> (c: Self)
        ensures
            c.spec_channel_capacity() == 1000,
    {
        SubscriptionConfig { channel_capacity: 1000 }
    }
}

/// A subscription to one feed of the websocket API.
#[derive(Debug, Clone, Hash)]
pub enum SubscriptionSpec {
    AllMids { dex: Option<String> },
    Candle { coin: String, interval: String },
    L2Book { coin: String, n_sig_figs: Option<u32>, mantissa: Option<u32> },
    Trades { coin: String },
    Notifications { user: String },
    WebData3 { user: String },
    TwapStates { user: String },
    ClearinghouseState { user: String },
    OpenOrders { user: String },
    UserEvents { user: String },
    UserFills { user: String },
    UserFunding { user: String },
    UserNonFundingLedgerUpdates { user: String },
    ActiveAssetCtx { coin: String },
    ActiveAssetData { user: String, coin: String },
    UserTwapSliceFills { user: String },
    UserTwapHistory { user: String },
    Bbo { coin: String },
}

/// The mathematical view of a subscription.
pub enum SubscriptionSpecV {
    AllMids { dex: Option<Seq<char>> },
    Candle { coin: Seq<char>, interval: Seq<char> },
    L2Book { coin: Seq<char>, n_sig_figs: Option<u32>, mantissa: Option<u32> },
    Trades { coin: Seq<char> },
    Notifications { user: Seq<char> },
    WebData3 { user: Seq<char> },
    TwapStates { user: Seq<char> },
    ClearinghouseState { user: Seq<char> },
    OpenOrders { user: Seq<char> },
    UserEvents { user: Seq<char> },
    UserFills { user: Seq<char> },
    UserFunding { user: Seq<char> },
    UserNonFundingLedgerUpdates { user: Seq<char> },
    ActiveAssetCtx { coin: Seq<char> },
    ActiveAssetData { user: Seq<char>, coin: Seq<char> },
    UserTwapSliceFills { user: Seq<char> },
    UserTwapHistory { user: Seq<char> },
    Bbo { coin: Seq<char> },
}

impl View for SubscriptionSpec {
    type V = SubscriptionSpecV;

    open spec fn view(&self) -> SubscriptionSpecV {
        match self {
            SubscriptionSpec::AllMids { dex } => SubscriptionSpecV::AllMids { dex: opt_string_view(*dex) },
            SubscriptionSpec::Candle { coin, interval } => SubscriptionSpecV::Candle { coin: coin@, interval: interval@ },
            SubscriptionSpec::L2Book { coin, n_sig_figs, mantissa } => SubscriptionSpecV::L2Book {
                coin: coin@,
                n_sig_figs: *n_sig_figs,
                mantissa: *mantissa,
            },
            SubscriptionSpec::Trades { coin } => SubscriptionSpecV::Trades { coin: coin@ },
            SubscriptionSpec::Notifications { user } => SubscriptionSpecV::Notifications { user: user@ },
            SubscriptionSpec::WebData3 { user } => SubscriptionSpecV::WebData3 { user: user@ },
            SubscriptionSpec::TwapStates { user } => SubscriptionSpecV::TwapStates { user: user@ },
            SubscriptionSpec::ClearinghouseState { user } => SubscriptionSpecV::ClearinghouseState { user: user@ },
            SubscriptionSpec::OpenOrders { user } => SubscriptionSpecV::OpenOrders { user: user@ },
            SubscriptionSpec::UserEvents { user } => SubscriptionSpecV::UserEvents { user: user@ },
            SubscriptionSpec::UserFills { user } => SubscriptionSpecV::UserFills { user: user@ },
            SubscriptionSpec::UserFunding { user } => SubscriptionSpecV::UserFunding { user: user@ },
            SubscriptionSpec::UserNonFundingLedgerUpdates { user } => SubscriptionSpecV::UserNonFundingLedgerUpdates {
                user: user@,
            },
            SubscriptionSpec::ActiveAssetCtx { coin } => SubscriptionSpecV::ActiveAssetCtx { coin: coin@ },
            SubscriptionSpec::ActiveAssetData { user, coin } => SubscriptionSpecV::ActiveAssetData {
                user: user@,
                coin: coin@,
            },
            SubscriptionSpec::UserTwapSliceFills { user } => SubscriptionSpecV::UserTwapSliceFills { user: user@ },
            SubscriptionSpec::UserTwapHistory { user } => SubscriptionSpecV::UserTwapHistory { user: user@ },
            SubscriptionSpec::Bbo { coin } => SubscriptionSpecV::Bbo { coin: coin@ },
        }
    }
}

fn opt_string_eq(a: &Option<String>, b: &Option<String>) -> (eq: bool)
    ensures
        eq == (opt_string_view(*a) == opt_string_view(*b)),
{
    match (a, b) {
        (Some(x), Some(y)) => str_eq(x.as_str(), y.as_str()),
        (None, None) => true,
        _ => false,
    }
}

fn opt_u32_eq(a: &Option<u32>, b: &Option<u32>) -> (eq: bool)
    ensures
        eq == (*a == *b),
{
    match (a, b) {
        (Some(x), Some(y)) => *x == *y,
        (None, None) => true,
        _ => false,
    }
}

impl PartialEq for SubscriptionSpec {
    fn eq(&self, other: &Self) -> (r: bool) {
        match (self, other) {
            (SubscriptionSpec::AllMids { dex: a }, SubscriptionSpec::AllMids { dex: b }) => opt_string_eq(a, b),
            (
                SubscriptionSpec::Candle { coin: a1, interval: a2 },
                SubscriptionSpec::Candle { coin: b1, interval: b2 },
            ) => str_eq(a1.as_str(), b1.as_str()) && str_eq(a2.as_str(), b2.as_str()),
            (
                SubscriptionSpec::L2Book { coin: a, n_sig_figs: a2, mantissa: a3 },
                SubscriptionSpec::L2Book { coin: b, n_sig_figs: b2, mantissa: b3 },
            ) => str_eq(a.as_str(), b.as_str()) && opt_u32_eq(a2, b2) && opt_u32_eq(a3, b3),
            (SubscriptionSpec::Trades { coin: a }, SubscriptionSpec::Trades { coin: b }) => str_eq(a.as_str(), b.as_str()),
            (SubscriptionSpec::Notifications { user: a }, SubscriptionSpec::Notifications { user: b }) => str_eq(
                a.as_str(),
                b.as_str(),
            ),
            (SubscriptionSpec::WebData3 { user: a }, SubscriptionSpec::WebData3 { user: b }) => str_eq(a.as_str(), b.as_str()),
            (SubscriptionSpec::TwapStates { user: a }, SubscriptionSpec::TwapStates { user: b }) => str_eq(
                a.as_str(),
                b.as_str(),
            ),
            (
                SubscriptionSpec::ClearinghouseState { user: a },
                SubscriptionSpec::ClearinghouseState { user: b },
            ) => str_eq(a.as_str(), b.as_str()),
            (SubscriptionSpec::OpenOrders { user: a }, SubscriptionSpec::OpenOrders { user: b }) => str_eq(
                a.as_str(),
                b.as_str(),
            ),
            (SubscriptionSpec::UserEvents { user: a }, SubscriptionSpec::UserEvents { user: b }) => str_eq(
                a.as_str(),
                b.as_str(),
            ),
            (SubscriptionSpec::UserFills { user: a }, SubscriptionSpec::UserFills { user: b }) => str_eq(
                a.as_str(),
                b.as_str(),
            ),
            (SubscriptionSpec::UserFunding { user: a }, SubscriptionSpec::UserFunding { user: b }) => str_eq(
                a.as_str(),
                b.as_str(),
            ),
            (
                SubscriptionSpec::UserNonFundingLedgerUpdates { user: a },
                SubscriptionSpec::UserNonFundingLedgerUpdates { user: b },
            ) => str_eq(a.as_str(), b.as_str()),
            (SubscriptionSpec::ActiveAssetCtx { coin: a }, SubscriptionSpec::ActiveAssetCtx { coin: b }) => str_eq(
                a.as_str(),
                b.as_str(),
            ),
            (
                SubscriptionSpec::ActiveAssetData { user: a1, coin: a2 },
                SubscriptionSpec::ActiveAssetData { user: b1, coin: b2 },
            ) => str_eq(a1.as_str(), b1.as_str()) && str_eq(a2.as_str(), b2.as_str()),
            (
                SubscriptionSpec::UserTwapSliceFills { user: a },
                SubscriptionSpec::UserTwapSliceFills { user: b },
            ) => str_eq(a.as_str(), b.as_str()),
            (SubscriptionSpec::UserTwapHistory { user: a }, SubscriptionSpec::UserTwapHistory { user: b }) => str_eq(
                a.as_str(),
                b.as_str(),
            ),
            (SubscriptionSpec::Bbo { coin: a }, SubscriptionSpec::Bbo { coin: b }) => str_eq(a.as_str(), b.as_str()),
            _ => false,
        }
    }
}

impl vstd::std_specs::cmp::PartialEqSpecImpl for SubscriptionSpec {
    open spec fn obeys_eq_spec() -> bool {
        true
    }

    open spec fn eq_spec(&self, other: &SubscriptionSpec) -> bool {
        self@ == other@
    }
}

impl Eq for SubscriptionSpec {
}

/// The value of the `"type"` field naming a subscription's feed.
pub open spec fn spec_feed_name(s: SubscriptionSpecV) -> Seq<char> {
    match s {
        SubscriptionSpecV::AllMids { .. } => "allMids"@,
        SubscriptionSpecV::Candle { .. } => "candle"@,
        SubscriptionSpecV::L2Book { .. } => "l2Book"@,
        SubscriptionSpecV::Trades { .. } => "trades"@,
        SubscriptionSpecV::Notifications { .. } => "notification"@,
        SubscriptionSpecV::WebData3 { .. } => "webData3"@,
        SubscriptionSpecV::TwapStates { .. } => "twapStates"@,
        SubscriptionSpecV::ClearinghouseState { .. } => "clearinghouseState"@,
        SubscriptionSpecV::OpenOrders { .. } => "openOrders"@,
        SubscriptionSpecV::UserEvents { .. } => "userEvents"@,
        SubscriptionSpecV::UserFills { .. } => "userFills"@,
        SubscriptionSpecV::UserFunding { .. } => "userFundings"@,
        SubscriptionSpecV::UserNonFundingLedgerUpdates { .. } => "userNonFundingLedgerUpdates"@,
        SubscriptionSpecV::ActiveAssetCtx { .. } => "activeAssetCtx"@,
        SubscriptionSpecV::ActiveAssetData { .. } => "activeAssetData"@,
        SubscriptionSpecV::UserTwapSliceFills { .. } => "userTwapSliceFills"@,
        SubscriptionSpecV::UserTwapHistory { .. } => "userTwapHistory"@,
        SubscriptionSpecV::Bbo { .. } => "bbo"@,
    }
}

/// The websocket channel that carries the data of a subscription, for the
/// subscriptions whose channel the API lists.
pub open spec fn feed_channel(s: SubscriptionSpecV) -> Option<SubscriptionKey> {
    match s {
        SubscriptionSpecV::AllMids { .. } => Some(SubscriptionKey::AllMids),
        SubscriptionSpecV::Candle { .. } => Some(SubscriptionKey::Candle),
        SubscriptionSpecV::L2Book { .. } => Some(SubscriptionKey::L2Book),
        SubscriptionSpecV::Trades { .. } => Some(SubscriptionKey::Trades),
        SubscriptionSpecV::Notifications { .. } => Some(SubscriptionKey::Notification),
        SubscriptionSpecV::WebData3 { .. } => Some(SubscriptionKey::WebData3),
        SubscriptionSpecV::TwapStates { .. } => Some(SubscriptionKey::TwapStates),
        SubscriptionSpecV::OpenOrders { .. } => Some(SubscriptionKey::OpenOrders),
        SubscriptionSpecV::UserEvents { .. } => Some(SubscriptionKey::UserEvents),
        SubscriptionSpecV::ActiveAssetCtx { .. } => Some(SubscriptionKey::ActiveAssetCtx),
        SubscriptionSpecV::ActiveAssetData { .. } => Some(SubscriptionKey::ActiveAssetData),
        SubscriptionSpecV::UserTwapSliceFills { .. } => Some(SubscriptionKey::UserTwapSliceFills),
        SubscriptionSpecV::UserTwapHistory { .. } => Some(SubscriptionKey::UserTwapHistory),
        SubscriptionSpecV::Bbo { .. } => Some(SubscriptionKey::Bbo),
        _ => None,
    }
}

/// A subscription names the feed whose data it receives: its `"type"` is the
/// name of the websocket channel that carries that data, and the feeds with
/// no listed channel are named `clearinghouseState`, `userFills`,
/// `userFundings` and `userNonFundingLedgerUpdates`. The subscription object
/// starts with that name under `"type"`.
pub proof fn lemma_subscription_names_its_channel(s: SubscriptionSpecV)
    ensures
        feed_channel(s) matches Some(k) ==> spec_feed_name(s) == k.spec_name(),
        s is ClearinghouseState ==> spec_feed_name(s) == "clearinghouseState"@,
        s is UserFills ==> spec_feed_name(s) == "userFills"@,
        s is UserFunding ==> spec_feed_name(s) == "userFundings"@,
        s is UserNonFundingLedgerUpdates ==> spec_feed_name(s) == "userNonFundingLedgerUpdates"@,
        spec_subscription_json(s).len() >= 1,
        spec_subscription_json(s)[0] == ("type"@, JsonValueV::Str(spec_feed_name(s))),
{
}

/// A JSON string.
pub open spec fn jstr(s: Seq<char>) -> JsonValueV {
    JsonValueV::Str(s)
}

/// The JSON object that names a subscription on the wire: its feed under
/// `"type"`, then its parameters; absent optional parameters are omitted.
pub open spec fn spec_subscription_json(s: SubscriptionSpecV) -> Seq<(Seq<char>, JsonValueV)> {
    let t = seq![("type"@, jstr(spec_feed_name(s)))];
    match s {
        SubscriptionSpecV::AllMids { dex } => match dex {
            Some(d) => t.push(("dex"@, jstr(d))),
            None => t,
        },
        SubscriptionSpecV::Candle { coin, interval } => t.push(("coin"@, jstr(coin))).push(
            ("interval"@, jstr(interval)),
        ),
        SubscriptionSpecV::L2Book { coin, n_sig_figs, mantissa } => {
            let c = t.push(("coin"@, jstr(coin)));
            let n = match n_sig_figs {
                Some(n) => c.push(("nSigFigs"@, JsonValueV::Number(n as u64))),
                None => c,
            };
            match mantissa {
                Some(m) => n.push(("mantissa"@, JsonValueV::Number(m as u64))),
                None => n,
            }
        },
        SubscriptionSpecV::Trades { coin } => t.push(("coin"@, jstr(coin))),
        SubscriptionSpecV::Notifications { user } => t.push(("user"@, jstr(user))),
        SubscriptionSpecV::WebData3 { user } => t.push(("user"@, jstr(user))),
        SubscriptionSpecV::TwapStates { user } => t.push(("user"@, jstr(user))),
        SubscriptionSpecV::ClearinghouseState { user } => t.push(("user"@, jstr(user))),
        SubscriptionSpecV::OpenOrders { user } => t.push(("user"@, jstr(user))),
        SubscriptionSpecV::UserEvents { user } => t.push(("user"@, jstr(user))),
        SubscriptionSpecV::UserFills { user } => t.push(("user"@, jstr(user))),
        SubscriptionSpecV::UserFunding { user } => t.push(("user"@, jstr(user))),
        SubscriptionSpecV::UserNonFundingLedgerUpdates { user } => t.push(("user"@, jstr(user))),
        SubscriptionSpecV::ActiveAssetCtx { coin } => t.push(("coin"@, jstr(coin))),
        SubscriptionSpecV::ActiveAssetData { user, coin } => t.push(("user"@, jstr(user))).push(
            ("coin"@, jstr(coin)),
        ),
        SubscriptionSpecV::UserTwapSliceFills { user } => t.push(("user"@, jstr(user))),
        SubscriptionSpecV::UserTwapHistory { user } => t.push(("user"@, jstr(user))),
        SubscriptionSpecV::Bbo { coin } => t.push(("coin"@, jstr(coin))),
    }
}

/// Builds the JSON object that names a subscription.
pub fn build_subscription_json(spec: &SubscriptionSpec) -> (v: JsonObject)
    ensures
        v@ == spec_subscription_json(spec@),
{
    match spec {
        SubscriptionSpec::AllMids { dex } => {
            let mut v = crate::api::request_util::typed_object("allMids");
            if let Some(d) = dex {
                v.push_str("dex", d.as_str());
            }
            v
        },
        SubscriptionSpec::Candle { coin, interval } => {
            let mut v = crate::api::request_util::typed_object("candle");
            v.push_str("coin", coin.as_str());
            v.push_str("interval", interval.as_str());
            v
        },
        SubscriptionSpec::L2Book { coin, n_sig_figs, mantissa } => {
            let mut v = crate::api::request_util::typed_object("l2Book");
            v.push_str("coin", coin.as_str());
            if let Some(n) = n_sig_figs {
                v.push_number("nSigFigs", *n as u64);
            }
            if let Some(m) = mantissa {
                v.push_number("mantissa", *m as u64);
            }
            v
        },
        SubscriptionSpec::Trades { coin } => user_or_coin("trades", "coin", coin.as_str()),
        SubscriptionSpec::Notifications { user } => user_or_coin("notification", "user", user.as_str()),
        SubscriptionSpec::WebData3 { user } => user_or_coin("webData3", "user", user.as_str()),
        SubscriptionSpec::TwapStates { user } => user_or_coin("twapStates", "user", user.as_str()),
        SubscriptionSpec::ClearinghouseState { user } => user_or_coin("clearinghouseState", "user", user.as_str()),
        SubscriptionSpec::OpenOrders { user } => user_or_coin("openOrders", "user", user.as_str()),
        SubscriptionSpec::UserEvents { user } => user_or_coin("userEvents", "user", user.as_str()),
        SubscriptionSpec::UserFills { user } => user_or_coin("userFills", "user", user.as_str()),
        SubscriptionSpec::UserFunding { user } => user_or_coin("userFundings", "user", user.as_str()),
        SubscriptionSpec::UserNonFundingLedgerUpdates { user } => user_or_coin(
            "userNonFundingLedgerUpdates",
            "user",
            user.as_str(),
        ),
        SubscriptionSpec::ActiveAssetCtx { coin } => user_or_coin("activeAssetCtx", "coin", coin.as_str()),
        SubscriptionSpec::ActiveAssetData { user, coin } => {
            let mut v = crate::api::request_util::typed_object("activeAssetData");
            v.push_str("user", user.as_str());
            v.push_str("coin", coin.as_str());
            v
        },
        SubscriptionSpec::UserTwapSliceFills { user } => user_or_coin("userTwapSliceFills", "user", user.as_str()),
        SubscriptionSpec::UserTwapHistory { user } => user_or_coin("userTwapHistory", "user", user.as_str()),
        SubscriptionSpec::Bbo { coin } => user_or_coin("bbo", "coin", coin.as_str()),
    }
}

/// The object `{"type": t, key: value}`.
fn user_or_coin(t: &str, key: &str, value: &str) -> (v: JsonObject)
    ensures
        v@ == seq![("type"@, jstr(t@)), (key@, jstr(value@))],
{
    let mut v = crate::api::request_util::typed_object(t);
    v.push_str(key, value);
    v
}

/// The position of a subscription's variant in the declaration.
pub open spec fn variant_index(s: SubscriptionSpecV) -> int {
    match s {
        SubscriptionSpecV::AllMids { .. } => 0,
        SubscriptionSpecV::Candle { .. } => 1,
        SubscriptionSpecV::L2Book { .. } => 2,
        SubscriptionSpecV::Trades { .. } => 3,
        SubscriptionSpecV::Notifications { .. } => 4,
        SubscriptionSpecV::WebData3 { .. } => 5,
        SubscriptionSpecV::TwapStates { .. } => 6,
        SubscriptionSpecV::ClearinghouseState { .. } => 7,
        SubscriptionSpecV::OpenOrders { .. } => 8,
        SubscriptionSpecV::UserEvents { .. } => 9,
        SubscriptionSpecV::UserFills { .. } => 10,
        SubscriptionSpecV::UserFunding { .. } => 11,
        SubscriptionSpecV::UserNonFundingLedgerUpdates { .. } => 12,
        SubscriptionSpecV::ActiveAssetCtx { .. } => 13,
        SubscriptionSpecV::ActiveAssetData { .. } => 14,
        SubscriptionSpecV::UserTwapSliceFills { .. } => 15,
        SubscriptionSpecV::UserTwapHistory { .. } => 16,
        SubscriptionSpecV::Bbo { .. } => 17,
    }
}

/// Recovers the variant from a feed name by its length and first character.
spec fn feed_index(n: Seq<char>) -> int {
    if n.len() == 7 { 0 }
    else if n.len() == 6 && n[0] == 'c' { 1 }
    else if n.len() == 6 && n[0] == 'l' { 2 }
    else if n.len() == 6 { 3 }
    else if n.len() == 12 && n[0] == 'n' { 4 }
    else if n.len() == 8 { 5 }
    else if n.len() == 10 && n[0] == 't' { 6 }
    else if n.len() == 18 && n[0] == 'c' { 7 }
    else if n.len() == 10 && n[0] == 'o' { 8 }
    else if n.len() == 10 { 9 }
    else if n.len() == 9 { 10 }
    else if n.len() == 12 { 11 }
    else if n.len() == 27 { 12 }
    else if n.len() == 14 { 13 }
    else if n.len() == 15 && n[0] == 'a' { 14 }
    else if n.len() == 18 { 15 }
    else if n.len() == 15 { 16 }
    else { 17 }
}

proof fn lemma_feed_index(a: SubscriptionSpecV)
    ensures
        feed_index(spec_feed_name(a)) == variant_index(a),
{
    match a {
        SubscriptionSpecV::AllMids { .. } => { reveal_strlit("allMids"); },
        SubscriptionSpecV::Candle { .. } => { reveal_strlit("candle"); },
        SubscriptionSpecV::L2Book { .. } => { reveal_strlit("l2Book"); },
        SubscriptionSpecV::Trades { .. } => { reveal_strlit("trades"); },
        SubscriptionSpecV::Notifications { .. } => { reveal_strlit("notification"); },
        SubscriptionSpecV::WebData3 { .. } => { reveal_strlit("webData3"); },
        SubscriptionSpecV::TwapStates { .. } => { reveal_strlit("twapStates"); },
        SubscriptionSpecV::ClearinghouseState { .. } => { reveal_strlit("clearinghouseState"); },
        SubscriptionSpecV::OpenOrders { .. } => { reveal_strlit("openOrders"); },
        SubscriptionSpecV::UserEvents { .. } => { reveal_strlit("userEvents"); },
        SubscriptionSpecV::UserFills { .. } => { reveal_strlit("userFills"); },
        SubscriptionSpecV::UserFunding { .. } => { reveal_strlit("userFundings"); },
        SubscriptionSpecV::UserNonFundingLedgerUpdates { .. } => { reveal_strlit("userNonFundingLedgerUpdates"); },
        SubscriptionSpecV::ActiveAssetCtx { .. } => { reveal_strlit("activeAssetCtx"); },
        SubscriptionSpecV::ActiveAssetData { .. } => { reveal_strlit("activeAssetData"); },
        SubscriptionSpecV::UserTwapSliceFills { .. } => { reveal_strlit("userTwapSliceFills"); },
        SubscriptionSpecV::UserTwapHistory { .. } => { reveal_strlit("userTwapHistory"); },
        SubscriptionSpecV::Bbo { .. } => { reveal_strlit("bbo"); },
    }
}

proof fn lemma_feed_name_injective(a: SubscriptionSpecV, b: SubscriptionSpecV)
    requires
        spec_feed_name(a) == spec_feed_name(b),
    ensures
        variant_index(a) == variant_index(b),
{
    lemma_feed_index(a);
    lemma_feed_index(b);
}

/// Different subscriptions are named by different JSON objects: the wire
/// name of a subscription identifies it, so a subscribe and the matching
/// unsubscribe refer to one feed only.
pub proof fn lemma_subscription_json_injective(a: SubscriptionSpecV, b: SubscriptionSpecV)
    requires
        spec_subscription_json(a) == spec_subscription_json(b),
    ensures
        a == b,
{
    let ja = spec_subscription_json(a);
    let jb = spec_subscription_json(b);
    assert(ja[0] == jb[0]);
    lemma_feed_name_injective(a, b);
    reveal_strlit("nSigFigs");
    reveal_strlit("mantissa");
    match a {
        SubscriptionSpecV::L2Book { coin, n_sig_figs, mantissa } => {
            if let SubscriptionSpecV::L2Book { coin: coin2, n_sig_figs: n2, mantissa: m2 } = b {
                assert(ja[1] == jb[1]);
                assert("nSigFigs"@[0] != "mantissa"@[0]);
                if n_sig_figs is Some && mantissa is Some {
                    assert(ja.len() == 4);
                    assert(ja[2] == jb[2]);
                    assert(ja[3] == jb[3]);
                    assert(n2 is Some && m2 is Some);
                } else if n_sig_figs is Some {
                    assert(ja.len() == 3);
                    assert(ja[2] == jb[2]);
                    assert(n2 is Some);
                } else if mantissa is Some {
                    assert(ja.len() == 3);
                    assert(ja[2] == jb[2]);
                    assert(m2 is Some);
                } else {
                    assert(ja.len() == 2);
                }
            }
        },
        SubscriptionSpecV::AllMids { dex } => {
            if ja.len() > 1 {
                assert(ja[1] == jb[1]);
            }
        },
        SubscriptionSpecV::Candle { .. } => {
            assert(ja[1] == jb[1]);
            assert(ja[2] == jb[2]);
        },
        SubscriptionSpecV::ActiveAssetData { .. } => {
            assert(ja[1] == jb[1]);
            assert(ja[2] == jb[2]);
        },
        _ => {
            assert(ja[1] == jb[1]);
        },
    }
}

/// Whether a subscription can be made: any but a candle subscription whose
/// interval is not supported.
pub open spec fn spec_subscribable(spec: SubscriptionSpecV) -> bool {
    !(spec matches SubscriptionSpecV::Candle { interval, .. } && !supported_intervals().contains(interval))
}

/// The set of active subscriptions, without duplicates, each of which can be
/// made.
pub struct ActiveSubscriptions {
    specs: Vec<SubscriptionSpec>,
}

impl ActiveSubscriptions {
    /// The subscriptions in order of insertion.
    pub closed spec fn entries(&self) -> Seq<SubscriptionSpecV> {
        self.specs@.map_values(|s: SubscriptionSpec| s@)
    }

    /// No subscription is recorded twice, and each can be made.
    pub closed spec fn well_formed(&self) -> bool {
        &&& self.entries().no_duplicates()
        &&& forall|i: int| 0 <= i < self.entries().len() ==> spec_subscribable(#[trigger] self.entries()[i])
    }

    pub closed spec fn view(&self) -> Set<SubscriptionSpecV> {
        self.entries().to_set()
    }

    pub fn new() -> (a: ActiveSubscriptions)
        ensures
            a.well_formed(),
            a.view() == Set::<SubscriptionSpecV>::empty(),
    {
        let a = ActiveSubscriptions { specs: Vec::new() };
        assert(a.entries() == Seq::<SubscriptionSpecV>::empty());
        a
    }

    /// The number of active subscriptions.
    pub fn len(&self) -> (n: usize)
        requires
            self.well_formed(),
        ensures
            n == self.view().len(),
            self.view().finite(),
    {
        proof {
            self.entries().unique_seq_to_set();
        }
        self.specs.len()
    }

    fn index_of(&self, spec: &SubscriptionSpec) -> (i: Option<usize>)
        ensures
            match i {
                Some(i) => i < self.entries().len() && self.entries()[i as int] == spec@,
                None => !self.entries().contains(spec@),
            },
    {
        let mut i: usize = 0;
        while i < self.specs.len()
            invariant
                i <= self.specs@.len(),
                forall|j: int| 0 <= j < i ==> self.entries()[j] != spec@,
            decreases self.specs@.len() - i,
        {
            if self.specs[i] == *spec {
                return Some(i);
            }
            i = i + 1;
        }
        None
    }

    /// Whether a subscription is active.
    pub fn contains(&self, spec: &SubscriptionSpec) -> (b: bool)
        ensures
            b == self.view().contains(spec@),
    {
        match self.index_of(spec) {
            Some(_) => true,
            None => false,
        }
    }

    /// Marks a subscription active. A candle subscription with an unsupported
    /// interval is never active: it leaves the set as it was.
    pub fn insert(&mut self, spec: SubscriptionSpec)
        requires
            old(self).well_formed(),
        ensures
            final(self).well_formed(),
            final(self).view() == if spec_subscribable(spec@) {
                old(self).view().insert(spec@)
            } else {
                old(self).view()
            },
    {
        if let SubscriptionSpec::Candle { interval, .. } = &spec {
            if !is_supported_interval(interval.as_str()) {
                return;
            }
        }
        if self.index_of(&spec).is_none() {
            let ghost old_entries = self.entries();
            self.specs.push(spec);
            assert(self.entries() == old_entries.push(spec@));
            proof {
                old_entries.lemma_push_to_set_commute(spec@);
            }
        } else {
            assert(self.view().insert(spec@) == self.view());
        }
    }

    /// Marks a subscription inactive.
    pub fn remove(&mut self, spec: &SubscriptionSpec)
        requires
            old(self).well_formed(),
        ensures
            final(self).well_formed(),
            final(self).view() == old(self).view().remove(spec@),
    {
        match self.index_of(spec) {
            Some(i) => {
                let ghost old_entries = self.entries();
                self.specs.remove(i);
                assert(self.entries() == old_entries.remove(i as int));
                assert forall|k: int| 0 <= k < self.entries().len() implies spec_subscribable(
                    #[trigger] self.entries()[k],
                ) by {
                    if k < i {
                        assert(self.entries()[k] == old_entries[k]);
                    } else {
                        assert(self.entries()[k] == old_entries[k + 1]);
                    }
                }
                assert(self.entries().to_set() == old_entries.to_set().remove(spec@)) by {
                    assert forall|x: SubscriptionSpecV| #[trigger] self.entries().contains(x) <==> (old_entries.contains(x) && x != spec@) by {
                        if self.entries().contains(x) {
                            let k = choose|k: int| 0 <= k < self.entries().len() && self.entries()[k] == x;
                            if k < i {
                                assert(old_entries[k] == x);
                            } else {
                                assert(old_entries[k + 1] == x);
                            }
                        }
                        if old_entries.contains(x) && x != spec@ {
                            let k = choose|k: int| 0 <= k < old_entries.len() && old_entries[k] == x;
                            assert(k != i);
                            if k < i {
                                assert(self.entries()[k] == x);
                            } else {
                                assert(self.entries()[k - 1] == x);
                            }
                        }
                    }
                }
            },
            None => {
                assert(self.view().remove(spec@) == self.view());
            },
        }
    }

    /// The request that subscribes to a feed: nothing when the subscription is
    /// already active; an error when a candle subscription names an
    /// unsupported interval; otherwise a `"subscribe"` request naming it.
    pub fn plan_subscribe(&self, spec: &SubscriptionSpec) -> (res: Result<Option<SubscriptionConfirmation>, HyperliquidError>)
        ensures
            self.view().contains(spec@) ==> (res matches Ok(None)),
            !self.view().contains(spec@) && !spec_subscribable(spec@) ==> (res matches Err(HyperliquidError::InvalidRequestParameter { method, parameter, .. })
                    && method@ == "subscribe_candle"@ && parameter@ == "interval"@),
            !self.view().contains(spec@) && spec_subscribable(spec@) ==> (res matches Ok(Some(c)) && c.method@ == "subscribe"@ && c.subscription@ == spec_subscription_json(spec@)),
    {
        if self.contains(spec) {
            return Ok(None);
        }
        if let SubscriptionSpec::Candle { interval, .. } = spec {
            if !is_supported_interval(interval.as_str()) {
                return Err(
                    HyperliquidError::InvalidRequestParameter {
                        method: String::from_str("subscribe_candle"),
                        parameter: String::from_str("interval"),
                        reason: String::from_str("Supported intervals include: 1m, 3m, 5m, 15m, 30m, 1h, 2h, 4h, 8h, 12h, 1d, 3d, 1w, 1M"),
                    },
                );
            }
        }
        Ok(Some(SubscriptionConfirmation {
            method: String::from_str("subscribe"),
            subscription: build_subscription_json(spec),
        }))
    }

    /// The request that unsubscribes from a feed: nothing when the
    /// subscription is not active, otherwise an `"unsubscribe"` request naming it.
    pub fn plan_unsubscribe(&self, spec: &SubscriptionSpec) -> (res: Option<SubscriptionConfirmation>)
        ensures
            !self.view().contains(spec@) ==> res is None,
            self.view().contains(spec@) ==> (res matches Some(c) && c.method@ == "unsubscribe"@
                && c.subscription@ == spec_subscription_json(spec@)),
    {
        if !self.contains(spec) {
            return None;
        }
        Some(SubscriptionConfirmation {
            method: String::from_str("unsubscribe"),
            subscription: build_subscription_json(spec),
        })
    }
}

/// Every active subscription can be made: no candle subscription with an
/// unsupported interval is ever active.
pub proof fn lemma_active_subscriptions_subscribable(active: &ActiveSubscriptions)
    requires
        active.well_formed(),
    ensures
        forall|s: SubscriptionSpecV| active.view().contains(s) ==> spec_subscribable(s),
{
    assert forall|s: SubscriptionSpecV| active.view().contains(s) implies spec_subscribable(s) by {
        let k = choose|k: int| 0 <= k < active.entries().len() && active.entries()[k] == s;
        assert(spec_subscribable(active.entries()[k]));
    }
}

/// Subscribing to a feed and then unsubscribing from it leaves the set of
/// active subscriptions as it was before, when the feed was not active.
pub proof fn lemma_subscribe_unsubscribe_restores(active: Set<SubscriptionSpecV>, spec: SubscriptionSpecV)
    requires
        !active.contains(spec),
    ensures
        active.insert(spec).remove(spec) == active,
{
    assert(active.insert(spec).remove(spec) =~= active);
}

/// Subscribing is idempotent: a second subscription to an active feed leaves
/// the set unchanged.
pub proof fn lemma_subscribe_idempotent(active: Set<SubscriptionSpecV>, spec: SubscriptionSpecV)
    ensures
        active.insert(spec).insert(spec) == active.insert(spec),
        active.insert(spec).contains(spec),
{
    assert(active.insert(spec).insert(spec) =~= active.insert(spec));
}

} // verus!
