//! The payloads of the info endpoint, which fetches information about the
//! exchange and about specific users, with the validation of their parameters.
use vstd::prelude::*;
use crate::api::request_util::{
    is_supported_interval, supported_intervals, typed_object, JsonObject, JsonScalar, JsonScalarV, JsonValue, JsonValueV,
};
use crate::chain::{is_valid_hyperliquid_address, spec_is_valid_hyperliquid_address};
use crate::client::HyperliquidClient;
use crate::error::HyperliquidError;
use crate::types::info::user::{CandleSnapshotRequest, OrderId};
use vstd::utf8::encode_utf8;
use crate::utils::{decimal_string, decimal_text};

verus! {

/// A JSON string.
pub open spec fn s(v: Seq<char>) -> JsonValueV {
    JsonValueV::Str(v)
}

/// A JSON number.
pub open spec fn n(v: u64) -> JsonValueV {
    JsonValueV::Number(v)
}

/// `{"type": t}`
pub open spec fn req(t: Seq<char>) -> Seq<(Seq<char>, JsonValueV)> {
    seq![("type"@, s(t))]
}

/// `{"type": t, "user": user}`
pub open spec fn user_req(t: Seq<char>, user: Seq<char>) -> Seq<(Seq<char>, JsonValueV)> {
    req(t).push(("user"@, s(user)))
}

/// An `InvalidRequestParameter` error naming a method and a parameter.
pub open spec fn is_param_error(e: HyperliquidError, m: Seq<char>, p: Seq<char>) -> bool {
    e matches HyperliquidError::InvalidRequestParameter { method, parameter, .. } && method@ == m
        && parameter@ == p
}

/// The reason given by an `InvalidRequestParameter` error.
pub open spec fn param_error_reason(e: HyperliquidError) -> Seq<char> {
    match e {
        HyperliquidError::InvalidRequestParameter { reason, .. } => reason@,
        _ => Seq::empty(),
    }
}

/// A given string, or the empty string.
pub open spec fn str_or_empty(o: Option<&str>) -> Seq<char> {
    match o {
        Some(v) => v@,
        None => Seq::empty(),
    }
}

/// The dex sent is the dex asked for: a requested dex is sent under its own
/// name, and without one the empty name (the first perp dex) is sent.
pub proof fn lemma_dex_sent_is_dex_asked(dex: Option<&str>)
    ensures
        dex matches Some(d) ==> str_or_empty(dex) == d@,
        dex is None ==> str_or_empty(dex) == Seq::<char>::empty(),
{
}

fn user_request(t: &str, user: &str) -> (o: JsonObject)
    ensures
        o@ == user_req(t@, user@),
{
    let mut o = typed_object(t);
    o.push_str("user", user);
    o
}

/// The error for a malformed user address.
fn invalid_address(method: &str, parameter: &str) -> (e: HyperliquidError)
    ensures
        is_param_error(e, method@, parameter@),
{
    crate::api::request_util::err_request_invalid_hyperliquid_address(
        String::from_str(method),
        String::from_str(parameter),
        String::from_str("Specified user parameter has invalid address"),
    )
}

/// `{"type": t, "user": user}` after checking that `user` is a valid address.
fn checked_user_request(method: &str, t: &str, user: &str) -> (res: Result<JsonObject, HyperliquidError>)
    ensures
        spec_is_valid_hyperliquid_address(user@) ==> (res matches Ok(o) && o@ == user_req(t@, user@)),
        !spec_is_valid_hyperliquid_address(user@) ==> (res matches Err(e) && is_param_error(e, method@, "user"@)),
{
    if !is_valid_hyperliquid_address(user) {
        return Err(invalid_address(method, "user"));
    }
    Ok(user_request(t, user))
}

/// Appends the `dex` field: the given name, or the empty string.
fn push_dex(o: &mut JsonObject, dex: Option<&str>)
    ensures
        final(o)@ == old(o)@.push(("dex"@, s(str_or_empty(dex)))),
        dex matches Some(d) ==> final(o)@ == old(o)@.push(("dex"@, JsonValueV::Str(d@))),
{
    match dex {
        Some(d) => o.push_str("dex", d),
        None => {
            proof {
                reveal_strlit("");
            }
            assert(""@ =~= Seq::<char>::empty());
            o.push_str("dex", "");
        },
    }
}

/// Whether a mantissa is accepted (1, 2 or 5).
pub open spec fn valid_mantissa(m: u8) -> bool {
    m == 1 || m == 2 || m == 5
}

/// The end of a time range: the given end, or the current time.
pub open spec fn end_or_now(end_time: Option<u64>, now: u64) -> u64 {
    match end_time {
        Some(e) => e,
        None => now,
    }
}

/// The info endpoint: information about the exchange and about specific
/// users. Each method gives the payload of its request.
pub struct InfoApi<'client> {
    client: &'client HyperliquidClient,
}

impl<'client> InfoApi<'client> {
    /// The client the requests belong to.
    pub closed spec fn client(&self) -> &'client HyperliquidClient {
        self.client
    }

    pub fn new(client: &'client HyperliquidClient) -> (api: Self)
        ensures
            api.client() == client,
    {
        InfoApi { client }
    }

    /// Mids for all coins of a perp dex (the first one when `dex` is absent).
    pub fn all_mids(&self, dex: Option<String>) -> (o: JsonObject)
        ensures
            o@ == req("allMids"@).push(("dex"@, s(match dex { Some(d) => d@, None => Seq::empty() }))),
    {
        let mut o = typed_object("allMids");
        match dex {
            Some(d) => o.push_str("dex", d.as_str()),
            None => {
                let empty = String::new();
                o.push_str("dex", empty.as_str());
            },
        }
        o
    }

    /// A user's open orders on a perp dex (the first one by default).
    pub fn open_orders(&self, user: &str, dex: Option<&str>) -> (o: JsonObject)
        ensures
            o@ == user_req("openOrders"@, user@).push(("dex"@, s(str_or_empty(dex)))),
            dex matches Some(d) ==> o@ == user_req("openOrders"@, user@).push(("dex"@, JsonValueV::Str(d@))),
            dex is None ==> o@ == user_req("openOrders"@, user@).push(("dex"@, JsonValueV::Str(Seq::empty()))),
    {
        let mut o = user_request("openOrders", user);
        push_dex(&mut o, dex);
        o
    }

    /// A user's open orders with frontend information; the dex is sent only when non-empty.
    pub fn open_orders_with_additional_info(&self, user: &str, dex: Option<&str>) -> (o: JsonObject)
        ensures
            match dex {
                Some(d) => if d@.len() > 0 {
                    o@ == user_req("frontendOpenOrders"@, user@).push(("dex"@, s(d@)))
                } else {
                    o@ == user_req("frontendOpenOrders"@, user@)
                },
                None => o@ == user_req("frontendOpenOrders"@, user@),
            },
    {
        let mut o = user_request("frontendOpenOrders", user);
        if let Some(d) = dex {
            if !d.is_empty() {
                o.push_str("dex", d);
            }
        }
        o
    }

    /// A user's fills, optionally aggregated by time.
    pub fn fills(&self, user: &str, aggregate_by_time: Option<bool>) -> (o: JsonObject)
        ensures
            o@ == match aggregate_by_time {
                Some(a) => user_req("userFills"@, user@).push(("aggregateByTime"@, JsonValueV::Bool(a))),
                None => user_req("userFills"@, user@),
            },
    {
        let mut o = user_request("userFills", user);
        if let Some(a) = aggregate_by_time {
            o.push_bool("aggregateByTime", a);
        }
        o
    }

    /// A user's fills in a time range.
    pub fn fills_by_time(&self,
        user: &str,
        start_time: u64,
        end_time: Option<u64>,
        aggregate_by_time: Option<bool>,
    ) -> (o: JsonObject)
        ensures
            o@ == {
                let base = user_req("userFillsByTime"@, user@).push(("startTime"@, n(start_time)));
                let with_end = match end_time {
                    Some(e) => base.push(("endTime"@, n(e))),
                    None => base,
                };
                match aggregate_by_time {
                    Some(a) => with_end.push(("aggregateByTime"@, JsonValueV::Bool(a))),
                    None => with_end,
                }
            },
    {
        let mut o = user_request("userFillsByTime", user);
        o.push_number("startTime", start_time);
        if let Some(e) = end_time {
            o.push_number("endTime", e);
        }
        if let Some(a) = aggregate_by_time {
            o.push_bool("aggregateByTime", a);
        }
        o
    }

    /// A user's rate limits.
    pub fn rate_limits(&self, user: &str) -> (o: JsonObject)
        ensures
            o@ == user_req("userRateLimit"@, user@),
    {
        user_request("userRateLimit", user)
    }

    /// The status of an order given by order id or client order id.
    pub fn order_status(&self, user: &str, oid: OrderId) -> (o: JsonObject)
        ensures
            o@ == user_req("orderStatus"@, user@).push(
                (
                    "oid"@,
                    match oid {
                        OrderId::Numeric(id) => n(id),
                        OrderId::ClientId(c) => s(c@),
                    },
                ),
            ),
    {
        let mut o = user_request("orderStatus", user);
        match oid {
            OrderId::Numeric(id) => o.push_number("oid", id),
            OrderId::ClientId(c) => o.push_str("oid", c.as_str()),
        }
        o
    }

    /// An L2 snapshot of a coin's book. `nSigFigs` is sent when it lies in 2..=5
    /// and as `null` otherwise. A mantissa is only used with 5 significant
    /// figures, where it must be 1, 2 or 5.
    pub fn l2_book_snapshot(&self, coin: &str, n_sig_figs: Option<u8>, mantissa: Option<u8>) -> (res: Result<JsonObject, HyperliquidError>)
        ensures
            ({
                let base = req("l2Book"@).push(("coin"@, s(coin@))).push(
                    (
                        "nSigFigs"@,
                        match n_sig_figs {
                            Some(v) => if 2 <= v <= 5 { n(v as u64) } else { JsonValueV::Null },
                            None => JsonValueV::Null,
                        },
                    ),
                );
                if n_sig_figs == Some(5u8) && mantissa is Some {
                    if valid_mantissa(mantissa->0) {
                        res matches Ok(o) && o@ == base.push(("mantissa"@, n(mantissa->0 as u64)))
                    } else {
                        res matches Err(e) && is_param_error(e, "l2_book_snapshot"@, "mantissa"@)
                            && param_error_reason(e) == "Invalid parameter "@ + decimal_text(mantissa->0 as nat)
                            + " for field mantissa"@
                    }
                } else {
                    res matches Ok(o) && o@ == base
                }
            }),
    {
        let mut o = typed_object("l2Book");
        o.push_str("coin", coin);
        match n_sig_figs {
            Some(v) => {
                if 2 <= v && v <= 5 {
                    o.push_number("nSigFigs", v as u64);
                } else {
                    o.push("nSigFigs", JsonValue::Null);
                }
            },
            None => o.push("nSigFigs", JsonValue::Null),
        }
        if n_sig_figs == Some(5u8) {
            if let Some(m) = mantissa {
                if m == 1 || m == 2 || m == 5 {
                    o.push_number("mantissa", m as u64);
                } else {
                    let mut reason = String::from_str("Invalid parameter ");
                    let digits = decimal_string(m as u64);
                    reason.append(digits.as_str());
                    reason.append(" for field mantissa");
                    return Err(
                        HyperliquidError::InvalidRequestParameter {
                            method: String::from_str("l2_book_snapshot"),
                            parameter: String::from_str("mantissa"),
                            reason,
                        },
                    );
                }
            }
        }
        Ok(o)
    }

    /// The candles of a coin in a time range; the interval must be supported.
    pub fn candle_snapshot(&self, request: CandleSnapshotRequest) -> (res: Result<JsonObject, HyperliquidError>)
        ensures
            supported_intervals().contains(request.interval@) ==> (res matches Ok(o) && o@ == req("candleSnapshot"@).push(
                (
                    "req"@,
                    JsonValueV::Object(
                        seq![
                            ("coin"@, JsonScalarV::Str(request.coin@)),
                            ("interval"@, JsonScalarV::Str(request.interval@)),
                            ("startTime"@, JsonScalarV::Number(request.start_time)),
                            ("endTime"@, JsonScalarV::Number(request.end_time)),
                        ],
                    ),
                ),
            )),
            !supported_intervals().contains(request.interval@) ==> (res matches Err(e) && is_param_error(
                e,
                "candle_snapshot"@,
                "interval"@,
            )),
    {
        if !is_supported_interval(request.interval.as_str()) {
            return Err(
                HyperliquidError::InvalidRequestParameter {
                    method: String::from_str("candle_snapshot"),
                    parameter: String::from_str("interval"),
                    reason: String::from_str("Expected one of: 1m, 3m, 5m, 15m, 30m, 1h, 2h, 4h, 8h, 12h, 1d, 3d, 1w, 1M"),
                },
            );
        }
        let mut inner: Vec<(String, JsonScalar)> = Vec::new();
        inner.push((String::from_str("coin"), JsonScalar::Str(request.coin.clone())));
        inner.push((String::from_str("interval"), JsonScalar::Str(request.interval.clone())));
        inner.push((String::from_str("startTime"), JsonScalar::Number(request.start_time)));
        inner.push((String::from_str("endTime"), JsonScalar::Number(request.end_time)));
        assert(crate::api::request_util::scalar_fields_view(inner@) =~= (
            seq![
                ("coin"@, JsonScalarV::Str(request.coin@)),
                ("interval"@, JsonScalarV::Str(request.interval@)),
                ("startTime"@, JsonScalarV::Number(request.start_time)),
                ("endTime"@, JsonScalarV::Number(request.end_time)),
            ]
        ));
        let v = JsonValue::Object(inner);
        let mut o = typed_object("candleSnapshot");
        o.push("req", v);
        Ok(o)
    }

    /// The builder fee a user has approved for a builder; both must be valid addresses.
    pub fn check_builder_fee_approval(&self, user: &str, builder: &str) -> (res: Result<JsonObject, HyperliquidError>)
        ensures
            !spec_is_valid_hyperliquid_address(user@) ==> (res matches Err(e) && is_param_error(
                e,
                "check_builder_fee_approval"@,
                "user"@,
            )),
            spec_is_valid_hyperliquid_address(user@) && !spec_is_valid_hyperliquid_address(builder@) ==> (
            res matches Err(e) && is_param_error(e, "check_builder_fee_approval"@, "builder"@)),
            spec_is_valid_hyperliquid_address(user@) && spec_is_valid_hyperliquid_address(builder@) ==> (
            res matches Ok(o) && o@ == user_req("maxBuilderFee"@, user@).push(("builder"@, s(builder@)))),
    {
        if !is_valid_hyperliquid_address(user) {
            return Err(invalid_address("check_builder_fee_approval", "user"));
        }
        if !is_valid_hyperliquid_address(builder) {
            return Err(
                HyperliquidError::InvalidRequestParameter {
                    method: String::from_str("check_builder_fee_approval"),
                    parameter: String::from_str("builder"),
                    reason: String::from_str("Specified builder parameter is invalid address"),
                },
            );
        }
        let mut o = user_request("maxBuilderFee", user);
        o.push_str("builder", builder);
        Ok(o)
    }

    /// A user's historical orders; the user must be a valid address.
    pub fn historical_orders(&self, user: &str) -> (res: Result<JsonObject, HyperliquidError>)
        ensures
            spec_is_valid_hyperliquid_address(user@) ==> (res matches Ok(o) && o@ == user_req("historicalOrders"@, user@)),
            !spec_is_valid_hyperliquid_address(user@) ==> (res matches Err(e) && is_param_error(e, "historical_orders"@, "user"@)),
    {
        checked_user_request("historical_orders", "historicalOrders", user)
    }

    /// A user's TWAP slice fills; the user must be a valid address.
    pub fn twap_slice_fills(&self, user: &str) -> (res: Result<JsonObject, HyperliquidError>)
        ensures
            spec_is_valid_hyperliquid_address(user@) ==> (res matches Ok(o) && o@ == user_req("userTwapSliceFills"@, user@)),
            !spec_is_valid_hyperliquid_address(user@) ==> (res matches Err(e) && is_param_error(e, "twap_slice_fills"@, "user"@)),
    {
        checked_user_request("twap_slice_fills", "userTwapSliceFills", user)
    }

    /// A user's sub-accounts; the user must be a valid address.
    pub fn subaccounts(&self, user: &str) -> (res: Result<JsonObject, HyperliquidError>)
        ensures
            spec_is_valid_hyperliquid_address(user@) ==> (res matches Ok(o) && o@ == user_req("subAccounts"@, user@)),
            !spec_is_valid_hyperliquid_address(user@) ==> (res matches Err(e) && is_param_error(e, "subaccounts"@, "user"@)),
    {
        checked_user_request("subaccounts", "subAccounts", user)
    }

    /// The details of a vault; a given user must be a valid address.
    pub fn vault_details(&self, vault_address: &str, user: Option<&str>) -> (res: Result<JsonObject, HyperliquidError>)
        ensures
            ({
                let base = req("vaultDetails"@).push(("vaultAddress"@, s(vault_address@)));
                match user {
                    Some(u) => if spec_is_valid_hyperliquid_address(u@) {
                        res matches Ok(o) && o@ == base.push(("user"@, s(u@)))
                    } else {
                        res matches Err(e) && is_param_error(e, "vault_details"@, "user"@)
                    },
                    None => res matches Ok(o) && o@ == base,
                }
            }),
    {
        let mut o = typed_object("vaultDetails");
        o.push_str("vaultAddress", vault_address);
        if let Some(u) = user {
            if !is_valid_hyperliquid_address(u) {
                return Err(invalid_address("vault_details", "user"));
            }
            o.push_str("user", u);
        }
        Ok(o)
    }

    /// A user's vault equities; the user must be a valid address.
    pub fn vault_deposits(&self, user: &str) -> (res: Result<JsonObject, HyperliquidError>)
        ensures
            spec_is_valid_hyperliquid_address(user@) ==> (res matches Ok(o) && o@ == user_req("userVaultEquities"@, user@)),
            !spec_is_valid_hyperliquid_address(user@) ==> (res matches Err(e) && is_param_error(e, "vault_deposits"@, "user"@)),
    {
        checked_user_request("vault_deposits", "userVaultEquities", user)
    }

    /// A user's role; the user must be a valid address.
    pub fn role(&self, user: &str) -> (res: Result<JsonObject, HyperliquidError>)
        ensures
            spec_is_valid_hyperliquid_address(user@) ==> (res matches Ok(o) && o@ == user_req("userRole"@, user@)),
            !spec_is_valid_hyperliquid_address(user@) ==> (res matches Err(e) && is_param_error(e, "role"@, "user"@)),
    {
        checked_user_request("role", "userRole", user)
    }

    /// A user's portfolio; the user must be a valid address.
    pub fn portfolio(&self, user: &str) -> (res: Result<JsonObject, HyperliquidError>)
        ensures
            spec_is_valid_hyperliquid_address(user@) ==> (res matches Ok(o) && o@ == user_req("portfolio"@, user@)),
            !spec_is_valid_hyperliquid_address(user@) ==> (res matches Err(e) && is_param_error(e, "portfolio"@, "user"@)),
    {
        checked_user_request("portfolio", "portfolio", user)
    }

    /// A user's referral information.
    pub fn referral_information(&self, user: &str) -> (o: JsonObject)
        ensures
            o@ == user_req("referral"@, user@),
    {
        user_request("referral", user)
    }

    /// A user's fees.
    pub fn fees(&self, user: &str) -> (o: JsonObject)
        ensures
            o@ == user_req("userFees"@, user@),
    {
        user_request("userFees", user)
    }

    /// A user's staking delegations.
    pub fn staking_delegations(&self, user: &str) -> (o: JsonObject)
        ensures
            o@ == user_req("delegations"@, user@),
    {
        user_request("delegations", user)
    }

    /// A user's staking summary.
    pub fn staking_summary(&self, user: &str) -> (o: JsonObject)
        ensures
            o@ == user_req("delegatorSummary"@, user@),
    {
        user_request("delegatorSummary", user)
    }

    /// A user's staking history.
    pub fn staking_history(&self, user: &str) -> (o: JsonObject)
        ensures
            o@ == user_req("delegatorHistory"@, user@),
    {
        user_request("delegatorHistory", user)
    }

    /// A user's staking rewards.
    pub fn staking_rewards(&self, user: &str) -> (o: JsonObject)
        ensures
            o@ == user_req("delegatorRewards"@, user@),
    {
        user_request("delegatorRewards", user)
    }

    /// A user's HIP-3 dex abstraction state.
    pub fn hip3_dex_abstraction_state(&self, user: &str) -> (o: JsonObject)
        ensures
            o@ == user_req("userDexAbstraction"@, user@),
    {
        user_request("userDexAbstraction", user)
    }

    /// Aligned quote token information.
    pub fn aligned_quote_token_status(&self, user: &str) -> (o: JsonObject)
        ensures
            o@ == user_req("alignedQuoteTokenInfo"@, user@),
    {
        user_request("alignedQuoteTokenInfo", user)
    }

    /// All perp dexs.
    pub fn perpetual_dexs(&self) -> (o: JsonObject)
        ensures
            o@ == req("perpDexs"@),
    {
        typed_object("perpDexs")
    }

    /// The perpetuals metadata of a perp dex (the first one by default).
    pub fn perpetuals_metadata(&self, dex: Option<&str>) -> (o: JsonObject)
        ensures
            o@ == req("meta"@).push(("dex"@, s(str_or_empty(dex)))),
            dex matches Some(d) ==> o@ == req("meta"@).push(("dex"@, JsonValueV::Str(d@))),
            dex is None ==> o@ == req("meta"@).push(("dex"@, JsonValueV::Str(Seq::empty()))),
    {
        let mut o = typed_object("meta");
        push_dex(&mut o, dex);
        o
    }

    /// Perpetuals metadata with asset contexts.
    pub fn perpetuals_asset_contexts(&self) -> (o: JsonObject)
        ensures
            o@ == req("metaAndAssetCtxs"@),
    {
        typed_object("metaAndAssetCtxs")
    }

    /// A user's perpetuals account summary on a perp dex (the first one by default).
    pub fn perpetuals_account_summary(&self, user: &str, dex: Option<&str>) -> (o: JsonObject)
        ensures
            o@ == user_req("clearinghouseState"@, user@).push(("dex"@, s(str_or_empty(dex)))),
            dex matches Some(d) ==> o@ == user_req("clearinghouseState"@, user@).push(("dex"@, JsonValueV::Str(d@))),
            dex is None ==> o@ == user_req("clearinghouseState"@, user@).push(("dex"@, JsonValueV::Str(Seq::empty()))),
    {
        let mut o = user_request("clearinghouseState", user);
        push_dex(&mut o, dex);
        o
    }

    /// A user's funding history from `start_time` to `end_time`, or to `now` when no end is given.
    pub fn funding_history_updates(&self, user: &str, start_time: u64, end_time: Option<u64>, now: u64) -> (o: JsonObject)
        ensures
            o@ == user_req("userFunding"@, user@).push(("startTime"@, n(start_time))).push(
                ("endTime"@, n(end_or_now(end_time, now))),
            ),
    {
        let mut o = user_request("userFunding", user);
        o.push_number("startTime", start_time);
        match end_time {
            Some(e) => o.push_number("endTime", e),
            None => o.push_number("endTime", now),
        }
        o
    }

    /// A user's non-funding ledger updates from `start_time` to `end_time`, or to `now`.
    pub fn non_funding_ledger_updates(&self, user: &str, start_time: u64, end_time: Option<u64>, now: u64) -> (o: JsonObject)
        ensures
            o@ == user_req("userNonFundingLedgerUpdates"@, user@).push(("startTime"@, n(start_time))).push(
                ("endTime"@, n(end_or_now(end_time, now))),
            ),
    {
        let mut o = user_request("userNonFundingLedgerUpdates", user);
        o.push_number("startTime", start_time);
        match end_time {
            Some(e) => o.push_number("endTime", e),
            None => o.push_number("endTime", now),
        }
        o
    }

    /// A coin's funding rates from `start_time` to `end_time`, or to `now`.
    pub fn historical_funding_rates(&self, coin: &str, start_time: u64, opt_end_time: Option<u64>, now: u64) -> (o: JsonObject)
        ensures
            o@ == req("fundingHistory"@).push(("coin"@, s(coin@))).push(("startTime"@, n(start_time))).push(
                ("endTime"@, n(end_or_now(opt_end_time, now))),
            ),
    {
        let mut o = typed_object("fundingHistory");
        o.push_str("coin", coin);
        o.push_number("startTime", start_time);
        match opt_end_time {
            Some(e) => o.push_number("endTime", e),
            None => o.push_number("endTime", now),
        }
        o
    }

    /// Predicted funding rates for different venues.
    pub fn predicted_funding_rates_for_different_venues(&self) -> (o: JsonObject)
        ensures
            o@ == req("predictedFundings"@),
    {
        typed_object("predictedFundings")
    }

    /// Perps at their open interest caps.
    pub fn query_perps_at_open_interest_caps(&self) -> (o: JsonObject)
        ensures
            o@ == req("perpsAtOpenInterestCap"@),
    {
        typed_object("perpsAtOpenInterestCap")
    }

    /// The perp deploy auction status.
    pub fn perp_deploy_auction_information(&self) -> (o: JsonObject)
        ensures
            o@ == req("perpDeployAuctionStatus"@),
    {
        typed_object("perpDeployAuctionStatus")
    }

    /// A user's active asset data; the user must be 42 bytes long.
    pub fn active_asset_data(&self, user: &str, coin: &str) -> (res: Result<JsonObject, HyperliquidError>)
        ensures
            user.len() == 42 ==> (res matches Ok(o) && o@ == user_req("activeAssetData"@, user@).push(
                ("coin"@, s(coin@)),
            )),
            user.len() != 42 ==> (res matches Err(e) && is_param_error(e, "active_asset_data"@, "user"@)
                && param_error_reason(e) == "Specified user parameter has incorrect length: "@ + decimal_text(
                user.len() as nat,
            )),
    {
        let len = user.len();
        if len != 42 {
            let mut reason = String::from_str("Specified user parameter has incorrect length: ");
            let digits = decimal_string(len as u64);
            reason.append(digits.as_str());
            return Err(
                HyperliquidError::InvalidRequestParameter {
                    method: String::from_str("active_asset_data"),
                    parameter: String::from_str("user"),
                    reason,
                },
            );
        }
        let mut o = user_request("activeAssetData", user);
        o.push_str("coin", coin);
        Ok(o)
    }

    /// The limits of a builder-deployed perp dex; the dex name must not be empty.
    pub fn builder_deployed_perp_market_limits(&self, dex: &str) -> (res: Result<JsonObject, HyperliquidError>)
        ensures
            dex@.len() > 0 ==> (res matches Ok(o) && o@ == req("perpDexLimits"@).push(("dex"@, s(dex@)))),
            dex@.len() == 0 ==> (res matches Err(e) && is_param_error(e, "builder_deployed_perp_market_limits"@, "dex"@)),
    {
        if dex.is_empty() {
            return Err(
                HyperliquidError::InvalidRequestParameter {
                    method: String::from_str("builder_deployed_perp_market_limits"),
                    parameter: String::from_str("dex"),
                    reason: String::from_str("The empty string is not allowed."),
                },
            );
        }
        let mut o = typed_object("perpDexLimits");
        o.push_str("dex", dex);
        Ok(o)
    }

    /// The status of a perp dex.
    pub fn perp_market_status(&self, dex: &str) -> (o: JsonObject)
        ensures
            o@ == req("perpDexStatus"@).push(("dex"@, s(dex@))),
    {
        let mut o = typed_object("perpDexStatus");
        o.push_str("dex", dex);
        o
    }

    /// Spot metadata.
    pub fn spot_metadata(&self) -> (o: JsonObject)
        ensures
            o@ == req("spotMeta"@),
    {
        typed_object("spotMeta")
    }

    /// Spot metadata with asset contexts.
    pub fn spot_asset_context(&self) -> (o: JsonObject)
        ensures
            o@ == req("spotMetaAndAssetCtxs"@),
    {
        typed_object("spotMetaAndAssetCtxs")
    }

    /// A user's token balances.
    pub fn token_balances(&self, user: &str) -> (o: JsonObject)
        ensures
            o@ == user_req("spotClearinghouseState"@, user@),
    {
        user_request("spotClearinghouseState", user)
    }

    /// A user's spot deploy state.
    pub fn spot_deploy_auction_information(&self, user: &str) -> (o: JsonObject)
        ensures
            o@ == user_req("spotDeployState"@, user@),
    {
        user_request("spotDeployState", user)
    }

    /// The spot pair deploy auction status.
    pub fn spot_pair_deploy_auction_information(&self) -> (o: JsonObject)
        ensures
            o@ == req("spotPairDeployAuctionStatus"@),
    {
        typed_object("spotPairDeployAuctionStatus")
    }

    /// Information about a token.
    pub fn token_information(&self, token_id: &str) -> (o: JsonObject)
        ensures
            o@ == req("tokenDetails"@).push(("tokenId"@, s(token_id@))),
    {
        let mut o = typed_object("tokenDetails");
        o.push_str("tokenId", token_id);
        o
    }
}

} // verus!
