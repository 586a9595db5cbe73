use rhyperliquid::api::info::InfoApi;
use rhyperliquid::api::request_util::{JsonObject, JsonScalar, JsonValue};
use rhyperliquid::client::HyperliquidClient;
use rhyperliquid::error::HyperliquidError;
use rhyperliquid::helpers::testnet_client;
use rhyperliquid::types::info::user::{CandleSnapshotRequest, OrderId};

fn scalar(v: &JsonScalar) -> String {
    match v {
        JsonScalar::Null => "null".to_string(),
        JsonScalar::Bool(b) => b.to_string(),
        JsonScalar::Number(n) => n.to_string(),
        JsonScalar::Str(s) => format!("\"{}\"", s),
    }
}

fn value(v: &JsonValue) -> String {
    match v {
        JsonValue::Null => "null".to_string(),
        JsonValue::Bool(b) => b.to_string(),
        JsonValue::Number(n) => n.to_string(),
        JsonValue::Str(s) => format!("\"{}\"", s),
        JsonValue::Object(fields) => {
            let parts: Vec<String> = fields.iter().map(|(k, v)| format!("\"{}\":{}", k, scalar(v))).collect();
            format!("{{{}}}", parts.join(","))
        }
    }
}

fn render(o: &JsonObject) -> String {
    let parts: Vec<String> = o.fields.iter().map(|(k, v)| format!("\"{}\":{}", k, value(v))).collect();
    format!("{{{}}}", parts.join(","))
}

fn client() -> HyperliquidClient {
    testnet_client().unwrap()
}

const USER: &str = "0x06B825B202450B598E962AA3F0816e8d336337d9";

fn is_param_error(e: &HyperliquidError, m: &str, p: &str) -> bool {
    matches!(e, HyperliquidError::InvalidRequestParameter { method, parameter, .. } if method == m && parameter == p)
}

#[test]
fn all_mids_payload_includes_dex() {
    let c = client();
    let info = InfoApi::new(&c);
    assert_eq!(render(&info.all_mids(None)), r#"{"type":"allMids","dex":""}"#);
    assert_eq!(render(&info.all_mids(Some("xyz".to_string()))), r#"{"type":"allMids","dex":"xyz"}"#);
}

#[test]
fn open_orders_payloads() {
    let c = client();
    let info = c.info();
    assert_eq!(
        render(&info.open_orders(USER, None)),
        format!(r#"{{"type":"openOrders","user":"{}","dex":""}}"#, USER)
    );
    assert_eq!(
        render(&info.open_orders_with_additional_info(USER, Some(""))),
        format!(r#"{{"type":"frontendOpenOrders","user":"{}"}}"#, USER)
    );
    assert_eq!(
        render(&info.open_orders_with_additional_info(USER, Some("abc"))),
        format!(r#"{{"type":"frontendOpenOrders","user":"{}","dex":"abc"}}"#, USER)
    );
}

#[test]
fn order_status_payloads() {
    let c = client();
    let info = c.info();
    assert_eq!(
        render(&info.order_status(USER, OrderId::Numeric(42))),
        format!(r#"{{"type":"orderStatus","user":"{}","oid":42}}"#, USER)
    );
    assert_eq!(
        render(&info.order_status(USER, OrderId::ClientId("0xab".to_string()))),
        format!(r#"{{"type":"orderStatus","user":"{}","oid":"0xab"}}"#, USER)
    );
}

#[test]
fn l2_book_snapshot_significant_figures_and_mantissa() {
    let c = client();
    let info = c.info();
    assert_eq!(
        render(&info.l2_book_snapshot("BTC", None, None).unwrap()),
        r#"{"type":"l2Book","coin":"BTC","nSigFigs":null}"#
    );
    assert_eq!(
        render(&info.l2_book_snapshot("BTC", Some(3), Some(2)).unwrap()),
        r#"{"type":"l2Book","coin":"BTC","nSigFigs":3}"#
    );
    assert_eq!(
        render(&info.l2_book_snapshot("BTC", Some(9), None).unwrap()),
        r#"{"type":"l2Book","coin":"BTC","nSigFigs":null}"#
    );
    assert_eq!(
        render(&info.l2_book_snapshot("BTC", Some(5), Some(2)).unwrap()),
        r#"{"type":"l2Book","coin":"BTC","nSigFigs":5,"mantissa":2}"#
    );
    let e = info.l2_book_snapshot("BTC", Some(5), Some(3)).unwrap_err();
    assert!(is_param_error(&e, "l2_book_snapshot", "mantissa"));
}

fn reason(e: &HyperliquidError) -> &str {
    match e {
        HyperliquidError::InvalidRequestParameter { reason, .. } => reason.as_str(),
        _ => "",
    }
}

#[test]
fn invalid_mantissa_names_its_value() {
    let c = client();
    let info = c.info();
    let e = info.l2_book_snapshot("BTC", Some(5), Some(3)).unwrap_err();
    assert_eq!(reason(&e), "Invalid parameter 3 for field mantissa");
    let e = info.l2_book_snapshot("BTC", Some(5), Some(200)).unwrap_err();
    assert_eq!(reason(&e), "Invalid parameter 200 for field mantissa");
    let e = info.l2_book_snapshot("BTC", Some(5), Some(0)).unwrap_err();
    assert_eq!(reason(&e), "Invalid parameter 0 for field mantissa");
}

#[test]
fn candle_snapshot_validates_interval() {
    let c = client();
    let info = c.info();
    let ok = CandleSnapshotRequest {
        coin: "ETH".to_string(),
        interval: "1h".to_string(),
        start_time: 1640000000000,
        end_time: 1640100000000,
    };
    assert_eq!(
        render(&info.candle_snapshot(ok.clone()).unwrap()),
        r#"{"type":"candleSnapshot","req":{"coin":"ETH","interval":"1h","startTime":1640000000000,"endTime":1640100000000}}"#
    );
    let bad = CandleSnapshotRequest { interval: "2m".to_string(), ..ok };
    let e = info.candle_snapshot(bad).unwrap_err();
    assert!(is_param_error(&e, "candle_snapshot", "interval"));
}

#[test]
fn user_addresses_are_checked() {
    let c = client();
    let info = c.info();
    assert!(info.historical_orders(USER).is_ok());
    let lower = USER.to_lowercase();
    let e = info.historical_orders(&lower).unwrap_err();
    assert!(is_param_error(&e, "historical_orders", "user"));
    let e = info.check_builder_fee_approval("0x1234", USER).unwrap_err();
    assert!(is_param_error(&e, "check_builder_fee_approval", "user"));
    let e = info.check_builder_fee_approval(USER, "nope").unwrap_err();
    assert!(is_param_error(&e, "check_builder_fee_approval", "builder"));
    let builder = "0xeCe9Aa540e6dA813aF0356342E45167A67F54962";
    assert_eq!(
        render(&info.check_builder_fee_approval(USER, builder).unwrap()),
        format!(r#"{{"type":"maxBuilderFee","user":"{}","builder":"{}"}}"#, USER, builder)
    );
}

#[test]
fn active_asset_data_needs_a_full_length_user() {
    let c = client();
    let info = c.info();
    let e = info.active_asset_data("0x12", "BTC").unwrap_err();
    assert!(is_param_error(&e, "active_asset_data", "user"));
    let e = info.active_asset_data("0x123", "BTC").unwrap_err();
    assert_eq!(reason(&e), "Specified user parameter has incorrect length: 5");
    let long = format!("{}00", USER);
    let e = info.active_asset_data(&long, "BTC").unwrap_err();
    assert_eq!(reason(&e), "Specified user parameter has incorrect length: 44");
    assert_eq!(
        render(&info.active_asset_data(USER, "BTC").unwrap()),
        format!(r#"{{"type":"activeAssetData","user":"{}","coin":"BTC"}}"#, USER)
    );
}

#[test]
fn builder_deployed_limits_need_a_dex() {
    let c = client();
    let info = c.info();
    let e = info.builder_deployed_perp_market_limits("").unwrap_err();
    assert!(is_param_error(&e, "builder_deployed_perp_market_limits", "dex"));
    assert_eq!(
        render(&info.builder_deployed_perp_market_limits("test").unwrap()),
        r#"{"type":"perpDexLimits","dex":"test"}"#
    );
}

#[test]
fn time_ranges_end_now_by_default() {
    let c = client();
    let info = c.info();
    assert_eq!(
        render(&info.funding_history_updates(USER, 100, None, 500)),
        format!(r#"{{"type":"userFunding","user":"{}","startTime":100,"endTime":500}}"#, USER)
    );
    assert_eq!(
        render(&info.historical_funding_rates("ETH", 100, Some(200), 500)),
        r#"{"type":"fundingHistory","coin":"ETH","startTime":100,"endTime":200}"#
    );
}

#[test]
fn fixed_payloads() {
    let c = client();
    let info = c.info();
    assert_eq!(render(&info.perpetual_dexs()), r#"{"type":"perpDexs"}"#);
    assert_eq!(render(&info.perpetuals_metadata(None)), r#"{"type":"meta","dex":""}"#);
    assert_eq!(render(&info.spot_metadata()), r#"{"type":"spotMeta"}"#);
    assert_eq!(render(&info.token_information("0x01")), r#"{"type":"tokenDetails","tokenId":"0x01"}"#);
}
