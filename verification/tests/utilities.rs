use rhyperliquid::api::request_util::{is_supported_interval, trim_decimal};
use rhyperliquid::types::decimal::DecimalValue;
use rhyperliquid::types::exchange::base::{CancelStatus, OrderStatus, RestingOrder, TwapCancelStatus, TwapOrderStatus};
use rhyperliquid::types::exchange::order::{OrderRequest, OrderType, Tif};
use rhyperliquid::types::info::perpetual::AssetInfo;
use rhyperliquid::api::request_util::normalize_decimal;
use rhyperliquid::utils::hex::{chain_id_hex, format_hex_bytes, format_hex_numeral, parse_address_bytes};
use rhyperliquid::utils::{decimal_string, millis_since_epoch, u64_to_be_bytes};

#[test]
fn decimals_are_trimmed() {
    assert_eq!(trim_decimal("1.50000000"), "1.5");
    assert_eq!(trim_decimal("100.00000000"), "100");
    assert_eq!(trim_decimal("0.00000000"), "0");
    assert_eq!(trim_decimal("-0.00000000"), "-0");
    assert_eq!(trim_decimal("0.00012300"), "0.000123");
    assert_eq!(trim_decimal(""), "0");
}

#[test]
fn intervals() {
    for i in ["1m", "3m", "5m", "15m", "30m", "1h", "2h", "4h", "8h", "12h", "1d", "3d", "1w", "1M"] {
        assert!(is_supported_interval(i));
    }
    assert!(!is_supported_interval("1y"));
    assert!(!is_supported_interval("1H"));
}

#[test]
fn millis() {
    assert_eq!(millis_since_epoch(1700000000, 123), 1700000000123);
    assert_eq!(millis_since_epoch(u64::MAX, 999), u64::MAX);
}

#[test]
fn big_endian_bytes() {
    assert_eq!(u64_to_be_bytes(0x0102, 8), vec![0, 0, 0, 0, 0, 0, 1, 2]);
    assert_eq!(u64_to_be_bytes(5, 32)[31], 5);
}

#[test]
fn hex_forms() {
    assert_eq!(format_hex_bytes(&[0x00, 0xab]), "0x00ab");
    assert_eq!(format_hex_numeral(&[0x00, 0x0b]), "0xb");
    assert_eq!(format_hex_numeral(&[0x00, 0x00]), "0x0");
    let bytes = [0x5au8; 20];
    let text = format_hex_bytes(&bytes);
    assert_eq!(parse_address_bytes(text.as_bytes()), Some(bytes.to_vec()));
    assert_eq!(parse_address_bytes(b"0xZZ"), None);
    let upper = "0x000000000000000000000000000000000000DEAD";
    let mut expected = vec![0u8; 20];
    expected[18] = 0xde;
    expected[19] = 0xad;
    assert_eq!(parse_address_bytes(upper.as_bytes()), Some(expected));
}

#[test]
fn statuses() {
    let s = OrderStatus::Resting { resting: RestingOrder { oid: 5 } };
    assert!(s.is_resting());
    assert_eq!(s.oid(), Some(5));
    assert_eq!(s.error_message(), None);
    let e = OrderStatus::Error { error: "bad".to_string() };
    assert_eq!(e.error_message(), Some("bad"));
    assert_eq!(e.oid(), None);
    let c = CancelStatus::Success("success".to_string());
    assert!(c.is_success());
    assert_eq!(c.error_message(), None);
    let c = CancelStatus::Error { error: "nope".to_string() };
    assert!(!c.is_success());
    assert_eq!(c.error_message(), Some("nope"));
    let t = TwapOrderStatus::Running { running: rhyperliquid::types::exchange::base::RunningTwap { twap_id: 8 } };
    assert!(t.is_running());
    assert_eq!(t.twap_id(), Some(8));
    let t = TwapOrderStatus::Error { error: "x".to_string() };
    assert_eq!(t.error_message(), Some("x"));
    assert_eq!(t.twap_id(), None);
    let t = TwapCancelStatus::Success("success".to_string());
    assert!(t.is_success());
    let t = TwapCancelStatus::Error { error: "y".to_string() };
    assert_eq!(t.error_message(), Some("y"));
}

#[test]
fn market_orders_round_price_and_size() {
    let info = AssetInfo {
        name: "BTC".to_string(),
        sz_decimals: 3,
        max_leverage: 50,
        only_isolated: None,
        is_delisted: None,
        margin_mode: None,
        margin_table_id: 0,
    };
    let price = DecimalValue::new(5000050, 2).unwrap();
    let size = DecimalValue::new(123456, 5).unwrap();
    let o = OrderRequest::new_market_order(1, &info, true, price, size);
    assert_eq!(o.p, "50000");
    assert_eq!(o.s, "1.235");
    assert!(!o.r);
    assert!(matches!(o.t, OrderType::Limit(l) if l.tif == Tif::Ioc));
    assert!(o.c.is_none());
    assert!(DecimalValue::new(1, 29).is_none());
}

#[test]
fn decimal_notation() {
    assert_eq!(decimal_string(0), "0");
    assert_eq!(decimal_string(7), "7");
    assert_eq!(decimal_string(10), "10");
    assert_eq!(decimal_string(1234567890), "1234567890");
    assert_eq!(decimal_string(u64::MAX), u64::MAX.to_string());
}

#[test]
fn decimals_are_normalized() {
    assert_eq!(normalize_decimal("0.123456789"), "0.12345679");
    assert_eq!(normalize_decimal("0.123456785"), "0.12345678");
    assert_eq!(normalize_decimal("1.50000"), "1.5");
    assert_eq!(normalize_decimal("2.000"), "2");
    assert_eq!(normalize_decimal("100"), "100");
    assert_eq!(normalize_decimal("0.000"), "0");
    assert_eq!(normalize_decimal("-1.25"), "-1.25");
    assert_eq!(normalize_decimal("abc"), "abc");
    assert_eq!(normalize_decimal(""), "");
}

#[test]
fn chain_ids_in_hex() {
    assert_eq!(chain_id_hex(0x66eee), "0x66eee");
    assert_eq!(chain_id_hex(42161), "0xa4b1");
    assert_eq!(chain_id_hex(0), "0x0");
    assert_eq!(chain_id_hex(u64::MAX), "0xffffffffffffffff");
}
