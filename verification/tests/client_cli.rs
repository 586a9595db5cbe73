use rhyperliquid::cli::arguments::{CancelOrderByOidCmd, OrderCmd, OrderTypeArg};
use rhyperliquid::cli::network_from_flag;
use rhyperliquid::client::{HyperliquidClient, HyperliquidClientBuilder};
use rhyperliquid::error::HyperliquidError;
use rhyperliquid::signature::sign::Wallet;
use rhyperliquid::types::chain::NetworkType;
use rhyperliquid::types::exchange::order::{Grouping, OrderSide, OrderType, Tif, Tpsl};
use rhyperliquid::{example_helpers, helpers};

#[test]
fn network_constants() {
    assert_eq!(NetworkType::Mainnet.signature_chain_id(), 42161);
    assert_eq!(NetworkType::Testnet.signature_chain_id(), 421614);
    assert_eq!(NetworkType::Mainnet.hyperliquid_chain(), "Mainnet");
    assert_eq!(NetworkType::Testnet.hyperliquid_chain(), "Testnet");
}

#[test]
fn builder_needs_an_endpoint() {
    let b = HyperliquidClientBuilder::new();
    match b.build() {
        Err(HyperliquidError::MissingConfiguration { parameter }) => {
            assert_eq!(parameter, "Must create client with mainnet or testnet configuration.")
        }
        _ => panic!("expected a missing configuration"),
    }
}

#[test]
fn builder_presets() {
    let c = HyperliquidClient::builder().mainnet().with_subscriptions().build().unwrap();
    assert_eq!(c.base_url(), "https://api.hyperliquid.xyz");
    assert!(c.is_mainnet());
    assert_eq!(c.ws_endpoint(), Some("wss://api.hyperliquid.xyz/ws"));
    assert!(c.signer().is_none());
    let c = HyperliquidClient::builder().testnet().with_subscriptions().build().unwrap();
    assert_eq!(c.base_url(), "https://api.hyperliquid-testnet.xyz");
    assert_eq!(c.network_type(), NetworkType::Testnet);
    assert_eq!(c.ws_endpoint(), Some("wss://api.hyperliquid-testnet.xyz/ws"));
}

#[test]
fn custom_url_defaults_to_testnet() {
    let w = Wallet::from_bytes(&[3u8; 32]).unwrap();
    let addr = w.address();
    let c = HyperliquidClient::builder().with_custom_url("http://localhost".to_string()).with_wallet(w).build().unwrap();
    assert_eq!(c.base_url(), "http://localhost");
    assert_eq!(c.network_type(), NetworkType::Testnet);
    assert_eq!(c.signer().unwrap().address(), addr);
    assert!(c.ws_endpoint().is_none());
}

#[test]
fn helper_clients_and_addresses() {
    let c = helpers::testnet_client().unwrap();
    assert!(!c.is_mainnet());
    let c = helpers::mainnet_client().unwrap();
    assert!(c.is_mainnet());
    assert_eq!(helpers::user(), "0x06B825B202450B598E962AA3F0816e8d336337d9");
    assert_eq!(example_helpers::builder(), "0xeCe9Aa540e6dA813aF0356342E45167A67F54962");
    assert_eq!(example_helpers::vault_address(), "");
    let w = Wallet::from_bytes(&[3u8; 32]).unwrap();
    let c = example_helpers::mainnet_client_with(w).unwrap();
    assert_eq!(c.ws_endpoint(), Some("wss://api.hyperliquid.xyz/ws"));
    assert!(c.signer().is_some());
}

#[test]
fn example_addresses_are_checksummed() {
    for a in [helpers::user(), helpers::builder()] {
        assert!(alloy::primitives::Address::parse_checksummed(&a, None).is_ok());
        assert!(rhyperliquid::chain::is_valid_hyperliquid_address(&a));
    }
    assert!(!rhyperliquid::chain::is_valid_hyperliquid_address(&helpers::user().to_lowercase()));
    assert!(!rhyperliquid::chain::is_valid_hyperliquid_address("0x1234"));
}

fn order_cmd() -> OrderCmd {
    OrderCmd {
        coin: "BTC".to_string(),
        side: OrderSide::Buy,
        size: "0.01".to_string(),
        order_type: OrderTypeArg::Limit,
        price: Some("50000".to_string()),
        tif: Tif::Gtc,
        trigger_price: None,
        tpsl: None,
        trigger_market: false,
        reduce_only: false,
        cloid: None,
        grouping: Grouping::Na,
        vault_address: None,
        expires_after: Some(9),
        builder_address: Some("0xb".to_string()),
        builder_fee: Some(10),
    }
}

#[test]
fn order_command_builds_a_limit_order() {
    let cmd = order_cmd();
    assert_eq!(cmd.coin(), "BTC");
    let (order, grouping, builder, vault, expires) = cmd.build(3);
    assert_eq!(order.a, 3);
    assert!(order.b);
    assert_eq!(order.p, "50000");
    assert_eq!(order.s, "0.01");
    assert!(matches!(order.t, OrderType::Limit(l) if l.tif == Tif::Gtc));
    assert_eq!(grouping, Grouping::Na);
    let b = builder.unwrap();
    assert_eq!((b.b.as_str(), b.f), ("0xb", 10));
    assert!(vault.is_none());
    assert_eq!(expires, Some(9));
}

#[test]
fn trigger_order_is_priced_at_the_trigger() {
    let cmd = OrderCmd {
        side: OrderSide::Sell,
        order_type: OrderTypeArg::Trigger,
        price: None,
        trigger_price: Some("48000".to_string()),
        tpsl: Some(Tpsl::Sl),
        trigger_market: true,
        builder_address: None,
        builder_fee: None,
        ..order_cmd()
    };
    let (order, _, builder, _, _) = cmd.build(0);
    assert!(!order.b);
    assert_eq!(order.p, "48000");
    match order.t {
        OrderType::Trigger(t) => {
            assert!(t.is_market);
            assert_eq!(t.trigger_px, "48000");
            assert_eq!(t.tpsl, Tpsl::Sl);
        }
        _ => panic!("expected a trigger order"),
    }
    assert!(builder.is_none());
}

#[test]
fn cancel_command_prefers_the_given_asset() {
    let cmd = CancelOrderByOidCmd { coin: "ETH".to_string(), o: 77, a: None, vault_address: None, expires_after: None };
    assert_eq!(cmd.coin(), "ETH");
    let (c, _, _) = cmd.build(4);
    assert_eq!((c.a, c.o), (4, 77));
    let cmd = CancelOrderByOidCmd { coin: "ETH".to_string(), o: 77, a: Some(9), vault_address: Some("v".to_string()), expires_after: Some(1) };
    let (c, v, e) = cmd.build(4);
    assert_eq!(c.a, 9);
    assert_eq!(v.as_deref(), Some("v"));
    assert_eq!(e, Some(1));
}

#[test]
fn network_flag() {
    assert_eq!(network_from_flag(None), NetworkType::Mainnet);
    assert_eq!(network_from_flag(Some("MainNet")), NetworkType::Mainnet);
    assert_eq!(network_from_flag(Some("testnet")), NetworkType::Testnet);
    assert_eq!(network_from_flag(Some("other")), NetworkType::Testnet);
}
