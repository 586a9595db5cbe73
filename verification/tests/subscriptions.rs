use rhyperliquid::api::request_util::{JsonObject, JsonValue};
use rhyperliquid::api::subscription::{build_subscription_json, ActiveSubscriptions, SubscriptionConfig, SubscriptionSpec};
use rhyperliquid::error::HyperliquidError;
use rhyperliquid::types::ws::SubscriptionKey;

fn render(o: &JsonObject) -> String {
    let parts: Vec<String> = o
        .fields
        .iter()
        .map(|(k, v)| {
            let v = match v {
                JsonValue::Str(s) => format!("\"{}\"", s),
                JsonValue::Number(n) => n.to_string(),
                JsonValue::Bool(b) => b.to_string(),
                JsonValue::Null => "null".to_string(),
                JsonValue::Object(_) => "{..}".to_string(),
            };
            format!("\"{}\":{}", k, v)
        })
        .collect();
    format!("{{{}}}", parts.join(","))
}

#[test]
fn subscription_messages() {
    assert_eq!(render(&build_subscription_json(&SubscriptionSpec::AllMids { dex: None })), r#"{"type":"allMids"}"#);
    assert_eq!(
        render(&build_subscription_json(&SubscriptionSpec::AllMids { dex: Some("d".to_string()) })),
        r#"{"type":"allMids","dex":"d"}"#
    );
    assert_eq!(
        render(&build_subscription_json(&SubscriptionSpec::Candle { coin: "BTC".to_string(), interval: "1m".to_string() })),
        r#"{"type":"candle","coin":"BTC","interval":"1m"}"#
    );
    assert_eq!(
        render(&build_subscription_json(&SubscriptionSpec::L2Book {
            coin: "ETH".to_string(),
            n_sig_figs: Some(5),
            mantissa: None
        })),
        r#"{"type":"l2Book","coin":"ETH","nSigFigs":5}"#
    );
    assert_eq!(
        render(&build_subscription_json(&SubscriptionSpec::UserFunding { user: "u".to_string() })),
        r#"{"type":"userFundings","user":"u"}"#
    );
    assert_eq!(
        render(&build_subscription_json(&SubscriptionSpec::ActiveAssetData { user: "u".to_string(), coin: "c".to_string() })),
        r#"{"type":"activeAssetData","user":"u","coin":"c"}"#
    );
    assert_eq!(
        render(&build_subscription_json(&SubscriptionSpec::Notifications { user: "u".to_string() })),
        r#"{"type":"notification","user":"u"}"#
    );
}

#[test]
fn different_subscriptions_have_different_messages() {
    let specs = vec![
        SubscriptionSpec::Trades { coin: "BTC".to_string() },
        SubscriptionSpec::Bbo { coin: "BTC".to_string() },
        SubscriptionSpec::ActiveAssetCtx { coin: "BTC".to_string() },
        SubscriptionSpec::UserFills { user: "BTC".to_string() },
        SubscriptionSpec::UserEvents { user: "BTC".to_string() },
        SubscriptionSpec::L2Book { coin: "BTC".to_string(), n_sig_figs: None, mantissa: None },
        SubscriptionSpec::L2Book { coin: "BTC".to_string(), n_sig_figs: Some(5), mantissa: None },
    ];
    for (i, a) in specs.iter().enumerate() {
        for (j, b) in specs.iter().enumerate() {
            let same = render(&build_subscription_json(a)) == render(&build_subscription_json(b));
            assert_eq!(same, i == j);
        }
    }
}

#[test]
fn specs_compare_by_feed_and_parameters() {
    let a = SubscriptionSpec::Trades { coin: "BTC".to_string() };
    let b = SubscriptionSpec::Bbo { coin: "BTC".to_string() };
    assert!(a == SubscriptionSpec::Trades { coin: "BTC".to_string() });
    assert!(a != b);
    assert!(a != SubscriptionSpec::Trades { coin: "ETH".to_string() });
}

#[test]
fn subscribe_then_unsubscribe() {
    let mut active = ActiveSubscriptions::new();
    let spec = SubscriptionSpec::OpenOrders { user: "u".to_string() };
    let plan = active.plan_subscribe(&spec).unwrap().unwrap();
    assert_eq!(plan.method, "subscribe");
    assert_eq!(render(&plan.subscription), r#"{"type":"openOrders","user":"u"}"#);
    active.insert(spec.clone());
    assert!(active.contains(&spec));
    assert!(active.plan_subscribe(&spec).unwrap().is_none());
    active.insert(spec.clone());
    assert_eq!(active.len(), 1);
    let un = active.plan_unsubscribe(&spec).unwrap();
    assert_eq!(un.method, "unsubscribe");
    active.remove(&spec);
    assert_eq!(active.len(), 0);
    assert!(active.plan_unsubscribe(&spec).is_none());
}

#[test]
fn candle_subscriptions_check_the_interval() {
    let active = ActiveSubscriptions::new();
    let bad = SubscriptionSpec::Candle { coin: "BTC".to_string(), interval: "7m".to_string() };
    let e = active.plan_subscribe(&bad).unwrap_err();
    assert!(matches!(e, HyperliquidError::InvalidRequestParameter { method, parameter, .. }
        if method == "subscribe_candle" && parameter == "interval"));
}

#[test]
fn unsupported_candle_intervals_are_never_active() {
    let mut active = ActiveSubscriptions::new();
    let bad = SubscriptionSpec::Candle { coin: "BTC".to_string(), interval: "7m".to_string() };
    active.insert(bad.clone());
    assert_eq!(active.len(), 0);
    assert!(!active.contains(&bad));
    let good = SubscriptionSpec::Candle { coin: "BTC".to_string(), interval: "15m".to_string() };
    active.insert(good.clone());
    assert_eq!(active.len(), 1);
    assert!(active.contains(&good));
}

#[test]
fn default_channel_capacity() {
    let c = SubscriptionConfig::default();
    assert_eq!(c.channel_capacity(), 1000);
}

#[test]
fn subscription_key_names() {
    assert_eq!(SubscriptionKey::AllMids.to_string(), "allMids");
    assert_eq!(SubscriptionKey::L2Book.to_string(), "l2Book");
    assert_eq!(SubscriptionKey::Ping.to_string(), "pong");
}
