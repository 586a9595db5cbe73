use rhyperliquid::helpers::testnet_client;
use rhyperliquid::tui::app::{App, Fetch, Key};
use rhyperliquid::tui::ui::{ask_rows, bid_rows, footer_spans, header_title, market_rows, orderbook_title};
use rhyperliquid::tui::view::View;
use rhyperliquid::types::info::user::{AllMids, BidOrAsk, L2BookSnapshot};

fn mids() -> AllMids {
    AllMids::from_pairs(vec![
        ("BTC".to_string(), "50000".to_string()),
        ("ETH".to_string(), "3000".to_string()),
        ("SOL".to_string(), "100".to_string()),
    ])
}

fn app() -> App {
    App::new(testnet_client().unwrap())
}

#[test]
fn starts_on_the_market_list() {
    let a = app();
    assert_eq!(a.current_view, View::MarketList);
    assert_eq!(a.market_list_index, 0);
    assert!(a.selected_coin.is_none());
}

#[test]
fn refresh_selects_the_first_coin_and_keys_move() {
    let mut a = app();
    assert_eq!(a.handle_key(Key::Char('r')), Fetch::AllMids);
    a.refresh_data(Ok(mids()));
    assert_eq!(a.selected_coin.as_deref(), Some("BTC"));
    assert_eq!(a.handle_key(Key::Down), Fetch::Nothing);
    assert_eq!(a.selected_coin.as_deref(), Some("ETH"));
    assert!(a.needs_orderbook_refresh);
    a.handle_key(Key::Char('j'));
    a.handle_key(Key::Char('j'));
    assert_eq!(a.market_list_index, 2);
    assert_eq!(a.selected_coin.as_deref(), Some("SOL"));
    a.handle_key(Key::Up);
    assert_eq!(a.market_list_index, 1);
    assert_eq!(a.selected_coin.as_deref(), Some("ETH"));
    a.handle_key(Key::Char('k'));
    a.handle_key(Key::Char('k'));
    assert_eq!(a.market_list_index, 0);
}

#[test]
fn down_without_data_does_nothing() {
    let mut a = app();
    a.handle_key(Key::Down);
    assert_eq!(a.market_list_index, 0);
    assert!(!a.needs_orderbook_refresh);
}

#[test]
fn enter_and_tab_switch_screens() {
    let mut a = app();
    assert_eq!(a.handle_key(Key::Enter), Fetch::Nothing);
    assert_eq!(a.current_view, View::OrderBook);
    a.handle_key(Key::Tab);
    assert_eq!(a.current_view, View::MarketList);
    a.refresh_data(Ok(mids()));
    assert_eq!(a.handle_key(Key::Enter), Fetch::OrderBook("BTC".to_string()));
    a.handle_key(Key::Esc);
    assert!(a.should_quit);
}

#[test]
fn ticks_refresh_on_schedule() {
    let mut a = app();
    for i in 1..=16u32 {
        let f = a.handle_tick();
        assert_eq!(f == Fetch::AllMids, i % 8 == 0);
    }
    a.refresh_data(Ok(mids()));
    a.current_view = View::OrderBook;
    a.needs_orderbook_refresh = true;
    assert_eq!(a.handle_tick(), Fetch::OrderBook("BTC".to_string()));
    assert!(!a.needs_orderbook_refresh);
    assert_eq!(a.tick_count, 17);
    assert_eq!(a.handle_tick(), Fetch::Nothing);
    assert_eq!(a.handle_tick(), Fetch::Nothing);
    assert_eq!(a.handle_tick(), Fetch::OrderBook("BTC".to_string()));
}

#[test]
fn errors_are_reported() {
    let mut a = app();
    a.refresh_data(Err("boom".to_string()));
    assert_eq!(a.error_message.as_deref(), Some("Error: boom"));
    a.refresh_orderbook(Err("down".to_string()));
    assert_eq!(a.error_message.as_deref(), Some("Orderbook error: down"));
    a.refresh_orderbook(Ok(L2BookSnapshot { coin: "BTC".to_string(), time: 1, levels: (vec![], vec![]) }));
    assert!(a.error_message.is_none());
    assert!(a.orderbook.is_some());
}

fn level(px: &str, n: u64) -> BidOrAsk {
    BidOrAsk { px: px.to_string(), sz: "1".to_string(), n }
}

#[test]
fn order_book_rows() {
    let asks: Vec<BidOrAsk> = (0..15).map(|i| level(&format!("{}", 100 + i), if i == 2 { 0 } else { 1 })).collect();
    let bids = vec![level("99", 3), level("98", 0), level("97", 1)];
    let book = L2BookSnapshot { coin: "BTC".to_string(), time: 1, levels: (bids, asks) };
    let rows = ask_rows(&book);
    assert_eq!(rows.len(), 10);
    assert_eq!(rows[0].0, "100");
    assert_eq!(rows[2].0, "103");
    assert_eq!(rows[9].0, "110");
    let bid = bid_rows(&book);
    assert_eq!(bid.len(), 2);
    assert_eq!(bid[0].0, "99");
    assert_eq!(bid[1].0, "97");
}

#[test]
fn titles_rows_and_footer() {
    assert_eq!(header_title(View::MarketList), " Hyperliquid Market Data ");
    assert_eq!(header_title(View::OrderBook), " Order Book ");
    assert_eq!(orderbook_title(Some("ETH")), " ETH Order Book ");
    assert_eq!(orderbook_title(None), " Order Book ");
    let rows = market_rows(&mids(), 1);
    assert_eq!(rows.len(), 3);
    assert!(!rows[0].2 && rows[1].2 && !rows[2].2);
    assert_eq!(rows[1].1, "3000");
    let f = footer_spans(Some("bad"));
    assert_eq!(f.len(), 2);
    assert_eq!(f[1].0, "bad");
    let f = footer_spans(None);
    assert_eq!(f.len(), 10);
    assert_eq!(f[0].0, "q");
}

#[test]
fn mids_list_each_coin_once() {
    let m = AllMids::from_pairs(vec![
        ("BTC".to_string(), "1".to_string()),
        ("ETH".to_string(), "2".to_string()),
        ("BTC".to_string(), "3".to_string()),
    ]);
    assert_eq!(m.0, vec![("BTC".to_string(), "3".to_string()), ("ETH".to_string(), "2".to_string())]);
}
