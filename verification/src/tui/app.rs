//! The state of the market viewer. A key or a tick changes the state and
//! says what to fetch; the fetched data, or the error, is handed back.
use vstd::prelude::*;
use crate::utils::opt_string_view;
use crate::client::HyperliquidClient;
use crate::tui::view;
use crate::types::info::user::{AllMids, L2BookSnapshot};

verus! {

/// A key press.
#[derive(Debug, Clone, Copy, PartialEq, Eq, Structural)]
pub enum Key {
    Char(char),
    Esc,
    Tab,
    Down,
    Up,
    Enter,
    Other,
}

/// What to fetch after a key or a tick.
#[derive(Debug, Clone, PartialEq, Eq)]
pub enum Fetch {
    Nothing,
    /// The mid prices of all coins.
    AllMids,
    /// The order book of a coin.
    OrderBook(String),
}

/// The viewer's state.
pub struct App {
    pub client: HyperliquidClient,
    pub all_mids: Option<AllMids>,
    pub orderbook: Option<L2BookSnapshot>,
    pub selected_coin: Option<String>,
    pub current_view: view::View,
    pub should_quit: bool,
    pub error_message: Option<String>,
    pub market_list_index: usize,
    pub needs_orderbook_refresh: bool,
    pub tick_count: u32,
}

/// The number of coins listed.
pub open spec fn coin_count(mids: Option<AllMids>) -> int {
    match mids {
        Some(m) => m.0@.len() as int,
        None => 0,
    }
}

/// The coin at a position of the list, when there is one.
pub open spec fn coin_at(mids: Option<AllMids>, index: int) -> Option<Seq<char>> {
    match mids {
        Some(m) => if 0 <= index < m.0@.len() {
            Some(m.0@[index].0@)
        } else {
            None
        },
        None => None,
    }
}

/// The selected coin after the selection follows the list position: the
/// coin there, or the previous selection when there is none.
pub open spec fn follow_selection(mids: Option<AllMids>, index: int, selected: Option<Seq<char>>) -> Option<Seq<char>> {
    match coin_at(mids, index) {
        Some(c) => Some(c),
        None => selected,
    }
}

/// The list position after a key: down moves one coin further unless at
/// the last coin, up moves one coin back unless at the first.
pub open spec fn index_after_key(key: Key, index: int, mids: Option<AllMids>) -> int {
    match key {
        Key::Down | Key::Char('j') => if mids is Some && index + 1 < coin_count(mids) {
            index + 1
        } else {
            index
        },
        Key::Up | Key::Char('k') => if index > 0 {
            index - 1
        } else {
            index
        },
        _ => index,
    }
}

/// Keys never move the list position below the first coin or past the
/// last one: a position on the list (or the first position of an empty
/// list) stays so.
pub proof fn lemma_key_keeps_index_in_list(key: Key, index: int, mids: Option<AllMids>)
    requires
        0 <= index,
        index == 0 || index < coin_count(mids),
    ensures
        0 <= index_after_key(key, index, mids),
        index_after_key(key, index, mids) == 0 || index_after_key(key, index, mids) < coin_count(mids),
{
}

/// The order book fetch for the selected coin, if one is selected.
pub open spec fn orderbook_fetch(selected: Option<String>, f: Fetch) -> bool {
    match selected {
        Some(c) => f matches Fetch::OrderBook(s) && s@ == c@,
        None => f == Fetch::Nothing,
    }
}

impl App {
    /// A viewer on the market list with nothing loaded.
    pub fn new(client: HyperliquidClient) -> (app: App)
        ensures
            app.client == client,
            app.all_mids is None,
            app.orderbook is None,
            app.selected_coin is None,
            app.current_view == view::View::MarketList,
            !app.should_quit,
            app.error_message is None,
            app.market_list_index == 0,
            !app.needs_orderbook_refresh,
            app.tick_count == 0,
    {
        App {
            client,
            all_mids: None,
            orderbook: None,
            selected_coin: None,
            current_view: view::View::MarketList,
            should_quit: false,
            error_message: None,
            market_list_index: 0,
            needs_orderbook_refresh: false,
            tick_count: 0,
        }
    }

    /// Selects the coin at the list position, if there is one.
    pub fn update_selected_coin(&mut self)
        ensures
            opt_string_view(final(self).selected_coin) == follow_selection(
                old(self).all_mids,
                old(self).market_list_index as int,
                opt_string_view(old(self).selected_coin),
            ),
            final(self).all_mids == old(self).all_mids,
            final(self).orderbook == old(self).orderbook,
            final(self).current_view == old(self).current_view,
            final(self).should_quit == old(self).should_quit,
            final(self).error_message == old(self).error_message,
            final(self).market_list_index == old(self).market_list_index,
            final(self).needs_orderbook_refresh == old(self).needs_orderbook_refresh,
            final(self).tick_count == old(self).tick_count,
            final(self).client == old(self).client,
    {
        if let Some(mids) = &self.all_mids {
            if self.market_list_index < mids.0.len() {
                let coin = mids.0[self.market_list_index].0.clone();
                self.selected_coin = Some(coin);
            }
        }
    }

    /// The order book fetch for the selected coin.
    fn orderbook_request(&self) -> (f: Fetch)
        ensures
            orderbook_fetch(self.selected_coin, f),
    {
        match &self.selected_coin {
            Some(c) => Fetch::OrderBook(c.clone()),
            None => Fetch::Nothing,
        }
    }

    /// Handles a key: `q` or Esc quits, `r` refreshes the mids, Tab
    /// switches the screen, Down/`j` and Up/`k` move the selection (moving
    /// down also marks the order book for refresh), Enter shows the order
    /// book of the selected coin.
    pub fn handle_key(&mut self, key: Key) -> (f: Fetch)
        ensures
            final(self).client == old(self).client,
            final(self).all_mids == old(self).all_mids,
            final(self).orderbook == old(self).orderbook,
            final(self).error_message == old(self).error_message,
            final(self).tick_count == old(self).tick_count,
            final(self).market_list_index == index_after_key(
                key,
                old(self).market_list_index as int,
                old(self).all_mids,
            ),
            match key {
                Key::Char('q') | Key::Esc => final(self).should_quit && f == Fetch::Nothing
                    && final(self).current_view == old(self).current_view
                    && final(self).market_list_index == old(self).market_list_index
                    && final(self).selected_coin == old(self).selected_coin
                    && final(self).needs_orderbook_refresh == old(self).needs_orderbook_refresh,
                Key::Char('r') => f == Fetch::AllMids && final(self).should_quit == old(self).should_quit
                    && final(self).current_view == old(self).current_view
                    && final(self).market_list_index == old(self).market_list_index
                    && final(self).selected_coin == old(self).selected_coin
                    && final(self).needs_orderbook_refresh == old(self).needs_orderbook_refresh,
                Key::Tab => f == Fetch::Nothing && final(self).current_view == (match old(self).current_view {
                    view::View::MarketList => view::View::OrderBook,
                    view::View::OrderBook => view::View::MarketList,
                }) && final(self).should_quit == old(self).should_quit
                    && final(self).market_list_index == old(self).market_list_index
                    && final(self).selected_coin == old(self).selected_coin
                    && final(self).needs_orderbook_refresh == old(self).needs_orderbook_refresh,
                Key::Down | Key::Char('j') => f == Fetch::Nothing && final(self).should_quit
                    == old(self).should_quit && final(self).current_view == old(self).current_view && if old(
                    self,
                ).all_mids is Some && old(self).market_list_index + 1 < coin_count(old(self).all_mids) {
                    &&& final(self).market_list_index == old(self).market_list_index + 1
                    &&& opt_string_view(final(self).selected_coin) == follow_selection(
                        old(self).all_mids,
                        old(self).market_list_index + 1,
                        opt_string_view(old(self).selected_coin),
                    )
                    &&& final(self).needs_orderbook_refresh
                } else {
                    &&& final(self).market_list_index == old(self).market_list_index
                    &&& final(self).selected_coin == old(self).selected_coin
                    &&& final(self).needs_orderbook_refresh == old(self).needs_orderbook_refresh
                },
                Key::Up | Key::Char('k') => f == Fetch::Nothing && final(self).should_quit == old(self).should_quit
                    && final(self).current_view == old(self).current_view
                    && final(self).needs_orderbook_refresh == old(self).needs_orderbook_refresh && if old(
                    self,
                ).market_list_index > 0 {
                    &&& final(self).market_list_index == old(self).market_list_index - 1
                    &&& opt_string_view(final(self).selected_coin) == follow_selection(
                        old(self).all_mids,
                        old(self).market_list_index - 1,
                        opt_string_view(old(self).selected_coin),
                    )
                } else {
                    &&& final(self).market_list_index == old(self).market_list_index
                    &&& final(self).selected_coin == old(self).selected_coin
                },
                Key::Enter => final(self).current_view == view::View::OrderBook && orderbook_fetch(
                    old(self).selected_coin,
                    f,
                ) && final(self).should_quit == old(self).should_quit
                    && final(self).market_list_index == old(self).market_list_index
                    && final(self).selected_coin == old(self).selected_coin
                    && final(self).needs_orderbook_refresh == old(self).needs_orderbook_refresh,
                _ => f == Fetch::Nothing && final(self).should_quit == old(self).should_quit
                    && final(self).current_view == old(self).current_view
                    && final(self).market_list_index == old(self).market_list_index
                    && final(self).selected_coin == old(self).selected_coin
                    && final(self).needs_orderbook_refresh == old(self).needs_orderbook_refresh,
            },
    {
        match key {
            Key::Char('q') | Key::Esc => {
                self.should_quit = true;
                Fetch::Nothing
            },
            Key::Char('r') => Fetch::AllMids,
            Key::Tab => {
                self.current_view =
                    match self.current_view {
                        view::View::MarketList => view::View::OrderBook,
                        view::View::OrderBook => view::View::MarketList,
                    };
                Fetch::Nothing
            },
            Key::Down | Key::Char('j') => {
                let len = match &self.all_mids {
                    Some(m) => Some(m.0.len()),
                    None => None,
                };
                if let Some(len) = len {
                    let last = if len > 0 {
                        len - 1
                    } else {
                        0
                    };
                    if self.market_list_index < last {
                        self.market_list_index = self.market_list_index + 1;
                        self.update_selected_coin();
                        self.needs_orderbook_refresh = true;
                    }
                }
                Fetch::Nothing
            },
            Key::Up | Key::Char('k') => {
                if self.market_list_index > 0 {
                    self.market_list_index = self.market_list_index - 1;
                    self.update_selected_coin();
                }
                Fetch::Nothing
            },
            Key::Enter => {
                self.current_view = view::View::OrderBook;
                self.orderbook_request()
            },
            _ => Fetch::Nothing,
        }
    }

    /// Handles a tick (every 250 ms): the mids are refreshed every 8th tick
    /// on the market list; the order book of the selected coin when marked
    /// for refresh or every 4th tick on the order book screen, which clears
    /// the mark.
    pub fn handle_tick(&mut self) -> (f: Fetch)
        requires
            old(self).tick_count < u32::MAX,
        ensures
            final(self).tick_count == old(self).tick_count + 1,
            final(self).client == old(self).client,
            final(self).all_mids == old(self).all_mids,
            final(self).orderbook == old(self).orderbook,
            final(self).selected_coin == old(self).selected_coin,
            final(self).current_view == old(self).current_view,
            final(self).should_quit == old(self).should_quit,
            final(self).error_message == old(self).error_message,
            final(self).market_list_index == old(self).market_list_index,
            match old(self).current_view {
                view::View::MarketList => final(self).needs_orderbook_refresh == old(self).needs_orderbook_refresh
                    && f == (if final(self).tick_count % 8 == 0 {
                    Fetch::AllMids
                } else {
                    Fetch::Nothing
                }),
                view::View::OrderBook => if old(self).needs_orderbook_refresh || (final(self).tick_count % 4 == 0
                    && old(self).selected_coin is Some) {
                    !final(self).needs_orderbook_refresh && orderbook_fetch(old(self).selected_coin, f)
                } else {
                    final(self).needs_orderbook_refresh == old(self).needs_orderbook_refresh && f
                        == Fetch::Nothing
                },
            },
    {
        self.tick_count = self.tick_count + 1;
        match self.current_view {
            view::View::MarketList => {
                if self.tick_count % 8 == 0 {
                    Fetch::AllMids
                } else {
                    Fetch::Nothing
                }
            },
            view::View::OrderBook => {
                if self.needs_orderbook_refresh || (self.tick_count % 4 == 0 && self.selected_coin.is_some()) {
                    let f = self.orderbook_request();
                    self.needs_orderbook_refresh = false;
                    f
                } else {
                    Fetch::Nothing
                }
            },
        }
    }

    /// Takes the outcome of fetching the mids: on success they replace the
    /// old ones, the error clears, and a coin is selected when none was; on
    /// failure the error message is `Error: ` and the error's text.
    pub fn refresh_data(&mut self, outcome: Result<AllMids, String>)
        ensures
            final(self).client == old(self).client,
            final(self).orderbook == old(self).orderbook,
            final(self).current_view == old(self).current_view,
            final(self).should_quit == old(self).should_quit,
            final(self).market_list_index == old(self).market_list_index,
            final(self).needs_orderbook_refresh == old(self).needs_orderbook_refresh,
            final(self).tick_count == old(self).tick_count,
            match outcome {
                Ok(m) => final(self).all_mids == Some(m) && final(self).error_message is None && if old(
                    self,
                ).selected_coin is None {
                    opt_string_view(final(self).selected_coin) == coin_at(Some(m), old(self).market_list_index as int)
                } else {
                    final(self).selected_coin == old(self).selected_coin
                },
                Err(e) => final(self).all_mids == old(self).all_mids && final(self).selected_coin == old(
                    self,
                ).selected_coin && (final(self).error_message matches Some(msg) && msg@ == "Error: "@ + e@),
            },
    {
        match outcome {
            Ok(mids) => {
                self.all_mids = Some(mids);
                self.error_message = None;
                if self.selected_coin.is_none() {
                    self.update_selected_coin();
                }
            },
            Err(e) => {
                let mut msg = String::from_str("Error: ");
                msg.append(e.as_str());
                self.error_message = Some(msg);
            },
        }
    }

    /// Takes the outcome of fetching the order book: on success it replaces
    /// the old one and the error clears; on failure the error message is
    /// `Orderbook error: ` and the error's text.
    pub fn refresh_orderbook(&mut self, outcome: Result<L2BookSnapshot, String>)
        ensures
            final(self).client == old(self).client,
            final(self).all_mids == old(self).all_mids,
            final(self).selected_coin == old(self).selected_coin,
            final(self).current_view == old(self).current_view,
            final(self).should_quit == old(self).should_quit,
            final(self).market_list_index == old(self).market_list_index,
            final(self).needs_orderbook_refresh == old(self).needs_orderbook_refresh,
            final(self).tick_count == old(self).tick_count,
            match outcome {
                Ok(b) => final(self).orderbook == Some(b) && final(self).error_message is None,
                Err(e) => final(self).orderbook == old(self).orderbook && (final(self).error_message matches Some(
                    msg,
                ) && msg@ == "Orderbook error: "@ + e@),
            },
    {
        match outcome {
            Ok(book) => {
                self.orderbook = Some(book);
                self.error_message = None;
            },
            Err(e) => {
                let mut msg = String::from_str("Orderbook error: ");
                msg.append(e.as_str());
                self.error_message = Some(msg);
            },
        }
    }
}

} // verus!
