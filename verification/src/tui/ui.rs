//! What the screens of the market viewer show: titles, the rows of the
//! market list and of the order book, and the footer.
use vstd::prelude::*;
use crate::tui::view;
use crate::types::info::user::{AllMids, BidOrAsk, L2BookSnapshot};

verus! {

/// The most rows shown for each side of the order book.
pub const BOOK_ROWS: usize = 10;

/// Whether a level is shown on its side of the book: it has at least one order.
pub open spec fn shown(level: BidOrAsk) -> bool {
    level.n > 0
}

/// The first `k` shown levels, as price and size.
pub open spec fn book_rows(levels: Seq<BidOrAsk>, k: nat) -> Seq<(Seq<char>, Seq<char>)>
    decreases levels.len(),
{
    if levels.len() == 0 || k == 0 {
        Seq::empty()
    } else if shown(levels[0]) {
        seq![(levels[0].px@, levels[0].sz@)] + book_rows(levels.drop_first(), (k - 1) as nat)
    } else {
        book_rows(levels.drop_first(), k)
    }
}

/// The view of rows of two strings.
pub open spec fn pairs_view(v: Seq<(String, String)>) -> Seq<(Seq<char>, Seq<char>)> {
    v.map_values(|p: (String, String)| (p.0@, p.1@))
}

/// Shown levels never number more than asked for.
proof fn lemma_book_rows_len(levels: Seq<BidOrAsk>, k: nat)
    ensures
        book_rows(levels, k).len() <= k,
    decreases levels.len(),
{
    if levels.len() > 0 && k > 0 {
        if shown(levels[0]) {
            lemma_book_rows_len(levels.drop_first(), (k - 1) as nat);
        } else {
            lemma_book_rows_len(levels.drop_first(), k);
        }
    }
}

/// The rows of one side of the order book.
fn side_rows(levels: &Vec<BidOrAsk>) -> (rows: Vec<(String, String)>)
    ensures
        pairs_view(rows@) == book_rows(levels@, BOOK_ROWS as nat),
{
    let mut rows: Vec<(String, String)> = Vec::new();
    let mut i: usize = 0;
    assert(levels@.subrange(0, levels@.len() as int) =~= levels@);
    assert(pairs_view(rows@) + book_rows(levels@, BOOK_ROWS as nat) =~= book_rows(levels@, BOOK_ROWS as nat));
    while i < levels.len() && rows.len() < BOOK_ROWS
        invariant
            i <= levels@.len(),
            rows@.len() <= BOOK_ROWS,
            pairs_view(rows@) + book_rows(levels@.subrange(i as int, levels@.len() as int), (BOOK_ROWS
                - rows@.len()) as nat) == book_rows(levels@, BOOK_ROWS as nat),
        decreases levels@.len() - i,
    {
        let ghost rest = levels@.subrange(i as int, levels@.len() as int);
        assert(rest.drop_first() =~= levels@.subrange(i + 1, levels@.len() as int));
        let level = &levels[i];
        if level.n > 0 {
            let ghost before = rows@;
            rows.push((level.px.clone(), level.sz.clone()));
            assert(pairs_view(rows@) =~= pairs_view(before) + seq![(level.px@, level.sz@)]);
        }
        i = i + 1;
    }
    proof {
        let rest = levels@.subrange(i as int, levels@.len() as int);
        if i < levels@.len() {
            assert(rows@.len() == BOOK_ROWS);
        } else {
            assert(rest.len() == 0);
        }
        assert(book_rows(rest, (BOOK_ROWS - rows@.len()) as nat) =~= Seq::empty());
        assert(pairs_view(rows@) + Seq::<(Seq<char>, Seq<char>)>::empty() =~= pairs_view(rows@));
    }
    rows
}

/// The ask rows: the first ten asks with at least one order.
pub fn ask_rows(book: &L2BookSnapshot) -> (rows: Vec<(String, String)>)
    ensures
        pairs_view(rows@) == book_rows(book.levels.1@, 10),
        rows@.len() <= 10,
{
    let rows = side_rows(&book.levels.1);
    proof {
        lemma_book_rows_len(book.levels.1@, 10);
    }
    rows
}

/// The bid rows: the first ten bids with at least one order.
pub fn bid_rows(book: &L2BookSnapshot) -> (rows: Vec<(String, String)>)
    ensures
        pairs_view(rows@) == book_rows(book.levels.0@, 10),
        rows@.len() <= 10,
{
    let rows = side_rows(&book.levels.0);
    proof {
        lemma_book_rows_len(book.levels.0@, 10);
    }
    rows
}

/// The title of the header.
pub fn header_title(v: view::View) -> (t: &'static str)
    ensures
        t@ == (match v {
            view::View::MarketList => " Hyperliquid Market Data "@,
            view::View::OrderBook => " Order Book "@,
        }),
{
    match v {
        view::View::MarketList => " Hyperliquid Market Data ",
        view::View::OrderBook => " Order Book ",
    }
}

/// The title of the order book: the selected coin's, or a plain one.
pub fn orderbook_title(selected_coin: Option<&str>) -> (t: String)
    ensures
        t@ == (match selected_coin {
            Some(c) => " "@ + c@ + " Order Book "@,
            None => " Order Book "@,
        }),
{
    match selected_coin {
        Some(c) => {
            let mut t = String::from_str(" ");
            t.append(c);
            t.append(" Order Book ");
            t
        },
        None => String::from_str(" Order Book "),
    }
}

/// The rows of the market list: each coin with its mid price, the one at
/// the list position highlighted.
pub fn market_rows(mids: &AllMids, index: usize) -> (rows: Vec<(String, String, bool)>)
    ensures
        rows@.len() == mids.0@.len(),
        forall|i: int|
            0 <= i < rows@.len() ==> (#[trigger] rows@[i]).0@ == mids.0@[i].0@ && rows@[i].1@ == mids.0@[i].1@
                && rows@[i].2 == (i == index),
{
    let mut rows: Vec<(String, String, bool)> = Vec::new();
    let mut i: usize = 0;
    while i < mids.0.len()
        invariant
            i <= mids.0@.len(),
            rows@.len() == i,
            forall|j: int|
                0 <= j < i ==> (#[trigger] rows@[j]).0@ == mids.0@[j].0@ && rows@[j].1@ == mids.0@[j].1@
                    && rows@[j].2 == (j == index),
        decreases mids.0@.len() - i,
    {
        let entry = &mids.0[i];
        rows.push((entry.0.clone(), entry.1.clone(), i == index));
        i = i + 1;
    }
    rows
}

/// The footer: the error when there is one, after an `Error: ` label;
/// otherwise the key help. Each span says whether it is a highlighted label.
pub fn footer_spans(error_message: Option<&str>) -> (spans: Vec<(String, bool)>)
    ensures
        match error_message {
            Some(e) => spans@.len() == 2 && spans@[0].0@ == "Error: "@ && spans@[0].1 && spans@[1].0@ == e@
                && !spans@[1].1,
            None => spans@.len() == 10 && forall|i: int| 0 <= i < 10 ==> (#[trigger] spans@[i]).1 == (i % 2 == 0),
        },
{
    let mut spans: Vec<(String, bool)> = Vec::new();
    match error_message {
        Some(e) => {
            spans.push((String::from_str("Error: "), true));
            spans.push((String::from_str(e), false));
        },
        None => {
            spans.push((String::from_str("q"), true));
            spans.push((String::from_str(" quit | "), false));
            spans.push((String::from_str("↑↓/jk"), true));
            spans.push((String::from_str(" navigate | "), false));
            spans.push((String::from_str("Enter"), true));
            spans.push((String::from_str(" view book | "), false));
            spans.push((String::from_str("Tab"), true));
            spans.push((String::from_str(" switch view | "), false));
            spans.push((String::from_str("r"), true));
            spans.push((String::from_str(" refresh"), false));
        },
    }
    spans
}

} // verus!
