//! The screens of the market viewer.
use vstd::prelude::*;

verus! {

/// The screen shown: the market list, or the market list beside the order
/// book of the selected coin.
#[derive(Debug, Clone, Copy, PartialEq, Eq, Structural)]
pub enum View {
    MarketList,
    OrderBook,
}

} // verus!
