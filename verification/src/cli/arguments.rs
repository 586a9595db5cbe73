//! Arguments of the order commands, turned into exchange requests.
use vstd::prelude::*;
use crate::types::exchange::order::{
    Builder, CancelRequest, Grouping, LimitOrder, OrderRequest, OrderSide, OrderType, Tif, Tpsl,
    TriggerOrder,
};

verus! {

/// The type of an order on the command line.
#[derive(Debug, Clone, Copy, PartialEq, Eq, Structural)]
pub enum OrderTypeArg {
    Limit,
    Trigger,
}

/// The arguments of the order command.
#[derive(Debug, Clone)]
pub struct OrderCmd {
    pub coin: String,
    pub side: OrderSide,
    pub size: String,
    /// Limit (the default) or trigger.
    pub order_type: OrderTypeArg,
    /// Required for limit orders.
    pub price: Option<String>,
    /// Time in force; `Gtc` by default.
    pub tif: Tif,
    /// Required for trigger orders.
    pub trigger_price: Option<String>,
    /// Required for trigger orders.
    pub tpsl: Option<Tpsl>,
    pub trigger_market: bool,
    pub reduce_only: bool,
    pub cloid: Option<String>,
    /// `Na` by default.
    pub grouping: Grouping,
    pub vault_address: Option<String>,
    pub expires_after: Option<u64>,
    pub builder_address: Option<String>,
    /// Required with a builder address.
    pub builder_fee: Option<u32>,
}

/// The order type an order command asks for.
pub open spec fn spec_order_type(cmd: OrderCmd) -> OrderType {
    match cmd.order_type {
        OrderTypeArg::Limit => OrderType::Limit(LimitOrder { tif: cmd.tif }),
        OrderTypeArg::Trigger => OrderType::Trigger(
            TriggerOrder {
                is_market: cmd.trigger_market,
                trigger_px: cmd.trigger_price->0,
                tpsl: cmd.tpsl->0,
            },
        ),
    }
}

/// An order command builds the kind of order it names, with its own terms: a
/// limit command a limit order with the command's time in force, a trigger
/// command a trigger order with the command's trigger price, market flag and
/// take-profit/stop-loss kind (when the command gives them).
pub proof fn lemma_order_type_follows_the_command(cmd: OrderCmd)
    ensures
        cmd.order_type == OrderTypeArg::Limit <==> spec_order_type(cmd) is Limit,
        spec_order_type(cmd) matches OrderType::Limit(l) ==> l.tif == cmd.tif,
        spec_order_type(cmd) matches OrderType::Trigger(t) ==> t.is_market == cmd.trigger_market
            && (cmd.trigger_price matches Some(p) ==> t.trigger_px == p) && (cmd.tpsl matches Some(k) ==> t.tpsl == k),
{
}

impl OrderCmd {
    /// What the command needs: a price for a limit order, a trigger price and
    /// a take-profit/stop-loss kind for a trigger order, and a fee with a
    /// builder address.
    pub open spec fn is_complete(&self) -> bool {
        &&& self.order_type == OrderTypeArg::Limit ==> self.price is Some
        &&& self.order_type == OrderTypeArg::Trigger ==> self.trigger_price is Some && self.tpsl is Some
        &&& self.builder_address is Some ==> self.builder_fee is Some
    }

    /// The order request of the command for the asset `asset_idx`, with the
    /// grouping, builder, vault and expiry it names. A trigger order is
    /// priced at its trigger price.
    pub fn build(self, asset_idx: u32) -> (r: (OrderRequest, Grouping, Option<Builder>, Option<String>, Option<u64>))
        requires
            self.is_complete(),
        ensures
            r.0.a == asset_idx,
            r.0.b == (self.side == OrderSide::Buy),
            r.0.p == (match self.order_type {
                OrderTypeArg::Limit => self.price->0,
                OrderTypeArg::Trigger => self.trigger_price->0,
            }),
            r.0.s == self.size,
            r.0.r == self.reduce_only,
            r.0.t == spec_order_type(self),
            self.order_type == OrderTypeArg::Limit ==> r.0.t == OrderType::Limit(LimitOrder { tif: self.tif }),
            self.order_type == OrderTypeArg::Trigger ==> (r.0.t matches OrderType::Trigger(t) && t.is_market
                == self.trigger_market && Some(t.trigger_px) == self.trigger_price && Some(t.tpsl) == self.tpsl),
            r.0.c == self.cloid,
            r.1 == self.grouping,
            r.2 == (match self.builder_address {
                Some(b) => Some(Builder { b, f: self.builder_fee->0 }),
                None => None,
            }),
            r.3 == self.vault_address,
            r.4 == self.expires_after,
    {
        let order_type = match self.order_type {
            OrderTypeArg::Limit => OrderType::Limit(LimitOrder { tif: self.tif }),
            OrderTypeArg::Trigger => {
                let trigger_px = match &self.trigger_price {
                    Some(p) => p.clone(),
                    None => String::new(),
                };
                let tpsl = match self.tpsl {
                    Some(t) => t,
                    None => Tpsl::Tp,
                };
                OrderType::Trigger(TriggerOrder { is_market: self.trigger_market, trigger_px, tpsl })
            },
        };
        let builder = match self.builder_address {
            Some(b) => {
                let f = match self.builder_fee {
                    Some(f) => f,
                    None => 0,
                };
                Some(Builder { b, f })
            },
            None => None,
        };
        let price = match self.order_type {
            OrderTypeArg::Limit => match self.price {
                Some(p) => p,
                None => String::new(),
            },
            OrderTypeArg::Trigger => match self.trigger_price {
                Some(p) => p,
                None => String::new(),
            },
        };
        let b = match self.side {
            OrderSide::Buy => true,
            OrderSide::Sell => false,
        };
        let order = OrderRequest {
            a: asset_idx,
            b,
            p: price,
            s: self.size,
            r: self.reduce_only,
            t: order_type,
            c: self.cloid,
        };
        (order, self.grouping, builder, self.vault_address, self.expires_after)
    }

    /// The coin the order is for.
    pub fn coin(&self) -> (c: &str)
        ensures
            c@ == self.coin@,
    {
        self.coin.as_str()
    }
}

/// The arguments of the cancel-by-order-id command.
#[derive(Debug, Clone)]
pub struct CancelOrderByOidCmd {
    /// Name of the coin.
    pub coin: String,
    /// Order id.
    pub o: u64,
    /// Asset index, overriding the looked-up one.
    pub a: Option<u32>,
    pub vault_address: Option<String>,
    pub expires_after: Option<u64>,
}

impl CancelOrderByOidCmd {
    /// The cancel request of the command: the given asset index, or
    /// `asset_idx` when none is given.
    pub fn build(self, asset_idx: u32) -> (r: (CancelRequest, Option<String>, Option<u64>))
        ensures
            r.0.a == (match self.a {
                Some(a) => a,
                None => asset_idx,
            }),
            r.0.o == self.o,
            r.1 == self.vault_address,
            r.2 == self.expires_after,
    {
        let a = match self.a {
            Some(a) => a,
            None => asset_idx,
        };
        (CancelRequest { a, o: self.o }, self.vault_address, self.expires_after)
    }

    /// The coin of the order.
    pub fn coin(&self) -> (c: &str)
        ensures
            c@ == self.coin@,
    {
        self.coin.as_str()
    }
}

} // verus!
