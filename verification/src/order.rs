//! The resting order record and its buy/sell priority orderings.

use vstd::prelude::*;

verus! {

/// A single resting order. `order_type` is 0 for a buy and 1 for a sell.
#[derive(Clone, Copy, PartialEq, Eq, Structural, Debug)]
pub struct Order {
    pub order_id: u64,
    pub amount: u64,
    pub price: u64,
    pub order_type: u8,
    pub timestamp: u64,
}

impl Order {
    /// The all-zero order, used to fill unused heap slots.
    pub fn empty() -> (r: Self)
        ensures
            r == (Order { order_id: 0, amount: 0, price: 0, order_type: 0, timestamp: 0 }),
    {
        Order { order_id: 0, amount: 0, price: 0, order_type: 0, timestamp: 0 }
    }

    pub fn is_buy(&self) -> (r: bool)
        ensures
            r == (self.order_type == 0),
    {
        self.order_type == 0
    }

    pub fn is_sell(&self) -> (r: bool)
        ensures
            r == (self.order_type == 1),
    {
        self.order_type == 1
    }
}

/// Strict priority of bids: higher price first, earlier timestamp on ties.
pub open spec fn bid_before(a: Order, b: Order) -> bool {
    a.price > b.price || (a.price == b.price && a.timestamp < b.timestamp)
}

/// Strict priority of asks: lower price first, earlier timestamp on ties.
pub open spec fn ask_before(a: Order, b: Order) -> bool {
    a.price < b.price || (a.price == b.price && a.timestamp < b.timestamp)
}

} // verus!
