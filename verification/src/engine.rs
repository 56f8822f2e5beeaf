//! The matching engine: repeatedly crosses the best bid against the best
//! ask, at most four matches per batch.
//!
//! Each match fills the smaller of the two top-of-book amounts at the
//! truncating mean of the two prices; the residual side, if any amount is
//! left, re-enters its heap. The batch stops early as soon as the top of
//! book no longer crosses.

use vstd::prelude::*;

use crate::book::sum_amounts;
use crate::book::OrderBook;
use crate::codec::lemma_round_trip;
use crate::codec::spec_decode;
use crate::codec::spec_encode;
use crate::codec::OrderBookFlat;

verus! {

/// Hard bound on the number of matches a single batch may produce.
pub const MAX_MATCHES_PER_BATCH: usize = 4;

/// One completed match: the crossed pair of orders, the filled quantity and
/// the execution price. `match_id` counts from zero within its batch.
#[derive(Clone, Copy, PartialEq, Eq, Structural, Debug)]
pub struct MatchedOrder {
    pub match_id: u64,
    pub buyer_order_id: u64,
    pub seller_order_id: u64,
    pub quantity: u64,
    pub execution_price: u64,
}

/// The all-zero match record, filling unused result slots.
pub open spec fn spec_empty_match() -> MatchedOrder {
    MatchedOrder {
        match_id: 0,
        buyer_order_id: 0,
        seller_order_id: 0,
        quantity: 0,
        execution_price: 0,
    }
}

impl MatchedOrder {
    pub fn empty() -> (r: Self)
        ensures
            r == spec_empty_match(),
    {
        MatchedOrder {
            match_id: 0,
            buyer_order_id: 0,
            seller_order_id: 0,
            quantity: 0,
            execution_price: 0,
        }
    }
}

/// A batch's outcome: up to four matches and their count. Slots at
/// `num_matches` and beyond are zero-valued and must be ignored.
#[derive(Clone, PartialEq, Debug)]
pub struct MatchResult {
    pub matches: [MatchedOrder; 4],
    pub num_matches: u8,
}

impl MatchResult {
    /// The empty outcome: no matches, every slot zeroed.
    pub fn empty() -> (r: Self)
        ensures
            r.num_matches == 0,
            forall|i: int| 0 <= i < 4 ==> #[trigger] r.matches@[i] == spec_empty_match(),
    {
        MatchResult {
            matches: [
                MatchedOrder::empty(),
                MatchedOrder::empty(),
                MatchedOrder::empty(),
                MatchedOrder::empty(),
            ],
            num_matches: 0,
        }
    }

    /// Store one match at the given slot; slots out of range are left
    /// untouched.
    pub fn set_match(&mut self, index: u8, matched_order: MatchedOrder)
        ensures
            index < 4 ==> final(self).matches@ == old(self).matches@.update(
                index as int,
                matched_order,
            ),
            index >= 4 ==> final(self).matches == old(self).matches,
            final(self).num_matches == old(self).num_matches,
    {
        let idx: usize = index as usize;
        let mut i: usize = 0;
        while i < 4
            invariant
                i <= 4,
                self.num_matches == old(self).num_matches,
                idx == index as int,
                (idx < 4 && i > idx) ==> self.matches@ == old(self).matches@.update(
                    idx as int,
                    matched_order,
                ),
                (idx >= 4 || i <= idx) ==> self.matches == old(self).matches,
            decreases 4 - i,
        {
            if i == idx {
                self.matches[i] = matched_order;
            }
            i = i + 1;
        }
    }
}

/// The top of book crosses: both sides are non-empty and the best bid's
/// price is at least the best ask's.
pub open spec fn spec_crossable(b: OrderBook) -> bool {
    b.buy_count > 0 && b.sell_count > 0 && b.bids()[0].price >= b.asks()[0].price
}

/// The match a crossing book produces first: its two tops fill the smaller
/// of their amounts at the truncating mean of their prices.
pub open spec fn spec_first_match(b: OrderBook) -> MatchedOrder {
    MatchedOrder {
        match_id: 0,
        buyer_order_id: b.bids()[0].order_id,
        seller_order_id: b.asks()[0].order_id,
        quantity: if b.bids()[0].amount < b.asks()[0].amount {
            b.bids()[0].amount
        } else {
            b.asks()[0].amount
        },
        execution_price: ((b.bids()[0].price + b.asks()[0].price) / 2) as u64,
    }
}

/// The total quantity filled by the first `n` slots of a match array.
pub open spec fn sum_quantities(s: Seq<MatchedOrder>, n: int) -> int
    decreases n,
{
    if n <= 0 {
        0
    } else {
        sum_quantities(s, n - 1) + s[n - 1].quantity
    }
}

/// Overwriting a slot at or past `n` leaves the sum of the first `n` slots
/// unchanged.
proof fn lemma_sum_quantities_update(s: Seq<MatchedOrder>, k: int, v: MatchedOrder, n: int)
    requires
        0 <= n <= k < s.len(),
    ensures
        sum_quantities(s.update(k, v), n) == sum_quantities(s, n),
    decreases n,
{
    if n > 0 {
        lemma_sum_quantities_update(s, k, v, n - 1);
    }
}

/// Run one matching batch over a packed book.
///
/// The result holds the re-packed book, the batch's matches and their
/// count. The count never exceeds four; when it is less, the returned book
/// no longer crosses at the top. Matched quantity is conserved: on each
/// side, the quantity resting in the returned book plus the total filled
/// quantity equals the quantity that was resting before.
pub fn match_orders(order_book_ctxt: OrderBookFlat) -> (r: (OrderBookFlat, MatchResult, u8))
    requires
        spec_decode(order_book_ctxt).wf(),
    ensures
        r.2 == r.1.num_matches,
        r.2 <= 4,
        spec_decode(r.0).wf(),
        r.0 == spec_encode(spec_decode(r.0)),
        sum_amounts(spec_decode(r.0).bids()) + sum_quantities(r.1.matches@, r.2 as int)
            == sum_amounts(spec_decode(order_book_ctxt).bids()),
        sum_amounts(spec_decode(r.0).asks()) + sum_quantities(r.1.matches@, r.2 as int)
            == sum_amounts(spec_decode(order_book_ctxt).asks()),
        r.2 == 4 || !spec_crossable(spec_decode(r.0)),
        r.2 == 0 ==> spec_decode(r.0) == spec_decode(order_book_ctxt),
        spec_crossable(spec_decode(order_book_ctxt)) ==> r.2 >= 1 && r.1.matches@[0]
            == spec_first_match(spec_decode(order_book_ctxt)),
        r.2 == 0 <==> !spec_crossable(spec_decode(order_book_ctxt)),
        forall|i: int| 0 <= i < r.2 ==> (#[trigger] r.1.matches@[i]).match_id == i,
        forall|i: int| r.2 <= i < 4 ==> #[trigger] r.1.matches@[i] == spec_empty_match(),
{
    let mut order_book = OrderBookFlat::to_orderbook(order_book_ctxt);

    let mut result = MatchResult::empty();

    let mut match_count: u8 = 0;
    let mut next_match_id: u64 = 0;

    let mut match_idx: usize = 0;
    while match_idx < MAX_MATCHES_PER_BATCH
        invariant
            order_book.wf(),
            match_idx <= 4,
            match_count <= match_idx,
            next_match_id == match_count,
            result.num_matches == 0,
            match_count == match_idx || !spec_crossable(order_book),
            match_count == 0 ==> order_book == spec_decode(order_book_ctxt),
            !spec_crossable(spec_decode(order_book_ctxt)) ==> match_count == 0,
            match_idx > 0 && spec_crossable(spec_decode(order_book_ctxt)) ==> match_count >= 1
                && result.matches@[0] == spec_first_match(spec_decode(order_book_ctxt)),
            sum_amounts(order_book.bids()) + sum_quantities(result.matches@, match_count as int)
                == sum_amounts(spec_decode(order_book_ctxt).bids()),
            sum_amounts(order_book.asks()) + sum_quantities(result.matches@, match_count as int)
                == sum_amounts(spec_decode(order_book_ctxt).asks()),
            forall|i: int| 0 <= i < match_count ==> (#[trigger] result.matches@[i]).match_id == i,
            forall|i: int| match_count <= i < 4 ==> #[trigger] result.matches@[i] == spec_empty_match(),
        decreases 4 - match_idx,
    {
        if order_book.has_buy() && order_book.has_sell() {
            let buy = order_book.peek_buy();
            let sell = order_book.peek_sell();

            if buy.price >= sell.price {
                let mut buyer = order_book.pop_buy();
                let mut seller = order_book.pop_sell();

                let execution_price: u64 = ((buyer.price as u128 + seller.price as u128) / 2) as u64;
                let fill_quantity: u64 = if buyer.amount < seller.amount {
                    buyer.amount
                } else {
                    seller.amount
                };

                let ghost pre_matches = result.matches@;
                result.set_match(
                    match_idx as u8,
                    MatchedOrder {
                        match_id: next_match_id,
                        buyer_order_id: buyer.order_id,
                        seller_order_id: seller.order_id,
                        quantity: fill_quantity,
                        execution_price,
                    },
                );
                proof {
                    lemma_sum_quantities_update(
                        pre_matches,
                        match_idx as int,
                        MatchedOrder {
                            match_id: next_match_id,
                            buyer_order_id: buyer.order_id,
                            seller_order_id: seller.order_id,
                            quantity: fill_quantity,
                            execution_price,
                        },
                        match_idx as int,
                    );
                }

                buyer.amount = buyer.amount - fill_quantity;
                seller.amount = seller.amount - fill_quantity;

                if buyer.amount > 0 {
                    order_book.insert_buy(buyer);
                }

                if seller.amount > 0 {
                    order_book.insert_sell(seller);
                }

                match_count = match_idx as u8 + 1;
                next_match_id = next_match_id + 1;
            }
        }
        match_idx = match_idx + 1;
    }

    result.num_matches = match_count;

    let packed = OrderBookFlat::from_orderbook(order_book);
    proof {
        lemma_round_trip(order_book);
    }
    (packed, result, match_count)
}

} // verus!
