//! Order submission: turn a request into a resting order, check and lock
//! funds, insert into the book, and report a status record.

use vstd::prelude::*;

use crate::book::OrderBook;
use crate::codec::lemma_round_trip;
use crate::codec::spec_decode;
use crate::codec::spec_encode;
use crate::codec::OrderBookFlat;
use crate::ledger::lock;
use crate::ledger::required;
use crate::ledger::spec_lock;
use crate::ledger::spec_required;
use crate::ledger::Balances;
use crate::order::Order;

verus! {

/// The externally visible status of a submitted order.
///
/// `status` codes: 1 is processing (accepted into the book), 2 is rejected
/// (book side full), 5 is insufficient balance.
#[derive(Clone, Copy, PartialEq, Eq, Structural, Debug)]
pub struct OrderStatus {
    pub order_type: u8,
    pub amount: u64,
    pub price: u64,
    pub status: u8,
    pub locked_amount: u64,
    pub filled_amount: u64,
    pub execution_price: u64,
}

/// The price and amount of a submission.
#[derive(Clone, Copy, PartialEq, Eq, Structural, Debug)]
pub struct UserSensitiveData {
    pub amount: u64,
    pub price: u64,
}

/// Whether the ledger covers the funds the submission must lock: a buy
/// (order type 0) needs `amount * price` of quote, a sell needs `amount`
/// of base.
pub open spec fn spec_submit_possible(
    ledger: Balances,
    order_type: u8,
    amount: u64,
    price: u64,
) -> bool {
    if order_type == 0 {
        ledger.quote_available >= amount * price
    } else {
        ledger.base_available >= amount
    }
}

/// Submit an order against a packed book and a user's balances.
///
/// Returns the re-packed book, the updated balances, a status record and a
/// success flag. The submission succeeds exactly when the funds cover the
/// required lock and the book side has a free slot; on success the order
/// rests in the book and the required funds are locked; on any failure
/// neither the book nor the balances change.
pub fn submit_order(
    user_sensitive: UserSensitiveData,
    user_ledger: Balances,
    orderbook_ctx: OrderBookFlat,
    order_id: u64,
    order_type: u8,
    timestamp: u64,
) -> (r: (OrderBookFlat, Balances, OrderStatus, bool))
    requires
        spec_decode(orderbook_ctx).wf(),
        order_type == 0 ==> user_sensitive.amount * user_sensitive.price <= u64::MAX,
    ensures
        spec_decode(r.0).wf(),
        r.0 == spec_encode(spec_decode(r.0)),
        r.3 == (spec_submit_possible(
            user_ledger,
            order_type,
            user_sensitive.amount,
            user_sensitive.price,
        ) && (if order_type == 0 {
            spec_decode(orderbook_ctx).buy_count < 4
        } else {
            spec_decode(orderbook_ctx).sell_count < 4
        })),
        r.3 && order_type == 0 ==> spec_decode(r.0).bids().to_multiset() == spec_decode(
            orderbook_ctx,
        ).bids().to_multiset().insert(
            Order {
                order_id,
                amount: user_sensitive.amount,
                price: user_sensitive.price,
                order_type,
                timestamp,
            },
        ) && spec_decode(r.0).buy_count == spec_decode(orderbook_ctx).buy_count + 1 && spec_decode(
            r.0,
        ).sell_orders == spec_decode(orderbook_ctx).sell_orders && spec_decode(r.0).sell_count
            == spec_decode(orderbook_ctx).sell_count,
        r.3 && order_type != 0 ==> spec_decode(r.0).asks().to_multiset() == spec_decode(
            orderbook_ctx,
        ).asks().to_multiset().insert(
            Order {
                order_id,
                amount: user_sensitive.amount,
                price: user_sensitive.price,
                order_type,
                timestamp,
            },
        ) && spec_decode(r.0).sell_count == spec_decode(orderbook_ctx).sell_count + 1
            && spec_decode(r.0).buy_orders == spec_decode(orderbook_ctx).buy_orders && spec_decode(
            r.0,
        ).buy_count == spec_decode(orderbook_ctx).buy_count,
        !r.3 ==> spec_decode(r.0) == spec_decode(orderbook_ctx),
        r.3 ==> r.1 == spec_lock(
            user_ledger,
            order_type,
            spec_required(order_type, user_sensitive.amount, user_sensitive.price) as u64,
        ),
        !r.3 ==> r.1 == user_ledger,
        user_ledger.wf() ==> r.1.wf(),
        r.2 == (OrderStatus {
            order_type,
            amount: user_sensitive.amount,
            price: user_sensitive.price,
            status: (if !spec_submit_possible(
                user_ledger,
                order_type,
                user_sensitive.amount,
                user_sensitive.price,
            ) {
                5
            } else if r.3 {
                1
            } else {
                2
            }),
            locked_amount: (if r.3 {
                spec_required(order_type, user_sensitive.amount, user_sensitive.price) as u64
            } else {
                0
            }),
            filled_amount: 0,
            execution_price: 0,
        }),
{
    let sensitive = user_sensitive;
    let mut ledger = user_ledger;
    let mut orderbook = OrderBookFlat::to_orderbook(orderbook_ctx);

    let req: u64 = required(order_type, sensitive.amount, sensitive.price);

    let available: u64 = if order_type == 0 {
        ledger.quote_available
    } else {
        ledger.base_available
    };
    let possible = available >= req;

    let order = if possible {
        Order {
            order_id,
            amount: sensitive.amount,
            price: sensitive.price,
            order_type,
            timestamp,
        }
    } else {
        Order::empty()
    };

    let success = if possible {
        if order_type == 0 {
            orderbook.insert_buy(order)
        } else {
            orderbook.insert_sell(order)
        }
    } else {
        false
    };

    if success {
        lock(&mut ledger, order_type, req);
    }

    let status = if possible {
        OrderStatus {
            order_type,
            amount: sensitive.amount,
            price: sensitive.price,
            status: if success {
                1
            } else {
                2
            },
            locked_amount: if success {
                req
            } else {
                0
            },
            filled_amount: 0,
            execution_price: 0,
        }
    } else {
        OrderStatus {
            order_type,
            amount: sensitive.amount,
            price: sensitive.price,
            status: 5,
            locked_amount: 0,
            filled_amount: 0,
            execution_price: 0,
        }
    };

    let packed = OrderBookFlat::from_orderbook(orderbook);
    proof {
        lemma_round_trip(orderbook);
    }
    (packed, ledger, status, success)
}

} // verus!
