//! The flat codec: a bidirectional, bit-exact mapping between an
//! [`OrderBook`] and eighteen 128-bit words.
//!
//! Each order occupies two words: `order_id` in the low 64 bits and `amount`
//! in the high 64 bits of the first, `price` in the low and `timestamp` in
//! the high bits of the second. The eight one-byte side tags (four bid slots,
//! then four ask slots) share one word in base-256 positional encoding, and
//! the two one-byte counts share one word as `buy_count + sell_count * 256`.

use vstd::arithmetic::div_mod::lemma_fundamental_div_mod_converse;
use vstd::prelude::*;

use crate::book::OrderBook;
use crate::order::Order;

verus! {

/// 2^64, the split point between the two halves of a 128-bit word.
pub const POW64: u128 = 18446744073709551616;

/// Two 64-bit fields packed into one word: `lo` in the low half, `hi` in the
/// high half.
pub open spec fn pack_pair(lo: u64, hi: u64) -> u128 {
    (lo + hi * POW64) as u128
}

/// The low 64 bits of a word.
pub open spec fn lo_word(w: u128) -> u64 {
    (w % POW64) as u64
}

/// The high 64 bits of a word.
pub open spec fn hi_word(w: u128) -> u64 {
    (w / POW64) as u64
}

/// The base-256 digit of `w` at the position whose weight is `p`.
pub open spec fn byte_at(w: u128, p: u128) -> u8 {
    ((w / p) % 256) as u8
}

/// The order encoded by a pair of words and a side tag.
pub open spec fn unpack_order(c1: u128, c2: u128, tag: u8) -> Order {
    Order {
        order_id: lo_word(c1),
        amount: hi_word(c1),
        price: lo_word(c2),
        order_type: tag,
        timestamp: hi_word(c2),
    }
}

#[derive(Clone, Copy, PartialEq, Eq, Structural, Debug)]
pub struct OrderBookFlat {
    pub order_chunk1: u128,
    pub order_chunk2: u128,
    pub order_chunk3: u128,
    pub order_chunk4: u128,
    pub order_chunk5: u128,
    pub order_chunk6: u128,
    pub order_chunk7: u128,
    pub order_chunk8: u128,
    pub order_chunk9: u128,
    pub order_chunk10: u128,
    pub order_chunk11: u128,
    pub order_chunk12: u128,
    pub order_chunk13: u128,
    pub order_chunk14: u128,
    pub order_chunk15: u128,
    pub order_chunk16: u128,
    pub order_type_chunk: u128,
    pub order_count: u128,
}

/// The packed form of a book, word by word.
pub open spec fn spec_encode(b: OrderBook) -> OrderBookFlat {
    OrderBookFlat {
        order_chunk1: pack_pair(b.buy_orders@[0].order_id, b.buy_orders@[0].amount),
        order_chunk2: pack_pair(b.buy_orders@[0].price, b.buy_orders@[0].timestamp),
        order_chunk3: pack_pair(b.buy_orders@[1].order_id, b.buy_orders@[1].amount),
        order_chunk4: pack_pair(b.buy_orders@[1].price, b.buy_orders@[1].timestamp),
        order_chunk5: pack_pair(b.buy_orders@[2].order_id, b.buy_orders@[2].amount),
        order_chunk6: pack_pair(b.buy_orders@[2].price, b.buy_orders@[2].timestamp),
        order_chunk7: pack_pair(b.buy_orders@[3].order_id, b.buy_orders@[3].amount),
        order_chunk8: pack_pair(b.buy_orders@[3].price, b.buy_orders@[3].timestamp),
        order_chunk9: pack_pair(b.sell_orders@[0].order_id, b.sell_orders@[0].amount),
        order_chunk10: pack_pair(b.sell_orders@[0].price, b.sell_orders@[0].timestamp),
        order_chunk11: pack_pair(b.sell_orders@[1].order_id, b.sell_orders@[1].amount),
        order_chunk12: pack_pair(b.sell_orders@[1].price, b.sell_orders@[1].timestamp),
        order_chunk13: pack_pair(b.sell_orders@[2].order_id, b.sell_orders@[2].amount),
        order_chunk14: pack_pair(b.sell_orders@[2].price, b.sell_orders@[2].timestamp),
        order_chunk15: pack_pair(b.sell_orders@[3].order_id, b.sell_orders@[3].amount),
        order_chunk16: pack_pair(b.sell_orders@[3].price, b.sell_orders@[3].timestamp),
        order_type_chunk: (b.buy_orders@[0].order_type + b.buy_orders@[1].order_type * 256
            + b.buy_orders@[2].order_type * 65536 + b.buy_orders@[3].order_type * 16777216
            + b.sell_orders@[0].order_type * 4294967296 + b.sell_orders@[1].order_type
            * 1099511627776 + b.sell_orders@[2].order_type * 281474976710656
            + b.sell_orders@[3].order_type * 72057594037927936) as u128,
        order_count: (b.buy_count + b.sell_count * 256) as u128,
    }
}

/// The book encoded by a flat register, word by word.
pub open spec fn spec_decode(f: OrderBookFlat) -> OrderBook {
    OrderBook {
        buy_orders: [
            unpack_order(f.order_chunk1, f.order_chunk2, byte_at(f.order_type_chunk, 1)),
            unpack_order(f.order_chunk3, f.order_chunk4, byte_at(f.order_type_chunk, 256)),
            unpack_order(f.order_chunk5, f.order_chunk6, byte_at(f.order_type_chunk, 65536)),
            unpack_order(f.order_chunk7, f.order_chunk8, byte_at(f.order_type_chunk, 16777216)),
        ],
        buy_count: (f.order_count % 256) as u8,
        sell_orders: [
            unpack_order(f.order_chunk9, f.order_chunk10, byte_at(f.order_type_chunk, 4294967296)),
            unpack_order(
                f.order_chunk11,
                f.order_chunk12,
                byte_at(f.order_type_chunk, 1099511627776),
            ),
            unpack_order(
                f.order_chunk13,
                f.order_chunk14,
                byte_at(f.order_type_chunk, 281474976710656),
            ),
            unpack_order(
                f.order_chunk15,
                f.order_chunk16,
                byte_at(f.order_type_chunk, 72057594037927936),
            ),
        ],
        sell_count: ((f.order_count / 256) % 256) as u8,
    }
}

impl OrderBookFlat {
    /// The all-zero register.
    pub fn new() -> (r: Self)
        ensures
            r == (OrderBookFlat {
                order_chunk1: 0,
                order_chunk2: 0,
                order_chunk3: 0,
                order_chunk4: 0,
                order_chunk5: 0,
                order_chunk6: 0,
                order_chunk7: 0,
                order_chunk8: 0,
                order_chunk9: 0,
                order_chunk10: 0,
                order_chunk11: 0,
                order_chunk12: 0,
                order_chunk13: 0,
                order_chunk14: 0,
                order_chunk15: 0,
                order_chunk16: 0,
                order_type_chunk: 0,
                order_count: 0,
            }),
    {
        OrderBookFlat {
            order_chunk1: 0,
            order_chunk2: 0,
            order_chunk3: 0,
            order_chunk4: 0,
            order_chunk5: 0,
            order_chunk6: 0,
            order_chunk7: 0,
            order_chunk8: 0,
            order_chunk9: 0,
            order_chunk10: 0,
            order_chunk11: 0,
            order_chunk12: 0,
            order_chunk13: 0,
            order_chunk14: 0,
            order_chunk15: 0,
            order_chunk16: 0,
            order_type_chunk: 0,
            order_count: 0,
        }
    }

    /// Pack a book into its flat register form.
    pub fn from_orderbook(orderbook: OrderBook) -> (r: Self)
        ensures
            r == spec_encode(orderbook),
    {
        let order_chunk1: u128 = orderbook.buy_orders[0].order_id as u128
            + orderbook.buy_orders[0].amount as u128 * POW64;
        let order_chunk2: u128 = orderbook.buy_orders[0].price as u128
            + orderbook.buy_orders[0].timestamp as u128 * POW64;
        let order_chunk3: u128 = orderbook.buy_orders[1].order_id as u128
            + orderbook.buy_orders[1].amount as u128 * POW64;
        let order_chunk4: u128 = orderbook.buy_orders[1].price as u128
            + orderbook.buy_orders[1].timestamp as u128 * POW64;
        let order_chunk5: u128 = orderbook.buy_orders[2].order_id as u128
            + orderbook.buy_orders[2].amount as u128 * POW64;
        let order_chunk6: u128 = orderbook.buy_orders[2].price as u128
            + orderbook.buy_orders[2].timestamp as u128 * POW64;
        let order_chunk7: u128 = orderbook.buy_orders[3].order_id as u128
            + orderbook.buy_orders[3].amount as u128 * POW64;
        let order_chunk8: u128 = orderbook.buy_orders[3].price as u128
            + orderbook.buy_orders[3].timestamp as u128 * POW64;
        let order_chunk9: u128 = orderbook.sell_orders[0].order_id as u128
            + orderbook.sell_orders[0].amount as u128 * POW64;
        let order_chunk10: u128 = orderbook.sell_orders[0].price as u128
            + orderbook.sell_orders[0].timestamp as u128 * POW64;
        let order_chunk11: u128 = orderbook.sell_orders[1].order_id as u128
            + orderbook.sell_orders[1].amount as u128 * POW64;
        let order_chunk12: u128 = orderbook.sell_orders[1].price as u128
            + orderbook.sell_orders[1].timestamp as u128 * POW64;
        let order_chunk13: u128 = orderbook.sell_orders[2].order_id as u128
            + orderbook.sell_orders[2].amount as u128 * POW64;
        let order_chunk14: u128 = orderbook.sell_orders[2].price as u128
            + orderbook.sell_orders[2].timestamp as u128 * POW64;
        let order_chunk15: u128 = orderbook.sell_orders[3].order_id as u128
            + orderbook.sell_orders[3].amount as u128 * POW64;
        let order_chunk16: u128 = orderbook.sell_orders[3].price as u128
            + orderbook.sell_orders[3].timestamp as u128 * POW64;

        let order_type_chunk: u128 = orderbook.buy_orders[0].order_type as u128
            + orderbook.buy_orders[1].order_type as u128 * 256
            + orderbook.buy_orders[2].order_type as u128 * 65536
            + orderbook.buy_orders[3].order_type as u128 * 16777216
            + orderbook.sell_orders[0].order_type as u128 * 4294967296
            + orderbook.sell_orders[1].order_type as u128 * 1099511627776
            + orderbook.sell_orders[2].order_type as u128 * 281474976710656
            + orderbook.sell_orders[3].order_type as u128 * 72057594037927936;

        let order_count: u128 = orderbook.buy_count as u128 + orderbook.sell_count as u128 * 256;

        OrderBookFlat {
            order_chunk1,
            order_chunk2,
            order_chunk3,
            order_chunk4,
            order_chunk5,
            order_chunk6,
            order_chunk7,
            order_chunk8,
            order_chunk9,
            order_chunk10,
            order_chunk11,
            order_chunk12,
            order_chunk13,
            order_chunk14,
            order_chunk15,
            order_chunk16,
            order_type_chunk,
            order_count,
        }
    }

    /// Unpack a flat register into a book, counts included, so that slots
    /// beyond the restored counts are treated as non-live.
    pub fn to_orderbook(self) -> (r: OrderBook)
        ensures
            r == spec_decode(self),
    {
        let mut orderbook = OrderBook::new();

        orderbook.buy_orders[0] = Order {
            order_id: (self.order_chunk1 % POW64) as u64,
            amount: (self.order_chunk1 / POW64) as u64,
            price: (self.order_chunk2 % POW64) as u64,
            order_type: ((self.order_type_chunk / 1) % 256) as u8,
            timestamp: (self.order_chunk2 / POW64) as u64,
        };
        orderbook.buy_orders[1] = Order {
            order_id: (self.order_chunk3 % POW64) as u64,
            amount: (self.order_chunk3 / POW64) as u64,
            price: (self.order_chunk4 % POW64) as u64,
            order_type: ((self.order_type_chunk / 256) % 256) as u8,
            timestamp: (self.order_chunk4 / POW64) as u64,
        };
        orderbook.buy_orders[2] = Order {
            order_id: (self.order_chunk5 % POW64) as u64,
            amount: (self.order_chunk5 / POW64) as u64,
            price: (self.order_chunk6 % POW64) as u64,
            order_type: ((self.order_type_chunk / 65536) % 256) as u8,
            timestamp: (self.order_chunk6 / POW64) as u64,
        };
        orderbook.buy_orders[3] = Order {
            order_id: (self.order_chunk7 % POW64) as u64,
            amount: (self.order_chunk7 / POW64) as u64,
            price: (self.order_chunk8 % POW64) as u64,
            order_type: ((self.order_type_chunk / 16777216) % 256) as u8,
            timestamp: (self.order_chunk8 / POW64) as u64,
        };

        orderbook.sell_orders[0] = Order {
            order_id: (self.order_chunk9 % POW64) as u64,
            amount: (self.order_chunk9 / POW64) as u64,
            price: (self.order_chunk10 % POW64) as u64,
            order_type: ((self.order_type_chunk / 4294967296) % 256) as u8,
            timestamp: (self.order_chunk10 / POW64) as u64,
        };
        orderbook.sell_orders[1] = Order {
            order_id: (self.order_chunk11 % POW64) as u64,
            amount: (self.order_chunk11 / POW64) as u64,
            price: (self.order_chunk12 % POW64) as u64,
            order_type: ((self.order_type_chunk / 1099511627776) % 256) as u8,
            timestamp: (self.order_chunk12 / POW64) as u64,
        };
        orderbook.sell_orders[2] = Order {
            order_id: (self.order_chunk13 % POW64) as u64,
            amount: (self.order_chunk13 / POW64) as u64,
            price: (self.order_chunk14 % POW64) as u64,
            order_type: ((self.order_type_chunk / 281474976710656) % 256) as u8,
            timestamp: (self.order_chunk14 / POW64) as u64,
        };
        orderbook.sell_orders[3] = Order {
            order_id: (self.order_chunk15 % POW64) as u64,
            amount: (self.order_chunk15 / POW64) as u64,
            price: (self.order_chunk16 % POW64) as u64,
            order_type: ((self.order_type_chunk / 72057594037927936) % 256) as u8,
            timestamp: (self.order_chunk16 / POW64) as u64,
        };

        orderbook.buy_count = (self.order_count % 256) as u8;
        orderbook.sell_count = ((self.order_count / 256) % 256) as u8;

        proof {
            broadcast use vstd::array::group_array_axioms;

            assert(orderbook.buy_orders =~= spec_decode(self).buy_orders);
            assert(orderbook.sell_orders =~= spec_decode(self).sell_orders);
            assert(orderbook =~= spec_decode(self));
        }
        orderbook
    }
}

/// A packed pair of 64-bit fields is recovered exactly by the low/high
/// projections.
proof fn lemma_pack_unpack(lo: u64, hi: u64)
    ensures
        lo_word(pack_pair(lo, hi)) == lo,
        hi_word(pack_pair(lo, hi)) == hi,
{
    lemma_fundamental_div_mod_converse(lo + hi * (POW64 as int), POW64 as int, hi as int, lo as int);
}

/// Extracting the base-256 digit of weight `p` from a sum
/// `low + d * p + rest * 256 * p` with `low < p` recovers `d`.
proof fn lemma_digit_extract(low: int, d: int, rest: int, p: int)
    requires
        p > 0,
        0 <= low < p,
        0 <= d < 256,
        0 <= rest,
    ensures
        (low + d * p + rest * (256 * p)) / p % 256 == d,
{
    let w = low + d * p + rest * (256 * p);
    assert(low + d * p + rest * (256 * p) == (d + 256 * rest) * p + low) by (nonlinear_arith);
    lemma_fundamental_div_mod_converse(w, p, d + 256 * rest, low);
    lemma_fundamental_div_mod_converse(d + 256 * rest, 256, rest, d);
}

/// Round trip: decoding the encoding of any book gives the book back,
/// for every book, counts and side tags included.
pub proof fn lemma_round_trip(b: OrderBook)
    ensures
        spec_decode(spec_encode(b)) == b,
{
    let f = spec_encode(b);

    lemma_pack_unpack(b.buy_orders@[0].order_id, b.buy_orders@[0].amount);
    lemma_pack_unpack(b.buy_orders@[0].price, b.buy_orders@[0].timestamp);
    lemma_pack_unpack(b.buy_orders@[1].order_id, b.buy_orders@[1].amount);
    lemma_pack_unpack(b.buy_orders@[1].price, b.buy_orders@[1].timestamp);
    lemma_pack_unpack(b.buy_orders@[2].order_id, b.buy_orders@[2].amount);
    lemma_pack_unpack(b.buy_orders@[2].price, b.buy_orders@[2].timestamp);
    lemma_pack_unpack(b.buy_orders@[3].order_id, b.buy_orders@[3].amount);
    lemma_pack_unpack(b.buy_orders@[3].price, b.buy_orders@[3].timestamp);
    lemma_pack_unpack(b.sell_orders@[0].order_id, b.sell_orders@[0].amount);
    lemma_pack_unpack(b.sell_orders@[0].price, b.sell_orders@[0].timestamp);
    lemma_pack_unpack(b.sell_orders@[1].order_id, b.sell_orders@[1].amount);
    lemma_pack_unpack(b.sell_orders@[1].price, b.sell_orders@[1].timestamp);
    lemma_pack_unpack(b.sell_orders@[2].order_id, b.sell_orders@[2].amount);
    lemma_pack_unpack(b.sell_orders@[2].price, b.sell_orders@[2].timestamp);
    lemma_pack_unpack(b.sell_orders@[3].order_id, b.sell_orders@[3].amount);
    lemma_pack_unpack(b.sell_orders@[3].price, b.sell_orders@[3].timestamp);

    let t0 = b.buy_orders@[0].order_type as int;
    let t1 = b.buy_orders@[1].order_type as int;
    let t2 = b.buy_orders@[2].order_type as int;
    let t3 = b.buy_orders@[3].order_type as int;
    let t4 = b.sell_orders@[0].order_type as int;
    let t5 = b.sell_orders@[1].order_type as int;
    let t6 = b.sell_orders@[2].order_type as int;
    let t7 = b.sell_orders@[3].order_type as int;

    lemma_digit_extract(
        0,
        t0,
        t1 + t2 * 256 + t3 * 65536 + t4 * 16777216 + t5 * 4294967296 + t6 * 1099511627776 + t7
            * 281474976710656,
        1,
    );
    lemma_digit_extract(
        t0,
        t1,
        t2 + t3 * 256 + t4 * 65536 + t5 * 16777216 + t6 * 4294967296 + t7 * 1099511627776,
        256,
    );
    lemma_digit_extract(
        t0 + t1 * 256,
        t2,
        t3 + t4 * 256 + t5 * 65536 + t6 * 16777216 + t7 * 4294967296,
        65536,
    );
    lemma_digit_extract(
        t0 + t1 * 256 + t2 * 65536,
        t3,
        t4 + t5 * 256 + t6 * 65536 + t7 * 16777216,
        16777216,
    );
    lemma_digit_extract(
        t0 + t1 * 256 + t2 * 65536 + t3 * 16777216,
        t4,
        t5 + t6 * 256 + t7 * 65536,
        4294967296,
    );
    lemma_digit_extract(
        t0 + t1 * 256 + t2 * 65536 + t3 * 16777216 + t4 * 4294967296,
        t5,
        t6 + t7 * 256,
        1099511627776,
    );
    lemma_digit_extract(
        t0 + t1 * 256 + t2 * 65536 + t3 * 16777216 + t4 * 4294967296 + t5 * 1099511627776,
        t6,
        t7,
        281474976710656,
    );
    lemma_digit_extract(
        t0 + t1 * 256 + t2 * 65536 + t3 * 16777216 + t4 * 4294967296 + t5 * 1099511627776 + t6
            * 281474976710656,
        t7,
        0,
        72057594037927936,
    );

    lemma_fundamental_div_mod_converse(
        b.buy_count + b.sell_count * 256,
        256,
        b.sell_count as int,
        b.buy_count as int,
    );
    lemma_fundamental_div_mod_converse(b.sell_count as int, 256, 0, b.sell_count as int);

    broadcast use vstd::array::group_array_axioms;

    assert(spec_decode(f).buy_orders =~= b.buy_orders);
    assert(spec_decode(f).sell_orders =~= b.sell_orders);
    assert(spec_decode(f) =~= b);
}

/// The all-zero book packs to the all-zero register.
pub fn init_order_book() -> (r: OrderBookFlat)
    ensures
        r == spec_encode(
            OrderBook {
                buy_orders: [
                    Order { order_id: 0, amount: 0, price: 0, order_type: 0, timestamp: 0 },
                    Order { order_id: 0, amount: 0, price: 0, order_type: 0, timestamp: 0 },
                    Order { order_id: 0, amount: 0, price: 0, order_type: 0, timestamp: 0 },
                    Order { order_id: 0, amount: 0, price: 0, order_type: 0, timestamp: 0 },
                ],
                buy_count: 0,
                sell_orders: [
                    Order { order_id: 0, amount: 0, price: 0, order_type: 0, timestamp: 0 },
                    Order { order_id: 0, amount: 0, price: 0, order_type: 0, timestamp: 0 },
                    Order { order_id: 0, amount: 0, price: 0, order_type: 0, timestamp: 0 },
                    Order { order_id: 0, amount: 0, price: 0, order_type: 0, timestamp: 0 },
                ],
                sell_count: 0,
            },
        ),
        r == (OrderBookFlat {
            order_chunk1: 0,
            order_chunk2: 0,
            order_chunk3: 0,
            order_chunk4: 0,
            order_chunk5: 0,
            order_chunk6: 0,
            order_chunk7: 0,
            order_chunk8: 0,
            order_chunk9: 0,
            order_chunk10: 0,
            order_chunk11: 0,
            order_chunk12: 0,
            order_chunk13: 0,
            order_chunk14: 0,
            order_chunk15: 0,
            order_chunk16: 0,
            order_type_chunk: 0,
            order_count: 0,
        }),
{
    let order_book = OrderBook::new();
    let order_book_flat = OrderBookFlat::from_orderbook(order_book);
    proof {
        broadcast use vstd::array::group_array_axioms;
    }
    order_book_flat
}

} // verus!
