use matching_engine::init_order_book;
use matching_engine::Order;
use matching_engine::OrderBook;
use matching_engine::OrderBookFlat;

const POW64: u128 = 18446744073709551616;

fn order(order_id: u64, amount: u64, price: u64, order_type: u8, timestamp: u64) -> Order {
    Order { order_id, amount, price, order_type, timestamp }
}

#[test]
fn init_order_book_is_all_zero() {
    let flat = init_order_book();
    assert_eq!(flat, OrderBookFlat::new());
    assert_eq!(flat.order_chunk1, 0);
    assert_eq!(flat.order_chunk16, 0);
    assert_eq!(flat.order_type_chunk, 0);
    assert_eq!(flat.order_count, 0);
    let book = flat.to_orderbook();
    assert_eq!(book, OrderBook::new());
}

#[test]
fn packing_formulas_are_bit_exact() {
    let mut book = OrderBook::new();
    assert!(book.insert_buy(order(7, 9, 11, 0, 13)));
    assert!(book.insert_sell(order(1, 2, 3, 1, 4)));
    let flat = OrderBookFlat::from_orderbook(book);

    // First bid slot: order_id in the low word, amount in the high word,
    // then price and timestamp in the next chunk.
    assert_eq!(flat.order_chunk1, 7 + 9 * POW64);
    assert_eq!(flat.order_chunk2, 11 + 13 * POW64);
    // First ask slot occupies chunks nine and ten.
    assert_eq!(flat.order_chunk9, 1 + 2 * POW64);
    assert_eq!(flat.order_chunk10, 3 + 4 * POW64);
    // Side tags in base-256 positions: bid slots 0..4, ask slots 4..8.
    assert_eq!(flat.order_type_chunk, 1 * 256u128.pow(4));
    // Counts word: buy_count + sell_count * 256.
    assert_eq!(flat.order_count, 1 + 1 * 256);
}

#[test]
fn large_values_pack_exactly() {
    let mut book = OrderBook::new();
    let big = u64::MAX;
    assert!(book.insert_buy(order(big, big, big, 0, big)));
    let flat = OrderBookFlat::from_orderbook(book);
    assert_eq!(flat.order_chunk1, big as u128 + big as u128 * POW64);
    let decoded = flat.to_orderbook();
    assert_eq!(decoded.buy_orders[0], order(big, big, big, 0, big));
}

#[test]
fn round_trip_restores_the_book() {
    let mut book = OrderBook::new();
    assert!(book.insert_buy(order(1, 5, 50, 0, 10)));
    assert!(book.insert_buy(order(2, 6, 70, 0, 11)));
    assert!(book.insert_sell(order(3, 7, 90, 1, 12)));
    let decoded = OrderBookFlat::from_orderbook(book).to_orderbook();
    assert_eq!(decoded, book);
}

#[test]
fn round_trip_restores_a_full_book() {
    let mut book = OrderBook::new();
    for i in 0..4u64 {
        assert!(book.insert_buy(order(i, i + 1, 100 + i, 0, i)));
        assert!(book.insert_sell(order(10 + i, i + 2, 200 + i, 1, i)));
    }
    let decoded = OrderBookFlat::from_orderbook(book).to_orderbook();
    assert_eq!(decoded, book);
}

#[test]
fn decode_restores_counts() {
    let mut book = OrderBook::new();
    assert!(book.insert_buy(order(1, 5, 50, 0, 10)));
    assert!(book.insert_buy(order(2, 5, 60, 0, 11)));
    assert!(book.insert_sell(order(3, 5, 90, 1, 12)));
    let decoded = OrderBookFlat::from_orderbook(book).to_orderbook();
    assert_eq!(decoded.buy_count, 2);
    assert_eq!(decoded.sell_count, 1);
    assert!(decoded.has_buy());
    assert!(decoded.has_sell());
}

#[test]
fn round_trip_keeps_stale_slots_beyond_counts() {
    let mut book = OrderBook::new();
    assert!(book.insert_buy(order(1, 5, 50, 0, 10)));
    let popped = book.pop_buy();
    assert_eq!(popped.order_id, 1);
    // The popped entry is stale but still sits in the array; the codec
    // carries it through bit-exactly while the count marks it non-live.
    let decoded = OrderBookFlat::from_orderbook(book).to_orderbook();
    assert_eq!(decoded, book);
    assert_eq!(decoded.buy_count, 0);
}
