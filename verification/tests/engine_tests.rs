use matching_engine::match_orders;
use matching_engine::MatchResult;
use matching_engine::MatchedOrder;
use matching_engine::Order;
use matching_engine::OrderBook;
use matching_engine::OrderBookFlat;

fn order(order_id: u64, amount: u64, price: u64, order_type: u8, timestamp: u64) -> Order {
    Order { order_id, amount, price, order_type, timestamp }
}

fn empty_match() -> MatchedOrder {
    MatchedOrder { match_id: 0, buyer_order_id: 0, seller_order_id: 0, quantity: 0, execution_price: 0 }
}

#[test]
fn matched_order_empty_is_zeroed() {
    assert_eq!(MatchedOrder::empty(), empty_match());
}

#[test]
fn match_result_empty_and_set_match() {
    let mut result = MatchResult::empty();
    assert_eq!(result.num_matches, 0);
    for i in 0..4 {
        assert_eq!(result.matches[i], empty_match());
    }
    let mo = MatchedOrder {
        match_id: 0,
        buyer_order_id: 7,
        seller_order_id: 8,
        quantity: 3,
        execution_price: 95,
    };
    result.set_match(2, mo);
    assert_eq!(result.matches[2], mo);
    assert_eq!(result.matches[0], empty_match());
    assert_eq!(result.num_matches, 0);
}

#[test]
fn set_match_out_of_range_is_ignored() {
    let mut result = MatchResult::empty();
    let mo = MatchedOrder {
        match_id: 1,
        buyer_order_id: 2,
        seller_order_id: 3,
        quantity: 4,
        execution_price: 5,
    };
    result.set_match(4, mo);
    result.set_match(200, mo);
    assert_eq!(result, MatchResult::empty());
}

#[test]
fn single_cross_fills_min_amount_at_mean_price() {
    let mut book = OrderBook::new();
    assert!(book.insert_buy(order(1, 5, 100, 0, 1)));
    assert!(book.insert_sell(order(2, 3, 90, 1, 2)));
    let flat = OrderBookFlat::from_orderbook(book);

    let (flat_after, result, count) = match_orders(flat);

    assert_eq!(count, 1);
    assert_eq!(result.num_matches, 1);
    let m = result.matches[0];
    assert_eq!(m.match_id, 0);
    assert_eq!(m.buyer_order_id, 1);
    assert_eq!(m.seller_order_id, 2);
    assert_eq!(m.quantity, 3);
    assert_eq!(m.execution_price, 95);
    for i in 1..4 {
        assert_eq!(result.matches[i], empty_match());
    }

    let mut after = flat_after.to_orderbook();
    assert!(after.has_buy());
    assert!(!after.has_sell());
    let residual = after.pop_buy();
    assert_eq!(residual.order_id, 1);
    assert_eq!(residual.amount, 2);
    assert_eq!(residual.price, 100);
}

#[test]
fn no_cross_leaves_book_unchanged() {
    let mut book = OrderBook::new();
    assert!(book.insert_buy(order(1, 5, 80, 0, 1)));
    assert!(book.insert_sell(order(2, 5, 90, 1, 2)));
    let flat = OrderBookFlat::from_orderbook(book);

    let (flat_after, result, count) = match_orders(flat);

    assert_eq!(count, 0);
    assert_eq!(result.num_matches, 0);
    assert_eq!(flat_after.to_orderbook(), book);
}

#[test]
fn empty_book_matches_nothing() {
    let flat = OrderBookFlat::from_orderbook(OrderBook::new());
    let (flat_after, result, count) = match_orders(flat);
    assert_eq!(count, 0);
    assert_eq!(result.num_matches, 0);
    assert_eq!(flat_after.to_orderbook(), OrderBook::new());
}

#[test]
fn batch_produces_sequential_match_ids() {
    let mut book = OrderBook::new();
    assert!(book.insert_buy(order(1, 2, 100, 0, 1)));
    assert!(book.insert_buy(order(2, 2, 99, 0, 2)));
    assert!(book.insert_sell(order(3, 2, 90, 1, 3)));
    assert!(book.insert_sell(order(4, 2, 91, 1, 4)));
    let flat = OrderBookFlat::from_orderbook(book);

    let (flat_after, result, count) = match_orders(flat);

    assert_eq!(count, 2);
    assert_eq!(result.matches[0].match_id, 0);
    assert_eq!(result.matches[1].match_id, 1);
    // Best bid matches the cheapest ask first.
    assert_eq!(result.matches[0].buyer_order_id, 1);
    assert_eq!(result.matches[0].seller_order_id, 3);
    assert_eq!(result.matches[1].buyer_order_id, 2);
    assert_eq!(result.matches[1].seller_order_id, 4);

    let after = flat_after.to_orderbook();
    assert!(!after.has_buy());
    assert!(!after.has_sell());
}

#[test]
fn batch_never_exceeds_four_matches() {
    let mut book = OrderBook::new();
    for i in 0..4u64 {
        assert!(book.insert_buy(order(i, 1, 100, 0, i)));
        assert!(book.insert_sell(order(10 + i, 1, 90, 1, i)));
    }
    let flat = OrderBookFlat::from_orderbook(book);

    let (flat_after, result, count) = match_orders(flat);

    assert_eq!(count, 4);
    assert_eq!(result.num_matches, 4);
    for i in 0..4 {
        assert_eq!(result.matches[i].match_id, i as u64);
        assert_eq!(result.matches[i].quantity, 1);
        assert_eq!(result.matches[i].execution_price, 95);
    }
    let after = flat_after.to_orderbook();
    assert!(!after.has_buy());
    assert!(!after.has_sell());
}

#[test]
fn budget_stops_batch_even_when_book_still_crosses() {
    let mut book = OrderBook::new();
    // One large bid with the earliest timestamp keeps top priority while
    // three small asks are consumed; the fourth match consumes the bid
    // against a large ask, whose residual still crosses the small bids.
    assert!(book.insert_buy(order(1, 100, 100, 0, 0)));
    assert!(book.insert_buy(order(2, 1, 100, 0, 4)));
    assert!(book.insert_buy(order(3, 1, 100, 0, 5)));
    assert!(book.insert_buy(order(4, 1, 100, 0, 6)));
    assert!(book.insert_sell(order(11, 1, 90, 1, 1)));
    assert!(book.insert_sell(order(12, 1, 90, 1, 2)));
    assert!(book.insert_sell(order(13, 1, 90, 1, 3)));
    assert!(book.insert_sell(order(14, 100, 90, 1, 9)));
    let flat = OrderBookFlat::from_orderbook(book);

    let (flat_after, result, count) = match_orders(flat);

    assert_eq!(count, 4);
    assert_eq!(result.num_matches, 4);
    assert_eq!(result.matches[3].quantity, 97);
    let after = flat_after.to_orderbook();
    // The budget is exhausted with the top of book still crossing.
    assert!(after.has_buy());
    assert!(after.has_sell());
    assert!(after.peek_buy().price >= after.peek_sell().price);
    assert_eq!(after.peek_sell().amount, 3);
}

#[test]
fn partial_fill_on_seller_side_reenters_book() {
    let mut book = OrderBook::new();
    assert!(book.insert_buy(order(1, 3, 100, 0, 1)));
    assert!(book.insert_sell(order(2, 10, 100, 1, 2)));
    let flat = OrderBookFlat::from_orderbook(book);

    let (flat_after, result, count) = match_orders(flat);

    assert_eq!(count, 1);
    assert_eq!(result.matches[0].quantity, 3);
    assert_eq!(result.matches[0].execution_price, 100);

    let mut after = flat_after.to_orderbook();
    assert!(!after.has_buy());
    assert!(after.has_sell());
    let residual = after.pop_sell();
    assert_eq!(residual.order_id, 2);
    assert_eq!(residual.amount, 7);
}

#[test]
fn matched_quantity_is_conserved() {
    let mut book = OrderBook::new();
    assert!(book.insert_buy(order(1, 5, 100, 0, 1)));
    assert!(book.insert_buy(order(2, 4, 98, 0, 2)));
    assert!(book.insert_sell(order(3, 6, 95, 1, 3)));
    let flat = OrderBookFlat::from_orderbook(book);

    let (flat_after, result, count) = match_orders(flat);

    let after = flat_after.to_orderbook();
    let filled: u64 = (0..count as usize).map(|i| result.matches[i].quantity).sum();
    let bids_before: u64 = 5 + 4;
    let asks_before: u64 = 6;
    let bids_after: u64 =
        (0..after.buy_count as usize).map(|i| after.buy_orders[i].amount).sum();
    let asks_after: u64 =
        (0..after.sell_count as usize).map(|i| after.sell_orders[i].amount).sum();
    assert_eq!(bids_after + filled, bids_before);
    assert_eq!(asks_after + filled, asks_before);
}
