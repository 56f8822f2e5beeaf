use matching_engine::init_order_book;
use matching_engine::init_user_ledger;
use matching_engine::match_orders;
use matching_engine::submit_order;
use matching_engine::update_ledger_deposit;
use matching_engine::Balances;
use matching_engine::UserSensitiveData;

fn balances(base_total: u64, base_available: u64, quote_total: u64, quote_available: u64) -> Balances {
    Balances { base_total, base_available, quote_total, quote_available }
}

#[test]
fn insufficient_quote_rejects_buy_and_mutates_nothing() {
    let ledger = balances(0, 0, 50, 50);
    let book = init_order_book();

    let (book_after, ledger_after, status, success) = submit_order(
        UserSensitiveData { amount: 10, price: 10 },
        ledger,
        book,
        1,
        0,
        100,
    );

    assert!(!success);
    assert_eq!(status.status, 5);
    assert_eq!(status.locked_amount, 0);
    assert_eq!(status.amount, 10);
    assert_eq!(status.price, 10);
    assert_eq!(ledger_after, ledger);
    assert_eq!(book_after, book);
}

#[test]
fn accepted_buy_locks_quote_and_rests_in_book() {
    let ledger = balances(0, 0, 200, 200);
    let book = init_order_book();

    let (book_after, ledger_after, status, success) = submit_order(
        UserSensitiveData { amount: 10, price: 10 },
        ledger,
        book,
        1,
        0,
        100,
    );

    assert!(success);
    assert_eq!(status.status, 1);
    assert_eq!(status.locked_amount, 100);
    assert_eq!(status.filled_amount, 0);
    assert_eq!(ledger_after, balances(0, 0, 200, 100));

    let mut decoded = book_after.to_orderbook();
    assert_eq!(decoded.buy_count, 1);
    let resting = decoded.pop_buy();
    assert_eq!(resting.order_id, 1);
    assert_eq!(resting.amount, 10);
    assert_eq!(resting.price, 10);
    assert_eq!(resting.order_type, 0);
    assert_eq!(resting.timestamp, 100);
}

#[test]
fn accepted_sell_locks_base_amount() {
    let ledger = balances(30, 30, 0, 0);
    let book = init_order_book();

    let (book_after, ledger_after, status, success) = submit_order(
        UserSensitiveData { amount: 12, price: 99 },
        ledger,
        book,
        2,
        1,
        101,
    );

    assert!(success);
    assert_eq!(status.status, 1);
    assert_eq!(status.locked_amount, 12);
    assert_eq!(ledger_after, balances(30, 18, 0, 0));
    assert_eq!(book_after.to_orderbook().sell_count, 1);
}

#[test]
fn insufficient_base_rejects_sell() {
    let ledger = balances(10, 5, 0, 0);
    let book = init_order_book();

    let (book_after, ledger_after, status, success) = submit_order(
        UserSensitiveData { amount: 6, price: 99 },
        ledger,
        book,
        2,
        1,
        101,
    );

    assert!(!success);
    assert_eq!(status.status, 5);
    assert_eq!(ledger_after, ledger);
    assert_eq!(book_after, book);
}

#[test]
fn full_side_rejects_with_capacity_status() {
    let mut ledger = balances(0, 0, 1000, 1000);
    let mut book = init_order_book();

    for i in 0..4u64 {
        let (b, l, status, success) = submit_order(
            UserSensitiveData { amount: 1, price: 10 },
            ledger,
            book,
            i,
            0,
            i,
        );
        assert!(success);
        assert_eq!(status.status, 1);
        book = b;
        ledger = l;
    }
    assert_eq!(ledger.quote_available, 960);

    let (book_after, ledger_after, status, success) = submit_order(
        UserSensitiveData { amount: 1, price: 10 },
        ledger,
        book,
        9,
        0,
        9,
    );

    assert!(!success);
    assert_eq!(status.status, 2);
    assert_eq!(status.locked_amount, 0);
    assert_eq!(ledger_after, ledger);
    assert_eq!(book_after.to_orderbook(), book.to_orderbook());
}

#[test]
fn submitted_orders_match_end_to_end() {
    let buyer_ledger = update_ledger_deposit(init_user_ledger(), 1000, 1);
    let seller_ledger = update_ledger_deposit(init_user_ledger(), 50, 0);
    let book = init_order_book();

    let (book, _buyer_ledger, _, success) = submit_order(
        UserSensitiveData { amount: 5, price: 100 },
        buyer_ledger,
        book,
        1,
        0,
        1,
    );
    assert!(success);

    let (book, _seller_ledger, _, success) = submit_order(
        UserSensitiveData { amount: 3, price: 90 },
        seller_ledger,
        book,
        2,
        1,
        2,
    );
    assert!(success);

    let (book, result, count) = match_orders(book);
    assert_eq!(count, 1);
    assert_eq!(result.matches[0].quantity, 3);
    assert_eq!(result.matches[0].execution_price, 95);
    let decoded = book.to_orderbook();
    assert_eq!(decoded.buy_count, 1);
    assert_eq!(decoded.sell_count, 0);
}
