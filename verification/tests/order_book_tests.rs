use ipredict::errors::IpredictError;
use ipredict::order_book::{Order, OrderBook, OrderSide, TokenType};

fn order(id: u64, side: OrderSide, token_type: TokenType, price: u64, quantity: u64, ts: i64) -> Order {
    Order {
        id,
        owner: 1,
        side,
        token_type,
        price,
        quantity,
        filled_quantity: 0,
        timestamp: ts,
    }
}

fn book_with_ids(next: u64) -> OrderBook {
    let mut book = OrderBook::new();
    book.next_order_id = next;
    book
}

#[test]
fn buy_queue_is_price_descending_time_ascending() {
    let mut book = book_with_ids(10);
    book.add_order(order(0, OrderSide::Buy, TokenType::Yes, 500, 5, 30)).unwrap();
    book.add_order(order(1, OrderSide::Buy, TokenType::Yes, 700, 5, 20)).unwrap();
    book.add_order(order(2, OrderSide::Buy, TokenType::Yes, 600, 5, 10)).unwrap();
    book.add_order(order(3, OrderSide::Buy, TokenType::Yes, 700, 5, 5)).unwrap();
    book.add_order(order(4, OrderSide::Buy, TokenType::Yes, 700, 5, 20)).unwrap();
    let prices: Vec<u64> = book.buy_orders_yes.iter().map(|o| o.price).collect();
    assert_eq!(prices, vec![700, 700, 700, 600, 500]);
    // equal prices keep ascending timestamps, earlier order first
    let stamps: Vec<i64> = book.buy_orders_yes.iter().take(3).map(|o| o.timestamp).collect();
    assert_eq!(stamps, vec![5, 20, 20]);
    // among equal price and timestamp the earlier insertion stays first
    assert_eq!(book.buy_orders_yes[1].id, 1);
    assert_eq!(book.buy_orders_yes[2].id, 4);
}

#[test]
fn sell_queue_is_price_ascending_time_ascending() {
    let mut book = book_with_ids(10);
    book.add_order(order(0, OrderSide::Sell, TokenType::No, 500, 5, 30)).unwrap();
    book.add_order(order(1, OrderSide::Sell, TokenType::No, 300, 5, 20)).unwrap();
    book.add_order(order(2, OrderSide::Sell, TokenType::No, 500, 5, 10)).unwrap();
    book.add_order(order(3, OrderSide::Sell, TokenType::No, 400, 5, 40)).unwrap();
    let prices: Vec<u64> = book.sell_orders_no.iter().map(|o| o.price).collect();
    assert_eq!(prices, vec![300, 400, 500, 500]);
    assert_eq!(book.sell_orders_no[2].timestamp, 10);
    assert_eq!(book.sell_orders_no[3].timestamp, 30);
}

#[test]
fn queues_are_independent_per_side_and_token() {
    let mut book = book_with_ids(10);
    book.add_order(order(0, OrderSide::Buy, TokenType::Yes, 500, 5, 0)).unwrap();
    book.add_order(order(1, OrderSide::Sell, TokenType::Yes, 600, 5, 0)).unwrap();
    book.add_order(order(2, OrderSide::Buy, TokenType::No, 400, 5, 0)).unwrap();
    book.add_order(order(3, OrderSide::Sell, TokenType::No, 700, 5, 0)).unwrap();
    assert_eq!(book.buy_orders_yes.len(), 1);
    assert_eq!(book.sell_orders_yes.len(), 1);
    assert_eq!(book.buy_orders_no.len(), 1);
    assert_eq!(book.sell_orders_no.len(), 1);
}

#[test]
fn add_order_rejects_full_queue() {
    let mut book = book_with_ids(2000);
    for i in 0..1000u64 {
        book.add_order(order(i, OrderSide::Buy, TokenType::Yes, 500, 1, i as i64)).unwrap();
    }
    let r = book.add_order(order(1000, OrderSide::Buy, TokenType::Yes, 500, 1, 1000));
    assert_eq!(r, Err(IpredictError::OrderBookFull));
    assert_eq!(book.buy_orders_yes.len(), 1000);
    // the other queues are not affected by a full buy queue
    book.add_order(order(1001, OrderSide::Sell, TokenType::Yes, 500, 1, 1000)).unwrap();
}

#[test]
fn remove_order_returns_the_order_and_keeps_the_rest() {
    let mut book = book_with_ids(10);
    book.add_order(order(7, OrderSide::Sell, TokenType::Yes, 300, 5, 0)).unwrap();
    book.add_order(order(8, OrderSide::Sell, TokenType::Yes, 400, 6, 0)).unwrap();
    let removed = book.remove_order(7, OrderSide::Sell, TokenType::Yes).unwrap();
    assert_eq!(removed.id, 7);
    assert_eq!(removed.quantity, 5);
    assert_eq!(book.sell_orders_yes.len(), 1);
    assert_eq!(book.sell_orders_yes[0].id, 8);
}

#[test]
fn remove_order_unknown_id_fails() {
    let mut book = book_with_ids(10);
    book.add_order(order(7, OrderSide::Sell, TokenType::Yes, 300, 5, 0)).unwrap();
    let r = book.remove_order(9, OrderSide::Sell, TokenType::Yes);
    assert_eq!(r, Err(IpredictError::OrderNotFound));
    // the id rests in another queue only: the addressed queue decides
    let r = book.remove_order(7, OrderSide::Buy, TokenType::Yes);
    assert_eq!(r, Err(IpredictError::OrderNotFound));
    assert_eq!(book.sell_orders_yes.len(), 1);
}

#[test]
fn remaining_quantity_and_is_filled() {
    let mut o = order(0, OrderSide::Buy, TokenType::Yes, 500, 10, 0);
    assert_eq!(o.remaining_quantity(), 10);
    assert!(!o.is_filled());
    o.filled_quantity = 4;
    assert_eq!(o.remaining_quantity(), 6);
    assert!(!o.is_filled());
    o.filled_quantity = 10;
    assert_eq!(o.remaining_quantity(), 0);
    assert!(o.is_filled());
}
