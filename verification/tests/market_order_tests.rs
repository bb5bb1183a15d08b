use ipredict::errors::IpredictError;
use ipredict::market_order::quick_buy;
use ipredict::order_book::{Order, OrderBook, OrderSide, TokenType};
use ipredict::platform::{initialize_platform, Platform};
use ipredict::user_position::UserPosition;
use ipredict::wager::{Resolution, ResolutionArbitrator, Wager, WagerStatus};

fn sell(id: u64, token_type: TokenType, price: u64, quantity: u64, ts: i64) -> Order {
    Order {
        id,
        owner: 2,
        side: OrderSide::Sell,
        token_type,
        price,
        quantity,
        filled_quantity: 0,
        timestamp: ts,
    }
}

fn active_wager() -> Wager {
    Wager {
        creator: 9,
        name: b"market".to_vec(),
        description: b"a market".to_vec(),
        opening_time: 0,
        closing_time: 1_000,
        resolution_time: 2_000,
        status: WagerStatus::Active,
        resolution: Resolution::Pending,
        resolution_arbitrator: ResolutionArbitrator::Platform,
        payout_rate: 10_000_000,
        total_yes_tokens: 0,
        total_no_tokens: 0,
        total_sol_deposited: 0,
        total_volume_traded: 0,
        total_fees_collected: 0,
        wager_id: 0,
    }
}

fn fresh_position() -> UserPosition {
    UserPosition::new(1, 0)
}

#[test]
fn quick_buy_sweeps_cheapest_first() {
    let mut book = OrderBook::new();
    book.next_order_id = 3;
    book.add_order(sell(0, TokenType::Yes, 300, 4, 0)).unwrap();
    book.add_order(sell(1, TokenType::Yes, 200, 3, 0)).unwrap();
    book.add_order(sell(2, TokenType::Yes, 400, 10, 0)).unwrap();
    let mut wager = active_wager();
    let mut plat = initialize_platform(77);
    let mut pos = fresh_position();
    // budget 2000: 3 @ 200 = 600, 4 @ 300 = 1200, then 200 / 400 = 0 affordable
    let rep = quick_buy(&mut book, &mut wager, &mut plat, &mut pos, TokenType::Yes, 2000, 7, 10)
        .unwrap();
    assert_eq!(rep.tokens_bought, 7);
    assert_eq!(rep.spent, 1800);
    // fee per fill: floor(600*50/10000) = 3 and floor(1200*50/10000) = 6
    assert_eq!(rep.fees, 9);
    // platform share per fill: floor(3*25/50) = 1 and floor(6*25/50) = 3
    assert_eq!(rep.platform_fee, 4);
    assert_eq!(rep.creator_fee, 5);
    // the two consumed orders left; the unaffordable one rests untouched
    assert_eq!(book.sell_orders_yes.len(), 1);
    assert_eq!(book.sell_orders_yes[0].id, 2);
    assert_eq!(book.sell_orders_yes[0].filled_quantity, 0);
    assert_eq!(pos.yes_tokens_bought, 7);
    assert_eq!(wager.total_volume_traded, 1800);
    assert_eq!(wager.total_fees_collected, 9);
    assert_eq!(plat.total_volume_traded, 1800);
}

#[test]
fn quick_buy_partial_fill_rests_updated() {
    let mut book = OrderBook::new();
    book.next_order_id = 1;
    book.add_order(sell(0, TokenType::No, 100, 10, 0)).unwrap();
    let mut wager = active_wager();
    let mut plat = initialize_platform(77);
    let mut pos = fresh_position();
    let rep = quick_buy(&mut book, &mut wager, &mut plat, &mut pos, TokenType::No, 350, 0, 10)
        .unwrap();
    assert_eq!(rep.tokens_bought, 3);
    assert_eq!(rep.spent, 300);
    assert_eq!(book.sell_orders_no.len(), 1);
    assert_eq!(book.sell_orders_no[0].filled_quantity, 3);
    assert_eq!(pos.no_tokens_bought, 3);
    // unspent budget is never charged
    assert_eq!(wager.total_volume_traded, 300);
}

#[test]
fn quick_buy_slippage_guard_is_atomic() {
    let mut book = OrderBook::new();
    book.next_order_id = 2;
    book.add_order(sell(0, TokenType::Yes, 300, 4, 0)).unwrap();
    book.add_order(sell(1, TokenType::Yes, 200, 3, 0)).unwrap();
    let mut wager = active_wager();
    let mut plat = initialize_platform(77);
    let mut pos = fresh_position();
    let sells_before = book.sell_orders_yes.clone();
    let wager_volume_before = wager.total_volume_traded;
    // the budget can only reach 7 tokens; demanding 8 must change nothing
    let r = quick_buy(&mut book, &mut wager, &mut plat, &mut pos, TokenType::Yes, 2000, 8, 10);
    assert_eq!(r, Err(IpredictError::SlippageExceeded));
    assert_eq!(book.sell_orders_yes, sells_before);
    assert_eq!(wager.total_volume_traded, wager_volume_before);
    assert_eq!(wager.total_fees_collected, 0);
    assert_eq!(plat.total_volume_traded, 0);
    assert_eq!(pos.yes_tokens_bought, 0);
    assert_eq!(pos, fresh_position());
}

#[test]
fn quick_buy_requires_open_market() {
    let mut book = OrderBook::new();
    book.next_order_id = 1;
    book.add_order(sell(0, TokenType::Yes, 300, 4, 0)).unwrap();
    let mut wager = active_wager();
    let mut plat = initialize_platform(77);
    let mut pos = fresh_position();
    // past the closing time
    let r = quick_buy(&mut book, &mut wager, &mut plat, &mut pos, TokenType::Yes, 2000, 0, 1_000);
    assert_eq!(r, Err(IpredictError::WagerNotOpen));
    assert_eq!(book.sell_orders_yes.len(), 1);
}

#[test]
fn quick_buy_empty_queue_zero_minimum_succeeds_with_nothing() {
    let mut book = OrderBook::new();
    let mut wager = active_wager();
    let mut plat = initialize_platform(77);
    let mut pos = fresh_position();
    let rep = quick_buy(&mut book, &mut wager, &mut plat, &mut pos, TokenType::Yes, 2000, 0, 10)
        .unwrap();
    assert_eq!(rep.tokens_bought, 0);
    assert_eq!(rep.spent, 0);
    assert_eq!(rep.fees, 0);
}

#[test]
fn quick_buy_fee_overflow_is_reported() {
    let mut book = OrderBook::new();
    book.next_order_id = 1;
    book.add_order(sell(0, TokenType::Yes, 1, u64::MAX, 0)).unwrap();
    let mut wager = active_wager();
    let mut plat = initialize_platform(77);
    let mut pos = fresh_position();
    // cost = u64::MAX at price 1; scaling it by the fee rate overflows
    let r = quick_buy(
        &mut book,
        &mut wager,
        &mut plat,
        &mut pos,
        TokenType::Yes,
        u64::MAX,
        0,
        10,
    );
    assert_eq!(r, Err(IpredictError::MathOverflow));
    assert_eq!(book.sell_orders_yes[0].filled_quantity, 0);
    assert_eq!(pos.yes_tokens_bought, 0);
}
