use ipredict::buy_position::buy_position;
use ipredict::constants::LAMPORTS_PER_SOL;
use ipredict::errors::IpredictError;
use ipredict::order_book::{Order, OrderBook, OrderSide, TokenType};
use ipredict::platform::initialize_platform;
use ipredict::user_position::UserPosition;
use ipredict::wager::{Resolution, ResolutionArbitrator, Wager, WagerStatus};

fn active_wager() -> Wager {
    Wager {
        creator: 9,
        name: b"market".to_vec(),
        description: b"a market".to_vec(),
        opening_time: 0,
        closing_time: 1_000,
        resolution_time: 2_000,
        status: WagerStatus::Active,
        resolution: Resolution::Pending,
        resolution_arbitrator: ResolutionArbitrator::Platform,
        payout_rate: 10_000_000,
        total_yes_tokens: 0,
        total_no_tokens: 0,
        total_sol_deposited: 0,
        total_volume_traded: 0,
        total_fees_collected: 0,
        wager_id: 0,
    }
}

fn bid(id: u64, owner: u64, token_type: TokenType, price: u64, quantity: u64) -> Order {
    Order {
        id,
        owner,
        side: OrderSide::Buy,
        token_type,
        price,
        quantity,
        filled_quantity: 0,
        timestamp: 0,
    }
}

#[test]
fn buy_position_sells_the_unwanted_side_under_the_best_bid() {
    let mut book = OrderBook::new();
    book.next_order_id = 1;
    // someone already bids 500 for 100 NO tokens
    book.add_order(bid(0, 3, TokenType::No, 500, 100)).unwrap();
    let mut wager = active_wager();
    let mut plat = initialize_platform(77);
    let mut pos = UserPosition::new(1, 0);
    // 2 whole coins mint 200 of each token; the 200 NO list at 499
    let rep = buy_position(
        &mut book,
        &mut wager,
        &mut plat,
        &mut pos,
        1,
        TokenType::Yes,
        2 * LAMPORTS_PER_SOL,
        10,
        10,
    )
    .unwrap();
    assert_eq!(rep.vault_deposit, 2 * LAMPORTS_PER_SOL);
    assert_eq!(rep.tokens_minted, 200);
    assert_eq!(rep.sell_order_id, Some(1));
    assert_eq!(rep.escrow_tokens, 200);
    // the bid crosses: 100 tokens at floor((500+499)/2) = 499
    let m = rep.matching.unwrap();
    assert_eq!(m.volume, 100 * 499);
    // fee = floor(49900*50/10000) = 249, platform = floor(249*25/50) = 124
    assert_eq!(m.fees, 249);
    assert_eq!(m.platform_fee, 124);
    assert_eq!(m.creator_fee, 125);
    // the bid is gone, half the listed tokens still rest
    assert!(book.buy_orders_no.is_empty());
    assert_eq!(book.sell_orders_no.len(), 1);
    assert_eq!(book.sell_orders_no[0].id, 1);
    assert_eq!(book.sell_orders_no[0].price, 499);
    assert_eq!(book.sell_orders_no[0].filled_quantity, 100);
    assert_eq!(book.next_order_id, 2);
    // totals: the deposit and the trade both landed
    assert_eq!(wager.total_yes_tokens, 200);
    assert_eq!(wager.total_no_tokens, 200);
    assert_eq!(wager.total_sol_deposited, 2 * LAMPORTS_PER_SOL);
    assert_eq!(wager.total_volume_traded, 100 * 499);
    assert_eq!(wager.total_fees_collected, 249);
    assert_eq!(pos.total_sol_deposited, 2 * LAMPORTS_PER_SOL);
    assert_eq!(pos.no_tokens_sold, 200);
}

#[test]
fn buy_position_without_a_bid_just_mints() {
    let mut book = OrderBook::new();
    let mut wager = active_wager();
    let mut plat = initialize_platform(77);
    let mut pos = UserPosition::new(1, 0);
    let rep = buy_position(
        &mut book,
        &mut wager,
        &mut plat,
        &mut pos,
        1,
        TokenType::Yes,
        LAMPORTS_PER_SOL,
        10,
        10,
    )
    .unwrap();
    assert_eq!(rep.tokens_minted, 100);
    assert_eq!(rep.sell_order_id, None);
    assert_eq!(rep.escrow_tokens, 0);
    assert!(rep.matching.is_none());
    assert!(book.sell_orders_no.is_empty());
    assert_eq!(wager.total_sol_deposited, LAMPORTS_PER_SOL);
}

#[test]
fn buy_position_tiny_deposit_mints_nothing_and_lists_nothing() {
    let mut book = OrderBook::new();
    book.next_order_id = 1;
    book.add_order(bid(0, 3, TokenType::No, 500, 100)).unwrap();
    let mut wager = active_wager();
    let mut plat = initialize_platform(77);
    let mut pos = UserPosition::new(1, 0);
    // below one token's worth of collateral
    let rep = buy_position(&mut book, &mut wager, &mut plat, &mut pos, 1, TokenType::Yes, 5, 10, 10)
        .unwrap();
    assert_eq!(rep.tokens_minted, 0);
    assert_eq!(rep.sell_order_id, None);
    assert_eq!(book.buy_orders_no.len(), 1);
}

#[test]
fn buy_position_requires_open_market() {
    let mut book = OrderBook::new();
    let mut wager = active_wager();
    let mut plat = initialize_platform(77);
    let mut pos = UserPosition::new(1, 0);
    let r = buy_position(
        &mut book,
        &mut wager,
        &mut plat,
        &mut pos,
        1,
        TokenType::Yes,
        LAMPORTS_PER_SOL,
        10,
        1_000,
    );
    assert_eq!(r.err(), Some(IpredictError::WagerNotOpen));
    assert_eq!(wager.total_sol_deposited, 0);
}

#[test]
fn buy_position_full_queue_rolls_everything_back() {
    let mut book = OrderBook::new();
    book.next_order_id = 2_000;
    book.add_order(bid(0, 3, TokenType::No, 500, 100)).unwrap();
    for i in 1..=1_000u64 {
        let sell = Order {
            id: i,
            owner: 3,
            side: OrderSide::Sell,
            token_type: TokenType::No,
            price: 600,
            quantity: 1,
            filled_quantity: 0,
            timestamp: 0,
        };
        book.add_order(sell).unwrap();
    }
    let mut wager = active_wager();
    let mut plat = initialize_platform(77);
    let mut pos = UserPosition::new(1, 0);
    let r = buy_position(
        &mut book,
        &mut wager,
        &mut plat,
        &mut pos,
        1,
        TokenType::Yes,
        2 * LAMPORTS_PER_SOL,
        10,
        10,
    );
    assert_eq!(r.err(), Some(IpredictError::OrderBookFull));
    // the deposit that preceded the failed placement was rolled back
    assert_eq!(wager.total_yes_tokens, 0);
    assert_eq!(wager.total_no_tokens, 0);
    assert_eq!(wager.total_sol_deposited, 0);
    assert_eq!(pos, UserPosition::new(1, 0));
    assert_eq!(book.sell_orders_no.len(), 1_000);
    assert_eq!(book.buy_orders_no.len(), 1);
    assert_eq!(book.next_order_id, 2_000);
}
