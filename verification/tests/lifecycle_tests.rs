use ipredict::errors::IpredictError;
use ipredict::funding::{create_wager, deposit_and_mint};
use ipredict::matching::match_orders;
use ipredict::order_book::{OrderSide, TokenType};
use ipredict::platform::initialize_platform;
use ipredict::settlement::{claim_winnings, resolve_wager};
use ipredict::trading::place_order;
use ipredict::user_position::UserPosition;
use ipredict::wager::{Resolution, WagerStatus};

#[test]
fn market_lifecycle_from_creation_to_redemption() {
    let mut platform = initialize_platform(77);
    let (mut wager, mut book, fee) = create_wager(
        &mut platform,
        9,
        b"championship".to_vec(),
        b"team a beats team b".to_vec(),
        100,
        1_000,
        2_000,
        10,
        100,
    )
    .unwrap();
    assert_eq!(fee.creation_fee, platform.wager_creation_fee);
    assert_eq!(wager.status, WagerStatus::Active);

    // both traders deposit collateral and receive complementary pairs
    let mut alice = UserPosition::new(1, wager.wager_id);
    let mut bob = UserPosition::new(2, wager.wager_id);
    let minted = deposit_and_mint(&mut wager, &mut alice, 1_000_000_000, 150).unwrap();
    assert_eq!(minted.tokens_minted, 100);
    deposit_and_mint(&mut wager, &mut bob, 1_000_000_000, 150).unwrap();

    // bob offers 40 YES at 500; alice bids 30 YES at 600
    let sell = place_order(
        &wager, &mut book, &mut bob, 2, 100, 0, OrderSide::Sell, TokenType::Yes, 500, 40, 200,
    )
    .unwrap();
    assert_eq!(sell.escrow_tokens, 40);
    place_order(
        &wager, &mut book, &mut alice, 1, 0, 50_000, OrderSide::Buy, TokenType::Yes, 600, 30, 201,
    )
    .unwrap();

    // the orders cross: 30 tokens at the truncated midpoint 550
    let report = match_orders(&mut book, &mut wager, &mut platform, 10).unwrap();
    assert_eq!(report.volume, 30 * 550);
    assert_eq!(report.platform_fee + report.creator_fee, report.fees);
    assert!(book.buy_orders_yes.is_empty());
    assert_eq!(book.sell_orders_yes[0].filled_quantity, 30);
    assert_eq!(wager.total_volume_traded, 30 * 550);

    // trading is over; the authority resolves YES once the time comes
    let too_early = resolve_wager(&mut wager, &platform, 77, Resolution::YesWon, 1_500);
    assert_eq!(too_early, Err(IpredictError::WagerNotResolvable));
    resolve_wager(&mut wager, &platform, 77, Resolution::YesWon, 2_000).unwrap();

    // alice holds her minted 100 plus the 30 she bought
    let eff = claim_winnings(&wager, &mut alice, 130, 100, u64::MAX).unwrap();
    assert_eq!(eff.payout, 1_300);
    assert_eq!(eff.burn_yes, 130);
    assert_eq!(eff.burn_no, 0);
    assert!(alice.winnings_claimed);

    // and cannot claim twice
    let again = claim_winnings(&wager, &mut alice, 0, 100, u64::MAX);
    assert_eq!(again, Err(IpredictError::Unauthorized));
}
