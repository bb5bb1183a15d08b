use ipredict::constants::{LAMPORTS_PER_SOL, WAGER_CREATION_FEE};
use ipredict::errors::IpredictError;
use ipredict::funding::{create_wager, deposit_and_mint, deposit_and_mint_simple, deposit_sol};
use ipredict::platform::initialize_platform;
use ipredict::user_position::UserPosition;
use ipredict::wager::{Resolution, ResolutionArbitrator, Wager, WagerStatus};

fn active_wager() -> Wager {
    Wager {
        creator: 9,
        name: b"market".to_vec(),
        description: b"a market".to_vec(),
        opening_time: 0,
        closing_time: 1_000,
        resolution_time: 2_000,
        status: WagerStatus::Active,
        resolution: Resolution::Pending,
        resolution_arbitrator: ResolutionArbitrator::Platform,
        payout_rate: 10_000_000,
        total_yes_tokens: 0,
        total_no_tokens: 0,
        total_sol_deposited: 0,
        total_volume_traded: 0,
        total_fees_collected: 0,
        wager_id: 0,
    }
}

#[test]
fn initialize_platform_sets_fixed_rates() {
    let plat = initialize_platform(77);
    assert_eq!(plat.authority, 77);
    assert_eq!(plat.fee_recipient, 77);
    assert_eq!(plat.total_wagers_created, 0);
    assert_eq!(plat.total_volume_traded, 0);
    assert_eq!(plat.total_fees_collected, 0);
    assert_eq!(plat.platform_fee_bps, 25);
    assert_eq!(plat.deployer_fee_bps, 25);
    assert_eq!(plat.wager_creation_fee, WAGER_CREATION_FEE);
}

#[test]
fn create_wager_initializes_market_and_charges_fee() {
    let mut plat = initialize_platform(77);
    let (wager, book, eff) = create_wager(
        &mut plat,
        9,
        b"will it rain".to_vec(),
        b"rain before friday".to_vec(),
        100,
        200,
        300,
        10,
        50,
    )
    .unwrap();
    assert_eq!(wager.creator, 9);
    assert_eq!(wager.opening_time, 100);
    assert_eq!(wager.closing_time, 200);
    assert_eq!(wager.resolution_time, 300);
    // opening lies ahead, so the market starts as Created
    assert_eq!(wager.status, WagerStatus::Created);
    assert_eq!(wager.resolution, Resolution::Pending);
    assert_eq!(wager.payout_rate, 10);
    assert_eq!(wager.wager_id, 0);
    assert_eq!(wager.total_sol_deposited, 0);
    assert_eq!(book.next_order_id, 0);
    assert!(book.buy_orders_yes.is_empty());
    assert!(book.sell_orders_no.is_empty());
    assert_eq!(eff.creation_fee, plat.wager_creation_fee);
    assert_eq!(plat.total_wagers_created, 1);
}

#[test]
fn create_wager_opening_now_is_active_immediately() {
    let mut plat = initialize_platform(77);
    let (wager, _, _) = create_wager(
        &mut plat,
        9,
        b"now".to_vec(),
        b"opens now".to_vec(),
        100,
        200,
        300,
        10,
        100,
    )
    .unwrap();
    assert_eq!(wager.status, WagerStatus::Active);
}

#[test]
fn create_wager_validates_lengths_and_times() {
    let mut plat = initialize_platform(77);
    let long_name = vec![b'x'; 201];
    let r = create_wager(&mut plat, 9, long_name, b"d".to_vec(), 100, 200, 300, 10, 50);
    assert_eq!(r.err(), Some(IpredictError::NameTooLong));
    let long_desc = vec![b'x'; 1001];
    let r = create_wager(&mut plat, 9, b"n".to_vec(), long_desc, 100, 200, 300, 10, 50);
    assert_eq!(r.err(), Some(IpredictError::DescriptionTooLong));
    // opening in the past
    let r = create_wager(&mut plat, 9, b"n".to_vec(), b"d".to_vec(), 40, 200, 300, 10, 50);
    assert_eq!(r.err(), Some(IpredictError::InvalidTimeParameters));
    // closing not after opening
    let r = create_wager(&mut plat, 9, b"n".to_vec(), b"d".to_vec(), 100, 100, 300, 10, 50);
    assert_eq!(r.err(), Some(IpredictError::InvalidTimeParameters));
    // resolution before closing
    let r = create_wager(&mut plat, 9, b"n".to_vec(), b"d".to_vec(), 100, 200, 199, 10, 50);
    assert_eq!(r.err(), Some(IpredictError::InvalidTimeParameters));
    assert_eq!(plat.total_wagers_created, 0);
}

#[test]
fn deposit_and_mint_mints_at_the_fixed_rate() {
    let mut wager = active_wager();
    let mut pos = UserPosition::new(1, 0);
    // 2.5 whole coins deposited: 2.5 * 100 = 250 tokens of each outcome
    let amount = 2 * LAMPORTS_PER_SOL + LAMPORTS_PER_SOL / 2;
    let eff = deposit_and_mint(&mut wager, &mut pos, amount, 10).unwrap();
    assert_eq!(eff.vault_deposit, amount);
    assert_eq!(eff.tokens_minted, 250);
    assert_eq!(wager.total_yes_tokens, 250);
    assert_eq!(wager.total_no_tokens, 250);
    assert_eq!(wager.total_sol_deposited, amount);
    assert_eq!(pos.total_sol_deposited, amount);
}

#[test]
fn deposit_and_mint_requires_open_market() {
    let mut wager = active_wager();
    let mut pos = UserPosition::new(1, 0);
    let r = deposit_and_mint(&mut wager, &mut pos, 1_000, 5_000);
    assert_eq!(r, Err(IpredictError::WagerNotOpen));
    assert_eq!(wager.total_sol_deposited, 0);
}

#[test]
fn deposit_and_mint_overflow_is_atomic() {
    let mut wager = active_wager();
    wager.total_sol_deposited = u64::MAX;
    let mut pos = UserPosition::new(1, 0);
    let r = deposit_and_mint(&mut wager, &mut pos, LAMPORTS_PER_SOL, 10);
    assert_eq!(r, Err(IpredictError::MathOverflow));
    // nothing was half-applied
    assert_eq!(wager.total_yes_tokens, 0);
    assert_eq!(wager.total_no_tokens, 0);
    assert_eq!(pos.total_sol_deposited, 0);
}

#[test]
fn deposit_sol_tracks_both_records() {
    let mut wager = active_wager();
    let mut pos = UserPosition::new(1, 0);
    deposit_sol(&mut wager, &mut pos, 500).unwrap();
    deposit_sol(&mut wager, &mut pos, 250).unwrap();
    assert_eq!(wager.total_sol_deposited, 750);
    assert_eq!(pos.total_sol_deposited, 750);
}

#[test]
fn deposit_sol_requires_an_active_market() {
    let mut pos = UserPosition::new(1, 0);
    let mut created = active_wager();
    created.status = WagerStatus::Created;
    let r = deposit_sol(&mut created, &mut pos, 1);
    assert_eq!(r, Err(IpredictError::WagerNotOpen));
    assert_eq!(created.status, WagerStatus::Created);
    assert_eq!(created.total_sol_deposited, 0);
    let mut resolved = active_wager();
    resolved.status = WagerStatus::Resolved;
    let r = deposit_sol(&mut resolved, &mut pos, 1);
    assert_eq!(r, Err(IpredictError::WagerNotOpen));
    assert_eq!(pos.total_sol_deposited, 0);
}

#[test]
fn deposit_and_mint_simple_tracks_market_only() {
    let mut wager = active_wager();
    deposit_and_mint_simple(&mut wager, 123, 10).unwrap();
    assert_eq!(wager.total_sol_deposited, 123);
    let r = deposit_and_mint_simple(&mut wager, 1, 1_000);
    assert_eq!(r, Err(IpredictError::WagerNotOpen));
    assert_eq!(wager.total_sol_deposited, 123);
}
