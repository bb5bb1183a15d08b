use ipredict::wager::{Resolution, ResolutionArbitrator, Wager, WagerStatus};

fn wager(status: WagerStatus) -> Wager {
    Wager {
        creator: 9,
        name: b"market".to_vec(),
        description: b"a market".to_vec(),
        opening_time: 100,
        closing_time: 200,
        resolution_time: 300,
        status,
        resolution: Resolution::Pending,
        resolution_arbitrator: ResolutionArbitrator::Platform,
        payout_rate: 10,
        total_yes_tokens: 0,
        total_no_tokens: 0,
        total_sol_deposited: 0,
        total_volume_traded: 0,
        total_fees_collected: 0,
        wager_id: 0,
    }
}

#[test]
fn is_open_needs_active_status_and_the_window() {
    let w = wager(WagerStatus::Active);
    assert!(!w.is_open(99));
    // the opening instant is in, the closing instant is out
    assert!(w.is_open(100));
    assert!(w.is_open(199));
    assert!(!w.is_open(200));
    assert!(!wager(WagerStatus::Created).is_open(150));
    assert!(!wager(WagerStatus::Resolved).is_open(150));
}

#[test]
fn is_resolvable_needs_active_status_and_the_resolution_time() {
    let w = wager(WagerStatus::Active);
    assert!(!w.is_resolvable(299));
    assert!(w.is_resolvable(300));
    assert!(w.is_resolvable(301));
    assert!(!wager(WagerStatus::Resolved).is_resolvable(300));
    assert!(!wager(WagerStatus::Created).is_resolvable(300));
}
