use vstd::prelude::*;

verus! {

/// Lifecycle of a market: created, then active once its opening time has
/// been reached, then resolved exactly once.
#[derive(Clone, Copy, Debug, PartialEq, Eq, Structural)]
pub enum WagerStatus {
    Created,
    Active,
    Resolved,
}

/// Outcome of a resolved market.  `Pending` is never left standing after
/// resolution.
#[derive(Clone, Copy, Debug, PartialEq, Eq, Structural)]
pub enum Resolution {
    Pending,
    YesWon,
    NoWon,
    Draw,
}

/// Who settles the market's outcome.
#[derive(Clone, Copy, Debug, PartialEq, Eq, Structural)]
pub enum ResolutionArbitrator {
    Platform,
    AI,
    DAO,
}

/// Mathematical image of a market record.
#[verifier::ext_equal]
pub struct WagerView {
    pub creator: u64,
    pub name: Seq<u8>,
    pub description: Seq<u8>,
    pub opening_time: i64,
    pub closing_time: i64,
    pub resolution_time: i64,
    pub status: WagerStatus,
    pub resolution: Resolution,
    pub resolution_arbitrator: ResolutionArbitrator,
    pub payout_rate: u64,
    pub total_yes_tokens: u64,
    pub total_no_tokens: u64,
    pub total_sol_deposited: u64,
    pub total_volume_traded: u64,
    pub total_fees_collected: u64,
    pub wager_id: u64,
}

/// One market: its terms, lifecycle state, and running aggregates.
/// The `payout_rate` is the collateral paid per whole winning token,
/// fixed when the market is designed.
pub struct Wager {
    pub creator: u64,
    pub name: Vec<u8>,
    pub description: Vec<u8>,
    pub opening_time: i64,
    pub closing_time: i64,
    pub resolution_time: i64,
    pub status: WagerStatus,
    pub resolution: Resolution,
    pub resolution_arbitrator: ResolutionArbitrator,
    pub payout_rate: u64,
    pub total_yes_tokens: u64,
    pub total_no_tokens: u64,
    pub total_sol_deposited: u64,
    pub total_volume_traded: u64,
    pub total_fees_collected: u64,
    pub wager_id: u64,
}

impl View for Wager {
    type V = WagerView;

    open spec fn view(&self) -> WagerView {
        WagerView {
            creator: self.creator,
            name: self.name@,
            description: self.description@,
            opening_time: self.opening_time,
            closing_time: self.closing_time,
            resolution_time: self.resolution_time,
            status: self.status,
            resolution: self.resolution,
            resolution_arbitrator: self.resolution_arbitrator,
            payout_rate: self.payout_rate,
            total_yes_tokens: self.total_yes_tokens,
            total_no_tokens: self.total_no_tokens,
            total_sol_deposited: self.total_sol_deposited,
            total_volume_traded: self.total_volume_traded,
            total_fees_collected: self.total_fees_collected,
            wager_id: self.wager_id,
        }
    }
}

impl WagerView {
    /// Whether trading is permitted at the given instant: the market is
    /// active and the instant lies in the half-open trading window.
    pub open spec fn spec_is_open(self, now: i64) -> bool {
        self.status == WagerStatus::Active && self.opening_time <= now < self.closing_time
    }

    /// Whether the market may be resolved at the given instant: it is
    /// active and the resolution time has been reached.
    pub open spec fn spec_is_resolvable(self, now: i64) -> bool {
        self.status == WagerStatus::Active && now >= self.resolution_time
    }
}

impl Wager {
    /// Whether trading is permitted at the given instant.
    pub fn is_open(&self, now: i64) -> (r: bool)
        ensures
            r == self@.spec_is_open(now),
    {
        self.status == WagerStatus::Active && self.opening_time <= now && now < self.closing_time
    }

    /// Whether the market may be resolved at the given instant.
    pub fn is_resolvable(&self, now: i64) -> (r: bool)
        ensures
            r == self@.spec_is_resolvable(now),
    {
        self.status == WagerStatus::Active && now >= self.resolution_time
    }
}

} // verus!
