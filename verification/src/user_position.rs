use vstd::prelude::*;

verus! {

/// Running totals for one user in one market: tokens bought and sold per
/// outcome, collateral moved in and out, and whether winnings were
/// already claimed.  The `winnings_claimed` flag moves from false to true
/// exactly once, at the first successful redemption, and is never reset.
#[derive(Clone, Copy, Debug, PartialEq, Eq, Structural)]
pub struct UserPosition {
    pub user: u64,
    pub wager: u64,
    pub yes_tokens_bought: u64,
    pub yes_tokens_sold: u64,
    pub no_tokens_bought: u64,
    pub no_tokens_sold: u64,
    pub total_sol_deposited: u64,
    pub total_sol_withdrawn: u64,
    pub winnings_claimed: bool,
}

impl UserPosition {
    /// A fresh position for a user in a market: all totals zero, nothing
    /// claimed.
    pub fn new(user: u64, wager: u64) -> (p: UserPosition)
        ensures
            p == (UserPosition {
                user,
                wager,
                yes_tokens_bought: 0,
                yes_tokens_sold: 0,
                no_tokens_bought: 0,
                no_tokens_sold: 0,
                total_sol_deposited: 0,
                total_sol_withdrawn: 0,
                winnings_claimed: false,
            }),
    {
        UserPosition {
            user,
            wager,
            yes_tokens_bought: 0,
            yes_tokens_sold: 0,
            no_tokens_bought: 0,
            no_tokens_sold: 0,
            total_sol_deposited: 0,
            total_sol_withdrawn: 0,
            winnings_claimed: false,
        }
    }
}

} // verus!
