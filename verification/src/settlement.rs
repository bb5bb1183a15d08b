use vstd::prelude::*;

use crate::errors::IpredictError;
use crate::platform::Platform;
use crate::user_position::UserPosition;
use crate::wager::{Resolution, Wager, WagerStatus, WagerView};

verus! {

/// Sets a market's outcome, exactly once.  Only the platform authority
/// may resolve; the market must have reached its resolution time, must
/// not be resolved already, and the outcome must be concrete.  On
/// success the market becomes `Resolved` with the given outcome and
/// nothing else changes; on failure nothing changes at all.
pub fn resolve_wager(
    wager: &mut Wager,
    platform: &Platform,
    caller: u64,
    resolution: Resolution,
    now: i64,
) -> (r: Result<(), IpredictError>)
    ensures
        match r {
            Ok(()) => {
                &&& caller == platform.authority
                &&& old(wager)@.status != WagerStatus::Resolved
                &&& old(wager)@.spec_is_resolvable(now)
                &&& resolution != Resolution::Pending
                &&& final(wager)@ == (WagerView {
                    status: WagerStatus::Resolved,
                    resolution,
                    ..old(wager)@
                })
            },
            Err(e) => {
                &&& final(wager)@ == old(wager)@
                &&& match e {
                    IpredictError::Unauthorized => caller != platform.authority,
                    IpredictError::WagerAlreadyResolved => {
                        &&& caller == platform.authority
                        &&& old(wager)@.status == WagerStatus::Resolved
                    },
                    IpredictError::WagerNotResolvable => {
                        &&& caller == platform.authority
                        &&& old(wager)@.status != WagerStatus::Resolved
                        &&& !old(wager)@.spec_is_resolvable(now)
                    },
                    IpredictError::InvalidResolution => {
                        &&& caller == platform.authority
                        &&& old(wager)@.status != WagerStatus::Resolved
                        &&& old(wager)@.spec_is_resolvable(now)
                        &&& resolution == Resolution::Pending
                    },
                    _ => false,
                }
            },
        },
{
    if caller != platform.authority {
        return Err(IpredictError::Unauthorized);
    }
    if wager.status == WagerStatus::Resolved {
        return Err(IpredictError::WagerAlreadyResolved);
    }
    if !wager.is_resolvable(now) {
        return Err(IpredictError::WagerNotResolvable);
    }
    if resolution == Resolution::Pending {
        return Err(IpredictError::InvalidResolution);
    }
    wager.resolution = resolution;
    wager.status = WagerStatus::Resolved;
    Ok(())
}

/// Custody work a successful redemption owes the caller: collateral to
/// transfer from the vault to the user, and outcome tokens to burn from
/// the user's balances.
#[derive(Clone, Copy, Debug, PartialEq, Eq, Structural)]
pub struct ClaimEffect {
    pub payout: u64,
    pub burn_yes: u64,
    pub burn_no: u64,
}

/// Redemption value of a holder's balances under an outcome: winners
/// redeem at the market's payout rate, a draw redeems both balances at
/// half the rate, and losing balances are worth nothing.
pub open spec fn spec_payout(
    resolution: Resolution,
    payout_rate: u64,
    yes_balance: u64,
    no_balance: u64,
) -> int {
    match resolution {
        Resolution::YesWon => yes_balance * payout_rate,
        Resolution::NoWon => no_balance * payout_rate,
        Resolution::Draw => (yes_balance + no_balance) * payout_rate / 2,
        Resolution::Pending => 0,
    }
}

/// Tokens a redemption burns: the winning side's whole balance, or both
/// balances on a draw.  Losing tokens are not burned.
pub open spec fn spec_burn_yes(resolution: Resolution, yes_balance: u64) -> int {
    match resolution {
        Resolution::YesWon => yes_balance as int,
        Resolution::NoWon => 0,
        Resolution::Draw => yes_balance as int,
        Resolution::Pending => 0,
    }
}

/// Tokens a redemption burns on the NO side.
pub open spec fn spec_burn_no(resolution: Resolution, no_balance: u64) -> int {
    match resolution {
        Resolution::YesWon => 0,
        Resolution::NoWon => no_balance as int,
        Resolution::Draw => no_balance as int,
        Resolution::Pending => 0,
    }
}

/// Whether computing the payout would overflow checked 64-bit
/// arithmetic.
pub open spec fn claim_overflows(
    resolution: Resolution,
    payout_rate: u64,
    yes_balance: u64,
    no_balance: u64,
) -> bool {
    match resolution {
        Resolution::YesWon => yes_balance * payout_rate > u64::MAX,
        Resolution::NoWon => no_balance * payout_rate > u64::MAX,
        Resolution::Draw => yes_balance + no_balance > u64::MAX || (yes_balance + no_balance)
            * payout_rate > u64::MAX,
        Resolution::Pending => false,
    }
}

/// The whole redemption decision: every error with the exact state it
/// arises from, and on success the updated position beside the custody
/// effect.  A failed vault check leaves `winnings_claimed` untouched, so
/// the holder can retry once the vault is replenished.
pub open spec fn spec_claim(
    wager: WagerView,
    position: UserPosition,
    yes_balance: u64,
    no_balance: u64,
    vault_balance: u64,
) -> Result<(UserPosition, ClaimEffect), IpredictError> {
    if wager.status != WagerStatus::Resolved {
        Err(IpredictError::WagerNotResolvable)
    } else if position.winnings_claimed {
        Err(IpredictError::Unauthorized)
    } else if wager.resolution == Resolution::Pending {
        Err(IpredictError::InvalidResolution)
    } else if claim_overflows(wager.resolution, wager.payout_rate, yes_balance, no_balance) {
        Err(IpredictError::MathOverflow)
    } else {
        let payout = spec_payout(wager.resolution, wager.payout_rate, yes_balance, no_balance);
        if vault_balance < payout {
            Err(IpredictError::InsufficientFunds)
        } else if position.total_sol_withdrawn + payout > u64::MAX {
            Err(IpredictError::MathOverflow)
        } else {
            Ok(
                (
                    UserPosition {
                        winnings_claimed: true,
                        total_sol_withdrawn: (position.total_sol_withdrawn + payout) as u64,
                        ..position
                    },
                    ClaimEffect {
                        payout: payout as u64,
                        burn_yes: spec_burn_yes(wager.resolution, yes_balance) as u64,
                        burn_no: spec_burn_no(wager.resolution, no_balance) as u64,
                    },
                ),
            )
        }
    }
}

/// Redeems a holder's outcome tokens once the market is resolved, at
/// most once per (user, market).  The caller supplies the holder's live
/// token balances and the vault's balance; on success it owes the
/// returned transfer and burns.  The decision follows `spec_claim`
/// exactly: in particular an underfunded vault fails with
/// `InsufficientFunds` before `winnings_claimed` is touched, and any
/// failure leaves the position exactly as it was.
pub fn claim_winnings(
    wager: &Wager,
    position: &mut UserPosition,
    yes_balance: u64,
    no_balance: u64,
    vault_balance: u64,
) -> (r: Result<ClaimEffect, IpredictError>)
    ensures
        match r {
            Ok(eff) => {
                &&& spec_claim(wager@, *old(position), yes_balance, no_balance, vault_balance)
                    == Ok::<_, IpredictError>((*final(position), eff))
                &&& final(position).winnings_claimed
                &&& eff.payout == spec_payout(
                    wager@.resolution,
                    wager@.payout_rate,
                    yes_balance,
                    no_balance,
                )
                &&& vault_balance >= eff.payout
                &&& final(position).total_sol_withdrawn == old(position).total_sol_withdrawn
                    + eff.payout
            },
            Err(e) => {
                &&& spec_claim(wager@, *old(position), yes_balance, no_balance, vault_balance)
                    == Err::<(UserPosition, ClaimEffect), _>(e)
                &&& *final(position) == *old(position)
            },
        },
{
    if wager.status != WagerStatus::Resolved {
        return Err(IpredictError::WagerNotResolvable);
    }
    if position.winnings_claimed {
        return Err(IpredictError::Unauthorized);
    }
    let (payout, burn_yes, burn_no) = match wager.resolution {
        Resolution::Pending => {
            return Err(IpredictError::InvalidResolution);
        },
        Resolution::YesWon => {
            let payout = match yes_balance.checked_mul(wager.payout_rate) {
                Some(v) => v,
                None => {
                    return Err(IpredictError::MathOverflow);
                },
            };
            (payout, yes_balance, 0u64)
        },
        Resolution::NoWon => {
            let payout = match no_balance.checked_mul(wager.payout_rate) {
                Some(v) => v,
                None => {
                    return Err(IpredictError::MathOverflow);
                },
            };
            (payout, 0u64, no_balance)
        },
        Resolution::Draw => {
            let total = match yes_balance.checked_add(no_balance) {
                Some(v) => v,
                None => {
                    return Err(IpredictError::MathOverflow);
                },
            };
            let product = match total.checked_mul(wager.payout_rate) {
                Some(v) => v,
                None => {
                    return Err(IpredictError::MathOverflow);
                },
            };
            (product / 2, yes_balance, no_balance)
        },
    };
    if vault_balance < payout {
        return Err(IpredictError::InsufficientFunds);
    }
    let new_withdrawn = match position.total_sol_withdrawn.checked_add(payout) {
        Some(v) => v,
        None => {
            return Err(IpredictError::MathOverflow);
        },
    };
    position.total_sol_withdrawn = new_withdrawn;
    position.winnings_claimed = true;
    Ok(ClaimEffect { payout, burn_yes, burn_no })
}

/// Idempotent redemption law: a successful claim flips
/// `winnings_claimed`, and any further claim for the same user and
/// market — whatever balances it presents — fails with the double-claim
/// error and pays out nothing, leaving the position unchanged.
pub proof fn lemma_claim_idempotent(
    wager: WagerView,
    position: UserPosition,
    yes1: u64,
    no1: u64,
    vault1: u64,
    yes2: u64,
    no2: u64,
    vault2: u64,
)
    requires
        spec_claim(wager, position, yes1, no1, vault1) is Ok,
    ensures
        spec_claim(wager, position, yes1, no1, vault1)->Ok_0.0.winnings_claimed,
        spec_claim(
            wager,
            spec_claim(wager, position, yes1, no1, vault1)->Ok_0.0,
            yes2,
            no2,
            vault2,
        ) == Err::<(UserPosition, ClaimEffect), IpredictError>(IpredictError::Unauthorized),
{
}

} // verus!
