use vstd::prelude::*;

use crate::constants::{
    LAMPORTS_PER_SOL, MAX_DESCRIPTION_LENGTH, MAX_NAME_LENGTH, TOKENS_PER_SOL,
};
use crate::errors::IpredictError;
use crate::order_book::OrderBook;
use crate::platform::Platform;
use crate::user_position::UserPosition;
use crate::wager::{Resolution, ResolutionArbitrator, Wager, WagerStatus, WagerView};

verus! {

/// Custody work a successful market creation owes the caller: the flat
/// creation fee the creator pays the platform's fee recipient.
#[derive(Clone, Copy, Debug, PartialEq, Eq, Structural)]
pub struct CreateWagerEffect {
    pub creation_fee: u64,
}

/// The record a fresh market starts from.
pub open spec fn created_wager(
    creator: u64,
    name: Seq<u8>,
    description: Seq<u8>,
    opening_time: i64,
    closing_time: i64,
    resolution_time: i64,
    payout_rate: u64,
    wager_id: u64,
    now: i64,
) -> WagerView {
    WagerView {
        creator,
        name,
        description,
        opening_time,
        closing_time,
        resolution_time,
        status: if now >= opening_time {
            WagerStatus::Active
        } else {
            WagerStatus::Created
        },
        resolution: Resolution::Pending,
        resolution_arbitrator: ResolutionArbitrator::Platform,
        payout_rate,
        total_yes_tokens: 0,
        total_no_tokens: 0,
        total_sol_deposited: 0,
        total_volume_traded: 0,
        total_fees_collected: 0,
        wager_id,
    }
}

/// Creates a market: validates the name and description lengths and the
/// ordering of the three times against the clock, charges the platform's
/// creation fee, and hands back the fresh market record and its empty
/// order book.  The market's id is the platform's running count, which
/// rises by one.  On failure the platform is untouched.
pub fn create_wager(
    platform: &mut Platform,
    creator: u64,
    name: Vec<u8>,
    description: Vec<u8>,
    opening_time: i64,
    closing_time: i64,
    resolution_time: i64,
    payout_rate: u64,
    now: i64,
) -> (r: Result<(Wager, OrderBook, CreateWagerEffect), IpredictError>)
    ensures
        match r {
            Ok(t) => {
                &&& name@.len() <= MAX_NAME_LENGTH
                &&& description@.len() <= MAX_DESCRIPTION_LENGTH
                &&& opening_time >= now
                &&& closing_time > opening_time
                &&& resolution_time >= closing_time
                &&& old(platform).total_wagers_created < u64::MAX
                &&& t.0@ == created_wager(
                    creator,
                    name@,
                    description@,
                    opening_time,
                    closing_time,
                    resolution_time,
                    payout_rate,
                    old(platform).total_wagers_created,
                    now,
                )
                &&& t.1@.wf()
                &&& t.1@.next_order_id == 0
                &&& t.1@.buy_orders_yes.len() == 0
                &&& t.1@.sell_orders_yes.len() == 0
                &&& t.1@.buy_orders_no.len() == 0
                &&& t.1@.sell_orders_no.len() == 0
                &&& t.2.creation_fee == old(platform).wager_creation_fee
                &&& *final(platform) == (Platform {
                    total_wagers_created: (old(platform).total_wagers_created + 1) as u64,
                    ..*old(platform)
                })
            },
            Err(e) => {
                &&& *final(platform) == *old(platform)
                &&& match e {
                    IpredictError::NameTooLong => name@.len() > MAX_NAME_LENGTH,
                    IpredictError::DescriptionTooLong => {
                        &&& name@.len() <= MAX_NAME_LENGTH
                        &&& description@.len() > MAX_DESCRIPTION_LENGTH
                    },
                    IpredictError::InvalidTimeParameters => {
                        &&& name@.len() <= MAX_NAME_LENGTH
                        &&& description@.len() <= MAX_DESCRIPTION_LENGTH
                        &&& (opening_time < now || closing_time <= opening_time
                            || resolution_time < closing_time)
                    },
                    IpredictError::MathOverflow => {
                        &&& name@.len() <= MAX_NAME_LENGTH
                        &&& description@.len() <= MAX_DESCRIPTION_LENGTH
                        &&& opening_time >= now
                        &&& closing_time > opening_time
                        &&& resolution_time >= closing_time
                        &&& old(platform).total_wagers_created == u64::MAX
                    },
                    _ => false,
                }
            },
        },
{
    if name.len() > MAX_NAME_LENGTH {
        return Err(IpredictError::NameTooLong);
    }
    if description.len() > MAX_DESCRIPTION_LENGTH {
        return Err(IpredictError::DescriptionTooLong);
    }
    if opening_time < now || closing_time <= opening_time || resolution_time < closing_time {
        return Err(IpredictError::InvalidTimeParameters);
    }
    let new_count = match platform.total_wagers_created.checked_add(1) {
        Some(v) => v,
        None => {
            return Err(IpredictError::MathOverflow);
        },
    };
    let status = if now >= opening_time {
        WagerStatus::Active
    } else {
        WagerStatus::Created
    };
    let wager = Wager {
        creator,
        name,
        description,
        opening_time,
        closing_time,
        resolution_time,
        status,
        resolution: Resolution::Pending,
        resolution_arbitrator: ResolutionArbitrator::Platform,
        payout_rate,
        total_yes_tokens: 0,
        total_no_tokens: 0,
        total_sol_deposited: 0,
        total_volume_traded: 0,
        total_fees_collected: 0,
        wager_id: platform.total_wagers_created,
    };
    let book = OrderBook::new();
    let fee = platform.wager_creation_fee;
    platform.total_wagers_created = new_count;
    Ok((wager, book, CreateWagerEffect { creation_fee: fee }))
}

/// Custody work a successful deposit owes the caller: collateral to
/// move into the market's vault, and the matching quantity of YES and
/// of NO tokens to mint to the depositor.
#[derive(Clone, Copy, Debug, PartialEq, Eq, Structural)]
pub struct DepositEffect {
    pub vault_deposit: u64,
    pub tokens_minted: u64,
}

/// Whole tokens a deposit mints of each outcome.
pub open spec fn spec_tokens_minted(amount: u64) -> int {
    amount * TOKENS_PER_SOL / (LAMPORTS_PER_SOL as int)
}

/// Whether a deposit's checked arithmetic would overflow.
pub open spec fn deposit_overflows(wager: WagerView, position: UserPosition, amount: u64) -> bool {
    ||| amount * TOKENS_PER_SOL > u64::MAX
    ||| wager.total_yes_tokens + spec_tokens_minted(amount) > u64::MAX
    ||| wager.total_no_tokens + spec_tokens_minted(amount) > u64::MAX
    ||| wager.total_sol_deposited + amount > u64::MAX
    ||| position.total_sol_deposited + amount > u64::MAX
}

/// The market record after a deposit: both token supplies rise by the
/// minted quantity, and the collateral total by the amount.
pub open spec fn wager_after_deposit(wager: WagerView, amount: u64) -> WagerView {
    WagerView {
        total_yes_tokens: (wager.total_yes_tokens + spec_tokens_minted(amount)) as u64,
        total_no_tokens: (wager.total_no_tokens + spec_tokens_minted(amount)) as u64,
        total_sol_deposited: (wager.total_sol_deposited + amount) as u64,
        ..wager
    }
}

/// The caller's position after a deposit.
pub open spec fn position_after_deposit(position: UserPosition, amount: u64) -> UserPosition {
    UserPosition {
        total_sol_deposited: (position.total_sol_deposited + amount) as u64,
        ..position
    }
}

/// Deposits collateral and mints the complementary token pair: the
/// depositor receives `amount * TOKENS_PER_SOL / LAMPORTS_PER_SOL`
/// whole tokens of each outcome.  The market must be open; every total
/// rises under checked arithmetic or the whole deposit fails with
/// nothing changed.
pub fn deposit_and_mint(wager: &mut Wager, position: &mut UserPosition, amount: u64, now: i64) -> (r:
    Result<DepositEffect, IpredictError>)
    ensures
        match r {
            Ok(eff) => {
                &&& old(wager)@.spec_is_open(now)
                &&& !deposit_overflows(old(wager)@, *old(position), amount)
                &&& eff.vault_deposit == amount
                &&& eff.tokens_minted == spec_tokens_minted(amount)
                &&& final(wager)@ == wager_after_deposit(old(wager)@, amount)
                &&& *final(position) == position_after_deposit(*old(position), amount)
            },
            Err(e) => {
                &&& final(wager)@ == old(wager)@
                &&& *final(position) == *old(position)
                &&& match e {
                    IpredictError::WagerNotOpen => !old(wager)@.spec_is_open(now),
                    IpredictError::MathOverflow => {
                        &&& old(wager)@.spec_is_open(now)
                        &&& deposit_overflows(old(wager)@, *old(position), amount)
                    },
                    _ => false,
                }
            },
        },
{
    if !wager.is_open(now) {
        return Err(IpredictError::WagerNotOpen);
    }
    let scaled = match amount.checked_mul(TOKENS_PER_SOL) {
        Some(v) => v,
        None => {
            return Err(IpredictError::MathOverflow);
        },
    };
    let tokens_minted = scaled / LAMPORTS_PER_SOL;
    let new_yes = match wager.total_yes_tokens.checked_add(tokens_minted) {
        Some(v) => v,
        None => {
            return Err(IpredictError::MathOverflow);
        },
    };
    let new_no = match wager.total_no_tokens.checked_add(tokens_minted) {
        Some(v) => v,
        None => {
            return Err(IpredictError::MathOverflow);
        },
    };
    let new_deposited = match wager.total_sol_deposited.checked_add(amount) {
        Some(v) => v,
        None => {
            return Err(IpredictError::MathOverflow);
        },
    };
    let new_position_deposited = match position.total_sol_deposited.checked_add(amount) {
        Some(v) => v,
        None => {
            return Err(IpredictError::MathOverflow);
        },
    };
    wager.total_yes_tokens = new_yes;
    wager.total_no_tokens = new_no;
    wager.total_sol_deposited = new_deposited;
    position.total_sol_deposited = new_position_deposited;
    Ok(DepositEffect { vault_deposit: amount, tokens_minted })
}

/// Deposits collateral into the vault without minting, tracked on both
/// the market and the caller's position; the caller owes the amount to
/// the vault.  The market must be active; every total rises under
/// checked arithmetic or the whole deposit fails with nothing changed.
pub fn deposit_sol(wager: &mut Wager, position: &mut UserPosition, amount: u64) -> (r: Result<
    (),
    IpredictError,
>)
    ensures
        match r {
            Ok(()) => {
                &&& old(wager)@.status == WagerStatus::Active
                &&& final(wager)@ == (WagerView {
                    total_sol_deposited: (old(wager)@.total_sol_deposited + amount) as u64,
                    ..old(wager)@
                })
                &&& old(wager)@.total_sol_deposited + amount <= u64::MAX
                &&& *final(position) == (UserPosition {
                    total_sol_deposited: (old(position).total_sol_deposited + amount) as u64,
                    ..*old(position)
                })
                &&& old(position).total_sol_deposited + amount <= u64::MAX
            },
            Err(e) => {
                &&& final(wager)@ == old(wager)@
                &&& *final(position) == *old(position)
                &&& match e {
                    IpredictError::WagerNotOpen => old(wager)@.status != WagerStatus::Active,
                    IpredictError::MathOverflow => {
                        &&& old(wager)@.status == WagerStatus::Active
                        &&& (old(wager)@.total_sol_deposited + amount > u64::MAX || old(
                            position,
                        ).total_sol_deposited + amount > u64::MAX)
                    },
                    _ => false,
                }
            },
        },
{
    if wager.status != WagerStatus::Active {
        return Err(IpredictError::WagerNotOpen);
    }
    let new_deposited = match wager.total_sol_deposited.checked_add(amount) {
        Some(v) => v,
        None => {
            return Err(IpredictError::MathOverflow);
        },
    };
    let new_position_deposited = match position.total_sol_deposited.checked_add(amount) {
        Some(v) => v,
        None => {
            return Err(IpredictError::MathOverflow);
        },
    };
    wager.total_sol_deposited = new_deposited;
    position.total_sol_deposited = new_position_deposited;
    Ok(())
}

/// Deposits collateral into the vault with no minting and no per-user
/// tracking: only the market's deposit total rises.  The market must be
/// open.
pub fn deposit_and_mint_simple(wager: &mut Wager, amount: u64, now: i64) -> (r: Result<
    (),
    IpredictError,
>)
    ensures
        match r {
            Ok(()) => {
                &&& old(wager)@.spec_is_open(now)
                &&& final(wager)@ == (WagerView {
                    total_sol_deposited: (old(wager)@.total_sol_deposited + amount) as u64,
                    ..old(wager)@
                })
                &&& old(wager)@.total_sol_deposited + amount <= u64::MAX
            },
            Err(e) => {
                &&& final(wager)@ == old(wager)@
                &&& match e {
                    IpredictError::WagerNotOpen => !old(wager)@.spec_is_open(now),
                    IpredictError::MathOverflow => {
                        &&& old(wager)@.spec_is_open(now)
                        &&& old(wager)@.total_sol_deposited + amount > u64::MAX
                    },
                    _ => false,
                }
            },
        },
{
    if !wager.is_open(now) {
        return Err(IpredictError::WagerNotOpen);
    }
    let new_deposited = match wager.total_sol_deposited.checked_add(amount) {
        Some(v) => v,
        None => {
            return Err(IpredictError::MathOverflow);
        },
    };
    wager.total_sol_deposited = new_deposited;
    Ok(())
}

} // verus!
