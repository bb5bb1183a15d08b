use vstd::prelude::*;

use crate::constants::MAX_ORDERS_PER_BOOK;
use crate::errors::IpredictError;
use crate::funding::{
    deposit_and_mint, deposit_overflows, position_after_deposit, spec_tokens_minted,
    wager_after_deposit,
};
use crate::matching::{
    clone_orders, match_invocation_overflows, match_loop, match_orders, no_match_input,
    yes_match_input, MatchReport,
};
use crate::order_book::{insert_pos, OrderBook, OrderSide, TokenType};
use crate::platform::Platform;
use crate::trading::{place_order, place_position_overflows, placed_order, position_after_place};
use crate::user_position::UserPosition;
use crate::wager::Wager;

verus! {

/// The other outcome token: the one a position buyer does not want.
pub open spec fn opposite_token(token: TokenType) -> TokenType {
    match token {
        TokenType::Yes => TokenType::No,
        TokenType::No => TokenType::Yes,
    }
}

/// The price a position buy lists its unwanted tokens at: one step
/// below the best resting bid, so the sale executes quickly, floored at
/// the minimum valid price.
pub open spec fn undercut_price(bid: u64) -> u64 {
    if bid > 1 {
        (bid - 1) as u64
    } else {
        1u64
    }
}

/// Everything one position buy did: the deposit and mint, the sell
/// order listed for the unwanted tokens (when the opposite side had a
/// resting bid), the escrow that order took, and the matching run that
/// followed it.
#[derive(Clone, Copy, Debug)]
pub struct BuyPositionReport {
    pub vault_deposit: u64,
    pub tokens_minted: u64,
    pub sell_order_id: Option<u64>,
    pub escrow_tokens: u64,
    pub matching: Option<MatchReport>,
}

/// A one-call position buy: deposits collateral, mints the
/// complementary token pair, and — when the unwanted outcome has a
/// resting bid — lists the unwanted tokens one price step below that
/// bid and immediately runs the matcher, so the caller ends up holding
/// mostly the outcome they asked for.
///
/// The invocation is all-or-nothing: if any later step fails (a full
/// queue, or checked arithmetic overflowing in the placement or the
/// matching), every earlier step is rolled back and all four records
/// are left exactly as they were.
pub fn buy_position(
    book: &mut OrderBook,
    wager: &mut Wager,
    platform: &mut Platform,
    position: &mut UserPosition,
    user: u64,
    token_type: TokenType,
    sol_amount: u64,
    max_iterations: u8,
    now: i64,
) -> (r: Result<BuyPositionReport, IpredictError>)
    requires
        old(book)@.wf(),
    ensures
        final(book)@.wf(),
        ({
            let minted = spec_tokens_minted(sol_amount);
            let opp = opposite_token(token_type);
            let bids = old(book)@.queue(OrderSide::Buy, opp);
            let sells = old(book)@.queue(OrderSide::Sell, opp);
            let wager1 = wager_after_deposit(old(wager)@, sol_amount);
            let position1 = position_after_deposit(*old(position), sol_amount);
            let o = placed_order(
                old(book)@,
                user,
                OrderSide::Sell,
                opp,
                undercut_price(bids[0].price),
                minted as u64,
                now,
            );
            let book1 = old(book)@.with_queue(
                OrderSide::Sell,
                opp,
                sells.insert(insert_pos(OrderSide::Sell, sells, o), o),
            ).with_next_id((old(book)@.next_order_id + 1) as u64);
            let unchanged = {
                &&& final(book)@ == old(book)@
                &&& final(wager)@ == old(wager)@
                &&& *final(platform) == *old(platform)
                &&& *final(position) == *old(position)
            };
            match r {
                Ok(rep) => {
                    &&& old(wager)@.spec_is_open(now)
                    &&& !deposit_overflows(old(wager)@, *old(position), sol_amount)
                    &&& rep.vault_deposit == sol_amount
                    &&& rep.tokens_minted == minted
                    &&& if bids.len() == 0 || minted == 0 {
                        // no bid to sell against: the whole pair rests with the caller
                        &&& rep.sell_order_id is None
                        &&& rep.escrow_tokens == 0
                        &&& rep.matching is None
                        &&& final(book)@ == old(book)@
                        &&& final(wager)@ == wager1
                        &&& *final(platform) == *old(platform)
                        &&& *final(position) == position1
                    } else {
                        let y = match_loop(yes_match_input(book1, max_iterations));
                        &&& rep.sell_order_id == Some(old(book)@.next_order_id)
                        &&& rep.escrow_tokens == minted
                        &&& sells.len() < MAX_ORDERS_PER_BOOK
                        &&& old(book)@.next_order_id < u64::MAX
                        &&& !place_position_overflows(
                            position1,
                            OrderSide::Sell,
                            opp,
                            minted as u64,
                        )
                        &&& y is Some
                        &&& {
                            let n = match_loop(no_match_input(book1, y->Some_0));
                            &&& n is Some
                            &&& final(book)@.buy_orders_yes == y->Some_0.buys
                            &&& final(book)@.sell_orders_yes == y->Some_0.sells
                            &&& final(book)@.buy_orders_no == n->Some_0.buys
                            &&& final(book)@.sell_orders_no == n->Some_0.sells
                            &&& final(book)@.next_order_id == old(book)@.next_order_id + 1
                            &&& rep.matching == Some(
                                MatchReport {
                                    volume: n->Some_0.volume,
                                    fees: n->Some_0.fees,
                                    platform_fee: n->Some_0.platform_fees,
                                    creator_fee: (n->Some_0.fees - n->Some_0.platform_fees) as u64,
                                },
                            )
                            &&& final(wager)@ == (crate::wager::WagerView {
                                total_volume_traded: (wager1.total_volume_traded
                                    + n->Some_0.volume) as u64,
                                total_fees_collected: (wager1.total_fees_collected
                                    + n->Some_0.fees) as u64,
                                ..wager1
                            })
                            &&& wager1.total_volume_traded + n->Some_0.volume <= u64::MAX
                            &&& wager1.total_fees_collected + n->Some_0.fees <= u64::MAX
                            &&& *final(platform) == (Platform {
                                total_volume_traded: (old(platform).total_volume_traded
                                    + n->Some_0.volume) as u64,
                                total_fees_collected: (old(platform).total_fees_collected
                                    + n->Some_0.fees) as u64,
                                ..*old(platform)
                            })
                            &&& old(platform).total_volume_traded + n->Some_0.volume <= u64::MAX
                            &&& old(platform).total_fees_collected + n->Some_0.fees <= u64::MAX
                            &&& *final(position) == position_after_place(
                                position1,
                                OrderSide::Sell,
                                opp,
                                minted as u64,
                            )
                        }
                    }
                },
                Err(e) => {
                    &&& unchanged
                    &&& match e {
                        IpredictError::WagerNotOpen => !old(wager)@.spec_is_open(now),
                        IpredictError::OrderBookFull => {
                            &&& old(wager)@.spec_is_open(now)
                            &&& !deposit_overflows(old(wager)@, *old(position), sol_amount)
                            &&& bids.len() > 0
                            &&& minted > 0
                            &&& sells.len() >= MAX_ORDERS_PER_BOOK
                        },
                        IpredictError::MathOverflow => {
                            &&& old(wager)@.spec_is_open(now)
                            &&& {
                                ||| deposit_overflows(old(wager)@, *old(position), sol_amount)
                                ||| {
                                    &&& !deposit_overflows(
                                        old(wager)@,
                                        *old(position),
                                        sol_amount,
                                    )
                                    &&& bids.len() > 0
                                    &&& minted > 0
                                    &&& sells.len() < MAX_ORDERS_PER_BOOK
                                    &&& {
                                        ||| old(book)@.next_order_id == u64::MAX
                                        ||| place_position_overflows(
                                            position1,
                                            OrderSide::Sell,
                                            opp,
                                            minted as u64,
                                        )
                                        ||| (old(book)@.next_order_id < u64::MAX
                                            && !place_position_overflows(
                                            position1,
                                            OrderSide::Sell,
                                            opp,
                                            minted as u64,
                                        ) && match_invocation_overflows(
                                            book1,
                                            wager1,
                                            *old(platform),
                                            max_iterations,
                                        ))
                                    }
                                }
                            }
                        },
                        _ => false,
                    }
                },
            }
        }),
{
    let saved_position = *position;
    let saved_yes = wager.total_yes_tokens;
    let saved_no = wager.total_no_tokens;
    let saved_deposited = wager.total_sol_deposited;
    let deposit = match deposit_and_mint(wager, position, sol_amount, now) {
        Ok(d) => d,
        Err(e) => {
            return Err(e);
        },
    };
    let minted = deposit.tokens_minted;
    let opp = match token_type {
        TokenType::Yes => TokenType::No,
        TokenType::No => TokenType::Yes,
    };
    let best_bid: Option<u64> = match opp {
        TokenType::Yes => if book.buy_orders_yes.len() > 0 {
            Some(book.buy_orders_yes[0].price)
        } else {
            None
        },
        TokenType::No => if book.buy_orders_no.len() > 0 {
            Some(book.buy_orders_no[0].price)
        } else {
            None
        },
    };
    let bid = match best_bid {
        Some(b) => b,
        None => {
            return Ok(
                BuyPositionReport {
                    vault_deposit: sol_amount,
                    tokens_minted: minted,
                    sell_order_id: None,
                    escrow_tokens: 0,
                    matching: None,
                },
            );
        },
    };
    if minted == 0 {
        return Ok(
            BuyPositionReport {
                vault_deposit: sol_amount,
                tokens_minted: minted,
                sell_order_id: None,
                escrow_tokens: 0,
                matching: None,
            },
        );
    }
    let price = if bid > 1 {
        bid - 1
    } else {
        1
    };
    let order_id = book.next_order_id;
    let saved_queue = match opp {
        TokenType::Yes => clone_orders(&book.sell_orders_yes),
        TokenType::No => clone_orders(&book.sell_orders_no),
    };
    let placed = place_order(
        &*wager,
        book,
        position,
        user,
        minted,
        0,
        OrderSide::Sell,
        opp,
        price,
        minted,
        now,
    );
    let eff = match placed {
        Ok(eff) => eff,
        Err(e) => {
            wager.total_yes_tokens = saved_yes;
            wager.total_no_tokens = saved_no;
            wager.total_sol_deposited = saved_deposited;
            *position = saved_position;
            proof {
                assert(wager@ =~= old(wager)@);
            }
            return Err(e);
        },
    };
    let matched = match match_orders(book, wager, platform, max_iterations) {
        Ok(m) => m,
        Err(e) => {
            match opp {
                TokenType::Yes => {
                    book.sell_orders_yes = saved_queue;
                },
                TokenType::No => {
                    book.sell_orders_no = saved_queue;
                },
            }
            book.next_order_id = order_id;
            wager.total_yes_tokens = saved_yes;
            wager.total_no_tokens = saved_no;
            wager.total_sol_deposited = saved_deposited;
            *position = saved_position;
            proof {
                assert(wager@ =~= old(wager)@);
                assert(book@.buy_orders_yes == old(book)@.buy_orders_yes);
                assert(book@.sell_orders_yes == old(book)@.sell_orders_yes);
                assert(book@.buy_orders_no == old(book)@.buy_orders_no);
                assert(book@.sell_orders_no == old(book)@.sell_orders_no);
            }
            return Err(e);
        },
    };
    Ok(
        BuyPositionReport {
            vault_deposit: sol_amount,
            tokens_minted: minted,
            sell_order_id: Some(order_id),
            escrow_tokens: eff.escrow_tokens,
            matching: Some(matched),
        },
    )
}

} // verus!
