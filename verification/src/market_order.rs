use vstd::arithmetic::div_mod::{lemma_fundamental_div_mod, lemma_mod_bound};
use vstd::arithmetic::mul::lemma_mul_inequality;
use vstd::prelude::*;

use crate::constants::{BPS_DIVISOR, PLATFORM_FEE_BPS, TOTAL_FEE_BPS};
use crate::errors::IpredictError;
use crate::matching::{clone_orders, lemma_fee_split, spec_fee, spec_platform_fee};
use crate::order_book::{queue_le, queue_wf, Order, OrderBook, OrderSide, TokenType};
use crate::platform::Platform;
use crate::user_position::UserPosition;
use crate::wager::{Wager, WagerView};

verus! {

/// State of a market sweep: the sell queue as it will rest afterwards,
/// the unspent budget, and the tokens, fees and platform fees
/// accumulated so far.
#[verifier::ext_equal]
pub struct SweepState {
    pub sells: Seq<Order>,
    pub budget: u64,
    pub bought: u64,
    pub fees: u64,
    pub platform_fees: u64,
}

/// Tokens one resting sell order yields to the sweep: its unfilled
/// remainder, capped by how many whole tokens the unspent budget can
/// afford at its price.
pub open spec fn sweep_fill(o: Order, budget: u64) -> int {
    if o.price == 0 {
        0
    } else {
        let afford = budget / o.price;
        if o.spec_remaining() <= afford {
            o.spec_remaining()
        } else {
            afford as int
        }
    }
}

/// The market sweep over a price-ascending sell queue: consumes orders
/// from cheapest to dearest, skipping any it cannot afford one unit of,
/// until the budget is exhausted or the queue ends.  Each consumed
/// portion is charged at the order's own limit price and incurs the
/// standard fee; an order filled whole leaves the queue.  `None` means
/// a checked arithmetic step overflowed.
pub open spec fn sweep_loop(
    sells: Seq<Order>,
    budget: u64,
    bought: u64,
    fees: u64,
    platform_fees: u64,
) -> Option<SweepState>
    decreases sells.len(),
{
    if sells.len() == 0 || budget == 0 {
        Some(SweepState { sells, budget, bought, fees, platform_fees })
    } else {
        let o = sells[0];
        let fill = sweep_fill(o, budget);
        if fill <= 0 {
            match sweep_loop(sells.drop_first(), budget, bought, fees, platform_fees) {
                None => None,
                Some(r) => Some(SweepState { sells: seq![o] + r.sells, ..r }),
            }
        } else {
            let cost = fill * o.price;
            let fee = spec_fee(cost);
            let pfee = spec_platform_fee(fee);
            if cost * TOTAL_FEE_BPS > u64::MAX || bought + fill > u64::MAX || fees + fee
                > u64::MAX || platform_fees + pfee > u64::MAX {
                None
            } else {
                let o2 = Order { filled_quantity: (o.filled_quantity + fill) as u64, ..o };
                match sweep_loop(
                    sells.drop_first(),
                    (budget - cost) as u64,
                    (bought + fill) as u64,
                    (fees + fee) as u64,
                    (platform_fees + pfee) as u64,
                ) {
                    None => None,
                    Some(r) => Some(
                        SweepState {
                            sells: if o2.filled_quantity >= o2.quantity {
                                r.sells
                            } else {
                                seq![o2] + r.sells
                            },
                            ..r
                        },
                    ),
                }
            }
        }
    }
}

/// Result of running the sweep over an owned sell queue.
struct SweepOutcome {
    sells: Vec<Order>,
    budget: u64,
    bought: u64,
    fees: u64,
    platform_fees: u64,
}

/// Runs the market sweep over a sell queue, mirroring `sweep_loop`
/// exactly; the book itself is only touched by the caller once the
/// whole operation is known to succeed.
#[verifier::loop_isolation(false)]
#[verifier::rlimit(100)]
#[verifier::spinoff_prover]
fn sweep_sells(sells: Vec<Order>, budget: u64, Ghost(token): Ghost<TokenType>, Ghost(
    nid,
): Ghost<u64>) -> (r: Result<SweepOutcome, IpredictError>)
    requires
        queue_wf(sells@, OrderSide::Sell, token, nid),
    ensures
        match r {
            Ok(o) => {
                &&& sweep_loop(sells@, budget, 0, 0, 0) == Some(
                    SweepState {
                        sells: o.sells@,
                        budget: o.budget,
                        bought: o.bought,
                        fees: o.fees,
                        platform_fees: o.platform_fees,
                    },
                )
                &&& queue_wf(o.sells@, OrderSide::Sell, token, nid)
                &&& o.platform_fees <= o.fees
                &&& o.budget <= budget
            },
            Err(e) => {
                &&& e == IpredictError::MathOverflow
                &&& sweep_loop(sells@, budget, 0, 0, 0) is None
            },
        },
{
    let ghost sells0 = sells@;
    let ghost budget0 = budget;
    let mut budget = budget;
    let mut bought: u64 = 0;
    let mut fees: u64 = 0;
    let mut platform_fees: u64 = 0;
    let mut out: Vec<Order> = Vec::new();
    let mut i: usize = 0;
    proof {
        assert(sells0.skip(0) =~= sells0);
    }
    while i < sells.len() && budget > 0
        invariant
            0 <= i <= sells.len(),
            platform_fees <= fees,
            budget <= budget0,
            out@.len() <= i,
            queue_sorted_and_tagged(out@, token, nid),
            forall|k: int, m: int|
                0 <= k < out@.len() && i <= m < sells0.len() ==> queue_le(
                    OrderSide::Sell,
                    #[trigger] out@[k],
                    #[trigger] sells0[m],
                ),
            ({
                let part = sweep_loop(sells0.skip(i as int), budget, bought, fees, platform_fees);
                let full = sweep_loop(sells0, budget0, 0, 0, 0);
                match part {
                    Some(p) => full == Some(
                        SweepState {
                            sells: out@ + p.sells,
                            budget: p.budget,
                            bought: p.bought,
                            fees: p.fees,
                            platform_fees: p.platform_fees,
                        },
                    ),
                    None => full is None,
                }
            }),
        decreases sells.len() - i,
    {
        let ghost rest = sells0.skip(i as int);
        let ghost out_pre = out@;
        proof {
            assert(rest[0] == sells0[i as int]);
            assert(rest.drop_first() =~= sells0.skip(i + 1));
        }
        let o = sells[i];
        let afford = budget / o.price;
        let remaining = o.remaining_quantity();
        let fill = if remaining <= afford {
            remaining
        } else {
            afford
        };
        if fill == 0 {
            out.push(o);
            i = i + 1;
            proof {
                let part_new = sweep_loop(sells0.skip(i as int), budget, bought, fees,
                    platform_fees);
                if part_new is Some {
                    assert(out@ + part_new->Some_0.sells =~= out_pre + (seq![o]
                        + part_new->Some_0.sells));
                }
            }
        } else {
            proof {
                lemma_mul_inequality(fill as int, (budget / o.price) as int, o.price as int);
                lemma_fundamental_div_mod(budget as int, o.price as int);
                lemma_mod_bound(budget as int, o.price as int);
                assert(fill * o.price <= budget);
            }
            let cost = fill * o.price;
            let scaled = match cost.checked_mul(TOTAL_FEE_BPS) {
                Some(v) => v,
                None => {
                    return Err(IpredictError::MathOverflow);
                },
            };
            let fee = scaled / BPS_DIVISOR;
            proof {
                lemma_fee_split(cost as int);
            }
            let platform_fee = (fee * PLATFORM_FEE_BPS) / TOTAL_FEE_BPS;
            let new_bought = match bought.checked_add(fill) {
                Some(v) => v,
                None => {
                    return Err(IpredictError::MathOverflow);
                },
            };
            let new_fees = match fees.checked_add(fee) {
                Some(v) => v,
                None => {
                    return Err(IpredictError::MathOverflow);
                },
            };
            let new_platform_fees = platform_fees + platform_fee;
            let o2 = Order { filled_quantity: o.filled_quantity + fill, ..o };
            if o2.filled_quantity < o2.quantity {
                out.push(o2);
            }
            budget = budget - cost;
            bought = new_bought;
            fees = new_fees;
            platform_fees = new_platform_fees;
            i = i + 1;
            proof {
                let part_new = sweep_loop(sells0.skip(i as int), budget, bought, fees,
                    platform_fees);
                if part_new is Some {
                    if o2.filled_quantity >= o2.quantity {
                        assert(out@ + part_new->Some_0.sells == out_pre
                            + part_new->Some_0.sells);
                    } else {
                        assert(out@ + part_new->Some_0.sells =~= out_pre + (seq![o2]
                            + part_new->Some_0.sells));
                    }
                }
            }
        }
    }
    // if the budget ran dry first, the remaining orders rest untouched
    let ghost stop = i as int;
    let ghost out_mid = out@;
    let mut j: usize = i;
    while j < sells.len()
        invariant
            stop <= j <= sells.len(),
            out@ == out_mid + sells0.subrange(stop, j as int),
        decreases sells.len() - j,
    {
        out.push(sells[j]);
        proof {
            assert(out@ =~= out_mid + sells0.subrange(stop, j + 1));
        }
        j = j + 1;
    }
    proof {
        assert(sells0.subrange(stop, sells0.len() as int) =~= sells0.skip(stop));
        assert(out@ == out_mid + sells0.skip(stop));
        // the swept prefix keeps priority over the untouched tail, so the
        // rebuilt queue is still ordered; tags and bounds carry over
        assert forall|x: int, y: int| 0 <= x < y < out@.len() implies queue_le(
            OrderSide::Sell,
            #[trigger] out@[x],
            #[trigger] out@[y],
        ) by {
            if x >= out_mid.len() {
                assert(out@[x] == sells0[stop + (x - out_mid.len())]);
                assert(out@[y] == sells0[stop + (y - out_mid.len())]);
            } else if y >= out_mid.len() {
                assert(out@[y] == sells0[stop + (y - out_mid.len())]);
            }
        }
        assert(sweep_loop(sells0.skip(stop), budget, bought, fees, platform_fees) == Some(
            SweepState { sells: sells0.skip(stop), budget, bought, fees, platform_fees },
        ));
        assert(out_mid + sells0.skip(stop) == out@);
    }
    Ok(SweepOutcome { sells: out, budget, bought, fees, platform_fees })
}

/// What one market sweep executed: the tokens acquired, the budget
/// actually spent, and the fees with their exact platform/creator split.
/// Unspent budget is never charged.
#[derive(Clone, Copy, Debug, PartialEq, Eq, Structural)]
pub struct QuickBuyReport {
    pub tokens_bought: u64,
    pub spent: u64,
    pub fees: u64,
    pub platform_fee: u64,
    pub creator_fee: u64,
}

/// Whether folding a finished sweep into the aggregates would overflow
/// checked 64-bit arithmetic.
pub open spec fn quick_buy_overflows(
    s: SweepState,
    sol_amount: u64,
    wager: WagerView,
    platform: Platform,
    position: UserPosition,
    token_type: TokenType,
) -> bool {
    let spent = sol_amount - s.budget;
    ||| wager.total_volume_traded + spent > u64::MAX
    ||| wager.total_fees_collected + s.fees > u64::MAX
    ||| platform.total_volume_traded + spent > u64::MAX
    ||| platform.total_fees_collected + s.fees > u64::MAX
    ||| (token_type == TokenType::Yes && position.yes_tokens_bought + s.bought > u64::MAX)
    ||| (token_type == TokenType::No && position.no_tokens_bought + s.bought > u64::MAX)
}

/// A market buy: sweeps the sell queue of the requested outcome token
/// from cheapest to dearest within the collateral budget, subject to the
/// slippage guard `min_tokens_out`.  On success the consumed orders are
/// committed, the spent amount and fees are folded into the market's,
/// the platform's and the caller's aggregates, and the caller owes the
/// reported fee amounts to their recipients and the spent remainder to
/// the sellers.
///
/// The operation is all-or-nothing: when the market is closed, the
/// sweep's checked arithmetic overflows, the acquired quantity falls
/// short of `min_tokens_out`, or folding the totals would overflow, it
/// fails and the book, the market, the platform and the position are
/// left exactly as they were.
pub fn quick_buy(
    book: &mut OrderBook,
    wager: &mut Wager,
    platform: &mut Platform,
    position: &mut UserPosition,
    token_type: TokenType,
    sol_amount: u64,
    min_tokens_out: u64,
    now: i64,
) -> (r: Result<QuickBuyReport, IpredictError>)
    requires
        old(book)@.wf(),
    ensures
        final(book)@.wf(),
        ({
            let q = old(book)@.queue(OrderSide::Sell, token_type);
            let sw = sweep_loop(q, sol_amount, 0, 0, 0);
            let unchanged = {
                &&& final(book)@ == old(book)@
                &&& final(wager)@ == old(wager)@
                &&& *final(platform) == *old(platform)
                &&& *final(position) == *old(position)
            };
            match r {
                Ok(rep) => {
                    let s = sw->Some_0;
                    &&& old(wager)@.spec_is_open(now)
                    &&& sw is Some
                    &&& s.bought >= min_tokens_out
                    &&& rep.tokens_bought == s.bought
                    &&& rep.spent == sol_amount - s.budget
                    &&& rep.fees == s.fees
                    &&& rep.platform_fee == s.platform_fees
                    &&& rep.creator_fee == rep.fees - rep.platform_fee
                    &&& rep.platform_fee <= rep.fees
                    &&& final(book)@ == old(book)@.with_queue(OrderSide::Sell, token_type, s.sells)
                    &&& final(wager)@ == (WagerView {
                        total_volume_traded: (old(wager)@.total_volume_traded + rep.spent) as u64,
                        total_fees_collected: (old(wager)@.total_fees_collected + rep.fees) as u64,
                        ..old(wager)@
                    })
                    &&& *final(platform) == (Platform {
                        total_volume_traded: (old(platform).total_volume_traded
                            + rep.spent) as u64,
                        total_fees_collected: (old(platform).total_fees_collected
                            + rep.fees) as u64,
                        ..*old(platform)
                    })
                    &&& *final(position) == (match token_type {
                        TokenType::Yes => UserPosition {
                            yes_tokens_bought: (old(position).yes_tokens_bought
                                + rep.tokens_bought) as u64,
                            ..*old(position)
                        },
                        TokenType::No => UserPosition {
                            no_tokens_bought: (old(position).no_tokens_bought
                                + rep.tokens_bought) as u64,
                            ..*old(position)
                        },
                    })
                    &&& !quick_buy_overflows(
                        s,
                        sol_amount,
                        old(wager)@,
                        *old(platform),
                        *old(position),
                        token_type,
                    )
                },
                Err(e) => {
                    &&& unchanged
                    &&& (match e {
                        IpredictError::WagerNotOpen => !old(wager)@.spec_is_open(now),
                        IpredictError::SlippageExceeded => {
                            &&& old(wager)@.spec_is_open(now)
                            &&& sw is Some
                            &&& sw->Some_0.bought < min_tokens_out
                        },
                        IpredictError::MathOverflow => {
                            &&& old(wager)@.spec_is_open(now)
                            &&& (sw is None || {
                                &&& sw->Some_0.bought >= min_tokens_out
                                &&& quick_buy_overflows(
                                    sw->Some_0,
                                    sol_amount,
                                    old(wager)@,
                                    *old(platform),
                                    *old(position),
                                    token_type,
                                )
                            })
                        },
                        _ => false,
                    })
                },
            }
        }),
{
    if !wager.is_open(now) {
        return Err(IpredictError::WagerNotOpen);
    }
    let sells = match token_type {
        TokenType::Yes => clone_orders(&book.sell_orders_yes),
        TokenType::No => clone_orders(&book.sell_orders_no),
    };
    let swept = match sweep_sells(sells, sol_amount, Ghost(token_type), Ghost(
        book.next_order_id,
    )) {
        Ok(o) => o,
        Err(e) => {
            return Err(e);
        },
    };
    if swept.bought < min_tokens_out {
        return Err(IpredictError::SlippageExceeded);
    }
    let spent = sol_amount - swept.budget;
    let new_wager_volume = match wager.total_volume_traded.checked_add(spent) {
        Some(v) => v,
        None => {
            return Err(IpredictError::MathOverflow);
        },
    };
    let new_wager_fees = match wager.total_fees_collected.checked_add(swept.fees) {
        Some(v) => v,
        None => {
            return Err(IpredictError::MathOverflow);
        },
    };
    let new_platform_volume = match platform.total_volume_traded.checked_add(spent) {
        Some(v) => v,
        None => {
            return Err(IpredictError::MathOverflow);
        },
    };
    let new_platform_fees = match platform.total_fees_collected.checked_add(swept.fees) {
        Some(v) => v,
        None => {
            return Err(IpredictError::MathOverflow);
        },
    };
    let new_position_bought = match token_type {
        TokenType::Yes => position.yes_tokens_bought.checked_add(swept.bought),
        TokenType::No => position.no_tokens_bought.checked_add(swept.bought),
    };
    let new_position_bought = match new_position_bought {
        Some(v) => v,
        None => {
            return Err(IpredictError::MathOverflow);
        },
    };
    let report = QuickBuyReport {
        tokens_bought: swept.bought,
        spent,
        fees: swept.fees,
        platform_fee: swept.platform_fees,
        creator_fee: swept.fees - swept.platform_fees,
    };
    match token_type {
        TokenType::Yes => {
            book.sell_orders_yes = swept.sells;
            position.yes_tokens_bought = new_position_bought;
        },
        TokenType::No => {
            book.sell_orders_no = swept.sells;
            position.no_tokens_bought = new_position_bought;
        },
    }
    wager.total_volume_traded = new_wager_volume;
    wager.total_fees_collected = new_wager_fees;
    platform.total_volume_traded = new_platform_volume;
    platform.total_fees_collected = new_platform_fees;
    Ok(report)
}

/// Ordering and tagging of the queue the sweep rebuilds, while it is
/// still being built: the capacity bound of the full queue invariant is
/// recovered at the end from the input queue's own bound.
spec fn queue_sorted_and_tagged(q: Seq<Order>, token: TokenType, nid: u64) -> bool {
    &&& forall|i: int, j: int|
        0 <= i < j < q.len() ==> queue_le(OrderSide::Sell, #[trigger] q[i], #[trigger] q[j])
    &&& forall|i: int|
        0 <= i < q.len() ==> {
            &&& (#[trigger] q[i]).resting()
            &&& q[i].side == OrderSide::Sell
            &&& q[i].token_type == token
            &&& q[i].id < nid
        }
}

} // verus!
