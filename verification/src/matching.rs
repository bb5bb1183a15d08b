use vstd::arithmetic::div_mod::{lemma_div_is_ordered, lemma_div_pos_is_pos};
use vstd::arithmetic::mul::lemma_mul_inequality;
use vstd::prelude::*;

use crate::constants::{BPS_DIVISOR, PLATFORM_FEE_BPS, TOTAL_FEE_BPS};
use crate::errors::IpredictError;
use crate::order_book::{
    all_resting, lemma_queue_wf_drop_first, lemma_queue_wf_update_head, queue_wf, Order,
    OrderBook, OrderBookView, OrderSide, TokenType,
};
use crate::platform::Platform;
use crate::wager::{Wager, WagerView};

verus! {

/// Fee charged on a trade's notional: the total fee rate in basis
/// points, truncated.
pub open spec fn spec_fee(notional: int) -> int {
    notional * TOTAL_FEE_BPS / (BPS_DIVISOR as int)
}

/// The platform's share of a fee: its basis points out of the total fee
/// rate, truncated.  The creator receives the remainder, so no unit of
/// the fee is lost or duplicated by the split.
pub open spec fn spec_platform_fee(fee: int) -> int {
    fee * PLATFORM_FEE_BPS / (TOTAL_FEE_BPS as int)
}

/// The fee is between zero and the notional, and the platform's share is
/// between zero and the fee, so the creator's remainder is never
/// negative.
pub proof fn lemma_fee_split(notional: int)
    requires
        0 <= notional,
    ensures
        0 <= spec_fee(notional) <= notional,
        0 <= spec_platform_fee(spec_fee(notional)) <= spec_fee(notional),
{
    let fee = spec_fee(notional);
    lemma_div_pos_is_pos(notional * TOTAL_FEE_BPS, BPS_DIVISOR as int);
    assert(notional * TOTAL_FEE_BPS <= notional * BPS_DIVISOR) by {
        lemma_mul_inequality(TOTAL_FEE_BPS as int, BPS_DIVISOR as int, notional);
    }
    assert(notional * BPS_DIVISOR / (BPS_DIVISOR as int) == notional) by {
        vstd::arithmetic::div_mod::lemma_div_multiples_vanish(notional, BPS_DIVISOR as int);
    }
    lemma_div_is_ordered(notional * TOTAL_FEE_BPS, notional * BPS_DIVISOR, BPS_DIVISOR as int);
    lemma_div_pos_is_pos(fee * PLATFORM_FEE_BPS, TOTAL_FEE_BPS as int);
    assert(fee * PLATFORM_FEE_BPS <= fee * TOTAL_FEE_BPS) by {
        lemma_mul_inequality(PLATFORM_FEE_BPS as int, TOTAL_FEE_BPS as int, fee);
    }
    assert(fee * TOTAL_FEE_BPS / (TOTAL_FEE_BPS as int) == fee) by {
        vstd::arithmetic::div_mod::lemma_div_multiples_vanish(fee, TOTAL_FEE_BPS as int);
    }
    lemma_div_is_ordered(fee * PLATFORM_FEE_BPS, fee * TOTAL_FEE_BPS, TOTAL_FEE_BPS as int);
}

/// One executed trade between a crossing buy and sell order: the matched
/// quantity, the truncated midpoint execution price, the notional, and
/// the fee with its exact platform/creator split.
#[derive(Clone, Copy, Debug, PartialEq, Eq, Structural)]
pub struct Fill {
    pub quantity: u64,
    pub execution_price: u64,
    pub notional: u64,
    pub fee: u64,
    pub platform_fee: u64,
    pub creator_fee: u64,
}

/// Quantity traded when the two orders cross: the smaller of the two
/// unfilled remainders.
pub open spec fn spec_match_quantity(buy: Order, sell: Order) -> int {
    if buy.spec_remaining() <= sell.spec_remaining() {
        buy.spec_remaining()
    } else {
        sell.spec_remaining()
    }
}

/// Execution price of a crossing pair: the midpoint of the two limit
/// prices, truncated.
pub open spec fn spec_execution_price(buy: Order, sell: Order) -> int {
    (buy.price + sell.price) / 2
}

/// Computes the trade a crossing buy/sell pair executes: quantity, price,
/// notional, fee, and the exact fee split.  Fails with `MathOverflow`
/// exactly when the notional, or the notional scaled by the fee rate,
/// exceeds the checked 64-bit range; nothing is mutated either way.
pub fn compute_fill(buy: &Order, sell: &Order) -> (r: Result<Fill, IpredictError>)
    requires
        buy.valid(),
        sell.valid(),
        buy.price >= sell.price,
    ensures
        match r {
            Ok(f) => {
                let mq = spec_match_quantity(*buy, *sell);
                let ep = spec_execution_price(*buy, *sell);
                &&& mq * ep <= u64::MAX
                &&& mq * ep * TOTAL_FEE_BPS <= u64::MAX
                &&& f.quantity == mq
                &&& f.execution_price == ep
                &&& f.notional == mq * ep
                &&& f.fee == spec_fee(f.notional as int)
                &&& f.platform_fee == spec_platform_fee(f.fee as int)
                &&& f.creator_fee == f.fee - f.platform_fee
                &&& f.platform_fee + f.creator_fee == f.fee
                &&& f.fee <= f.notional
            },
            Err(e) => {
                let mq = spec_match_quantity(*buy, *sell);
                let ep = spec_execution_price(*buy, *sell);
                &&& e == IpredictError::MathOverflow
                &&& (mq * ep > u64::MAX || mq * ep * TOTAL_FEE_BPS > u64::MAX)
            },
        },
{
    let buy_rem = buy.remaining_quantity();
    let sell_rem = sell.remaining_quantity();
    let quantity = if buy_rem <= sell_rem {
        buy_rem
    } else {
        sell_rem
    };
    let execution_price = (buy.price + sell.price) / 2;
    let notional = match quantity.checked_mul(execution_price) {
        Some(v) => v,
        None => {
            return Err(IpredictError::MathOverflow);
        },
    };
    let scaled = match notional.checked_mul(TOTAL_FEE_BPS) {
        Some(v) => v,
        None => {
            return Err(IpredictError::MathOverflow);
        },
    };
    let fee = scaled / BPS_DIVISOR;
    proof {
        lemma_fee_split(notional as int);
    }
    let platform_fee = (fee * PLATFORM_FEE_BPS) / TOTAL_FEE_BPS;
    let creator_fee = fee - platform_fee;
    Ok(Fill { quantity, execution_price, notional, fee, platform_fee, creator_fee })
}

/// State of one queue pair as the matcher runs over it: the two queues,
/// the iterations still allowed, and the volume and fee totals
/// accumulated so far.
#[verifier::ext_equal]
pub struct MatchState {
    pub buys: Seq<Order>,
    pub sells: Seq<Order>,
    pub fuel: nat,
    pub volume: u64,
    pub fees: u64,
    pub platform_fees: u64,
}

/// Quantity the head orders would trade.
pub open spec fn match_quantity(s: MatchState) -> int {
    spec_match_quantity(s.buys[0], s.sells[0])
}

/// Notional of the trade the head orders would execute.
pub open spec fn match_notional(s: MatchState) -> int {
    match_quantity(s) * spec_execution_price(s.buys[0], s.sells[0])
}

/// Whether the matcher makes progress: iterations remain, both queues
/// are non-empty, the best buy meets or exceeds the best sell, and a
/// positive quantity can still trade.
pub open spec fn match_can_trade(s: MatchState) -> bool {
    &&& s.fuel > 0
    &&& s.buys.len() > 0
    &&& s.sells.len() > 0
    &&& s.buys[0].price >= s.sells[0].price
    &&& match_quantity(s) > 0
}

/// Whether the trade of the head orders stays inside checked 64-bit
/// arithmetic, accumulators included.
pub open spec fn match_step_ok(s: MatchState) -> bool {
    &&& s.buys[0].price + s.sells[0].price <= u64::MAX
    &&& match_notional(s) <= u64::MAX
    &&& match_notional(s) * TOTAL_FEE_BPS <= u64::MAX
    &&& s.volume + match_notional(s) <= u64::MAX
    &&& s.fees + spec_fee(match_notional(s)) <= u64::MAX
    &&& s.platform_fees + spec_platform_fee(spec_fee(match_notional(s))) <= u64::MAX
}

/// One executed match: both head orders' fills rise by the matched
/// quantity, an order that becomes full leaves its queue, and the
/// accumulators take the trade's notional and fees.
pub open spec fn match_step(s: MatchState) -> MatchState {
    let b = s.buys[0];
    let sl = s.sells[0];
    let mq = match_quantity(s);
    let notional = match_notional(s);
    let fee = spec_fee(notional);
    let pfee = spec_platform_fee(fee);
    let b2 = Order { filled_quantity: (b.filled_quantity + mq) as u64, ..b };
    let s2 = Order { filled_quantity: (sl.filled_quantity + mq) as u64, ..sl };
    MatchState {
        buys: if b2.filled_quantity >= b2.quantity {
            s.buys.drop_first()
        } else {
            s.buys.update(0, b2)
        },
        sells: if s2.filled_quantity >= s2.quantity {
            s.sells.drop_first()
        } else {
            s.sells.update(0, s2)
        },
        fuel: (s.fuel - 1) as nat,
        volume: (s.volume + notional) as u64,
        fees: (s.fees + fee) as u64,
        platform_fees: (s.platform_fees + pfee) as u64,
    }
}

/// The matcher on one queue pair: trades head against head while the
/// queues cross and iterations remain, and stops otherwise.  `None`
/// means a checked arithmetic step overflowed, which aborts the whole
/// invocation.
pub open spec fn match_loop(s: MatchState) -> Option<MatchState>
    decreases s.fuel,
{
    if !match_can_trade(s) {
        Some(s)
    } else if !match_step_ok(s) {
        None
    } else {
        match_loop(match_step(s))
    }
}

/// A match step keeps every queued order resting: a fill that reaches
/// the order's quantity removes it, any other fill leaves it valid and
/// partially unfilled.
pub proof fn lemma_match_step_preserves_resting(s: MatchState)
    requires
        match_can_trade(s),
        all_resting(s.buys),
        all_resting(s.sells),
    ensures
        all_resting(match_step(s).buys),
        all_resting(match_step(s).sells),
{
    let s2 = match_step(s);
    assert forall|i: int| 0 <= i < s2.buys.len() implies (#[trigger] s2.buys[i]).resting() by {
        if s2.buys == s.buys.drop_first() {
            assert(s2.buys[i] == s.buys[i + 1]);
        } else {
            if i != 0 {
                assert(s2.buys[i] == s.buys[i]);
            }
        }
    }
    assert forall|i: int| 0 <= i < s2.sells.len() implies (#[trigger] s2.sells[i]).resting() by {
        if s2.sells == s.sells.drop_first() {
            assert(s2.sells[i] == s.sells[i + 1]);
        } else {
            if i != 0 {
                assert(s2.sells[i] == s.sells[i]);
            }
        }
    }
}

/// Conservation law of a single match: each side's fill rises by exactly
/// the matched quantity (the smaller unfilled remainder), the fee and
/// volume accumulators rise by exactly the trade's fee and notional, and
/// the platform/creator split of the fee is exact, with no unit lost or
/// duplicated.
pub proof fn lemma_match_step_conservation(s: MatchState)
    requires
        match_can_trade(s),
        match_step_ok(s),
        all_resting(s.buys),
        all_resting(s.sells),
    ensures
        ({
            let mq = match_quantity(s);
            let fee = spec_fee(match_notional(s));
            let pfee = spec_platform_fee(fee);
            let s2 = match_step(s);
            let b2 = Order {
                filled_quantity: (s.buys[0].filled_quantity + mq) as u64,
                ..s.buys[0]
            };
            let sl2 = Order {
                filled_quantity: (s.sells[0].filled_quantity + mq) as u64,
                ..s.sells[0]
            };
            &&& 0 < mq
            &&& b2.filled_quantity == s.buys[0].filled_quantity + mq
            &&& sl2.filled_quantity == s.sells[0].filled_quantity + mq
            &&& s2.buys == (if b2.filled_quantity >= b2.quantity {
                s.buys.drop_first()
            } else {
                s.buys.update(0, b2)
            })
            &&& s2.sells == (if sl2.filled_quantity >= sl2.quantity {
                s.sells.drop_first()
            } else {
                s.sells.update(0, sl2)
            })
            &&& s2.volume == s.volume + match_notional(s)
            &&& s2.fees == s.fees + fee
            &&& s2.platform_fees == s.platform_fees + pfee
            &&& 0 <= pfee <= fee
            &&& pfee + (fee - pfee) == fee
        }),
{
    assert(0 <= match_notional(s)) by {
        vstd::arithmetic::mul::lemma_mul_nonnegative(
            match_quantity(s),
            spec_execution_price(s.buys[0], s.sells[0]),
        );
        vstd::arithmetic::div_mod::lemma_div_pos_is_pos(
            s.buys[0].price + s.sells[0].price,
            2,
        );
    }
    lemma_fee_split(match_notional(s));
}

/// Copies a queue so the matcher can work without touching the book
/// until the whole invocation is known to succeed.
pub(crate) fn clone_orders(v: &Vec<Order>) -> (r: Vec<Order>)
    ensures
        r@ == v@,
{
    let mut r: Vec<Order> = Vec::new();
    let mut i: usize = 0;
    while i < v.len()
        invariant
            0 <= i <= v.len(),
            r@ == v@.subrange(0, i as int),
        decreases v.len() - i,
    {
        r.push(v[i]);
        proof {
            assert(r@ =~= v@.subrange(0, i + 1));
        }
        i = i + 1;
    }
    proof {
        assert(v@.subrange(0, v@.len() as int) =~= v@);
    }
    r
}

/// Whether the matcher can still look at a head pair: iterations remain,
/// both queues are non-empty, and the best buy meets the best sell.
fn crossing_possible(buys: &Vec<Order>, sells: &Vec<Order>, fuel: u8) -> (r: bool)
    ensures
        r == (fuel > 0 && buys@.len() > 0 && sells@.len() > 0 && buys@[0].price
            >= sells@[0].price),
{
    fuel > 0 && buys.len() > 0 && sells.len() > 0 && buys[0].price >= sells[0].price
}

/// Result of running the matcher over one queue pair.
struct PairOutcome {
    buys: Vec<Order>,
    sells: Vec<Order>,
    fuel: u8,
    volume: u64,
    fees: u64,
    platform_fees: u64,
}

/// Runs the matcher over one queue pair, mirroring `match_loop` exactly:
/// returns the drained queues and accumulators on success, or
/// `MathOverflow` exactly when the specification overflows.
#[verifier::loop_isolation(false)]
fn match_queue_pair(
    buys: Vec<Order>,
    sells: Vec<Order>,
    fuel: u8,
    volume: u64,
    fees: u64,
    platform_fees: u64,
    Ghost(token): Ghost<TokenType>,
    Ghost(nid): Ghost<u64>,
) -> (r: Result<PairOutcome, IpredictError>)
    requires
        queue_wf(buys@, OrderSide::Buy, token, nid),
        queue_wf(sells@, OrderSide::Sell, token, nid),
        platform_fees <= fees,
    ensures
        ({
            let init = MatchState {
                buys: buys@,
                sells: sells@,
                fuel: fuel as nat,
                volume,
                fees,
                platform_fees,
            };
            match r {
                Ok(o) => {
                    &&& match_loop(init) == Some(
                        MatchState {
                            buys: o.buys@,
                            sells: o.sells@,
                            fuel: o.fuel as nat,
                            volume: o.volume,
                            fees: o.fees,
                            platform_fees: o.platform_fees,
                        },
                    )
                    &&& queue_wf(o.buys@, OrderSide::Buy, token, nid)
                    &&& queue_wf(o.sells@, OrderSide::Sell, token, nid)
                    &&& o.platform_fees <= o.fees
                },
                Err(e) => {
                    &&& e == IpredictError::MathOverflow
                    &&& match_loop(init) is None
                },
            }
        }),
{
    let mut buys = buys;
    let mut sells = sells;
    let mut fuel = fuel;
    let mut volume = volume;
    let mut fees = fees;
    let mut platform_fees = platform_fees;
    let ghost init = MatchState {
        buys: buys@,
        sells: sells@,
        fuel: fuel as nat,
        volume,
        fees,
        platform_fees,
    };
    while crossing_possible(&buys, &sells, fuel)
        invariant
            queue_wf(buys@, OrderSide::Buy, token, nid),
            queue_wf(sells@, OrderSide::Sell, token, nid),
            platform_fees <= fees,
            match_loop(
                MatchState {
                    buys: buys@,
                    sells: sells@,
                    fuel: fuel as nat,
                    volume,
                    fees,
                    platform_fees,
                },
            ) == match_loop(init),
        decreases fuel,
    {
        let ghost cur = MatchState {
            buys: buys@,
            sells: sells@,
            fuel: fuel as nat,
            volume,
            fees,
            platform_fees,
        };
        let b = buys[0];
        let s = sells[0];
        proof {
            assert(b.resting() && s.resting());
            assert(match_can_trade(cur));
        }
        let f = match compute_fill(&b, &s) {
            Ok(f) => f,
            Err(e) => {
                proof {
                    assert(!match_step_ok(cur));
                    assert(match_loop(cur) is None);
                }
                return Err(e);
            },
        };
        let new_volume = match volume.checked_add(f.notional) {
            Some(v) => v,
            None => {
                proof {
                    assert(!match_step_ok(cur));
                    assert(match_loop(cur) is None);
                }
                return Err(IpredictError::MathOverflow);
            },
        };
        let new_fees = match fees.checked_add(f.fee) {
            Some(v) => v,
            None => {
                proof {
                    assert(!match_step_ok(cur));
                    assert(match_loop(cur) is None);
                }
                return Err(IpredictError::MathOverflow);
            },
        };
        let new_platform_fees = platform_fees + f.platform_fee;
        proof {
            assert(match_step_ok(cur));
        }
        let b2 = Order { filled_quantity: b.filled_quantity + f.quantity, ..b };
        let s2 = Order { filled_quantity: s.filled_quantity + f.quantity, ..s };
        proof {
            if b2.filled_quantity >= b2.quantity {
                lemma_queue_wf_drop_first(buys@, OrderSide::Buy, token, nid);
            } else {
                lemma_queue_wf_update_head(buys@, b2, OrderSide::Buy, token, nid);
            }
            if s2.filled_quantity >= s2.quantity {
                lemma_queue_wf_drop_first(sells@, OrderSide::Sell, token, nid);
            } else {
                lemma_queue_wf_update_head(sells@, s2, OrderSide::Sell, token, nid);
            }
        }
        if b2.filled_quantity >= b2.quantity {
            let _ = buys.remove(0);
            proof {
                assert(buys@ =~= cur.buys.drop_first());
            }
        } else {
            buys.set(0, b2);
        }
        if s2.filled_quantity >= s2.quantity {
            let _ = sells.remove(0);
            proof {
                assert(sells@ =~= cur.sells.drop_first());
            }
        } else {
            sells.set(0, s2);
        }
        fuel = fuel - 1;
        volume = new_volume;
        fees = new_fees;
        platform_fees = new_platform_fees;
        proof {
            let now = MatchState {
                buys: buys@,
                sells: sells@,
                fuel: fuel as nat,
                volume,
                fees,
                platform_fees,
            };
            assert(now =~= match_step(cur));
            assert(match_loop(cur) == match_loop(match_step(cur)));
        }
    }
    proof {
        let done = MatchState {
            buys: buys@,
            sells: sells@,
            fuel: fuel as nat,
            volume,
            fees,
            platform_fees,
        };
        assert(!match_can_trade(done));
        assert(match_loop(done) == Some(done));
    }
    Ok(PairOutcome { buys, sells, fuel, volume, fees, platform_fees })
}

/// What one matching invocation executed: total traded notional, total
/// fees, and the exact split of those fees between platform and market
/// creator.
#[derive(Clone, Copy, Debug, PartialEq, Eq, Structural)]
pub struct MatchReport {
    pub volume: u64,
    pub fees: u64,
    pub platform_fee: u64,
    pub creator_fee: u64,
}

/// The matcher's starting state for the YES queue pair.
pub open spec fn yes_match_input(book: OrderBookView, max_iterations: u8) -> MatchState {
    MatchState {
        buys: book.buy_orders_yes,
        sells: book.sell_orders_yes,
        fuel: max_iterations as nat,
        volume: 0,
        fees: 0,
        platform_fees: 0,
    }
}

/// The matcher's starting state for the NO queue pair: it continues with
/// whatever iterations and accumulators the YES pair left.
pub open spec fn no_match_input(book: OrderBookView, y: MatchState) -> MatchState {
    MatchState {
        buys: book.buy_orders_no,
        sells: book.sell_orders_no,
        fuel: y.fuel,
        volume: y.volume,
        fees: y.fees,
        platform_fees: y.platform_fees,
    }
}

/// Whether a matching invocation on this book would abort on checked
/// arithmetic: either a trade in one of the two queue pairs overflows,
/// or folding the totals into the market or platform aggregates would.
pub open spec fn match_invocation_overflows(
    book: OrderBookView,
    wager: WagerView,
    platform: Platform,
    max_iterations: u8,
) -> bool {
    let y = match_loop(yes_match_input(book, max_iterations));
    ||| y is None
    ||| {
        let n = match_loop(no_match_input(book, y->Some_0));
        ||| n is None
        ||| wager.total_volume_traded + n->Some_0.volume > u64::MAX
        ||| wager.total_fees_collected + n->Some_0.fees > u64::MAX
        ||| platform.total_volume_traded + n->Some_0.volume > u64::MAX
        ||| platform.total_fees_collected + n->Some_0.fees > u64::MAX
    }
}

/// Crosses the YES queue pair and then the NO queue pair of the book,
/// bounded by `max_iterations` executed trades in all, and folds the
/// traded volume and collected fees into the market's and the platform's
/// aggregates.  The caller owes the reported platform and creator fee
/// amounts to their recipients.
///
/// The invocation is atomic: if any checked arithmetic step overflows it
/// fails with `MathOverflow` — exactly when the specification says so —
/// and the book, the market and the platform are left untouched.
pub fn match_orders(
    book: &mut OrderBook,
    wager: &mut Wager,
    platform: &mut Platform,
    max_iterations: u8,
) -> (r: Result<MatchReport, IpredictError>)
    requires
        old(book)@.wf(),
    ensures
        final(book)@.wf(),
        final(book)@.next_order_id == old(book)@.next_order_id,
        match r {
            Ok(rep) => ({
                let y = match_loop(yes_match_input(old(book)@, max_iterations));
                &&& y is Some
                &&& {
                    let n = match_loop(no_match_input(old(book)@, y->Some_0));
                    &&& n is Some
                    &&& final(book)@.buy_orders_yes == y->Some_0.buys
                    &&& final(book)@.sell_orders_yes == y->Some_0.sells
                    &&& final(book)@.buy_orders_no == n->Some_0.buys
                    &&& final(book)@.sell_orders_no == n->Some_0.sells
                    &&& rep.volume == n->Some_0.volume
                    &&& rep.fees == n->Some_0.fees
                    &&& rep.platform_fee == n->Some_0.platform_fees
                    &&& rep.creator_fee == rep.fees - rep.platform_fee
                    &&& rep.platform_fee <= rep.fees
                    &&& final(wager)@ == (WagerView {
                        total_volume_traded: (old(wager)@.total_volume_traded + rep.volume) as u64,
                        total_fees_collected: (old(wager)@.total_fees_collected + rep.fees) as u64,
                        ..old(wager)@
                    })
                    &&& old(wager)@.total_volume_traded + rep.volume <= u64::MAX
                    &&& old(wager)@.total_fees_collected + rep.fees <= u64::MAX
                    &&& *final(platform) == (Platform {
                        total_volume_traded: (old(platform).total_volume_traded
                            + rep.volume) as u64,
                        total_fees_collected: (old(platform).total_fees_collected
                            + rep.fees) as u64,
                        ..*old(platform)
                    })
                    &&& old(platform).total_volume_traded + rep.volume <= u64::MAX
                    &&& old(platform).total_fees_collected + rep.fees <= u64::MAX
                }
            }),
            Err(e) => {
                &&& e == IpredictError::MathOverflow
                &&& match_invocation_overflows(
                    old(book)@,
                    old(wager)@,
                    *old(platform),
                    max_iterations,
                )
                &&& final(book)@ == old(book)@
                &&& final(wager)@ == old(wager)@
                &&& *final(platform) == *old(platform)
            },
        },
{
    let buys_yes = clone_orders(&book.buy_orders_yes);
    let sells_yes = clone_orders(&book.sell_orders_yes);
    let y = match match_queue_pair(
        buys_yes,
        sells_yes,
        max_iterations,
        0,
        0,
        0,
        Ghost(TokenType::Yes),
        Ghost(book.next_order_id),
    ) {
        Ok(o) => o,
        Err(e) => {
            return Err(e);
        },
    };
    let buys_no = clone_orders(&book.buy_orders_no);
    let sells_no = clone_orders(&book.sell_orders_no);
    let n = match match_queue_pair(
        buys_no,
        sells_no,
        y.fuel,
        y.volume,
        y.fees,
        y.platform_fees,
        Ghost(TokenType::No),
        Ghost(book.next_order_id),
    ) {
        Ok(o) => o,
        Err(e) => {
            return Err(e);
        },
    };
    let new_wager_volume = match wager.total_volume_traded.checked_add(n.volume) {
        Some(v) => v,
        None => {
            return Err(IpredictError::MathOverflow);
        },
    };
    let new_wager_fees = match wager.total_fees_collected.checked_add(n.fees) {
        Some(v) => v,
        None => {
            return Err(IpredictError::MathOverflow);
        },
    };
    let new_platform_volume = match platform.total_volume_traded.checked_add(n.volume) {
        Some(v) => v,
        None => {
            return Err(IpredictError::MathOverflow);
        },
    };
    let new_platform_fees = match platform.total_fees_collected.checked_add(n.fees) {
        Some(v) => v,
        None => {
            return Err(IpredictError::MathOverflow);
        },
    };
    book.buy_orders_yes = y.buys;
    book.sell_orders_yes = y.sells;
    book.buy_orders_no = n.buys;
    book.sell_orders_no = n.sells;
    wager.total_volume_traded = new_wager_volume;
    wager.total_fees_collected = new_wager_fees;
    platform.total_volume_traded = new_platform_volume;
    platform.total_fees_collected = new_platform_fees;
    Ok(MatchReport {
        volume: n.volume,
        fees: n.fees,
        platform_fee: n.platform_fees,
        creator_fee: n.fees - n.platform_fees,
    })
}

/// The matcher never gains iterations: it ends with at most the fuel it
/// started with.
pub proof fn lemma_match_loop_fuel(s: MatchState)
    requires
        match_loop(s) is Some,
    ensures
        match_loop(s)->Some_0.fuel <= s.fuel,
    decreases s.fuel,
{
    if match_can_trade(s) && match_step_ok(s) {
        lemma_match_loop_fuel(match_step(s));
    }
}

/// No-cross law: once the matcher stops with iterations to spare, the
/// best resting buy prices strictly below the best resting sell, or one
/// side is empty.
pub proof fn lemma_no_cross_after_convergence(s: MatchState)
    requires
        all_resting(s.buys),
        all_resting(s.sells),
        match_loop(s) is Some,
        match_loop(s)->Some_0.fuel > 0,
    ensures
        ({
            let f = match_loop(s)->Some_0;
            ||| f.buys.len() == 0
            ||| f.sells.len() == 0
            ||| f.buys[0].price < f.sells[0].price
        }),
    decreases s.fuel,
{
    if match_can_trade(s) {
        lemma_match_step_preserves_resting(s);
        lemma_no_cross_after_convergence(match_step(s));
    } else {
        let f = match_loop(s)->Some_0;
        assert(f == s);
        if s.buys.len() > 0 && s.sells.len() > 0 {
            assert(s.buys[0].resting());
            assert(s.sells[0].resting());
            assert(match_quantity(s) > 0);
        }
    }
}

/// No-cross law for a whole matching invocation: when it converges
/// with iterations to spare, then for each outcome token the best
/// resting buy prices strictly below the best resting sell, or one side
/// of that token's book is empty.
pub proof fn lemma_no_cross_for_book(book: OrderBookView, max_iterations: u8)
    requires
        book.wf(),
        match_loop(yes_match_input(book, max_iterations)) is Some,
        ({
            let y = match_loop(yes_match_input(book, max_iterations))->Some_0;
            &&& match_loop(no_match_input(book, y)) is Some
            &&& match_loop(no_match_input(book, y))->Some_0.fuel > 0
        }),
    ensures
        ({
            let y = match_loop(yes_match_input(book, max_iterations))->Some_0;
            let n = match_loop(no_match_input(book, y))->Some_0;
            &&& (y.buys.len() == 0 || y.sells.len() == 0 || y.buys[0].price < y.sells[0].price)
            &&& (n.buys.len() == 0 || n.sells.len() == 0 || n.buys[0].price < n.sells[0].price)
        }),
{
    let y = match_loop(yes_match_input(book, max_iterations))->Some_0;
    let n = match_loop(no_match_input(book, y))->Some_0;
    lemma_match_loop_fuel(no_match_input(book, y));
    assert(y.fuel > 0);
    lemma_no_cross_after_convergence(yes_match_input(book, max_iterations));
    lemma_no_cross_after_convergence(no_match_input(book, y));
}

} // verus!
