use vstd::prelude::*;

use crate::constants::{LAMPORTS_PER_TOKEN, MAX_ORDERS_PER_BOOK};
use crate::errors::IpredictError;
use crate::order_book::{
    contains_order, insert_pos, lemma_order_index_props, order_index, Order, OrderBook,
    OrderBookView, OrderSide, TokenType,
};
use crate::user_position::UserPosition;
use crate::wager::Wager;

verus! {

/// Custody work a successful placement owes the caller: for a sell
/// order, the quantity of outcome tokens to move into escrow; a buy
/// order is only validated against the live balance, not escrowed.
#[derive(Clone, Copy, Debug, PartialEq, Eq, Structural)]
pub struct PlaceOrderEffect {
    pub order_id: u64,
    pub escrow_tokens: u64,
}

/// The resting order a placement creates.
pub open spec fn placed_order(
    book: OrderBookView,
    user: u64,
    side: OrderSide,
    token_type: TokenType,
    price: u64,
    quantity: u64,
    now: i64,
) -> Order {
    Order {
        id: book.next_order_id,
        owner: user,
        side,
        token_type,
        price,
        quantity,
        filled_quantity: 0,
        timestamp: now,
    }
}

/// The position totals a placement raises: tokens bought for a buy
/// order, tokens sold for a sell order, on the order's own outcome
/// token.
pub open spec fn position_after_place(
    position: UserPosition,
    side: OrderSide,
    token_type: TokenType,
    quantity: u64,
) -> UserPosition {
    match (side, token_type) {
        (OrderSide::Buy, TokenType::Yes) => UserPosition {
            yes_tokens_bought: (position.yes_tokens_bought + quantity) as u64,
            ..position
        },
        (OrderSide::Buy, TokenType::No) => UserPosition {
            no_tokens_bought: (position.no_tokens_bought + quantity) as u64,
            ..position
        },
        (OrderSide::Sell, TokenType::Yes) => UserPosition {
            yes_tokens_sold: (position.yes_tokens_sold + quantity) as u64,
            ..position
        },
        (OrderSide::Sell, TokenType::No) => UserPosition {
            no_tokens_sold: (position.no_tokens_sold + quantity) as u64,
            ..position
        },
    }
}

/// Whether a placement's position update would overflow.
pub open spec fn place_position_overflows(
    position: UserPosition,
    side: OrderSide,
    token_type: TokenType,
    quantity: u64,
) -> bool {
    match (side, token_type) {
        (OrderSide::Buy, TokenType::Yes) => position.yes_tokens_bought + quantity > u64::MAX,
        (OrderSide::Buy, TokenType::No) => position.no_tokens_bought + quantity > u64::MAX,
        (OrderSide::Sell, TokenType::Yes) => position.yes_tokens_sold + quantity > u64::MAX,
        (OrderSide::Sell, TokenType::No) => position.no_tokens_sold + quantity > u64::MAX,
    }
}

/// Places a resting limit order.  The price must be positive and at most
/// the ceiling, the quantity positive, and the market open.  A seller
/// must hold the quantity offered (it moves to escrow); a buyer's
/// balance must cover the order's full cost, which is validated against
/// the live balance rather than escrowed.  On success the order rests at
/// its price-time position under a fresh id and the caller's totals
/// rise; on failure nothing changes.
pub fn place_order(
    wager: &Wager,
    book: &mut OrderBook,
    position: &mut UserPosition,
    user: u64,
    user_token_balance: u64,
    user_lamports: u64,
    side: OrderSide,
    token_type: TokenType,
    price: u64,
    quantity: u64,
    now: i64,
) -> (r: Result<PlaceOrderEffect, IpredictError>)
    requires
        old(book)@.wf(),
    ensures
        final(book)@.wf(),
        ({
            let o = placed_order(old(book)@, user, side, token_type, price, quantity, now);
            let q = old(book)@.queue(side, token_type);
            let valid_inputs = {
                &&& 0 < price <= LAMPORTS_PER_TOKEN
                &&& quantity > 0
                &&& wager@.spec_is_open(now)
            };
            let funded = match side {
                OrderSide::Sell => user_token_balance >= quantity,
                OrderSide::Buy => quantity * price <= u64::MAX && user_lamports >= quantity
                    * price,
            };
            let unchanged = final(book)@ == old(book)@ && *final(position) == *old(position);
            match r {
                Ok(eff) => {
                    &&& valid_inputs
                    &&& funded
                    &&& q.len() < MAX_ORDERS_PER_BOOK
                    &&& old(book)@.next_order_id < u64::MAX
                    &&& !place_position_overflows(*old(position), side, token_type, quantity)
                    &&& eff.order_id == old(book)@.next_order_id
                    &&& eff.escrow_tokens == (if side == OrderSide::Sell {
                        quantity
                    } else {
                        0
                    })
                    &&& final(book)@ == old(book)@.with_queue(
                        side,
                        token_type,
                        q.insert(insert_pos(side, q, o), o),
                    ).with_next_id((old(book)@.next_order_id + 1) as u64)
                    &&& *final(position) == position_after_place(
                        *old(position),
                        side,
                        token_type,
                        quantity,
                    )
                },
                Err(e) => {
                    &&& unchanged
                    &&& match e {
                        IpredictError::InvalidOrderPrice => price == 0 || price
                            > LAMPORTS_PER_TOKEN,
                        IpredictError::InvalidOrderQuantity => {
                            &&& 0 < price <= LAMPORTS_PER_TOKEN
                            &&& quantity == 0
                        },
                        IpredictError::WagerNotOpen => {
                            &&& 0 < price <= LAMPORTS_PER_TOKEN
                            &&& quantity > 0
                            &&& !wager@.spec_is_open(now)
                        },
                        IpredictError::MathOverflow => {
                            &&& valid_inputs
                            &&& (if side == OrderSide::Buy && quantity * price > u64::MAX {
                                true
                            } else {
                                &&& funded
                                &&& q.len() < MAX_ORDERS_PER_BOOK
                                &&& (old(book)@.next_order_id == u64::MAX
                                    || place_position_overflows(
                                    *old(position),
                                    side,
                                    token_type,
                                    quantity,
                                ))
                            })
                        },
                        IpredictError::InsufficientBalance => {
                            &&& valid_inputs
                            &&& !funded
                            &&& (side == OrderSide::Sell || quantity * price <= u64::MAX)
                        },
                        IpredictError::OrderBookFull => {
                            &&& valid_inputs
                            &&& funded
                            &&& q.len() >= MAX_ORDERS_PER_BOOK
                        },
                        _ => false,
                    }
                },
            }
        }),
{
    if price == 0 || price > LAMPORTS_PER_TOKEN {
        return Err(IpredictError::InvalidOrderPrice);
    }
    if quantity == 0 {
        return Err(IpredictError::InvalidOrderQuantity);
    }
    if !wager.is_open(now) {
        return Err(IpredictError::WagerNotOpen);
    }
    if side == OrderSide::Sell {
        if user_token_balance < quantity {
            return Err(IpredictError::InsufficientBalance);
        }
    } else {
        let required = match quantity.checked_mul(price) {
            Some(v) => v,
            None => {
                return Err(IpredictError::MathOverflow);
            },
        };
        if user_lamports < required {
            return Err(IpredictError::InsufficientBalance);
        }
    }
    let queue_len = match (side, token_type) {
        (OrderSide::Buy, TokenType::Yes) => book.buy_orders_yes.len(),
        (OrderSide::Sell, TokenType::Yes) => book.sell_orders_yes.len(),
        (OrderSide::Buy, TokenType::No) => book.buy_orders_no.len(),
        (OrderSide::Sell, TokenType::No) => book.sell_orders_no.len(),
    };
    if queue_len >= MAX_ORDERS_PER_BOOK {
        return Err(IpredictError::OrderBookFull);
    }
    let next_id = match book.next_order_id.checked_add(1) {
        Some(v) => v,
        None => {
            return Err(IpredictError::MathOverflow);
        },
    };
    let new_total = match (side, token_type) {
        (OrderSide::Buy, TokenType::Yes) => position.yes_tokens_bought.checked_add(quantity),
        (OrderSide::Buy, TokenType::No) => position.no_tokens_bought.checked_add(quantity),
        (OrderSide::Sell, TokenType::Yes) => position.yes_tokens_sold.checked_add(quantity),
        (OrderSide::Sell, TokenType::No) => position.no_tokens_sold.checked_add(quantity),
    };
    let new_total = match new_total {
        Some(v) => v,
        None => {
            return Err(IpredictError::MathOverflow);
        },
    };
    let order = Order {
        id: book.next_order_id,
        owner: user,
        side,
        token_type,
        price,
        quantity,
        filled_quantity: 0,
        timestamp: now,
    };
    book.next_order_id = next_id;
    let added = book.add_order(order);
    match added {
        Ok(()) => (),
        Err(_) => {
            proof {
                assert(false);
            }
            return Err(IpredictError::OrderBookFull);
        },
    }
    match (side, token_type) {
        (OrderSide::Buy, TokenType::Yes) => {
            position.yes_tokens_bought = new_total;
        },
        (OrderSide::Buy, TokenType::No) => {
            position.no_tokens_bought = new_total;
        },
        (OrderSide::Sell, TokenType::Yes) => {
            position.yes_tokens_sold = new_total;
        },
        (OrderSide::Sell, TokenType::No) => {
            position.no_tokens_sold = new_total;
        },
    }
    Ok(PlaceOrderEffect {
        order_id: order.id,
        escrow_tokens: if side == OrderSide::Sell {
            quantity
        } else {
            0
        },
    })
}

/// Custody work a successful cancellation owes the caller: the removed
/// order, and for a sell order the unfilled remainder to release from
/// escrow back to its owner.  A cancelled buy order releases nothing,
/// since buy orders are never escrowed.
#[derive(Clone, Copy, Debug, PartialEq, Eq, Structural)]
pub struct CancelEffect {
    pub order: Order,
    pub refund_tokens: u64,
}

/// The first queue, in the fixed search order buy-YES, sell-YES,
/// buy-NO, sell-NO, that holds an order with the given id.
pub open spec fn first_queue_with(book: OrderBookView, id: u64) -> Option<(OrderSide, TokenType)> {
    if contains_order(book.buy_orders_yes, id) {
        Some((OrderSide::Buy, TokenType::Yes))
    } else if contains_order(book.sell_orders_yes, id) {
        Some((OrderSide::Sell, TokenType::Yes))
    } else if contains_order(book.buy_orders_no, id) {
        Some((OrderSide::Buy, TokenType::No))
    } else if contains_order(book.sell_orders_no, id) {
        Some((OrderSide::Sell, TokenType::No))
    } else {
        None
    }
}

/// Finds the first index of an order with the given id.
fn find_order(q: &Vec<Order>, id: u64) -> (r: Option<usize>)
    ensures
        match r {
            Some(i) => contains_order(q@, id) && i == order_index(q@, id),
            None => !contains_order(q@, id),
        },
{
    let ghost q0 = q@;
    proof {
        assert(q0.skip(0) =~= q0);
    }
    let mut i: usize = 0;
    while i < q.len() && q[i].id != id
        invariant
            q@ == q0,
            0 <= i <= q0.len(),
            forall|k: int| 0 <= k < i ==> (#[trigger] q0[k]).id != id,
            contains_order(q0, id) ==> order_index(q0, id) == i + order_index(
                q0.skip(i as int),
                id,
            ),
        decreases q0.len() - i,
    {
        proof {
            assert(q0.skip(i as int)[0] == q0[i as int]);
            assert(q0.skip(i as int).drop_first() =~= q0.skip(i + 1));
        }
        i = i + 1;
    }
    if i >= q.len() {
        proof {
            assert(!contains_order(q0, id));
        }
        None
    } else {
        proof {
            assert(contains_order(q0, id));
            assert(q0.skip(i as int)[0] == q0[i as int]);
        }
        Some(i)
    }
}

/// Cancels a resting order by id: searches the four queues in a fixed
/// order, verifies the caller owns the order, removes it, and reports
/// the escrow to release.  An unknown id fails with `OrderNotFound`, a
/// foreign order with `Unauthorized`; failure leaves the book
/// untouched.
pub fn cancel_order(book: &mut OrderBook, user: u64, order_id: u64) -> (r: Result<
    CancelEffect,
    IpredictError,
>)
    requires
        old(book)@.wf(),
    ensures
        final(book)@.wf(),
        ({
            let hit = first_queue_with(old(book)@, order_id);
            match r {
                Ok(eff) => {
                    &&& hit is Some
                    &&& {
                        let side = hit->Some_0.0;
                        let token = hit->Some_0.1;
                        let q = old(book)@.queue(side, token);
                        let o = q[order_index(q, order_id)];
                        &&& o.owner == user
                        &&& eff.order == o
                        &&& eff.refund_tokens == (if o.side == OrderSide::Sell {
                            o.quantity - o.filled_quantity
                        } else {
                            0
                        })
                        &&& final(book)@ == old(book)@.with_queue(
                            side,
                            token,
                            q.remove(order_index(q, order_id)),
                        )
                    }
                },
                Err(e) => {
                    &&& final(book)@ == old(book)@
                    &&& match e {
                        IpredictError::OrderNotFound => hit is None,
                        IpredictError::Unauthorized => {
                            &&& hit is Some
                            &&& {
                                let q = old(book)@.queue(hit->Some_0.0, hit->Some_0.1);
                                q[order_index(q, order_id)].owner != user
                            }
                        },
                        _ => false,
                    }
                },
            }
        }),
{
    let mut side = OrderSide::Buy;
    let mut token = TokenType::Yes;
    let mut index: Option<usize> = find_order(&book.buy_orders_yes, order_id);
    if index.is_none() {
        side = OrderSide::Sell;
        token = TokenType::Yes;
        index = find_order(&book.sell_orders_yes, order_id);
    }
    if index.is_none() {
        side = OrderSide::Buy;
        token = TokenType::No;
        index = find_order(&book.buy_orders_no, order_id);
    }
    if index.is_none() {
        side = OrderSide::Sell;
        token = TokenType::No;
        index = find_order(&book.sell_orders_no, order_id);
    }
    let i = match index {
        None => {
            return Err(IpredictError::OrderNotFound);
        },
        Some(i) => i,
    };
    proof {
        if contains_order(book@.buy_orders_yes, order_id) {
            lemma_order_index_props(book@.buy_orders_yes, order_id);
        }
        if contains_order(book@.sell_orders_yes, order_id) {
            lemma_order_index_props(book@.sell_orders_yes, order_id);
        }
        if contains_order(book@.buy_orders_no, order_id) {
            lemma_order_index_props(book@.buy_orders_no, order_id);
        }
        if contains_order(book@.sell_orders_no, order_id) {
            lemma_order_index_props(book@.sell_orders_no, order_id);
        }
    }
    let order = match (side, token) {
        (OrderSide::Buy, TokenType::Yes) => book.buy_orders_yes[i],
        (OrderSide::Sell, TokenType::Yes) => book.sell_orders_yes[i],
        (OrderSide::Buy, TokenType::No) => book.buy_orders_no[i],
        (OrderSide::Sell, TokenType::No) => book.sell_orders_no[i],
    };
    if order.owner != user {
        return Err(IpredictError::Unauthorized);
    }
    let removed = match book.remove_order(order_id, side, token) {
        Ok(o) => o,
        Err(_) => {
            proof {
                assert(false);
            }
            return Err(IpredictError::OrderNotFound);
        },
    };
    let refund = if removed.side == OrderSide::Sell {
        removed.remaining_quantity()
    } else {
        0
    };
    Ok(CancelEffect { order: removed, refund_tokens: refund })
}

} // verus!
