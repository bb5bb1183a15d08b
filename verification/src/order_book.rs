use vstd::prelude::*;

use crate::constants::{LAMPORTS_PER_TOKEN, MAX_ORDERS_PER_BOOK};
use crate::errors::IpredictError;

verus! {

/// Which side of the book an order rests on.
#[derive(Clone, Copy, Debug, PartialEq, Eq, Structural)]
pub enum OrderSide {
    Buy,
    Sell,
}

/// Which outcome token an order trades.
#[derive(Clone, Copy, Debug, PartialEq, Eq, Structural)]
pub enum TokenType {
    Yes,
    No,
}

/// A single resting limit order.  Accounts are identified by plain numeric
/// ids; prices are collateral units per whole token at a fixed scale.
#[derive(Clone, Copy, Debug, PartialEq, Eq, Structural)]
pub struct Order {
    pub id: u64,
    pub owner: u64,
    pub side: OrderSide,
    pub token_type: TokenType,
    pub price: u64,
    pub quantity: u64,
    pub filled_quantity: u64,
    pub timestamp: i64,
}

impl Order {
    /// Quantity still unfilled.
    pub open spec fn spec_remaining(self) -> int {
        self.quantity - self.filled_quantity
    }

    /// Field invariant of any order the book accepts: a positive price no
    /// greater than the ceiling, a positive quantity, and a fill that never
    /// exceeds the quantity.
    pub open spec fn valid(self) -> bool {
        &&& 0 < self.price <= LAMPORTS_PER_TOKEN
        &&& self.quantity > 0
        &&& self.filled_quantity <= self.quantity
    }

    /// Invariant of an order that rests in a queue: valid and not yet
    /// fully filled.  Fully filled orders are removed, never left resting.
    pub open spec fn resting(self) -> bool {
        self.valid() && self.filled_quantity < self.quantity
    }

    /// Quantity still unfilled.
    pub fn remaining_quantity(&self) -> (r: u64)
        ensures
            self.filled_quantity <= self.quantity ==> r == self.spec_remaining(),
            self.filled_quantity > self.quantity ==> r == 0,
    {
        if self.quantity >= self.filled_quantity {
            self.quantity - self.filled_quantity
        } else {
            0
        }
    }

    /// Whether the order has been completely filled.
    pub fn is_filled(&self) -> (r: bool)
        ensures
            r == (self.filled_quantity >= self.quantity),
    {
        self.filled_quantity >= self.quantity
    }
}

/// Whether order `a` may stand (weakly) before order `b` in a queue of the
/// given side.  Buy queues rank higher prices first, sell queues lower
/// prices first; within one price the earlier timestamp wins priority.
pub open spec fn queue_le(side: OrderSide, a: Order, b: Order) -> bool {
    match side {
        OrderSide::Buy => a.price > b.price || (a.price == b.price && a.timestamp <= b.timestamp),
        OrderSide::Sell => a.price < b.price || (a.price == b.price && a.timestamp <= b.timestamp),
    }
}

/// Price-time priority ordering of a whole queue: on the buy side prices
/// are non-increasing, on the sell side non-decreasing, and equal prices
/// keep non-decreasing timestamps.
pub open spec fn queue_sorted(side: OrderSide, q: Seq<Order>) -> bool {
    forall|i: int, j: int| 0 <= i < j < q.len() ==> queue_le(side, #[trigger] q[i], #[trigger] q[j])
}

/// The position at which a new order is inserted: after every resting
/// order that keeps (weak) priority over it, before all others.
pub open spec fn insert_pos(side: OrderSide, q: Seq<Order>, o: Order) -> int
    decreases q.len(),
{
    if q.len() == 0 {
        0
    } else if queue_le(side, q[0], o) {
        1 + insert_pos(side, q.drop_first(), o)
    } else {
        0
    }
}

/// The insertion position is a valid index, everything before it keeps
/// priority over the new order, and the order standing at it (if any)
/// does not.
pub proof fn lemma_insert_pos_props(side: OrderSide, q: Seq<Order>, o: Order)
    ensures
        0 <= insert_pos(side, q, o) <= q.len(),
        forall|k: int| 0 <= k < insert_pos(side, q, o) ==> queue_le(side, #[trigger] q[k], o),
        insert_pos(side, q, o) < q.len() ==> !queue_le(side, q[insert_pos(side, q, o)], o),
    decreases q.len(),
{
    if q.len() > 0 && queue_le(side, q[0], o) {
        lemma_insert_pos_props(side, q.drop_first(), o);
        assert forall|k: int| 0 <= k < insert_pos(side, q, o) implies queue_le(
            side,
            #[trigger] q[k],
            o,
        ) by {
            if k > 0 {
                assert(q.drop_first()[k - 1] == q[k]);
            }
        }
        if insert_pos(side, q, o) < q.len() {
            assert(q.drop_first()[insert_pos(side, q.drop_first(), o)] == q[insert_pos(
                side,
                q,
                o,
            )]);
        }
    }
}

/// Price-time ordering is a law of the book: inserting any order at its
/// computed position leaves the queue ordered by descending price on the
/// buy side (ascending on the sell side) with ties broken by ascending
/// timestamp.
pub proof fn lemma_insert_preserves_sorted(side: OrderSide, q: Seq<Order>, o: Order)
    requires
        queue_sorted(side, q),
    ensures
        queue_sorted(side, q.insert(insert_pos(side, q, o), o)),
{
    let p = insert_pos(side, q, o);
    lemma_insert_pos_props(side, q, o);
    let q2 = q.insert(p, o);
    assert forall|i: int, j: int| 0 <= i < j < q2.len() implies queue_le(
        side,
        #[trigger] q2[i],
        #[trigger] q2[j],
    ) by {
        if i < p && j < p {
            assert(q2[i] == q[i] && q2[j] == q[j]);
        } else if i < p && j == p {
            assert(q2[i] == q[i] && q2[j] == o);
        } else if i < p && j > p {
            assert(q2[i] == q[i] && q2[j] == q[j - 1]);
        } else if i == p && j > p {
            assert(q2[i] == o && q2[j] == q[j - 1]);
            // the order displaced from position p has no priority over o,
            // so o keeps priority over it and, by ordering, over the rest
            assert(!queue_le(side, q[p], o));
            if j - 1 > p {
                assert(queue_le(side, q[p], q[j - 1]));
            }
        } else {
            assert(i > p && j > p);
            assert(q2[i] == q[i - 1] && q2[j] == q[j - 1]);
        }
    }
}

/// Whether some order in the queue carries the given id.
pub open spec fn contains_order(q: Seq<Order>, id: u64) -> bool {
    exists|i: int| 0 <= i < q.len() && (#[trigger] q[i]).id == id
}

/// Index of the first order carrying the given id.
pub open spec fn order_index(q: Seq<Order>, id: u64) -> int
    decreases q.len(),
{
    if q.len() == 0 {
        0
    } else if q[0].id == id {
        0
    } else {
        1 + order_index(q.drop_first(), id)
    }
}

/// When the queue holds the id, its first index is in range, carries the
/// id, and nothing before it does.
pub proof fn lemma_order_index_props(q: Seq<Order>, id: u64)
    requires
        contains_order(q, id),
    ensures
        0 <= order_index(q, id) < q.len(),
        q[order_index(q, id)].id == id,
        forall|k: int| 0 <= k < order_index(q, id) ==> (#[trigger] q[k]).id != id,
    decreases q.len(),
{
    if q.len() > 0 && q[0].id != id {
        assert(contains_order(q.drop_first(), id)) by {
            let i = choose|i: int| 0 <= i < q.len() && (#[trigger] q[i]).id == id;
            assert(q.drop_first()[i - 1] == q[i]);
        }
        lemma_order_index_props(q.drop_first(), id);
        assert forall|k: int| 0 <= k < order_index(q, id) implies (#[trigger] q[k]).id != id by {
            if k > 0 {
                assert(q.drop_first()[k - 1] == q[k]);
            }
        }
        assert(q.drop_first()[order_index(q.drop_first(), id)] == q[order_index(q, id)]);
    }
}

/// Removing any element keeps a queue ordered.
pub proof fn lemma_remove_preserves_sorted(side: OrderSide, q: Seq<Order>, i: int)
    requires
        queue_sorted(side, q),
        0 <= i < q.len(),
    ensures
        queue_sorted(side, q.remove(i)),
{
    let q2 = q.remove(i);
    assert forall|x: int, y: int| 0 <= x < y < q2.len() implies queue_le(
        side,
        #[trigger] q2[x],
        #[trigger] q2[y],
    ) by {
        let x0: int = if x < i { x } else { x + 1 };
        let y0: int = if y < i { y } else { y + 1 };
        assert(q2[x] == q[x0] && q2[y] == q[y0]);
    }
}

/// Whether every order of the queue is resting: valid and not yet fully
/// filled.
pub open spec fn all_resting(q: Seq<Order>) -> bool {
    forall|i: int| 0 <= i < q.len() ==> (#[trigger] q[i]).resting()
}

/// Contents of one queue together with the invariant every resting order
/// obeys: ordered by price-time priority, within capacity, every order
/// resting (partially unfilled), tagged with the queue's own side and
/// token, and carrying an id below the book's issuing counter.
pub open spec fn queue_wf(q: Seq<Order>, side: OrderSide, token: TokenType, next_id: u64) -> bool {
    &&& queue_sorted(side, q)
    &&& q.len() <= MAX_ORDERS_PER_BOOK
    &&& forall|i: int|
        0 <= i < q.len() ==> {
            &&& (#[trigger] q[i]).resting()
            &&& q[i].side == side
            &&& q[i].token_type == token
            &&& q[i].id < next_id
        }
}

/// Popping the head keeps the queue invariant.
pub proof fn lemma_queue_wf_drop_first(q: Seq<Order>, side: OrderSide, token: TokenType, nid: u64)
    requires
        queue_wf(q, side, token, nid),
        q.len() > 0,
    ensures
        queue_wf(q.drop_first(), side, token, nid),
{
    let q2 = q.drop_first();
    assert forall|i: int| 0 <= i < q2.len() implies {
        &&& (#[trigger] q2[i]).resting()
        &&& q2[i].side == side
        &&& q2[i].token_type == token
        &&& q2[i].id < nid
    } by {
        assert(q2[i] == q[i + 1]);
    }
    assert forall|i: int, j: int| 0 <= i < j < q2.len() implies queue_le(
        side,
        #[trigger] q2[i],
        #[trigger] q2[j],
    ) by {
        assert(q2[i] == q[i + 1] && q2[j] == q[j + 1]);
    }
}

/// Raising the head's fill, while it stays resting, keeps the queue
/// invariant: ordering depends only on price and timestamp, which do not
/// change.
pub proof fn lemma_queue_wf_update_head(
    q: Seq<Order>,
    o2: Order,
    side: OrderSide,
    token: TokenType,
    nid: u64,
)
    requires
        queue_wf(q, side, token, nid),
        q.len() > 0,
        o2.resting(),
        o2.price == q[0].price,
        o2.timestamp == q[0].timestamp,
        o2.side == q[0].side,
        o2.token_type == q[0].token_type,
        o2.id == q[0].id,
    ensures
        queue_wf(q.update(0, o2), side, token, nid),
{
    let q2 = q.update(0, o2);
    assert forall|i: int, j: int| 0 <= i < j < q2.len() implies queue_le(
        side,
        #[trigger] q2[i],
        #[trigger] q2[j],
    ) by {
        assert(queue_le(side, q[i], q[j]));
    }
}

/// Mathematical image of an order book: the four queues as sequences.
pub struct OrderBookView {
    pub next_order_id: u64,
    pub buy_orders_yes: Seq<Order>,
    pub sell_orders_yes: Seq<Order>,
    pub buy_orders_no: Seq<Order>,
    pub sell_orders_no: Seq<Order>,
}

impl OrderBookView {
    /// The queue addressed by a side and a token.
    pub open spec fn queue(self, side: OrderSide, token: TokenType) -> Seq<Order> {
        match (side, token) {
            (OrderSide::Buy, TokenType::Yes) => self.buy_orders_yes,
            (OrderSide::Sell, TokenType::Yes) => self.sell_orders_yes,
            (OrderSide::Buy, TokenType::No) => self.buy_orders_no,
            (OrderSide::Sell, TokenType::No) => self.sell_orders_no,
        }
    }

    /// The same book with one queue replaced.
    pub open spec fn with_queue(
        self,
        side: OrderSide,
        token: TokenType,
        q: Seq<Order>,
    ) -> OrderBookView {
        match (side, token) {
            (OrderSide::Buy, TokenType::Yes) => OrderBookView { buy_orders_yes: q, ..self },
            (OrderSide::Sell, TokenType::Yes) => OrderBookView { sell_orders_yes: q, ..self },
            (OrderSide::Buy, TokenType::No) => OrderBookView { buy_orders_no: q, ..self },
            (OrderSide::Sell, TokenType::No) => OrderBookView { sell_orders_no: q, ..self },
        }
    }

    /// The same book with the issuing counter replaced.
    pub open spec fn with_next_id(self, next_id: u64) -> OrderBookView {
        OrderBookView { next_order_id: next_id, ..self }
    }

    /// Well-formedness of the whole book: each of the four queues obeys
    /// the queue invariant.
    pub open spec fn wf(self) -> bool {
        &&& queue_wf(self.buy_orders_yes, OrderSide::Buy, TokenType::Yes, self.next_order_id)
        &&& queue_wf(self.sell_orders_yes, OrderSide::Sell, TokenType::Yes, self.next_order_id)
        &&& queue_wf(self.buy_orders_no, OrderSide::Buy, TokenType::No, self.next_order_id)
        &&& queue_wf(self.sell_orders_no, OrderSide::Sell, TokenType::No, self.next_order_id)
    }
}

/// One market's order book: an id counter and four price-time-ordered
/// queues, one per side and outcome token.
pub struct OrderBook {
    pub next_order_id: u64,
    pub buy_orders_yes: Vec<Order>,
    pub sell_orders_yes: Vec<Order>,
    pub buy_orders_no: Vec<Order>,
    pub sell_orders_no: Vec<Order>,
}

impl View for OrderBook {
    type V = OrderBookView;

    open spec fn view(&self) -> OrderBookView {
        OrderBookView {
            next_order_id: self.next_order_id,
            buy_orders_yes: self.buy_orders_yes@,
            sell_orders_yes: self.sell_orders_yes@,
            buy_orders_no: self.buy_orders_no@,
            sell_orders_no: self.sell_orders_no@,
        }
    }
}

/// Whether `a` keeps (weak) price-time priority over the new order `b`
/// in a queue of `b`'s side.
fn keeps_priority(a: &Order, b: &Order) -> (r: bool)
    ensures
        r == queue_le(b.side, *a, *b),
{
    match b.side {
        OrderSide::Buy => a.price > b.price || (a.price == b.price && a.timestamp <= b.timestamp),
        OrderSide::Sell => a.price < b.price || (a.price == b.price && a.timestamp <= b.timestamp),
    }
}

/// Inserts an order into a queue of its own side at its price-time
/// position.
fn insert_sorted(q: &mut Vec<Order>, order: Order)
    requires
        old(q).len() < usize::MAX,
    ensures
        final(q)@ == old(q)@.insert(insert_pos(order.side, old(q)@, order), order),
{
    let ghost q0 = q@;
    let side = order.side;
    proof {
        assert(q0.skip(0) =~= q0);
    }
    let mut i: usize = 0;
    while i < q.len() && keeps_priority(&q[i], &order)
        invariant
            q@ == q0,
            0 <= i <= q.len(),
            order.side == side,
            insert_pos(side, q0, order) == i + insert_pos(side, q0.skip(i as int), order),
        decreases q.len() - i,
    {
        proof {
            assert(q0.skip(i as int)[0] == q0[i as int]);
            assert(q0.skip(i as int).drop_first() =~= q0.skip(i + 1));
        }
        i = i + 1;
    }
    proof {
        if i < q.len() {
            assert(q0.skip(i as int)[0] == q0[i as int]);
            assert(insert_pos(side, q0.skip(i as int), order) == 0);
        } else {
            assert(q0.skip(i as int) =~= Seq::<Order>::empty());
        }
    }
    q.insert(i, order);
}

impl OrderBook {
    /// A freshly created book: empty queues, ids issued from zero.
    pub fn new() -> (book: OrderBook)
        ensures
            book@.wf(),
            book@.next_order_id == 0,
            book@.buy_orders_yes.len() == 0,
            book@.sell_orders_yes.len() == 0,
            book@.buy_orders_no.len() == 0,
            book@.sell_orders_no.len() == 0,
    {
        OrderBook {
            next_order_id: 0,
            buy_orders_yes: Vec::new(),
            sell_orders_yes: Vec::new(),
            buy_orders_no: Vec::new(),
            sell_orders_no: Vec::new(),
        }
    }

    /// Adds a resting order to the queue of its side and token, keeping
    /// the queue's price-time order, or refuses it when that queue is at
    /// capacity.  Nothing else about the book changes.
    pub fn add_order(&mut self, order: Order) -> (r: Result<(), IpredictError>)
        requires
            old(self)@.wf(),
            order.resting(),
            order.id < old(self)@.next_order_id,
        ensures
            final(self)@.wf(),
            match r {
                Ok(()) => {
                    let q = old(self)@.queue(order.side, order.token_type);
                    &&& q.len() < MAX_ORDERS_PER_BOOK
                    &&& final(self)@ == old(self)@.with_queue(
                        order.side,
                        order.token_type,
                        q.insert(insert_pos(order.side, q, order), order),
                    )
                },
                Err(e) => {
                    &&& e == IpredictError::OrderBookFull
                    &&& old(self)@.queue(order.side, order.token_type).len()
                        >= MAX_ORDERS_PER_BOOK
                    &&& final(self)@ == old(self)@
                },
            },
    {
        let ghost pre = self@;
        let side = order.side;
        let token = order.token_type;
        let orders: &mut Vec<Order> = match (side, token) {
            (OrderSide::Buy, TokenType::Yes) => &mut self.buy_orders_yes,
            (OrderSide::Sell, TokenType::Yes) => &mut self.sell_orders_yes,
            (OrderSide::Buy, TokenType::No) => &mut self.buy_orders_no,
            (OrderSide::Sell, TokenType::No) => &mut self.sell_orders_no,
        };
        if orders.len() >= MAX_ORDERS_PER_BOOK {
            return Err(IpredictError::OrderBookFull);
        }
        proof {
            lemma_insert_pos_props(side, pre.queue(side, token), order);
            lemma_insert_preserves_sorted(side, pre.queue(side, token), order);
        }
        insert_sorted(orders, order);
        Ok(())
    }

    /// Removes the first order with the given id from the queue addressed
    /// by side and token and returns it; fails when no order there carries
    /// the id.  Nothing else about the book changes.
    pub fn remove_order(&mut self, order_id: u64, side: OrderSide, token_type: TokenType) -> (r:
        Result<Order, IpredictError>)
        requires
            old(self)@.wf(),
        ensures
            final(self)@.wf(),
            match r {
                Ok(o) => {
                    let q = old(self)@.queue(side, token_type);
                    &&& contains_order(q, order_id)
                    &&& o == q[order_index(q, order_id)]
                    &&& final(self)@ == old(self)@.with_queue(
                        side,
                        token_type,
                        q.remove(order_index(q, order_id)),
                    )
                },
                Err(e) => {
                    &&& e == IpredictError::OrderNotFound
                    &&& !contains_order(old(self)@.queue(side, token_type), order_id)
                    &&& final(self)@ == old(self)@
                },
            },
    {
        let ghost pre = self@;
        let orders: &mut Vec<Order> = match (side, token_type) {
            (OrderSide::Buy, TokenType::Yes) => &mut self.buy_orders_yes,
            (OrderSide::Sell, TokenType::Yes) => &mut self.sell_orders_yes,
            (OrderSide::Buy, TokenType::No) => &mut self.buy_orders_no,
            (OrderSide::Sell, TokenType::No) => &mut self.sell_orders_no,
        };
        let ghost q0 = orders@;
        proof {
            assert(q0.skip(0) =~= q0);
        }
        let mut i: usize = 0;
        while i < orders.len() && orders[i].id != order_id
        invariant
            orders@ == q0,
            0 <= i <= q0.len(),
            forall|k: int| 0 <= k < i ==> (#[trigger] q0[k]).id != order_id,
            contains_order(q0, order_id) ==> order_index(q0, order_id) == i + order_index(
                q0.skip(i as int),
                order_id,
            ),
        decreases q0.len() - i,
        {
            proof {
                assert(q0.skip(i as int)[0] == q0[i as int]);
                assert(q0.skip(i as int).drop_first() =~= q0.skip(i + 1));
            }
            i = i + 1;
        }
        if i >= orders.len() {
            proof {
                assert(!contains_order(q0, order_id));
            }
            return Err(IpredictError::OrderNotFound);
        }
        proof {
            assert(contains_order(q0, order_id));
            assert(q0.skip(i as int)[0] == q0[i as int]);
            assert(order_index(q0.skip(i as int), order_id) == 0);
            lemma_remove_preserves_sorted(side, q0, i as int);
        }
        let removed = orders.remove(i);
        Ok(removed)
    }
}

} // verus!
