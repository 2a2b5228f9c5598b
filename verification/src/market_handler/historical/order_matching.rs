//! One pass of the backtest matching engine over the cache of open orders: each order is
//! filled, rejected or accepted, with one event each, and only the accepted orders stay.
use crate::apis::brokerage::{AccountId, Brokerage};
use crate::decimal::{spec_le, spec_lt};
use crate::market_handler::market_handlers::OrderType;
use crate::standardized_types::{OrderSide, Price, SymbolName, Volume};
use vstd::prelude::*;

verus! {

/// Where an order stands.
#[derive(Debug, PartialEq, Eq)]
pub enum OrderState {
    Created,
    Accepted,
    Filled,
    Rejected(String),
}

/// An order of an account at a brokerage. Times are UTC nanoseconds since the epoch.
#[derive(Debug, PartialEq, Eq)]
pub struct Order {
    pub id: String,
    pub brokerage: Brokerage,
    pub account_id: AccountId,
    pub symbol_name: SymbolName,
    pub side: OrderSide,
    pub order_type: OrderType,
    pub quantity_ordered: Volume,
    pub quantity_filled: Volume,
    pub limit_price: Option<Price>,
    pub trigger_price: Option<Price>,
    pub average_fill_price: Option<Price>,
    pub state: OrderState,
    pub time_created_utc: i64,
    pub time_filled_utc: Option<i64>,
}

/// What happened to an order.
#[derive(Debug, PartialEq, Eq)]
pub enum OrderUpdateEvent {
    Accepted { order_id: String, brokerage: Brokerage, account_id: AccountId },
    Filled { order_id: String, brokerage: Brokerage, account_id: AccountId },
    Rejected { order_id: String, brokerage: Brokerage, account_id: AccountId, reason: String },
    Cancelled { order_id: String, brokerage: Brokerage, account_id: AccountId },
    Updated { order_id: String, brokerage: Brokerage, account_id: AccountId },
    UpdateRejected { order_id: String, brokerage: Brokerage, account_id: AccountId, reason: String },
}

/// A change to an open order.
#[derive(Debug, PartialEq, Eq)]
pub enum OrderUpdateType {
    LimitPrice(Price),
    TriggerPrice(Price),
    Quantity(Volume),
}

/// What a strategy asks of the simulated brokerage.
#[derive(Debug, PartialEq, Eq)]
pub enum OrderRequest {
    Create { brokerage: Brokerage, order: Order },
    Cancel { brokerage: Brokerage, order_id: String, account_id: AccountId },
    Update { brokerage: Brokerage, order_id: String, account_id: AccountId, update: OrderUpdateType },
    CancelAll { brokerage: Brokerage, account_id: AccountId, symbol_name: SymbolName },
}

/// What the market shows an order when it is matched: the price on its side of the
/// market, and whether its account is long or short in its symbol.
#[derive(Clone, Copy, Debug, PartialEq, Eq, Structural)]
pub struct OrderMarket {
    pub market_price: Price,
    pub is_long: bool,
    pub is_short: bool,
}

/// How one order comes out of a pass.
#[derive(Clone, Copy, Debug, PartialEq, Eq, Structural)]
pub enum MatchOutcome {
    Fill,
    Accept,
    RejectNoLong,
    RejectNoShort,
}

/// The order carries the prices its type is matched by: a limit for limit orders, a
/// trigger for market-if-touched and stop-market orders, both for stop-limit orders.
pub open spec fn order_prices_set(o: Order) -> bool {
    match o.order_type {
        OrderType::Limit => o.limit_price is Some,
        OrderType::MarketIfTouched | OrderType::StopMarket => o.trigger_price is Some,
        OrderType::StopLimit => o.limit_price is Some && o.trigger_price is Some,
        _ => true,
    }
}

/// The market has come to `level` for an order on `side`: a buy at or below it, a sell
/// at or above it.
pub open spec fn level_reached(side: OrderSide, market: Price, level: Price) -> bool {
    match side {
        OrderSide::Buy => spec_le(market@, level@),
        OrderSide::Sell => spec_le(level@, market@),
    }
}

/// How the order comes out: market orders and entries fill; limit orders fill once the
/// market reaches the limit, market-if-touched and stop-market orders once it reaches
/// the trigger; a stop-limit buy fills at or below the trigger and above the limit, a
/// stop-limit sell at or above the trigger and below the limit; an exit fills where the
/// account holds the position and is rejected otherwise; an order that does not fill is
/// accepted.
#[verifier::opaque]
pub open spec fn match_outcome(o: Order, m: OrderMarket) -> MatchOutcome {
    let price = m.market_price;
    match o.order_type {
        OrderType::Market | OrderType::EnterLong | OrderType::EnterShort => MatchOutcome::Fill,
        OrderType::Limit => if level_reached(o.side, price, o.limit_price->0) {
            MatchOutcome::Fill
        } else {
            MatchOutcome::Accept
        },
        OrderType::MarketIfTouched | OrderType::StopMarket => if level_reached(
            o.side,
            price,
            o.trigger_price->0,
        ) {
            MatchOutcome::Fill
        } else {
            MatchOutcome::Accept
        },
        OrderType::StopLimit => if level_reached(o.side, price, o.trigger_price->0) && match o.side {
            OrderSide::Buy => spec_lt(o.limit_price->0@, price@),
            OrderSide::Sell => spec_lt(price@, o.limit_price->0@),
        } {
            MatchOutcome::Fill
        } else {
            MatchOutcome::Accept
        },
        OrderType::ExitLong => if m.is_long {
            MatchOutcome::Fill
        } else {
            MatchOutcome::RejectNoLong
        },
        OrderType::ExitShort => if m.is_short {
            MatchOutcome::Fill
        } else {
            MatchOutcome::RejectNoShort
        },
    }
}

/// `e` is the event the pass reports for the order `o`.
pub open spec fn event_for(e: OrderUpdateEvent, o: Order, m: OrderMarket) -> bool {
    match match_outcome(o, m) {
        MatchOutcome::Fill => e == OrderUpdateEvent::Filled {
            order_id: o.id,
            brokerage: o.brokerage,
            account_id: o.account_id,
        },
        MatchOutcome::Accept => e == OrderUpdateEvent::Accepted {
            order_id: o.id,
            brokerage: o.brokerage,
            account_id: o.account_id,
        },
        MatchOutcome::RejectNoLong => e matches OrderUpdateEvent::Rejected {
            order_id,
            brokerage,
            account_id,
            reason,
        } && order_id == o.id && brokerage == o.brokerage && account_id == o.account_id
            && reason@ == "No long position to exit"@,
        MatchOutcome::RejectNoShort => e matches OrderUpdateEvent::Rejected {
            order_id,
            brokerage,
            account_id,
            reason,
        } && order_id == o.id && brokerage == o.brokerage && account_id == o.account_id
            && reason@ == "No short position to exit"@,
    }
}

/// The order as it stays in the cache once accepted at `now`.
pub open spec fn accepted_order(o: Order, now: i64) -> Order {
    Order { state: OrderState::Accepted, time_created_utc: now, ..o }
}

/// The orders that stay open after a pass at `now`, in their order: the accepted ones.
pub open spec fn kept_orders(orders: Seq<Order>, markets: Seq<OrderMarket>, now: i64) -> Seq<Order>
    decreases orders.len(),
{
    if orders.len() == 0 {
        Seq::empty()
    } else {
        let rest = kept_orders(orders.drop_last(), markets, now);
        let last = orders.last();
        if match_outcome(last, markets[orders.len() - 1]) == MatchOutcome::Accept {
            rest.push(accepted_order(last, now))
        } else {
            rest
        }
    }
}

/// What a pass of the matching engine at `now` does to the open orders `orders`, read
/// against `markets`: `new_cache` is what stays open and `r` the events it reports.
pub open spec fn matching_result(
    orders: Seq<Order>,
    markets: Seq<OrderMarket>,
    now: i64,
    new_cache: Seq<Order>,
    r: Option<Vec<OrderUpdateEvent>>,
) -> bool {
    &&& orders.len() == 0 ==> r is None
    &&& orders.len() > 0 ==> (r matches Some(events) && events@.len() == orders.len() && forall|i: int|
        0 <= i < events@.len() ==> event_for(#[trigger] events@[i], orders[i], markets[i]))
    &&& new_cache == kept_orders(orders, markets, now)
}

/// Whether the market has come to `level` for an order on `side`.
fn reaches(side: OrderSide, market: &Price, level: &Price) -> (r: bool)
    ensures
        r == level_reached(side, *market, *level),
{
    match side {
        OrderSide::Buy => market.at_most(level),
        OrderSide::Sell => level.at_most(market),
    }
}

/// How the order comes out of the pass.
fn decide(o: &Order, m: &OrderMarket) -> (r: MatchOutcome)
    requires
        order_prices_set(*o),
    ensures
        r == match_outcome(*o, *m),
{
    reveal(match_outcome);
    let price = &m.market_price;
    match o.order_type {
        OrderType::Market => MatchOutcome::Fill,
        OrderType::EnterLong => MatchOutcome::Fill,
        OrderType::EnterShort => MatchOutcome::Fill,
        OrderType::Limit => {
            if reaches(o.side, price, o.limit_price.as_ref().unwrap()) {
                MatchOutcome::Fill
            } else {
                MatchOutcome::Accept
            }
        },
        OrderType::MarketIfTouched | OrderType::StopMarket => {
            if reaches(o.side, price, o.trigger_price.as_ref().unwrap()) {
                MatchOutcome::Fill
            } else {
                MatchOutcome::Accept
            }
        },
        OrderType::StopLimit => {
            let limit = o.limit_price.as_ref().unwrap();
            let beyond_limit = match o.side {
                OrderSide::Buy => limit.less_than(price),
                OrderSide::Sell => price.less_than(limit),
            };
            if reaches(o.side, price, o.trigger_price.as_ref().unwrap()) && beyond_limit {
                MatchOutcome::Fill
            } else {
                MatchOutcome::Accept
            }
        },
        OrderType::ExitLong => {
            if m.is_long {
                MatchOutcome::Fill
            } else {
                MatchOutcome::RejectNoLong
            }
        },
        OrderType::ExitShort => {
            if m.is_short {
                MatchOutcome::Fill
            } else {
                MatchOutcome::RejectNoShort
            }
        },
    }
}

/// Matches every open order in `order_cache` against the market at `last_time`, reading
/// `markets[i]` for the `i`-th order: each order is filled, rejected or accepted, with one
/// event each in the cache's order, and the cache keeps exactly the accepted orders,
/// marked accepted at `last_time`. An empty cache gives `None` and stays empty.
/// Positions are read as they stood before the pass.
pub fn backtest_matching_engine(
    order_cache: &mut Vec<Order>,
    markets: &Vec<OrderMarket>,
    last_time: i64,
) -> (r: Option<Vec<OrderUpdateEvent>>)
    requires
        old(order_cache)@.len() == markets@.len(),
        forall|i: int| 0 <= i < old(order_cache)@.len() ==> order_prices_set(#[trigger] old(order_cache)@[i]),
    ensures
        matching_result(old(order_cache)@, markets@, last_time, final(order_cache)@, r),
{
    let mut pending: Vec<Order> = Vec::new();
    std::mem::swap(order_cache, &mut pending);
    let ghost orders = pending@;
    proof {
        assert(orders.take(0) =~= Seq::<Order>::empty());
    }
    if pending.len() == 0 {
        proof {
            assert(orders =~= Seq::<Order>::empty());
        }
        return None;
    }
    let n = pending.len();
    let mut events: Vec<OrderUpdateEvent> = Vec::new();
    let mut kept: Vec<Order> = Vec::new();
    let mut i: usize = 0;
    while i < n
        invariant
            n == orders.len(),
            n == markets@.len(),
            i <= n,
            pending@ == orders.subrange(i as int, n as int),
            forall|k: int| 0 <= k < n ==> order_prices_set(#[trigger] orders[k]),
            events@.len() == i,
            forall|k: int| 0 <= k < i ==> event_for(#[trigger] events@[k], orders[k], markets@[k]),
            kept@ == kept_orders(orders.take(i as int), markets@, last_time),
            order_cache@.len() == 0,
        decreases n - i,
    {
        let mut order = pending.remove(0);
        assert(order == orders[i as int]);
        let m = markets[i];
        let outcome = decide(&order, &m);
        proof {
            assert(orders.take(i + 1).drop_last() =~= orders.take(i as int));
            assert(orders.take(i + 1).last() == orders[i as int]);
        }
        match outcome {
            MatchOutcome::Fill => {
                events.push(
                    OrderUpdateEvent::Filled {
                        order_id: order.id.clone(),
                        brokerage: order.brokerage,
                        account_id: order.account_id.clone(),
                    },
                );
            },
            MatchOutcome::Accept => {
                events.push(
                    OrderUpdateEvent::Accepted {
                        order_id: order.id.clone(),
                        brokerage: order.brokerage,
                        account_id: order.account_id.clone(),
                    },
                );
                order.state = OrderState::Accepted;
                order.time_created_utc = last_time;
                kept.push(order);
            },
            MatchOutcome::RejectNoLong => {
                let reason = String::from_str("No long position to exit");
                proof {
                    reveal_strlit("No long position to exit");
                }
                events.push(
                    OrderUpdateEvent::Rejected {
                        order_id: order.id.clone(),
                        brokerage: order.brokerage,
                        account_id: order.account_id.clone(),
                        reason,
                    },
                );
            },
            MatchOutcome::RejectNoShort => {
                let reason = String::from_str("No short position to exit");
                proof {
                    reveal_strlit("No short position to exit");
                }
                events.push(
                    OrderUpdateEvent::Rejected {
                        order_id: order.id.clone(),
                        brokerage: order.brokerage,
                        account_id: order.account_id.clone(),
                        reason,
                    },
                );
            },
        }
        i = i + 1;
    }
    proof {
        assert(orders.take(n as int) =~= orders);
    }
    *order_cache = kept;
    Some(events)
}

/// `i` is the first place of an order with the id `id`.
pub open spec fn is_first_with_id(orders: Seq<Order>, id: Seq<char>, i: int) -> bool {
    &&& 0 <= i < orders.len()
    &&& orders[i].id@ == id
    &&& forall|j: int| 0 <= j < i ==> (#[trigger] orders[j]).id@ != id
}

/// The first place of an order with the id `id`, if there is one.
pub open spec fn first_with_id(orders: Seq<Order>, id: Seq<char>) -> Option<int> {
    if exists|i: int| is_first_with_id(orders, id, i) {
        Some(choose|i: int| is_first_with_id(orders, id, i))
    } else {
        None
    }
}

/// The order after `update`: a new limit or trigger price replaces one the order has
/// (an order without one stays as it was), a new quantity replaces the ordered quantity.
pub open spec fn updated_order(o: Order, update: OrderUpdateType) -> Order {
    match update {
        OrderUpdateType::LimitPrice(p) => if o.limit_price is Some {
            Order { limit_price: Some(p), ..o }
        } else {
            o
        },
        OrderUpdateType::TriggerPrice(p) => if o.trigger_price is Some {
            Order { trigger_price: Some(p), ..o }
        } else {
            o
        },
        OrderUpdateType::Quantity(q) => Order { quantity_ordered: q, ..o },
    }
}

/// The order is one of the account's at the brokerage in the symbol.
pub open spec fn order_of(o: Order, brokerage: Brokerage, account_id: Seq<char>, symbol_name: Seq<char>) -> bool {
    o.brokerage == brokerage && o.account_id@ == account_id && o.symbol_name@ == symbol_name
}

/// The orders that stay open when every order of the account in the symbol is cancelled.
pub open spec fn left_open(orders: Seq<Order>, brokerage: Brokerage, account_id: Seq<char>, symbol_name: Seq<char>) -> Seq<Order>
    decreases orders.len(),
{
    if orders.len() == 0 {
        Seq::empty()
    } else {
        let rest = left_open(orders.drop_last(), brokerage, account_id, symbol_name);
        if order_of(orders.last(), brokerage, account_id, symbol_name) {
            rest
        } else {
            rest.push(orders.last())
        }
    }
}

/// The orders cancelled with every order of the account in the symbol, in their order.
pub open spec fn cancelled_orders(orders: Seq<Order>, brokerage: Brokerage, account_id: Seq<char>, symbol_name: Seq<char>) -> Seq<Order>
    decreases orders.len(),
{
    if orders.len() == 0 {
        Seq::empty()
    } else {
        let rest = cancelled_orders(orders.drop_last(), brokerage, account_id, symbol_name);
        if order_of(orders.last(), brokerage, account_id, symbol_name) {
            rest.push(orders.last())
        } else {
            rest
        }
    }
}

/// The event that reports `o` cancelled.
pub open spec fn cancelled_event(o: Order) -> OrderUpdateEvent {
    OrderUpdateEvent::Cancelled { order_id: o.id, brokerage: o.brokerage, account_id: o.account_id }
}

/// The answer to an update or a cancel of an order that is not open.
pub open spec fn no_pending_order(e: OrderUpdateEvent, brokerage: Brokerage, order_id: Seq<char>, account_id: Seq<char>) -> bool {
    e matches OrderUpdateEvent::UpdateRejected { order_id: id, brokerage: b, account_id: a, reason }
        && id@ == order_id && b == brokerage && a@ == account_id
        && reason@ == "No pending order found"@
}

/// Where the first open order with the id `id` stands.
fn find_order(orders: &Vec<Order>, id: &String) -> (r: Option<usize>)
    ensures
        match r {
            Some(i) => first_with_id(orders@, id@) == Some(i as int),
            None => first_with_id(orders@, id@) is None,
        },
{
    let mut i: usize = 0;
    while i < orders.len()
        invariant
            i <= orders@.len(),
            forall|j: int| 0 <= j < i ==> (#[trigger] orders@[j]).id@ != id@,
        decreases orders.len() - i,
    {
        if orders[i].id == *id {
            proof {
                assert(is_first_with_id(orders@, id@, i as int));
                let k = choose|k: int| is_first_with_id(orders@, id@, k);
                if k < i {
                    assert(orders@[k].id@ == id@);
                } else if k > i {
                    assert(orders@[i as int].id@ != id@);
                }
            }
            return Some(i);
        }
        i = i + 1;
    }
    proof {
        if exists|k: int| is_first_with_id(orders@, id@, k) {
            let k = choose|k: int| is_first_with_id(orders@, id@, k);
            assert(orders@[k].id@ == id@);
        }
    }
    None
}

/// A rejection of a request about an order that is not open.
fn reject_no_pending(brokerage: Brokerage, order_id: String, account_id: AccountId) -> (r: OrderUpdateEvent)
    ensures
        no_pending_order(r, brokerage, order_id@, account_id@),
{
    let reason = String::from_str("No pending order found");
    proof {
        reveal_strlit("No pending order found");
    }
    OrderUpdateEvent::UpdateRejected { order_id, brokerage, account_id, reason }
}

/// Cancels every open order of the account at the brokerage in the symbol: they leave
/// `order_cache` for `closed_orders`, in their order, with one `Cancelled` event each.
fn cancel_all(
    order_cache: &mut Vec<Order>,
    closed_orders: &mut Vec<Order>,
    brokerage: Brokerage,
    account_id: &AccountId,
    symbol_name: &SymbolName,
) -> (r: Vec<OrderUpdateEvent>)
    ensures
        final(order_cache)@ == left_open(old(order_cache)@, brokerage, account_id@, symbol_name@),
        final(closed_orders)@ == old(closed_orders)@ + cancelled_orders(
            old(order_cache)@,
            brokerage,
            account_id@,
            symbol_name@,
        ),
        r@ == cancelled_orders(old(order_cache)@, brokerage, account_id@, symbol_name@).map_values(
            |o: Order| cancelled_event(o),
        ),
{
    let mut pending: Vec<Order> = Vec::new();
    std::mem::swap(order_cache, &mut pending);
    let ghost orders = pending@;
    let ghost closed_before = closed_orders@;
    let n = pending.len();
    let mut events: Vec<OrderUpdateEvent> = Vec::new();
    let mut kept: Vec<Order> = Vec::new();
    let mut i: usize = 0;
    proof {
        assert(orders.take(0) =~= Seq::<Order>::empty());
        assert(closed_before + Seq::<Order>::empty() =~= closed_before);
    }
    while i < n
        invariant
            n == orders.len(),
            i <= n,
            pending@ == orders.subrange(i as int, n as int),
            kept@ == left_open(orders.take(i as int), brokerage, account_id@, symbol_name@),
            closed_orders@ == closed_before + cancelled_orders(
                orders.take(i as int),
                brokerage,
                account_id@,
                symbol_name@,
            ),
            events@ == cancelled_orders(orders.take(i as int), brokerage, account_id@, symbol_name@).map_values(
                |o: Order| cancelled_event(o),
            ),
        decreases n - i,
    {
        let order = pending.remove(0);
        assert(order == orders[i as int]);
        proof {
            assert(orders.take(i + 1).drop_last() =~= orders.take(i as int));
            assert(orders.take(i + 1).last() == orders[i as int]);
        }
        let ghost cancelled_before = cancelled_orders(orders.take(i as int), brokerage, account_id@, symbol_name@);
        if order.brokerage == brokerage && order.account_id == *account_id && order.symbol_name
            == *symbol_name {
            events.push(
                OrderUpdateEvent::Cancelled {
                    order_id: order.id.clone(),
                    brokerage: order.brokerage,
                    account_id: order.account_id.clone(),
                },
            );
            closed_orders.push(order);
            proof {
                assert(events@ =~= cancelled_before.push(orders[i as int]).map_values(
                    |o: Order| cancelled_event(o),
                ));
                assert(closed_orders@ =~= closed_before + cancelled_before.push(orders[i as int]));
            }
        } else {
            kept.push(order);
        }
        i = i + 1;
    }
    proof {
        assert(orders.take(n as int) =~= orders);
    }
    *order_cache = kept;
    events
}

/// What an order request does: `cache` and `closed` are the open and closed orders
/// before it, `new_cache` and `new_closed` after it, and `events` what it reports.
pub open spec fn order_request_result(
    cache: Seq<Order>,
    closed: Seq<Order>,
    request: OrderRequest,
    new_cache: Seq<Order>,
    new_closed: Seq<Order>,
    events: Seq<OrderUpdateEvent>,
) -> bool {
    match request {
        OrderRequest::Create { brokerage, order } => {
            &&& events.len() == 0
            &&& new_closed == closed
            &&& new_cache == match first_with_id(cache, order.id@) {
                Some(i) => cache.update(i, order),
                None => cache.push(order),
            }
        },
        OrderRequest::Cancel { brokerage, order_id, account_id } => match first_with_id(
            cache,
            order_id@,
        ) {
            Some(i) => {
                &&& new_cache == cache.remove(i)
                &&& new_closed == closed.push(cache[i])
                &&& events == seq![
                    OrderUpdateEvent::Cancelled {
                        order_id: cache[i].id,
                        brokerage,
                        account_id: cache[i].account_id,
                    },
                ]
            },
            None => {
                &&& new_cache == cache
                &&& new_closed == closed
                &&& events.len() == 1
                &&& no_pending_order(events[0], brokerage, order_id@, account_id@)
            },
        },
        OrderRequest::Update { brokerage, order_id, account_id, update } => match first_with_id(
            cache,
            order_id@,
        ) {
            Some(i) => {
                &&& new_cache == cache.update(
                    i,
                    updated_order(cache[i], update),
                )
                &&& new_closed == closed
                &&& events == seq![
                    OrderUpdateEvent::Updated {
                        order_id: cache[i].id,
                        brokerage,
                        account_id: cache[i].account_id,
                    },
                ]
            },
            None => {
                &&& new_cache == cache
                &&& new_closed == closed
                &&& events.len() == 1
                &&& no_pending_order(events[0], brokerage, order_id@, account_id@)
            },
        },
        OrderRequest::CancelAll { brokerage, account_id, symbol_name } => {
            &&& new_cache == left_open(cache, brokerage, account_id@, symbol_name@)
            &&& new_closed == closed + cancelled_orders(
                cache,
                brokerage,
                account_id@,
                symbol_name@,
            )
            &&& events == cancelled_orders(cache, brokerage, account_id@, symbol_name@).map_values(
                |o: Order| cancelled_event(o),
            )
        },
    }
}

/// Carries out an order request against the simulated brokerage's open orders, as in
/// backtests and paper trading. A new order joins `order_cache`, replacing an open order
/// with its id, with no event (the matching engine answers it on its next pass). A cancel
/// moves the first open order with the id to `closed_orders` and reports it cancelled;
/// an update changes that order in place and reports it updated; without such an order
/// either is rejected with "No pending order found". Cancelling all moves every open
/// order of the account in the symbol to `closed_orders`, with one event each.
pub fn simulated_order_matching(
    order_cache: &mut Vec<Order>,
    closed_orders: &mut Vec<Order>,
    request: OrderRequest,
) -> (r: Vec<OrderUpdateEvent>)
    ensures
        order_request_result(
            old(order_cache)@,
            old(closed_orders)@,
            request,
            final(order_cache)@,
            final(closed_orders)@,
            r@,
        ),
{
    match request {
        OrderRequest::Create { brokerage, order } => {
            match find_order(order_cache, &order.id) {
                Some(i) => {
                    order_cache.set(i, order);
                },
                None => {
                    order_cache.push(order);
                },
            }
            Vec::new()
        },
        OrderRequest::Cancel { brokerage, order_id, account_id } => {
            match find_order(order_cache, &order_id) {
                Some(i) => {
                    let order = order_cache.remove(i);
                    let event = OrderUpdateEvent::Cancelled {
                        order_id: order.id.clone(),
                        brokerage,
                        account_id: order.account_id.clone(),
                    };
                    closed_orders.push(order);
                    let mut events: Vec<OrderUpdateEvent> = Vec::new();
                    events.push(event);
                    events
                },
                None => {
                    let mut events: Vec<OrderUpdateEvent> = Vec::new();
                    events.push(reject_no_pending(brokerage, order_id, account_id));
                    events
                },
            }
        },
        OrderRequest::Update { brokerage, order_id, account_id, update } => {
            match find_order(order_cache, &order_id) {
                Some(i) => {
                    let mut order = order_cache.remove(i);
                    match update {
                        OrderUpdateType::LimitPrice(price) => {
                            if order.limit_price.is_some() {
                                order.limit_price = Some(price);
                            }
                        },
                        OrderUpdateType::TriggerPrice(price) => {
                            if order.trigger_price.is_some() {
                                order.trigger_price = Some(price);
                            }
                        },
                        OrderUpdateType::Quantity(quantity) => {
                            order.quantity_ordered = quantity;
                        },
                    }
                    let event = OrderUpdateEvent::Updated {
                        order_id: order.id.clone(),
                        brokerage,
                        account_id: order.account_id.clone(),
                    };
                    order_cache.insert(i, order);
                    proof {
                        assert(order_cache@ =~= old(order_cache)@.update(
                            i as int,
                            updated_order(old(order_cache)@[i as int], update),
                        ));
                    }
                    let mut events: Vec<OrderUpdateEvent> = Vec::new();
                    events.push(event);
                    events
                },
                None => {
                    let mut events: Vec<OrderUpdateEvent> = Vec::new();
                    events.push(reject_no_pending(brokerage, order_id, account_id));
                    events
                },
            }
        },
        OrderRequest::CancelAll { brokerage, account_id, symbol_name } => {
            cancel_all(order_cache, closed_orders, brokerage, &account_id, &symbol_name)
        },
    }
}

/// Market orders and entries fill at any market price, whatever the account holds.
pub proof fn law_market_orders_and_entries_fill(o: Order, m: OrderMarket)
    requires
        o.order_type is Market || o.order_type is EnterLong || o.order_type is EnterShort,
    ensures
        match_outcome(o, m) == MatchOutcome::Fill,
{
    reveal(match_outcome);
}

/// A limit order fills exactly when the market price has come to its limit (a buy at or
/// below it, a sell at or above it) and stays open otherwise, whatever the account holds.
pub proof fn law_limit_order_fills_at_its_limit(o: Order, m: OrderMarket)
    requires
        o.order_type is Limit,
        o.limit_price is Some,
    ensures
        match_outcome(o, m) == (if (o.side is Buy && spec_le(m.market_price@, o.limit_price->0@)) || (
        o.side is Sell && spec_le(o.limit_price->0@, m.market_price@)) {
            MatchOutcome::Fill
        } else {
            MatchOutcome::Accept
        }),
{
    reveal(match_outcome);
}

/// Market-if-touched and stop-market orders fill exactly when the market price has come
/// to their trigger (a buy at or below it, a sell at or above it) and stay open otherwise.
pub proof fn law_touched_orders_fill_at_their_trigger(o: Order, m: OrderMarket)
    requires
        o.order_type is MarketIfTouched || o.order_type is StopMarket,
        o.trigger_price is Some,
    ensures
        match_outcome(o, m) == (if (o.side is Buy && spec_le(m.market_price@, o.trigger_price->0@))
            || (o.side is Sell && spec_le(o.trigger_price->0@, m.market_price@)) {
            MatchOutcome::Fill
        } else {
            MatchOutcome::Accept
        }),
{
    reveal(match_outcome);
}

/// A stop-limit buy fills when the market is at or below its trigger and above its limit,
/// a stop-limit sell when it is at or above its trigger and below its limit; otherwise the
/// order stays open.
pub proof fn law_stop_limit_orders(o: Order, m: OrderMarket)
    requires
        o.order_type is StopLimit,
        o.limit_price is Some,
        o.trigger_price is Some,
    ensures
        match_outcome(o, m) == (if (o.side is Buy && spec_le(m.market_price@, o.trigger_price->0@)
            && spec_lt(o.limit_price->0@, m.market_price@)) || (o.side is Sell && spec_le(
            o.trigger_price->0@,
            m.market_price@,
        ) && spec_lt(m.market_price@, o.limit_price->0@)) {
            MatchOutcome::Fill
        } else {
            MatchOutcome::Accept
        }),
{
    reveal(match_outcome);
}

/// An exit-long fills exactly when the account is long in the symbol and is refused
/// otherwise; an exit-short fills exactly when it is short and is refused otherwise. The
/// price and the other side's position play no part.
pub proof fn law_exits_need_the_position(o: Order, m: OrderMarket)
    ensures
        o.order_type is ExitLong ==> match_outcome(o, m) == (if m.is_long {
            MatchOutcome::Fill
        } else {
            MatchOutcome::RejectNoLong
        }),
        o.order_type is ExitShort ==> match_outcome(o, m) == (if m.is_short {
            MatchOutcome::Fill
        } else {
            MatchOutcome::RejectNoShort
        }),
{
    reveal(match_outcome);
}

/// Only exits are ever refused, and only for want of the position they exit.
pub proof fn law_only_exits_are_refused(o: Order, m: OrderMarket)
    ensures
        match_outcome(o, m) == MatchOutcome::RejectNoLong ==> o.order_type is ExitLong && !m.is_long,
        match_outcome(o, m) == MatchOutcome::RejectNoShort ==> o.order_type is ExitShort
            && !m.is_short,
{
    reveal(match_outcome);
}

/// The event reported for an order names that order, its brokerage and its account: a
/// fill is reported as filled, an order kept open as accepted, and a refused exit as
/// rejected with the position it lacks.
pub proof fn law_event_reports_the_order(e: OrderUpdateEvent, o: Order, m: OrderMarket)
    requires
        event_for(e, o, m),
    ensures
        match e {
            OrderUpdateEvent::Filled { order_id, brokerage, account_id } => order_id == o.id
                && brokerage == o.brokerage && account_id == o.account_id && match_outcome(o, m)
                == MatchOutcome::Fill,
            OrderUpdateEvent::Accepted { order_id, brokerage, account_id } => order_id == o.id
                && brokerage == o.brokerage && account_id == o.account_id && match_outcome(o, m)
                == MatchOutcome::Accept,
            OrderUpdateEvent::Rejected { order_id, brokerage, account_id, reason } => order_id
                == o.id && brokerage == o.brokerage && account_id == o.account_id && ((
            o.order_type is ExitLong && !m.is_long && reason@ == "No long position to exit"@) || (
            o.order_type is ExitShort && !m.is_short && reason@ == "No short position to exit"@)),
            _ => false,
        },
{
    reveal(match_outcome);
}

/// `o` is an order of `orders` that stays open on `markets`, as the pass keeps it.
pub open spec fn kept_form_of(orders: Seq<Order>, markets: Seq<OrderMarket>, now: i64, o: Order) -> bool {
    exists|i: int|
        0 <= i < orders.len() && match_outcome(orders[i], markets[i]) == MatchOutcome::Accept && o
            == #[trigger] accepted_order(orders[i], now)
}

/// `o` is one of `orders`.
pub open spec fn holds_order(orders: Seq<Order>, o: Order) -> bool {
    exists|j: int| 0 <= j < orders.len() && #[trigger] orders[j] == o
}

proof fn lemma_kept_are_accepted(orders: Seq<Order>, markets: Seq<OrderMarket>, now: i64)
    requires
        markets.len() >= orders.len(),
    ensures
        kept_orders(orders, markets, now).len() <= orders.len(),
        forall|j: int|
            0 <= j < kept_orders(orders, markets, now).len() ==> kept_form_of(
                orders,
                markets,
                now,
                #[trigger] kept_orders(orders, markets, now)[j],
            ),
        forall|i: int|
            0 <= i < orders.len() && match_outcome(#[trigger] orders[i], markets[i])
                == MatchOutcome::Accept ==> holds_order(
                kept_orders(orders, markets, now),
                accepted_order(orders[i], now),
            ),
    decreases orders.len(),
{
    if orders.len() > 0 {
        let init = orders.drop_last();
        let n = orders.len() - 1;
        lemma_kept_are_accepted(init, markets, now);
        let rest = kept_orders(init, markets, now);
        let k = kept_orders(orders, markets, now);
        assert(orders[n] == orders.last());
        assert forall|j: int| 0 <= j < k.len() implies kept_form_of(orders, markets, now, #[trigger] k[j]) by {
            if j < rest.len() {
                assert(k[j] == rest[j]);
                assert(kept_form_of(init, markets, now, rest[j]));
                let i = choose|i: int|
                    0 <= i < init.len() && match_outcome(init[i], markets[i]) == MatchOutcome::Accept
                        && rest[j] == #[trigger] accepted_order(init[i], now);
                assert(init[i] == orders[i]);
                assert(accepted_order(orders[i], now) == rest[j]);
            } else {
                assert(k[j] == accepted_order(orders[n], now));
            }
        }
        assert forall|i: int|
            0 <= i < orders.len() && match_outcome(#[trigger] orders[i], markets[i])
                == MatchOutcome::Accept implies holds_order(k, accepted_order(orders[i], now)) by {
            if i < n {
                assert(init[i] == orders[i]);
                assert(holds_order(rest, accepted_order(init[i], now)));
                let j = choose|j: int| 0 <= j < rest.len() && #[trigger] rest[j] == accepted_order(init[i], now);
                assert(k[j] == rest[j]);
            } else {
                assert(k[rest.len() as int] == accepted_order(orders[i], now));
            }
        }
    }
}

/// A pass reports one event per open order, each about its order; the orders left open
/// are orders that were accepted, marked accepted at the pass's time, and every accepted
/// order is among them. An empty cache reports nothing.
pub proof fn law_pass_reports_each_order_and_keeps_the_accepted(
    orders: Seq<Order>,
    markets: Seq<OrderMarket>,
    now: i64,
    new_cache: Seq<Order>,
    r: Option<Vec<OrderUpdateEvent>>,
)
    requires
        markets.len() == orders.len(),
        matching_result(orders, markets, now, new_cache, r),
    ensures
        orders.len() == 0 <==> r is None,
        r matches Some(events) ==> events@.len() == orders.len(),
        new_cache.len() <= orders.len(),
        forall|j: int|
            0 <= j < new_cache.len() ==> (#[trigger] new_cache[j]).state == OrderState::Accepted
                && new_cache[j].time_created_utc == now && kept_form_of(orders, markets, now, new_cache[j]),
        forall|i: int|
            0 <= i < orders.len() && match_outcome(#[trigger] orders[i], markets[i])
                == MatchOutcome::Accept ==> holds_order(
                new_cache,
                Order { state: OrderState::Accepted, time_created_utc: now, ..orders[i] },
            ),
{
    lemma_kept_are_accepted(orders, markets, now);
    assert forall|j: int| 0 <= j < new_cache.len() implies (#[trigger] new_cache[j]).state
        == OrderState::Accepted && new_cache[j].time_created_utc == now && kept_form_of(
        orders,
        markets,
        now,
        new_cache[j],
    ) by {
        assert(kept_form_of(orders, markets, now, new_cache[j]));
        let i = choose|i: int|
            0 <= i < orders.len() && match_outcome(orders[i], markets[i]) == MatchOutcome::Accept
                && new_cache[j] == #[trigger] accepted_order(orders[i], now);
    }
}

proof fn lemma_first_with_id_is(orders: Seq<Order>, id: Seq<char>, i: int)
    requires
        0 <= i < orders.len(),
        orders[i].id@ == id,
        forall|j: int| 0 <= j < i ==> (#[trigger] orders[j]).id@ != id,
    ensures
        first_with_id(orders, id) == Some(i),
{
    assert(is_first_with_id(orders, id, i));
    let k = choose|k: int| is_first_with_id(orders, id, k);
    if k < i {
        assert(orders[k].id@ == id);
    } else if k > i {
        assert(orders[i].id@ != id);
    }
}

proof fn lemma_first_with_id_none(orders: Seq<Order>, id: Seq<char>)
    requires
        forall|j: int| 0 <= j < orders.len() ==> (#[trigger] orders[j]).id@ != id,
    ensures
        first_with_id(orders, id) is None,
{
    if exists|k: int| is_first_with_id(orders, id, k) {
        let k = choose|k: int| is_first_with_id(orders, id, k);
        assert(orders[k].id@ != id);
    }
}

/// An update of an open order changes the first open order with that id in place and
/// nothing else: a new trigger price replaces the trigger price the order has, a new
/// limit price the limit price it has (an order without one gets none), a new quantity
/// the ordered quantity. The order keeps its id, brokerage, account, symbol, side, type
/// and state; every other open order and the closed orders stay; one `Updated` event
/// names it.
pub proof fn law_update_changes_the_order_in_place(
    cache: Seq<Order>,
    closed: Seq<Order>,
    brokerage: Brokerage,
    order_id: String,
    account_id: AccountId,
    update: OrderUpdateType,
    new_cache: Seq<Order>,
    new_closed: Seq<Order>,
    events: Seq<OrderUpdateEvent>,
    i: int,
)
    requires
        order_request_result(
            cache,
            closed,
            OrderRequest::Update { brokerage, order_id, account_id, update },
            new_cache,
            new_closed,
            events,
        ),
        0 <= i < cache.len(),
        cache[i].id@ == order_id@,
        forall|j: int| 0 <= j < i ==> (#[trigger] cache[j]).id@ != order_id@,
    ensures
        new_cache.len() == cache.len(),
        forall|j: int| 0 <= j < cache.len() && j != i ==> #[trigger] new_cache[j] == cache[j],
        new_closed == closed,
        events.len() == 1,
        events[0] matches OrderUpdateEvent::Updated { order_id: id, brokerage: b, account_id: a }
            && id == cache[i].id && b == brokerage && a == cache[i].account_id,
        new_cache[i].id == cache[i].id,
        new_cache[i].brokerage == cache[i].brokerage,
        new_cache[i].account_id == cache[i].account_id,
        new_cache[i].symbol_name == cache[i].symbol_name,
        new_cache[i].side == cache[i].side,
        new_cache[i].order_type == cache[i].order_type,
        new_cache[i].state == cache[i].state,
        update matches OrderUpdateType::TriggerPrice(p) ==> {
            &&& new_cache[i].trigger_price == (if cache[i].trigger_price is Some {
                Some(p)
            } else {
                None
            })
            &&& new_cache[i].limit_price == cache[i].limit_price
            &&& new_cache[i].quantity_ordered == cache[i].quantity_ordered
        },
        update matches OrderUpdateType::LimitPrice(p) ==> {
            &&& new_cache[i].limit_price == (if cache[i].limit_price is Some {
                Some(p)
            } else {
                None
            })
            &&& new_cache[i].trigger_price == cache[i].trigger_price
            &&& new_cache[i].quantity_ordered == cache[i].quantity_ordered
        },
        update matches OrderUpdateType::Quantity(q) ==> {
            &&& new_cache[i].quantity_ordered == q
            &&& new_cache[i].limit_price == cache[i].limit_price
            &&& new_cache[i].trigger_price == cache[i].trigger_price
        },
{
    lemma_first_with_id_is(cache, order_id@, i);
}

/// Cancelling an open order moves the first open order with that id to the closed orders
/// and reports it cancelled; the other open orders stay, in their order.
pub proof fn law_cancel_closes_the_order(
    cache: Seq<Order>,
    closed: Seq<Order>,
    brokerage: Brokerage,
    order_id: String,
    account_id: AccountId,
    new_cache: Seq<Order>,
    new_closed: Seq<Order>,
    events: Seq<OrderUpdateEvent>,
    i: int,
)
    requires
        order_request_result(
            cache,
            closed,
            OrderRequest::Cancel { brokerage, order_id, account_id },
            new_cache,
            new_closed,
            events,
        ),
        0 <= i < cache.len(),
        cache[i].id@ == order_id@,
        forall|j: int| 0 <= j < i ==> (#[trigger] cache[j]).id@ != order_id@,
    ensures
        new_cache.len() == cache.len() - 1,
        forall|j: int| 0 <= j < i ==> #[trigger] new_cache[j] == cache[j],
        forall|j: int| i < j < cache.len() ==> new_cache[j - 1] == #[trigger] cache[j],
        new_closed == closed.push(cache[i]),
        events.len() == 1,
        events[0] matches OrderUpdateEvent::Cancelled { order_id: id, brokerage: b, account_id: a }
            && id == cache[i].id && b == brokerage && a == cache[i].account_id,
{
    lemma_first_with_id_is(cache, order_id@, i);
}

/// An update or a cancel of an id that no open order has changes nothing and is
/// rejected with "No pending order found".
pub proof fn law_unknown_order_is_rejected(
    cache: Seq<Order>,
    closed: Seq<Order>,
    request: OrderRequest,
    new_cache: Seq<Order>,
    new_closed: Seq<Order>,
    events: Seq<OrderUpdateEvent>,
)
    requires
        order_request_result(cache, closed, request, new_cache, new_closed, events),
        request is Cancel || request is Update,
        forall|j: int| 0 <= j < cache.len() ==> (#[trigger] cache[j]).id@ != (match request {
            OrderRequest::Cancel { order_id, .. } => order_id@,
            OrderRequest::Update { order_id, .. } => order_id@,
            _ => Seq::<char>::empty(),
        }),
    ensures
        new_cache == cache,
        new_closed == closed,
        events.len() == 1,
        events[0] matches OrderUpdateEvent::UpdateRejected { reason, .. } && reason@
            == "No pending order found"@,
{
    match request {
        OrderRequest::Cancel { order_id, .. } => lemma_first_with_id_none(cache, order_id@),
        OrderRequest::Update { order_id, .. } => lemma_first_with_id_none(cache, order_id@),
        _ => {},
    }
}

/// A new order joins the open orders: it replaces the first open order with its id, or
/// is added last; nothing is reported and no order is closed.
pub proof fn law_created_order_is_open(
    cache: Seq<Order>,
    closed: Seq<Order>,
    brokerage: Brokerage,
    order: Order,
    new_cache: Seq<Order>,
    new_closed: Seq<Order>,
    events: Seq<OrderUpdateEvent>,
)
    requires
        order_request_result(
            cache,
            closed,
            OrderRequest::Create { brokerage, order },
            new_cache,
            new_closed,
            events,
        ),
    ensures
        events.len() == 0,
        new_closed == closed,
        exists|j: int| 0 <= j < new_cache.len() && #[trigger] new_cache[j] == order,
        (forall|j: int| 0 <= j < cache.len() ==> (#[trigger] cache[j]).id@ != order.id@) ==> (
        new_cache == cache.push(order)),
        (exists|j: int| 0 <= j < cache.len() && (#[trigger] cache[j]).id@ == order.id@) ==> (
        new_cache.len() == cache.len()),
{
    if forall|j: int| 0 <= j < cache.len() ==> (#[trigger] cache[j]).id@ != order.id@ {
        lemma_first_with_id_none(cache, order.id@);
        assert(new_cache[cache.len() as int] == order);
    } else {
        let k = choose|j: int| 0 <= j < cache.len() && (#[trigger] cache[j]).id@ == order.id@;
        lemma_some_first(cache, order.id@, k);
        let i = first_with_id(cache, order.id@)->0;
        assert(is_first_with_id(cache, order.id@, i));
        assert(new_cache[i] == order);
    }
}

proof fn lemma_some_first(orders: Seq<Order>, id: Seq<char>, k: int)
    requires
        0 <= k < orders.len(),
        orders[k].id@ == id,
    ensures
        first_with_id(orders, id) is Some,
    decreases k,
{
    if !is_first_with_id(orders, id, k) {
        let j = choose|j: int| 0 <= j < k && (#[trigger] orders[j]).id@ == id;
        lemma_some_first(orders, id, j);
    }
}

proof fn lemma_cancel_all_splits(orders: Seq<Order>, brokerage: Brokerage, account_id: Seq<char>, symbol_name: Seq<char>)
    ensures
        left_open(orders, brokerage, account_id, symbol_name).len() + cancelled_orders(
            orders,
            brokerage,
            account_id,
            symbol_name,
        ).len() == orders.len(),
        forall|j: int|
            0 <= j < left_open(orders, brokerage, account_id, symbol_name).len() ==> !order_of(
                #[trigger] left_open(orders, brokerage, account_id, symbol_name)[j],
                brokerage,
                account_id,
                symbol_name,
            ),
        forall|j: int|
            0 <= j < cancelled_orders(orders, brokerage, account_id, symbol_name).len() ==> order_of(
                #[trigger] cancelled_orders(orders, brokerage, account_id, symbol_name)[j],
                brokerage,
                account_id,
                symbol_name,
            ),
    decreases orders.len(),
{
    if orders.len() > 0 {
        lemma_cancel_all_splits(orders.drop_last(), brokerage, account_id, symbol_name);
        let l0 = left_open(orders.drop_last(), brokerage, account_id, symbol_name);
        let c0 = cancelled_orders(orders.drop_last(), brokerage, account_id, symbol_name);
        let l = left_open(orders, brokerage, account_id, symbol_name);
        let c = cancelled_orders(orders, brokerage, account_id, symbol_name);
        assert forall|j: int| 0 <= j < l.len() implies !order_of(#[trigger] l[j], brokerage, account_id, symbol_name) by {
            if j < l0.len() {
                assert(l[j] == l0[j]);
            }
        }
        assert forall|j: int| 0 <= j < c.len() implies order_of(#[trigger] c[j], brokerage, account_id, symbol_name) by {
            if j < c0.len() {
                assert(c[j] == c0[j]);
            }
        }
    }
}

/// Cancelling all orders of an account in a symbol leaves none of them open and closes
/// only such orders: every order is either left open or closed, and one `Cancelled`
/// event names each closed order, in order.
pub proof fn law_cancel_all_closes_exactly_the_accounts_orders(
    cache: Seq<Order>,
    closed: Seq<Order>,
    brokerage: Brokerage,
    account_id: AccountId,
    symbol_name: SymbolName,
    new_cache: Seq<Order>,
    new_closed: Seq<Order>,
    events: Seq<OrderUpdateEvent>,
)
    requires
        order_request_result(
            cache,
            closed,
            OrderRequest::CancelAll { brokerage, account_id, symbol_name },
            new_cache,
            new_closed,
            events,
        ),
    ensures
        new_closed.len() >= closed.len(),
        new_closed.subrange(0, closed.len() as int) == closed,
        new_cache.len() + (new_closed.len() - closed.len()) == cache.len(),
        forall|j: int|
            0 <= j < new_cache.len() ==> !((#[trigger] new_cache[j]).brokerage == brokerage
                && new_cache[j].account_id@ == account_id@ && new_cache[j].symbol_name@
                == symbol_name@),
        forall|j: int|
            closed.len() <= j < new_closed.len() ==> (#[trigger] new_closed[j]).brokerage
                == brokerage && new_closed[j].account_id@ == account_id@
                && new_closed[j].symbol_name@ == symbol_name@,
        events.len() == new_closed.len() - closed.len(),
        forall|j: int|
            0 <= j < events.len() ==> #[trigger] events[j] == (OrderUpdateEvent::Cancelled {
                order_id: new_closed[closed.len() + j].id,
                brokerage: new_closed[closed.len() + j].brokerage,
                account_id: new_closed[closed.len() + j].account_id,
            }),
{
    lemma_cancel_all_splits(cache, brokerage, account_id@, symbol_name@);
    let c = cancelled_orders(cache, brokerage, account_id@, symbol_name@);
    assert(new_closed.subrange(0, closed.len() as int) =~= closed);
    assert forall|j: int| closed.len() <= j < new_closed.len() implies (#[trigger] new_closed[j]).brokerage
        == brokerage && new_closed[j].account_id@ == account_id@ && new_closed[j].symbol_name@
        == symbol_name@ by {
        assert(new_closed[j] == c[j - closed.len()]);
    }
    assert forall|j: int| 0 <= j < events.len() implies #[trigger] events[j] == (OrderUpdateEvent::Cancelled {
        order_id: new_closed[closed.len() + j].id,
        brokerage: new_closed[closed.len() + j].brokerage,
        account_id: new_closed[closed.len() + j].account_id,
    }) by {
        assert(new_closed[closed.len() + j] == c[j]);
    }
}

/// A new order whose id an open order already has takes the place of the first such
/// order; every other open order stays where it was.
pub proof fn law_created_order_replaces_its_id(
    cache: Seq<Order>,
    closed: Seq<Order>,
    brokerage: Brokerage,
    order: Order,
    new_cache: Seq<Order>,
    new_closed: Seq<Order>,
    events: Seq<OrderUpdateEvent>,
    i: int,
)
    requires
        order_request_result(
            cache,
            closed,
            OrderRequest::Create { brokerage, order },
            new_cache,
            new_closed,
            events,
        ),
        0 <= i < cache.len(),
        cache[i].id@ == order.id@,
        forall|j: int| 0 <= j < i ==> (#[trigger] cache[j]).id@ != order.id@,
    ensures
        new_cache.len() == cache.len(),
        new_cache[i] == order,
        forall|j: int| 0 <= j < cache.len() && j != i ==> #[trigger] new_cache[j] == cache[j],
{
    lemma_first_with_id_is(cache, order.id@, i);
}

proof fn lemma_all_or_none_accepted(orders: Seq<Order>, markets: Seq<OrderMarket>, now: i64)
    requires
        markets.len() >= orders.len(),
    ensures
        (forall|i: int| 0 <= i < orders.len() ==> match_outcome(#[trigger] orders[i], markets[i])
            == MatchOutcome::Accept) ==> (kept_orders(orders, markets, now).len() == orders.len()
            && forall|i: int| 0 <= i < orders.len() ==> #[trigger] kept_orders(orders, markets, now)[i]
            == accepted_order(orders[i], now)),
        (forall|i: int| 0 <= i < orders.len() ==> match_outcome(#[trigger] orders[i], markets[i])
            != MatchOutcome::Accept) ==> kept_orders(orders, markets, now).len() == 0,
    decreases orders.len(),
{
    if orders.len() > 0 {
        let init = orders.drop_last();
        lemma_all_or_none_accepted(init, markets, now);
        let n = orders.len() - 1;
        assert(orders[n] == orders.last());
        if forall|i: int| 0 <= i < orders.len() ==> match_outcome(#[trigger] orders[i], markets[i])
            == MatchOutcome::Accept {
            assert forall|i: int| 0 <= i < init.len() implies match_outcome(#[trigger] init[i], markets[i])
                == MatchOutcome::Accept by {
                assert(init[i] == orders[i]);
            }
            assert(match_outcome(orders[n], markets[n]) == MatchOutcome::Accept);
            let k = kept_orders(orders, markets, now);
            assert forall|i: int| 0 <= i < orders.len() implies #[trigger] k[i] == accepted_order(orders[i], now) by {
                if i < n {
                    assert(init[i] == orders[i]);
                }
            }
        }
        if forall|i: int| 0 <= i < orders.len() ==> match_outcome(#[trigger] orders[i], markets[i])
            != MatchOutcome::Accept {
            assert forall|i: int| 0 <= i < init.len() implies match_outcome(#[trigger] init[i], markets[i])
                != MatchOutcome::Accept by {
                assert(init[i] == orders[i]);
            }
            assert(match_outcome(orders[n], markets[n]) != MatchOutcome::Accept);
        }
    }
}

/// A pass where no order fills or is refused keeps every open order, in the cache's order,
/// marked accepted at the pass's time; a pass where every order fills or is refused leaves
/// no order open.
pub proof fn law_pass_keeps_the_caches_order(
    orders: Seq<Order>,
    markets: Seq<OrderMarket>,
    now: i64,
    new_cache: Seq<Order>,
    r: Option<Vec<OrderUpdateEvent>>,
)
    requires
        markets.len() == orders.len(),
        matching_result(orders, markets, now, new_cache, r),
    ensures
        (forall|i: int| 0 <= i < orders.len() ==> match_outcome(#[trigger] orders[i], markets[i])
            == MatchOutcome::Accept) ==> (new_cache.len() == orders.len() && forall|i: int|
            0 <= i < orders.len() ==> (#[trigger] new_cache[i]).id == orders[i].id
                && new_cache[i].state == OrderState::Accepted && new_cache[i].time_created_utc
                == now),
        (forall|i: int| 0 <= i < orders.len() ==> match_outcome(#[trigger] orders[i], markets[i])
            != MatchOutcome::Accept) ==> new_cache.len() == 0,
{
    lemma_all_or_none_accepted(orders, markets, now);
    if forall|i: int| 0 <= i < orders.len() ==> match_outcome(#[trigger] orders[i], markets[i])
        == MatchOutcome::Accept {
        assert forall|i: int| 0 <= i < orders.len() implies (#[trigger] new_cache[i]).id == orders[i].id
            && new_cache[i].state == OrderState::Accepted && new_cache[i].time_created_utc == now by {
            assert(new_cache[i] == accepted_order(orders[i], now));
        }
    }
}

} // verus!
