use ff_standard_lib::apis::brokerage::Brokerage;
use ff_standard_lib::decimal::Decimal;
use ff_standard_lib::market_handler::historical::order_matching::{
    backtest_matching_engine, simulated_order_matching, Order, OrderMarket, OrderRequest,
    OrderState, OrderUpdateEvent, OrderUpdateType,
};
use ff_standard_lib::market_handler::market_handlers::OrderType;
use ff_standard_lib::standardized_types::OrderSide;

fn d(m: i64, s: u32) -> Decimal {
    Decimal::new(m, s)
}

fn order(id: &str, side: OrderSide, order_type: OrderType, limit: Option<Decimal>) -> Order {
    Order {
        id: id.to_string(),
        brokerage: Brokerage::Test,
        account_id: "acc".to_string(),
        symbol_name: "ES".to_string(),
        side,
        order_type,
        quantity_ordered: d(1, 0),
        quantity_filled: d(0, 0),
        limit_price: limit,
        trigger_price: None,
        average_fill_price: None,
        state: OrderState::Created,
        time_created_utc: 0,
        time_filled_utc: None,
    }
}

fn market(price: Decimal) -> OrderMarket {
    OrderMarket { market_price: price, is_long: false, is_short: false }
}

#[test]
fn empty_cache_gives_nothing() {
    let mut cache: Vec<Order> = vec![];
    assert_eq!(backtest_matching_engine(&mut cache, &vec![], 5), None);
    assert!(cache.is_empty());
}

#[test]
fn one_event_per_order_and_only_accepted_orders_stay() {
    let mut cache = vec![
        order("m", OrderSide::Buy, OrderType::Market, None),
        order("bl", OrderSide::Buy, OrderType::Limit, Some(d(100, 0))),
        order("sl", OrderSide::Sell, OrderType::Limit, Some(d(100, 0))),
        order("x", OrderSide::Sell, OrderType::ExitLong, None),
    ];
    let markets = vec![market(d(101, 0)); 4];
    let events = backtest_matching_engine(&mut cache, &markets, 42).unwrap();
    let acc = || "acc".to_string();
    assert_eq!(events.len(), 4);
    assert_eq!(events[0], OrderUpdateEvent::Filled { order_id: "m".to_string(), brokerage: Brokerage::Test, account_id: acc() });
    assert_eq!(events[1], OrderUpdateEvent::Accepted { order_id: "bl".to_string(), brokerage: Brokerage::Test, account_id: acc() });
    assert_eq!(events[2], OrderUpdateEvent::Filled { order_id: "sl".to_string(), brokerage: Brokerage::Test, account_id: acc() });
    assert_eq!(
        events[3],
        OrderUpdateEvent::Rejected {
            order_id: "x".to_string(),
            brokerage: Brokerage::Test,
            account_id: acc(),
            reason: "No long position to exit".to_string()
        }
    );
    assert_eq!(cache.len(), 1);
    assert_eq!(cache[0].id, "bl");
    assert_eq!(cache[0].state, OrderState::Accepted);
    assert_eq!(cache[0].time_created_utc, 42);
    // A second pass at a lower price fills the buy limit and empties the cache.
    let events = backtest_matching_engine(&mut cache, &vec![market(d(99, 0))], 43).unwrap();
    assert_eq!(events, vec![OrderUpdateEvent::Filled { order_id: "bl".to_string(), brokerage: Brokerage::Test, account_id: acc() }]);
    assert!(cache.is_empty());
}

fn ids(orders: &Vec<Order>) -> Vec<String> {
    orders.iter().map(|o| o.id.clone()).collect()
}

fn no_pending(order_id: &str) -> OrderUpdateEvent {
    OrderUpdateEvent::UpdateRejected {
        order_id: order_id.to_string(),
        brokerage: Brokerage::Test,
        account_id: "acc".to_string(),
        reason: "No pending order found".to_string(),
    }
}

#[test]
fn created_orders_join_the_cache_and_replace_their_id() {
    let mut cache = vec![];
    let mut closed = vec![];
    let events = simulated_order_matching(&mut cache, &mut closed, OrderRequest::Create {
        brokerage: Brokerage::Test,
        order: order("a", OrderSide::Buy, OrderType::Limit, Some(d(100, 0))),
    });
    assert!(events.is_empty());
    simulated_order_matching(&mut cache, &mut closed, OrderRequest::Create {
        brokerage: Brokerage::Test,
        order: order("b", OrderSide::Buy, OrderType::Limit, Some(d(90, 0))),
    });
    simulated_order_matching(&mut cache, &mut closed, OrderRequest::Create {
        brokerage: Brokerage::Test,
        order: order("a", OrderSide::Sell, OrderType::Limit, Some(d(110, 0))),
    });
    assert_eq!(ids(&cache), vec!["a".to_string(), "b".to_string()]);
    assert_eq!(cache[0].side, OrderSide::Sell);
    assert!(closed.is_empty());
}

#[test]
fn cancel_moves_the_order_to_the_closed_orders() {
    let mut cache = vec![
        order("a", OrderSide::Buy, OrderType::Limit, Some(d(100, 0))),
        order("b", OrderSide::Buy, OrderType::Limit, Some(d(90, 0))),
    ];
    let mut closed = vec![];
    let events = simulated_order_matching(&mut cache, &mut closed, OrderRequest::Cancel {
        brokerage: Brokerage::Test,
        order_id: "a".to_string(),
        account_id: "acc".to_string(),
    });
    assert_eq!(events, vec![OrderUpdateEvent::Cancelled {
        order_id: "a".to_string(),
        brokerage: Brokerage::Test,
        account_id: "acc".to_string(),
    }]);
    assert_eq!(ids(&cache), vec!["b".to_string()]);
    assert_eq!(ids(&closed), vec!["a".to_string()]);
    let events = simulated_order_matching(&mut cache, &mut closed, OrderRequest::Cancel {
        brokerage: Brokerage::Test,
        order_id: "a".to_string(),
        account_id: "acc".to_string(),
    });
    assert_eq!(events, vec![no_pending("a")]);
    assert_eq!(ids(&cache), vec!["b".to_string()]);
    assert_eq!(closed.len(), 1);
}

#[test]
fn updates_change_the_open_order_in_place() {
    let mut cache = vec![
        order("a", OrderSide::Buy, OrderType::Limit, Some(d(100, 0))),
        order("m", OrderSide::Buy, OrderType::Market, None),
    ];
    let mut closed = vec![];
    let events = simulated_order_matching(&mut cache, &mut closed, OrderRequest::Update {
        brokerage: Brokerage::Test,
        order_id: "a".to_string(),
        account_id: "acc".to_string(),
        update: OrderUpdateType::LimitPrice(d(95, 0)),
    });
    assert_eq!(events, vec![OrderUpdateEvent::Updated {
        order_id: "a".to_string(),
        brokerage: Brokerage::Test,
        account_id: "acc".to_string(),
    }]);
    assert_eq!(cache[0].limit_price, Some(d(95, 0)));
    // An order without a limit price gets none.
    simulated_order_matching(&mut cache, &mut closed, OrderRequest::Update {
        brokerage: Brokerage::Test,
        order_id: "m".to_string(),
        account_id: "acc".to_string(),
        update: OrderUpdateType::LimitPrice(d(95, 0)),
    });
    assert_eq!(cache[1].limit_price, None);
    simulated_order_matching(&mut cache, &mut closed, OrderRequest::Update {
        brokerage: Brokerage::Test,
        order_id: "m".to_string(),
        account_id: "acc".to_string(),
        update: OrderUpdateType::Quantity(d(3, 0)),
    });
    assert_eq!(cache[1].quantity_ordered, d(3, 0));
    assert_eq!(ids(&cache), vec!["a".to_string(), "m".to_string()]);
    let events = simulated_order_matching(&mut cache, &mut closed, OrderRequest::Update {
        brokerage: Brokerage::Test,
        order_id: "zz".to_string(),
        account_id: "acc".to_string(),
        update: OrderUpdateType::TriggerPrice(d(1, 0)),
    });
    assert_eq!(events, vec![no_pending("zz")]);
}

#[test]
fn cancel_all_takes_only_the_accounts_orders_in_the_symbol() {
    let mut other_symbol = order("c", OrderSide::Buy, OrderType::Limit, Some(d(1, 0)));
    other_symbol.symbol_name = "NQ".to_string();
    let mut cache = vec![
        order("a", OrderSide::Buy, OrderType::Limit, Some(d(100, 0))),
        other_symbol,
        order("b", OrderSide::Sell, OrderType::Limit, Some(d(120, 0))),
    ];
    let mut closed = vec![];
    let events = simulated_order_matching(&mut cache, &mut closed, OrderRequest::CancelAll {
        brokerage: Brokerage::Test,
        account_id: "acc".to_string(),
        symbol_name: "ES".to_string(),
    });
    assert_eq!(events.len(), 2);
    assert_eq!(events[1], OrderUpdateEvent::Cancelled {
        order_id: "b".to_string(),
        brokerage: Brokerage::Test,
        account_id: "acc".to_string(),
    });
    assert_eq!(ids(&cache), vec!["c".to_string()]);
    assert_eq!(ids(&closed), vec!["a".to_string(), "b".to_string()]);
}
