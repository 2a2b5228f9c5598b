use ff_standard_lib::apis::brokerage::Brokerage;
use ff_standard_lib::market_handler::position_manager::PositionHandler;
use ff_standard_lib::decimal::Decimal;
use ff_standard_lib::server_connections::ConnectionType;
use ff_standard_lib::market_handler::market_handlers::{
    book_for_side, get_market_fill_price_estimate, get_market_price, is_flat_live, is_flat_paper,
    is_long_live, is_long_paper, is_short_live, is_short_paper, match_backtest_order,
    route_order_request, simulates_fills, uses_fill_estimate, OrderRoute, BookLevel, Ledgers, MatchDecision, OpenPosition, OrderBook, OrderType,
    SymbolMarket,
};
use ff_standard_lib::messages::data_server_messaging::FundForgeError;
use ff_standard_lib::standardized_types::{
    BaseDataEnum, CandleType, DataVendor, MarketType, OrderSide, PositionSide, Quote, QuoteBar,
    Resolution, StrategyMode, Symbol, Tick,
};

fn d(m: i64, s: u32) -> Decimal {
    Decimal::new(m, s)
}

fn book(levels: &[(u8, Decimal, Decimal)]) -> OrderBook {
    let mut b = OrderBook::new();
    for (l, p, v) in levels {
        b.insert(*l, *p, *v);
    }
    b
}

fn no_price() -> FundForgeError {
    FundForgeError::ClientSideErrorDebug("No market price found for symbol".to_string())
}

#[test]
fn fill_estimate_walks_the_book() {
    let asks = book(&[(0, d(100, 0), d(2, 0)), (1, d(101, 0), d(3, 0))]);
    // 2 at 100 and 2 at 101: 100.5, a whole number of 0.25 ticks.
    let p = get_market_fill_price_estimate(Some(&asks), d(4, 0), d(25, 2), None).unwrap();
    assert!(p.value_eq(&d(1005, 1)));
    // Within the best level: its price.
    let p = get_market_fill_price_estimate(Some(&asks), d(1, 0), d(25, 2), None).unwrap();
    assert!(p.value_eq(&d(100, 0)));
    // More than the book holds: the average of what it holds, 2 at 100 and 3 at 101 = 100.6,
    // rounded to 100.5.
    let p = get_market_fill_price_estimate(Some(&asks), d(10, 0), d(25, 2), None).unwrap();
    assert!(p.value_eq(&d(1005, 1)));
}

#[test]
fn fill_estimate_empty_levels_and_fallbacks() {
    // An empty best level before anything is filled gives its price.
    let thin = book(&[(0, d(99, 0), d(0, 0)), (1, d(100, 0), d(5, 0))]);
    let p = get_market_fill_price_estimate(Some(&thin), d(1, 0), d(25, 2), None).unwrap();
    assert_eq!(p, d(99, 0));
    // Empty levels after a fill are skipped.
    let gap = book(&[(0, d(100, 0), d(1, 0)), (1, d(101, 0), d(0, 0)), (2, d(102, 0), d(1, 0))]);
    let p = get_market_fill_price_estimate(Some(&gap), d(2, 0), d(1, 0), None).unwrap();
    assert!(p.value_eq(&d(101, 0)));
    // Without a book, the last price; without either, an error.
    let p = get_market_fill_price_estimate(None, d(1, 0), d(25, 2), Some(d(42, 0))).unwrap();
    assert_eq!(p, d(42, 0));
    let empty = OrderBook::new();
    let p = get_market_fill_price_estimate(Some(&empty), d(1, 0), d(25, 2), Some(d(42, 0))).unwrap();
    assert_eq!(p, d(42, 0));
    assert_eq!(get_market_fill_price_estimate(None, d(1, 0), d(25, 2), None), Err(no_price()));
}

#[test]
fn market_price_is_the_best_level() {
    let bids = book(&[(0, d(99, 0), d(1, 0)), (1, d(98, 0), d(1, 0))]);
    assert_eq!(get_market_price(Some(&bids), Some(d(5, 0))), Ok(d(99, 0)));
    let deep_only = book(&[(1, d(98, 0), d(1, 0))]);
    assert_eq!(get_market_price(Some(&deep_only), Some(d(5, 0))), Ok(d(5, 0)));
    assert_eq!(get_market_price(None, None), Err(no_price()));
    let asks = book(&[(0, d(101, 0), d(1, 0))]);
    let side = book_for_side(OrderSide::Buy, Some(&bids), Some(&asks));
    assert_eq!(get_market_price(side, None), Ok(d(101, 0)));
    let side = book_for_side(OrderSide::Sell, Some(&bids), Some(&asks));
    assert_eq!(get_market_price(side, None), Ok(d(99, 0)));
}

#[test]
fn snapshots_and_base_data_update_books() {
    let mut market = SymbolMarket::new();
    market.register();
    market.apply_snapshot(
        &vec![BookLevel { level: 0, price: d(99, 0), volume: d(3, 0) }],
        &vec![BookLevel { level: 0, price: d(101, 0), volume: d(4, 0) }, BookLevel { level: 1, price: d(102, 0), volume: d(1, 0) }],
    );
    assert_eq!(market.bid_book.as_ref().unwrap().get(0), Some((d(99, 0), d(3, 0))));
    assert_eq!(market.ask_book.as_ref().unwrap().get(1), Some((d(102, 0), d(1, 0))));
    let symbol = Symbol::new("ES".to_string(), DataVendor::Test, MarketType::CFD);
    market.update_base_data(StrategyMode::Live, &BaseDataEnum::Quote(Quote {
        symbol: symbol.copy(), ask: d(1005, 1), bid: d(995, 1), ask_volume: d(7, 0), bid_volume: d(8, 0), time: 0,
    }));
    assert_eq!(market.bid_book.as_ref().unwrap().get(0), Some((d(995, 1), d(8, 0))));
    assert_eq!(market.ask_book.as_ref().unwrap().get(0), Some((d(1005, 1), d(7, 0))));
    market.update_base_data(StrategyMode::Live, &BaseDataEnum::Tick(Tick { symbol: symbol.copy(), price: d(100, 0), time: 1, volume: d(1, 0) }));
    assert_eq!(market.last_price, Some(d(100, 0)));
    let bar = QuoteBar::new(symbol.copy(), d(97, 0), d(98, 0), d(1, 0), 2, Resolution::Minutes(1), CandleType::CandleStick);
    market.update_base_data(StrategyMode::Live, &BaseDataEnum::QuoteBar(bar.copy()));
    assert_eq!(market.bid_book.as_ref().unwrap().get(0), Some((d(995, 1), d(8, 0))));
    market.update_base_data(StrategyMode::Backtest, &BaseDataEnum::QuoteBar(bar));
    assert_eq!(market.bid_book.as_ref().unwrap().get(0), Some((d(97, 0), d(0, 1))));
    assert_eq!(market.ask_book.as_ref().unwrap().get(0), Some((d(98, 0), d(0, 1))));
}

#[test]
fn matching_limit_and_stop_orders() {
    let fill = |p: Decimal| MatchDecision::Fill { price: p, exit_opposite: false };
    assert!(!uses_fill_estimate(OrderType::Limit));
    assert!(uses_fill_estimate(OrderType::Market));
    // A buy limit fills at its limit once the market is at or below it.
    assert_eq!(match_backtest_order(OrderType::Limit, OrderSide::Buy, Some(d(100, 0)), None, Some(d(100, 0)), false, false), fill(d(100, 0)));
    assert_eq!(match_backtest_order(OrderType::Limit, OrderSide::Buy, Some(d(100, 0)), None, Some(d(101, 0)), false, false), MatchDecision::Wait);
    assert_eq!(match_backtest_order(OrderType::Limit, OrderSide::Sell, Some(d(100, 0)), None, Some(d(101, 0)), false, false), fill(d(100, 0)));
    assert_eq!(match_backtest_order(OrderType::Limit, OrderSide::Buy, Some(d(100, 0)), None, None, false, false), MatchDecision::Wait);
    // Stops fill at the market once it reaches the trigger.
    assert_eq!(match_backtest_order(OrderType::StopMarket, OrderSide::Sell, None, Some(d(95, 0)), Some(d(96, 0)), false, false), fill(d(96, 0)));
    assert_eq!(match_backtest_order(OrderType::StopMarket, OrderSide::Sell, None, Some(d(97, 0)), Some(d(96, 0)), false, false), MatchDecision::Wait);
    assert_eq!(match_backtest_order(OrderType::MarketIfTouched, OrderSide::Buy, None, Some(d(97, 0)), Some(d(96, 0)), false, false), fill(d(96, 0)));
    // A buy stop-limit: at or below the trigger and above the limit.
    assert_eq!(match_backtest_order(OrderType::StopLimit, OrderSide::Buy, Some(d(95, 0)), Some(d(100, 0)), Some(d(98, 0)), false, false), fill(d(95, 0)));
    assert_eq!(match_backtest_order(OrderType::StopLimit, OrderSide::Buy, Some(d(95, 0)), Some(d(100, 0)), Some(d(95, 0)), false, false), MatchDecision::Wait);
    assert_eq!(match_backtest_order(OrderType::StopLimit, OrderSide::Sell, Some(d(105, 0)), Some(d(100, 0)), Some(d(102, 0)), false, false), fill(d(105, 0)));
}

#[test]
fn matching_entries_and_exits() {
    assert_eq!(match_backtest_order(OrderType::Market, OrderSide::Buy, None, None, Some(d(100, 0)), false, false), MatchDecision::Fill { price: d(100, 0), exit_opposite: false });
    assert_eq!(match_backtest_order(OrderType::EnterLong, OrderSide::Buy, None, None, Some(d(100, 0)), false, true), MatchDecision::Fill { price: d(100, 0), exit_opposite: true });
    assert_eq!(match_backtest_order(OrderType::EnterShort, OrderSide::Sell, None, None, Some(d(100, 0)), true, false), MatchDecision::Fill { price: d(100, 0), exit_opposite: true });
    assert_eq!(match_backtest_order(OrderType::ExitLong, OrderSide::Sell, None, None, Some(d(100, 0)), false, false), MatchDecision::Reject("No long position to exit".to_string()));
    assert_eq!(match_backtest_order(OrderType::ExitShort, OrderSide::Buy, None, None, None, false, false), MatchDecision::Reject("No short position to exit".to_string()));
    assert_eq!(match_backtest_order(OrderType::ExitLong, OrderSide::Sell, None, None, None, true, false), MatchDecision::Wait);
    assert_eq!(match_backtest_order(OrderType::ExitShort, OrderSide::Buy, None, None, Some(d(99, 0)), false, true), MatchDecision::Fill { price: d(99, 0), exit_opposite: false });
}

#[test]
fn ledgers_report_position_sides() {
    let mut ledgers = Ledgers::new();
    let account = "acc-1".to_string();
    let es = "ES".to_string();
    let nq = "NQ".to_string();
    assert!(is_flat_live(&ledgers, &Brokerage::Test, &account, &es));
    ledgers.set_position(OpenPosition { brokerage: Brokerage::Test, account_id: account.clone(), symbol_name: es.clone(), side: PositionSide::Long });
    assert!(is_long_live(&ledgers, &Brokerage::Test, &account, &es));
    assert!(!is_short_live(&ledgers, &Brokerage::Test, &account, &es));
    assert!(is_flat_live(&ledgers, &Brokerage::Test, &account, &nq));
    assert!(is_flat_live(&ledgers, &Brokerage::Rithmic, &account, &es));
    ledgers.set_position(OpenPosition { brokerage: Brokerage::Test, account_id: account.clone(), symbol_name: es.clone(), side: PositionSide::Short });
    assert!(is_short_paper(&ledgers, &Brokerage::Test, &account, &es));
    assert!(!is_long_paper(&ledgers, &Brokerage::Test, &account, &es));
    assert!(!is_flat_paper(&ledgers, &Brokerage::Test, &account, &es));
    assert_eq!(ledgers.position_side(&Brokerage::Test, &account, &es), Some(PositionSide::Short));
}

#[test]
fn position_handler_tracks_open_sides() {
    let mut handler = PositionHandler::new();
    let account = "acc-2".to_string();
    let cl = "CL".to_string();
    assert!(handler.is_flat(&Brokerage::Test, &account, &cl));
    assert!(!handler.is_long(&Brokerage::Test, &account, &cl));
    handler.insert_open_position(OpenPosition { brokerage: Brokerage::Test, account_id: account.clone(), symbol_name: cl.clone(), side: PositionSide::Short });
    assert!(handler.is_short(&Brokerage::Test, &account, &cl));
    assert!(!handler.is_flat(&Brokerage::Test, &account, &cl));
    assert!(handler.is_flat(&Brokerage::Test, &"other".to_string(), &cl));
    handler.insert_open_position(OpenPosition { brokerage: Brokerage::Test, account_id: account.clone(), symbol_name: cl.clone(), side: PositionSide::Long });
    assert!(handler.is_long(&Brokerage::Test, &account, &cl));
    assert!(!handler.is_short(&Brokerage::Test, &account, &cl));
}

#[test]
fn fills_are_simulated_in_backtests_and_paper_trading() {
    assert!(simulates_fills(StrategyMode::Backtest));
    assert!(simulates_fills(StrategyMode::LivePaperTrading));
    assert!(!simulates_fills(StrategyMode::Live));
}

#[test]
fn order_requests_are_routed_by_mode() {
    assert_eq!(route_order_request(StrategyMode::Live, false, Brokerage::Test, true), OrderRoute::Ignore);
    assert_eq!(
        route_order_request(StrategyMode::Live, true, Brokerage::Rithmic, true),
        OrderRoute::Live(ConnectionType::Broker(Brokerage::Rithmic))
    );
    assert_eq!(route_order_request(StrategyMode::Live, true, Brokerage::Rithmic, false), OrderRoute::Live(ConnectionType::Default));
    assert_eq!(route_order_request(StrategyMode::Backtest, true, Brokerage::Test, true), OrderRoute::Simulated);
    assert_eq!(route_order_request(StrategyMode::LivePaperTrading, true, Brokerage::Test, false), OrderRoute::Simulated);
}
