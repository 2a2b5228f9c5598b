use ff_standard_lib::decimal::Decimal;
use ff_standard_lib::market_handler::market_handlers::BookLevel;
use ff_standard_lib::market_handler::markets::{MarketMessage, Markets};
use ff_standard_lib::messages::data_server_messaging::FundForgeError;
use ff_standard_lib::standardized_types::{
    BaseDataEnum, Candle, CandleType, DataVendor, MarketType, OrderSide, Quote, QuoteBar,
    Resolution, StrategyMode, Symbol, Tick,
};

fn d(m: i64, s: u32) -> Decimal {
    Decimal::new(m, s)
}

fn symbol(name: &str) -> Symbol {
    Symbol::new(name.to_string(), DataVendor::Test, MarketType::CFD)
}

fn no_price() -> FundForgeError {
    FundForgeError::ClientSideErrorDebug("No market price found for symbol".to_string())
}

fn tick(name: &str, price: Decimal) -> BaseDataEnum {
    BaseDataEnum::Tick(Tick { symbol: symbol(name), price, time: 0, volume: d(1, 0) })
}

#[test]
fn data_creates_a_symbol_on_first_sight() {
    let mut markets = Markets::new(StrategyMode::Backtest);
    let es = "ES".to_string();
    assert_eq!(markets.market_price(OrderSide::Buy, &es), Err(no_price()));
    assert!(markets.handle(MarketMessage::BaseDataUpdate(tick("ES", d(100, 0)))));
    assert_eq!(markets.market_price(OrderSide::Buy, &es), Ok(d(100, 0)));
    assert_eq!(markets.market_price(OrderSide::Sell, &es), Ok(d(100, 0)));
    // Another symbol is untouched.
    assert_eq!(markets.market_price(OrderSide::Buy, &"NQ".to_string()), Err(no_price()));
}

#[test]
fn deregistering_forgets_books_and_last_price() {
    let mut markets = Markets::new(StrategyMode::Live);
    let es = "ES".to_string();
    let nq = "NQ".to_string();
    assert!(!markets.handle(MarketMessage::RegisterSymbol(symbol("ES"))));
    assert!(!markets.handle(MarketMessage::BaseDataUpdate(tick("ES", d(100, 0)))));
    assert!(!markets.handle(MarketMessage::BaseDataUpdate(tick("NQ", d(200, 0)))));
    assert!(!markets.handle(MarketMessage::OrderBookSnapShot {
        symbol: symbol("ES"),
        bid_book: vec![BookLevel { level: 0, price: d(99, 0), volume: d(1, 0) }],
        ask_book: vec![BookLevel { level: 0, price: d(101, 0), volume: d(1, 0) }],
    }));
    assert_eq!(markets.market_price(OrderSide::Buy, &es), Ok(d(101, 0)));
    assert_eq!(markets.market_price(OrderSide::Sell, &es), Ok(d(99, 0)));
    assert!(!markets.handle(MarketMessage::DeregisterSymbol(symbol("ES"))));
    assert_eq!(markets.market_price(OrderSide::Buy, &es), Err(no_price()));
    assert_eq!(markets.market_price(OrderSide::Sell, &es), Err(no_price()));
    assert_eq!(markets.market_price(OrderSide::Buy, &nq), Ok(d(200, 0)));
}

#[test]
fn registering_empties_the_books_and_keeps_the_last_price() {
    let mut markets = Markets::new(StrategyMode::LivePaperTrading);
    let es = "ES".to_string();
    let quote = BaseDataEnum::Quote(Quote {
        symbol: symbol("ES"), ask: d(101, 0), bid: d(99, 0), ask_volume: d(1, 0), bid_volume: d(1, 0), time: 0,
    });
    assert!(markets.handle(MarketMessage::BaseDataUpdate(quote)));
    assert!(markets.handle(MarketMessage::BaseDataUpdate(tick("ES", d(100, 0)))));
    assert_eq!(markets.market_price(OrderSide::Buy, &es), Ok(d(101, 0)));
    assert!(!markets.handle(MarketMessage::RegisterSymbol(symbol("ES"))));
    // Empty books: the price falls back to the last traded one.
    assert_eq!(markets.market_price(OrderSide::Buy, &es), Ok(d(100, 0)));
    assert_eq!(markets.mode(), StrategyMode::LivePaperTrading);
}

#[test]
fn time_slices_apply_in_order_and_quote_bars_need_books() {
    let mut markets = Markets::new(StrategyMode::Backtest);
    let es = "ES".to_string();
    let bar = QuoteBar::new(symbol("ES"), d(97, 0), d(98, 0), d(1, 0), 2, Resolution::Minutes(1), CandleType::CandleStick);
    // A quote bar for a symbol without books sets nothing.
    assert!(markets.handle(MarketMessage::BaseDataUpdate(BaseDataEnum::QuoteBar(bar.copy()))));
    assert_eq!(markets.market_price(OrderSide::Buy, &es), Err(no_price()));
    let candle = Candle::new(symbol("ES"), d(11, 0), d(5, 0), 0, Resolution::Minutes(1), CandleType::CandleStick);
    assert!(markets.handle(MarketMessage::TimeSliceUpdate(vec![
        tick("ES", d(100, 0)),
        BaseDataEnum::Candle(candle),
        tick("NQ", d(7, 0)),
    ])));
    // The candle came after the tick: its close is the last price.
    assert_eq!(markets.market_price(OrderSide::Buy, &es), Ok(d(11, 0)));
    assert_eq!(markets.market_price(OrderSide::Sell, &"NQ".to_string()), Ok(d(7, 0)));
    assert!(!markets.handle(MarketMessage::RegisterSymbol(symbol("ES"))));
    assert!(markets.handle(MarketMessage::BaseDataUpdate(BaseDataEnum::QuoteBar(bar))));
    assert_eq!(markets.market_price(OrderSide::Buy, &es), Ok(d(98, 0)));
    assert_eq!(markets.market_price(OrderSide::Sell, &es), Ok(d(97, 0)));
}
