use ff_standard_lib::consolidators::candlesticks::CandleStickConsolidator;
use ff_standard_lib::consolidators::consolidator_enum::ConsolidatorEnum;
use ff_standard_lib::consolidators::count::CountConsolidator;
use ff_standard_lib::consolidators::heikinashi::HeikinAshiConsolidator;
use ff_standard_lib::decimal::Decimal;
use ff_standard_lib::messages::data_server_messaging::FundForgeError;
use ff_standard_lib::standardized_types::{
    BaseDataEnum, BaseDataType, Candle, CandleType, DataSubscription, DataVendor, MarketType,
    Quote, Resolution, Symbol, Tick, NANOS_PER_MINUTE, NANOS_PER_SECOND,
};

fn d(m: i64, s: u32) -> Decimal {
    Decimal::new(m, s)
}

fn symbol() -> Symbol {
    Symbol::new("ES".to_string(), DataVendor::Test, MarketType::Futures(ff_standard_lib::standardized_types::FuturesExchange::CME))
}

fn subscription(resolution: Resolution, base: BaseDataType, candle_type: Option<CandleType>) -> DataSubscription {
    DataSubscription {
        symbol: symbol(),
        resolution,
        base_data_type: base,
        market_type: MarketType::Futures(ff_standard_lib::standardized_types::FuturesExchange::CME),
        candle_type,
    }
}

/// 2024-01-01 10:00:00 UTC in nanoseconds.
const TEN_O_CLOCK: i64 = 1_704_103_200 * NANOS_PER_SECOND;

fn at(minutes: i64, seconds: i64) -> i64 {
    TEN_O_CLOCK + minutes * NANOS_PER_MINUTE + seconds * NANOS_PER_SECOND
}

fn tick(price: Decimal, volume: Decimal, time: i64) -> BaseDataEnum {
    BaseDataEnum::Tick(Tick { symbol: symbol(), price, time, volume })
}

fn quote(bid: Decimal, ask: Decimal, time: i64) -> BaseDataEnum {
    BaseDataEnum::Quote(Quote {
        symbol: symbol(),
        ask,
        bid,
        ask_volume: d(1, 0),
        bid_volume: d(1, 0),
        time,
    })
}

fn candle_of(data: &BaseDataEnum) -> &Candle {
    match data {
        BaseDataEnum::Candle(c) => c,
        _ => panic!("not a candle"),
    }
}

#[test]
fn candlestick_refuses_fundamentals_and_ticks() {
    let r = CandleStickConsolidator::new(
        subscription(Resolution::Minutes(1), BaseDataType::Fundamentals, Some(CandleType::CandleStick)),
        10, false, d(25, 2),
    );
    assert!(matches!(r, Err(FundForgeError::ClientSideErrorDebug(_))));
    let r = CandleStickConsolidator::new(
        subscription(Resolution::Ticks(5), BaseDataType::Ticks, Some(CandleType::CandleStick)),
        10, false, d(25, 2),
    );
    assert!(matches!(r, Err(FundForgeError::ClientSideErrorDebug(_))));
}

#[test]
fn candlestick_builds_and_closes_minute_candles() {
    let mut c = CandleStickConsolidator::new(
        subscription(Resolution::Minutes(1), BaseDataType::Candles, Some(CandleType::CandleStick)),
        10, false, d(25, 2),
    ).unwrap();
    let first = c.update(&tick(d(10025, 2), d(1, 0), at(0, 5)));
    assert!(first.closed_data.is_none());
    let open = candle_of(&first.open_data);
    assert_eq!(open.time, TEN_O_CLOCK);
    assert_eq!(open.open, d(10025, 2));
    assert!(!open.is_closed);

    let second = c.update(&tick(d(101, 0), d(2, 0), at(0, 30)));
    let open = candle_of(&second.open_data);
    assert_eq!(open.high, d(101, 0));
    assert_eq!(open.low, d(10025, 2));
    assert_eq!(open.close, d(101, 0));
    assert!(open.volume.value_eq(&d(3, 0)));
    assert!(open.range.value_eq(&d(75, 2)));

    let third = c.update(&tick(d(995, 1), d(1, 0), at(1, 10)));
    let closed = candle_of(third.closed_data.as_ref().unwrap());
    assert!(closed.is_closed);
    assert_eq!(closed.close, d(101, 0));
    assert_eq!(closed.time, TEN_O_CLOCK);
    let open = candle_of(&third.open_data);
    assert_eq!(open.time, at(1, 0));
    assert_eq!(open.open, d(995, 1));
    assert_eq!(c.history().len(), 1);
    assert_eq!(c.index(0).as_ref().map(|b| candle_of(b).close), Some(d(101, 0)));
    assert!(c.index(1).is_none());
    assert_eq!(c.current(), Some(third.open_data.copy()));

    // The clock reaching the close time closes the bar without adding it to the history.
    assert!(c.update_time(at(1, 59)).is_none());
    let by_time = c.update_time(at(2, 0)).unwrap();
    assert!(candle_of(&by_time).is_closed);
    assert!(c.current().is_none());
    assert_eq!(c.history().len(), 1);
}

#[test]
fn candlestick_fills_forward_the_last_close() {
    let mut c = CandleStickConsolidator::new(
        subscription(Resolution::Minutes(1), BaseDataType::Candles, Some(CandleType::CandleStick)),
        10, true, d(25, 2),
    ).unwrap();
    c.update(&tick(d(100, 0), d(1, 0), at(0, 5)));
    c.update(&tick(d(101, 0), d(1, 0), at(1, 5)));
    // The second tick closed the first minute at 100; the clock now closes the second.
    assert!(c.update_time(at(2, 0)).is_some());
    // Now the last close (100) is carried into the next minute, with no volume.
    assert!(c.update_time(at(2, 30)).is_none());
    let filled = c.current().unwrap();
    let filled = candle_of(&filled);
    assert_eq!(filled.time, at(2, 0));
    assert_eq!(filled.open, d(100, 0));
    assert_eq!(filled.close, d(100, 0));
    assert!(filled.volume.is_zero());
    let closed = c.update_time(at(3, 0)).unwrap();
    assert!(candle_of(&closed).is_closed);
}

#[test]
fn candlestick_builds_quote_bars() {
    let mut c = CandleStickConsolidator::new(
        subscription(Resolution::Seconds(30), BaseDataType::QuoteBars, None),
        5, false, d(25, 2),
    ).unwrap();
    c.update(&quote(d(100, 0), d(10025, 2), at(0, 1)));
    let r = c.update(&quote(d(9975, 2), d(10050, 2), at(0, 10)));
    match &r.open_data {
        BaseDataEnum::QuoteBar(b) => {
            assert_eq!(b.time, TEN_O_CLOCK);
            assert_eq!(b.ask_high, d(10050, 2));
            assert_eq!(b.bid_low, d(9975, 2));
            assert_eq!(b.bid_close, d(9975, 2));
            assert!(b.range.value_eq(&d(75, 2)));
            assert!(b.spread.value_eq(&d(75, 2)));
        }
        _ => panic!("not a quote bar"),
    }
    let r = c.update(&quote(d(101, 0), d(10125, 2), at(0, 31)));
    assert!(r.closed_data.is_some());
}

#[test]
fn heikin_ashi_bars() {
    assert!(HeikinAshiConsolidator::new(
        subscription(Resolution::Minutes(1), BaseDataType::Candles, Some(CandleType::CandleStick)),
        5, d(25, 2),
    ).is_err());
    let mut h = HeikinAshiConsolidator::new(
        subscription(Resolution::Minutes(1), BaseDataType::Candles, Some(CandleType::HeikinAshi)),
        5, d(25, 2),
    ).unwrap();
    let input = Candle {
        symbol: symbol(),
        high: d(12, 0),
        low: d(9, 0),
        open: d(10, 0),
        close: d(11, 0),
        volume: d(5, 0),
        range: d(3, 0),
        time: at(0, 0),
        is_closed: true,
        resolution: Resolution::Minutes(1),
        candle_type: CandleType::CandleStick,
    };
    let r = h.update(&BaseDataEnum::Candle(input));
    let bar = candle_of(&r.open_data);
    // The first bar starts from the candle's own open and close: (10 + 11) / 2 = 10.5.
    assert!(bar.open.value_eq(&d(105, 1)));
    // (10 + 12 + 9 + 11) / 4 = 10.5.
    assert!(bar.close.value_eq(&d(105, 1)));
    assert!(bar.high.value_eq(&d(12, 0)));
    assert!(bar.low.value_eq(&d(9, 0)));
    assert!(bar.range.value_eq(&d(3, 0)));
    assert_eq!(bar.candle_type, CandleType::HeikinAshi);
    // A tick inside the minute widens the bar.
    let r = h.update(&tick(d(13, 0), d(1, 0), at(0, 30)));
    let bar = candle_of(&r.open_data);
    assert!(bar.high.value_eq(&d(13, 0)));
    assert!(bar.close.value_eq(&d(13, 0)));
    assert!(bar.volume.value_eq(&d(6, 0)));
    // The next minute opens at the midpoint of the last bar's open and close: (10.5 + 10.5) / 2.
    let r = h.update(&tick(d(14, 0), d(1, 0), at(1, 0)));
    assert!(r.closed_data.is_some());
    assert!(candle_of(&r.open_data).open.value_eq(&d(105, 1)));
    assert!(h.update_time(at(2, 0)).is_some());
}

#[test]
fn count_consolidator_closes_after_the_count() {
    assert!(CountConsolidator::new(
        subscription(Resolution::Minutes(1), BaseDataType::Ticks, Some(CandleType::CandleStick)),
        5, d(25, 2),
    ).is_err());
    assert!(CountConsolidator::new(
        subscription(Resolution::Ticks(3), BaseDataType::Quotes, Some(CandleType::CandleStick)),
        5, d(25, 2),
    ).is_err());
    let mut c = CountConsolidator::new(
        subscription(Resolution::Ticks(3), BaseDataType::Ticks, Some(CandleType::CandleStick)),
        5, d(25, 2),
    ).unwrap();
    let r = c.update(&tick(d(10, 0), d(1, 0), at(0, 1)));
    assert!(r.closed_data.is_none());
    // The first tick's volume is counted twice, as the engine has always done.
    assert!(candle_of(&r.open_data).volume.value_eq(&d(2, 0)));
    c.update(&tick(d(12, 0), d(1, 0), at(0, 2)));
    let r = c.update(&tick(d(11, 0), d(1, 0), at(0, 3)));
    let closed = candle_of(r.closed_data.as_ref().unwrap());
    assert!(closed.is_closed);
    assert_eq!(closed.open, d(10, 0));
    assert_eq!(closed.high, d(12, 0));
    assert_eq!(closed.low, d(10, 0));
    assert_eq!(closed.close, d(11, 0));
    assert!(closed.volume.value_eq(&d(4, 0)));
    assert!(closed.range.value_eq(&d(2, 0)));
    assert_eq!(closed.time, at(0, 1));
    let fresh = candle_of(&r.open_data);
    assert!(fresh.open.is_zero() && fresh.volume.is_zero());
    assert_eq!(c.history().len(), 1);
    assert!(c.current().is_some());
}

#[test]
fn consolidator_enum_picks_the_kind() {
    let count = ConsolidatorEnum::create_consolidator(
        false,
        subscription(Resolution::Ticks(2), BaseDataType::Ticks, Some(CandleType::CandleStick)),
        3, d(25, 2), false,
    );
    assert!(matches!(count, ConsolidatorEnum::Count(_)));
    assert_eq!(count.history_to_retain(), 3);
    let mut heikin = ConsolidatorEnum::create_consolidator(
        false,
        subscription(Resolution::Minutes(1), BaseDataType::Candles, Some(CandleType::HeikinAshi)),
        3, d(25, 2), false,
    );
    assert!(matches!(heikin, ConsolidatorEnum::HeikinAshi(_)));
    heikin.update(&tick(d(10, 0), d(1, 0), at(0, 1)));
    assert!(heikin.current().is_some());
    assert_eq!(heikin.resolution(), Resolution::Minutes(1));
    let warmed = ConsolidatorEnum::create_consolidator(
        true,
        subscription(Resolution::Minutes(5), BaseDataType::Candles, None),
        3, d(25, 2), false,
    );
    assert!(matches!(warmed, ConsolidatorEnum::CandleStickConsolidator(_)));
    assert!(warmed.index(0).is_none());
}

#[test]
fn consolidator_history_keeps_only_closed_bars_within_capacity() {
    let mut c = ConsolidatorEnum::create_consolidator(
        true,
        subscription(Resolution::Minutes(1), BaseDataType::Ticks, Some(CandleType::CandleStick)),
        2,
        d(25, 2),
        false,
    );
    for minute in 0..5 {
        c.update(&tick(d(100 + minute, 0), d(1, 0), at(minute, 1)));
    }
    assert!(c.index(2).is_none());
    let newest = c.index(0).unwrap();
    let older = c.index(1).unwrap();
    assert!(candle_of(&newest).is_closed);
    assert!(candle_of(&older).is_closed);
    assert_eq!(candle_of(&newest).close, d(103, 0));
    assert_eq!(candle_of(&older).close, d(102, 0));
}

#[test]
fn try_update_refuses_data_that_leaves_the_decimal_range() {
    let max = Decimal::from_parts(79228162514264337593543950335, 0).unwrap();
    let mut c = ConsolidatorEnum::create_consolidator(
        true,
        subscription(Resolution::Minutes(1), BaseDataType::Ticks, Some(CandleType::CandleStick)),
        2,
        d(25, 2),
        false,
    );
    assert!(c.update_is_defined(&tick(d(100, 0), max, at(0, 1))));
    assert!(c.try_update(&tick(d(100, 0), max, at(0, 1))).is_some());
    // Another tick in the same minute would add its volume past the decimal range.
    assert!(!c.update_is_defined(&tick(d(101, 0), max, at(0, 2))));
    assert!(c.try_update(&tick(d(101, 0), max, at(0, 2))).is_none());
    // The open candle is unchanged and still takes a small tick.
    assert_eq!(candle_of(&c.current().unwrap()).close, d(100, 0));
    let r = c.try_update(&tick(d(102, 0), d(0, 0), at(0, 3))).unwrap();
    assert_eq!(candle_of(&r.open_data).close, d(102, 0));

    let mut count = ConsolidatorEnum::create_consolidator(
        true,
        subscription(Resolution::Ticks(3), BaseDataType::Ticks, Some(CandleType::CandleStick)),
        2,
        d(25, 2),
        false,
    );
    assert!(count.try_update(&tick(d(10, 0), max, at(0, 1))).is_none());
    assert!(count.try_update(&tick(d(10, 0), d(1, 0), at(0, 1))).is_some());

    let mut ha = ConsolidatorEnum::create_consolidator(
        true,
        subscription(Resolution::Minutes(1), BaseDataType::Ticks, Some(CandleType::HeikinAshi)),
        2,
        d(25, 2),
        false,
    );
    assert!(ha.try_update(&tick(d(100, 0), d(1, 0), at(0, 1))).is_some());
    assert!(ha.try_update(&quote(d(99, 0), d(101, 0), at(0, 2))).is_some());
}
