use ff_standard_lib::decimal::Decimal;
use ff_standard_lib::indicators::average_true_range::{true_range, AverageTrueRange};
use ff_standard_lib::standardized_types::{
    BaseDataEnum, Candle, CandleType, DataVendor, MarketType, Resolution, Symbol,
};

fn d(m: i64, s: u32) -> Decimal {
    Decimal::new(m, s)
}

fn bar(high: i64, low: i64, close: i64, closed: bool) -> BaseDataEnum {
    let mut c = Candle::new(
        Symbol::new("ES".to_string(), DataVendor::Test, MarketType::CFD),
        d(close, 0),
        d(1, 0),
        0,
        Resolution::Minutes(1),
        CandleType::CandleStick,
    );
    c.high = d(high, 0);
    c.low = d(low, 0);
    c.is_closed = closed;
    BaseDataEnum::Candle(c)
}

#[test]
fn true_range_is_the_widest_reach() {
    // Inside the previous close: the bar's own range.
    assert!(true_range(d(100, 0), d(105, 0), d(98, 0)).value_eq(&d(7, 0)));
    // A gap up: from the previous close to the high.
    assert!(true_range(d(90, 0), d(105, 0), d(100, 0)).value_eq(&d(15, 0)));
    // A gap down: from the previous close to the low.
    assert!(true_range(d(110, 0), d(105, 0), d(100, 0)).value_eq(&d(10, 0)));
}

#[test]
fn ready_once_the_window_is_full() {
    let mut atr = AverageTrueRange::new(3);
    assert!(!atr.take_bar(&bar(10, 8, 9, true)));
    // A bar that is not closed is ignored.
    assert!(!atr.take_bar(&bar(50, 1, 2, false)));
    assert_eq!(atr.base_data_history.len(), 1);
    assert!(!atr.take_bar(&bar(12, 9, 11, true)));
    assert!(atr.take_bar(&bar(11, 7, 8, true)));
    assert!(atr.is_ready);
    assert!(atr.take_bar(&bar(9, 8, 8, true)));
    // Newest first: (9,8,8), (11,7,8), (12,9,11); each pair measures the older bar from
    // the newer bar's close.
    let ranges = atr.true_ranges();
    assert_eq!(ranges.len(), 2);
    assert!(ranges[0].value_eq(&d(4, 0)));
    assert!(ranges[1].value_eq(&d(4, 0)));
}
