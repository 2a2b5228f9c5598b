//! Bars: candlesticks and OHLC bars.
use crate::standardized_types::{Color, Price, TimeStamp};
use vstd::prelude::*;

verus! {

/// A bar with a time and open, high, low and close prices.
#[derive(Debug, PartialEq, Eq)]
pub enum OhlcData {
    CandleStickData(CandleStickData),
    BarData(BarData),
}

impl OhlcData {
    /// The bar's open, high, low and close prices.
    pub open spec fn spec_prices(&self) -> (Price, Price, Price, Price) {
        match self {
            OhlcData::CandleStickData(c) => (c.open, c.high, c.low, c.close),
            OhlcData::BarData(b) => (b.open, b.high, b.low, b.close),
        }
    }

    /// The UTC time of the bar, in seconds since the epoch.
    pub open spec fn spec_timestamp_utc(&self) -> TimeStamp {
        match self {
            OhlcData::CandleStickData(c) => c.time_utc,
            OhlcData::BarData(b) => b.time_utc,
        }
    }

    /// The open price.
    pub fn open(&self) -> (r: Price)
        ensures
            r == self.spec_prices().0,
    {
        match self {
            OhlcData::CandleStickData(candle) => candle.open,
            OhlcData::BarData(bar) => bar.open,
        }
    }

    /// The close price.
    pub fn close(&self) -> (r: Price)
        ensures
            r == self.spec_prices().3,
    {
        match self {
            OhlcData::CandleStickData(candle) => candle.close,
            OhlcData::BarData(bar) => bar.close,
        }
    }

    /// The high price.
    pub fn high(&self) -> (r: Price)
        ensures
            r == self.spec_prices().1,
    {
        match self {
            OhlcData::CandleStickData(candle) => candle.high,
            OhlcData::BarData(bar) => bar.high,
        }
    }

    /// The low price.
    pub fn low(&self) -> (r: Price)
        ensures
            r == self.spec_prices().2,
    {
        match self {
            OhlcData::CandleStickData(candle) => candle.low,
            OhlcData::BarData(bar) => bar.low,
        }
    }

    /// The UTC time of the bar, in seconds since the epoch.
    pub fn timestamp_utc(&self) -> (r: TimeStamp)
        ensures
            r == self.spec_timestamp_utc(),
    {
        match self {
            OhlcData::CandleStickData(candle) => candle.timestamp_utc(),
            OhlcData::BarData(bar) => bar.timestamp_utc(),
        }
    }
}

/// One item of a candlestick series.
#[derive(Debug, PartialEq, Eq)]
pub struct CandleStickData {
    /// The UTC time, in seconds since the epoch.
    pub time_utc: TimeStamp,
    pub open: Price,
    pub high: Price,
    pub low: Price,
    pub close: Price,
    /// The body color; the series' color when missing.
    pub color: Option<Color>,
    /// The border color; the series' color when missing.
    pub border_color: Option<Color>,
    /// The wick color; the series' color when missing.
    pub wick_color: Option<Color>,
}

impl CandleStickData {
    pub fn new(
        time_utc: TimeStamp,
        open: Price,
        high: Price,
        low: Price,
        close: Price,
        color: Option<Color>,
        border_color: Option<Color>,
        wick_color: Option<Color>,
    ) -> (r: Self)
        ensures
            r == (CandleStickData { time_utc, open, high, low, close, color, border_color, wick_color }),
    {
        CandleStickData { time_utc, open, high, low, close, color, border_color, wick_color }
    }

    /// The UTC time, in seconds since the epoch.
    pub fn timestamp_utc(&self) -> (r: TimeStamp)
        ensures
            r == self.time_utc,
    {
        self.time_utc
    }
}

/// One item of a bar series.
#[derive(Debug, PartialEq, Eq)]
pub struct BarData {
    /// The UTC time, in seconds since the epoch.
    pub time_utc: TimeStamp,
    pub open: Price,
    pub high: Price,
    pub low: Price,
    pub close: Price,
    /// The bar's color; the series' color when missing.
    pub color: Option<Color>,
}

impl BarData {
    pub fn new(time_utc: TimeStamp, open: Price, high: Price, low: Price, close: Price, color: Option<Color>) -> (r: Self)
        ensures
            r == (BarData { time_utc, open, high, low, close, color }),
    {
        Self { time_utc, open, high, low, close, color }
    }

    /// The UTC time, in seconds since the epoch.
    pub fn timestamp_utc(&self) -> (r: TimeStamp)
        ensures
            r == self.time_utc,
    {
        self.time_utc
    }
}

} // verus!
