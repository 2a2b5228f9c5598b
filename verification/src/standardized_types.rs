//! The data types that flow through the engine: symbols, subscriptions, resolutions and
//! the base data points (ticks, quotes, trade prices, candles and quote bars).
use crate::decimal::{Decimal, DecimalParts};
use vstd::prelude::*;

verus! {

/// A price.
pub type Price = Decimal;

/// A traded quantity.
pub type Volume = Decimal;

/// A UTC time in seconds since the Unix epoch, as charts use it.
pub type TimeStamp = i64;

/// A CSS color, such as `"#26a69a"` or `"rgba(255, 82, 82, 0.8)"`.
pub type Color = String;

/// The name of a symbol, such as `"ES"` or `"AUD-USD"`.
pub type SymbolName = String;

/// Nanoseconds in a second.
pub const NANOS_PER_SECOND: i64 = 1_000_000_000i64;

/// Nanoseconds in a minute.
pub const NANOS_PER_MINUTE: i64 = 60_000_000_000i64;

/// Nanoseconds in an hour.
pub const NANOS_PER_HOUR: i64 = 3_600_000_000_000i64;

/// Nanoseconds in a day.
pub const NANOS_PER_DAY: i64 = 86_400_000_000_000i64;

/// The exchanges futures trade on.
#[derive(Clone, Copy, Debug, PartialEq, Eq, Structural)]
pub enum FuturesExchange {
    CBOT,
    CME,
    COMEX,
    NYMEX,
}

/// The exchange of a futures contract code.
pub type Exchange = FuturesExchange;

/// Account and settlement currencies.
#[derive(Clone, Copy, Debug, PartialEq, Eq, Structural)]
pub enum Currency {
    AUD,
    CAD,
    CHF,
    EUR,
    GBP,
    HKD,
    JPY,
    NZD,
    USD,
}

/// The data vendors that feed subscriptions.
#[derive(Clone, Copy, Debug, PartialEq, Eq, Structural, Hash)]
pub enum DataVendor {
    Test,
    Rithmic,
}

/// The kind of market a symbol trades in.
#[derive(Clone, Copy, Debug, PartialEq, Eq, Structural)]
pub enum MarketType {
    Forex,
    CFD,
    Equities,
    Crypto,
    Futures(FuturesExchange),
}

/// Whether the strategy runs on history, live, or live with simulated fills.
#[derive(Clone, Copy, Debug, PartialEq, Eq, Structural)]
pub enum StrategyMode {
    Backtest,
    Live,
    LivePaperTrading,
}

/// The side of an order.
#[derive(Clone, Copy, Debug, PartialEq, Eq, Structural)]
pub enum OrderSide {
    Buy,
    Sell,
}

/// The side of an open position.
#[derive(Clone, Copy, Debug, PartialEq, Eq, Structural)]
pub enum PositionSide {
    Long,
    Short,
}

/// The time span a data point covers.
#[derive(Clone, Copy, Debug, PartialEq, Eq, Structural)]
pub enum Resolution {
    Instant,
    Ticks(u64),
    Seconds(u64),
    Minutes(u64),
    Hours(u64),
    Day,
    Week,
    Year,
}

/// The kinds of base data a vendor supplies.
#[derive(Clone, Copy, Debug, PartialEq, Eq, Structural)]
pub enum BaseDataType {
    Ticks,
    Quotes,
    TradePrices,
    QuoteBars,
    Candles,
    Fundamentals,
}

/// How bars are drawn from the data.
#[derive(Clone, Copy, Debug, PartialEq, Eq, Structural)]
pub enum CandleType {
    Renko,
    HeikinAshi,
    CandleStick,
}

/// The length of a resolution in nanoseconds; zero for tick and instant resolutions.
pub open spec fn resolution_nanos(resolution: Resolution) -> int {
    match resolution {
        Resolution::Instant => 0,
        Resolution::Ticks(_) => 0,
        Resolution::Seconds(n) => n * NANOS_PER_SECOND,
        Resolution::Minutes(n) => n * NANOS_PER_MINUTE,
        Resolution::Hours(n) => n * NANOS_PER_HOUR,
        Resolution::Day => NANOS_PER_DAY as int,
        Resolution::Week => 7 * NANOS_PER_DAY,
        Resolution::Year => 365 * NANOS_PER_DAY,
    }
}

impl Resolution {
    /// The length of the resolution in nanoseconds; zero for tick and instant resolutions.
    pub fn nanos(&self) -> (r: i128)
        ensures
            r == resolution_nanos(*self),
            r >= 0,
    {
        match self {
            Resolution::Instant => 0,
            Resolution::Ticks(_) => 0,
            Resolution::Seconds(n) => scaled_nanos(*n, NANOS_PER_SECOND),
            Resolution::Minutes(n) => scaled_nanos(*n, NANOS_PER_MINUTE),
            Resolution::Hours(n) => scaled_nanos(*n, NANOS_PER_HOUR),
            Resolution::Day => NANOS_PER_DAY as i128,
            Resolution::Week => 7 * NANOS_PER_DAY as i128,
            Resolution::Year => 365 * NANOS_PER_DAY as i128,
        }
    }
}

fn scaled_nanos(n: u64, unit: i64) -> (r: i128)
    requires
        0 < unit <= NANOS_PER_HOUR,
    ensures
        r == n * unit,
        r >= 0,
{
    proof {
        assert(0 <= n * unit <= 0xffff_ffff_ffff_ffff * NANOS_PER_HOUR) by (nonlinear_arith)
            requires
                0 <= n <= 0xffff_ffff_ffff_ffff,
                0 < unit <= NANOS_PER_HOUR,
        ;
    }
    (n as i128) * (unit as i128)
}

/// What the product tables say of an instrument: the currency its profit is counted in,
/// the value of one tick, the tick size, the number of decimal places of its prices, and
/// its base currency where it has one.
#[derive(Debug, PartialEq, Eq)]
pub struct SymbolInfo {
    pub symbol_name: SymbolName,
    pub pnl_currency: Currency,
    pub value_per_tick: Price,
    pub tick_size: Price,
    pub decimal_accuracy: u32,
    pub base_currency: Option<Currency>,
}

/// The commission charged per contract on each side of a trade.
#[derive(Clone, Copy, Debug, PartialEq, Eq)]
pub struct CommissionInfo {
    pub per_side: Price,
    pub currency: Currency,
}

/// A tradable instrument as a vendor names it.
#[derive(Debug, PartialEq, Eq)]
pub struct Symbol {
    pub name: SymbolName,
    pub market_type: MarketType,
    pub data_vendor: DataVendor,
}

impl Symbol {
    pub fn new(name: SymbolName, data_vendor: DataVendor, market_type: MarketType) -> (r: Symbol)
        ensures
            r == (Symbol { name, market_type, data_vendor }),
    {
        Symbol { name, market_type, data_vendor }
    }

    /// A copy of the symbol.
    pub fn copy(&self) -> (r: Symbol)
        ensures
            r == *self,
    {
        Symbol { name: self.name.clone(), market_type: self.market_type, data_vendor: self.data_vendor }
    }
}

/// What a consumer subscribes to: a symbol's data of one type at one resolution.
#[derive(Debug, PartialEq, Eq)]
pub struct DataSubscription {
    pub symbol: Symbol,
    pub resolution: Resolution,
    pub base_data_type: BaseDataType,
    pub market_type: MarketType,
    pub candle_type: Option<CandleType>,
}

impl DataSubscription {
    pub fn copy(&self) -> (r: DataSubscription)
        ensures
            r == *self,
    {
        DataSubscription {
            symbol: self.symbol.copy(),
            resolution: self.resolution,
            base_data_type: self.base_data_type,
            market_type: self.market_type,
            candle_type: self.candle_type,
        }
    }
}

/// A single trade. `time` is the UTC time in nanoseconds since the Unix epoch.
#[derive(Debug, PartialEq, Eq)]
pub struct Tick {
    pub symbol: Symbol,
    pub price: Price,
    pub time: i64,
    pub volume: Volume,
}

/// A best bid and ask. `time` is the UTC time in nanoseconds since the Unix epoch.
#[derive(Debug, PartialEq, Eq)]
pub struct Quote {
    pub symbol: Symbol,
    pub ask: Price,
    pub bid: Price,
    pub ask_volume: Volume,
    pub bid_volume: Volume,
    pub time: i64,
}

/// A traded price without volume. `time` is the UTC time in nanoseconds since the Unix epoch.
#[derive(Debug, PartialEq, Eq)]
pub struct TradePrice {
    pub symbol: Symbol,
    pub price: Price,
    pub time: i64,
}

/// A bar of trades. `time` is the UTC open time in nanoseconds since the Unix epoch.
#[derive(Debug, PartialEq, Eq)]
pub struct Candle {
    pub symbol: Symbol,
    pub high: Price,
    pub low: Price,
    pub open: Price,
    pub close: Price,
    pub volume: Volume,
    pub range: Price,
    pub time: i64,
    pub is_closed: bool,
    pub resolution: Resolution,
    pub candle_type: CandleType,
}

/// A bar of quotes. `time` is the UTC open time in nanoseconds since the Unix epoch.
#[derive(Debug, PartialEq, Eq)]
pub struct QuoteBar {
    pub symbol: Symbol,
    pub bid_high: Price,
    pub bid_low: Price,
    pub bid_open: Price,
    pub bid_close: Price,
    pub ask_high: Price,
    pub ask_low: Price,
    pub ask_open: Price,
    pub ask_close: Price,
    pub volume: Volume,
    pub range: Price,
    pub spread: Price,
    pub time: i64,
    pub is_closed: bool,
    pub resolution: Resolution,
    pub candle_type: CandleType,
}

impl Candle {
    /// A candle opened at a single price: open, high, low and close all equal `price`.
    pub fn new(
        symbol: Symbol,
        price: Price,
        volume: Volume,
        time: i64,
        resolution: Resolution,
        candle_type: CandleType,
    ) -> (r: Candle)
        ensures
            r == (Candle {
                symbol,
                high: price,
                low: price,
                open: price,
                close: price,
                volume,
                range: r.range,
                time,
                is_closed: false,
                resolution,
                candle_type,
            }),
            r.range@ == (DecimalParts { mantissa: 0, scale: 0 }),
    {
        Candle {
            symbol,
            high: price,
            low: price,
            open: price,
            close: price,
            volume,
            range: Decimal::zero(),
            time,
            is_closed: false,
            resolution,
            candle_type,
        }
    }

    pub fn copy(&self) -> (r: Candle)
        ensures
            r == *self,
    {
        Candle {
            symbol: self.symbol.copy(),
            high: self.high,
            low: self.low,
            open: self.open,
            close: self.close,
            volume: self.volume,
            range: self.range,
            time: self.time,
            is_closed: self.is_closed,
            resolution: self.resolution,
            candle_type: self.candle_type,
        }
    }
}

impl QuoteBar {
    /// A quote bar opened at a single quote: every bid field equals `bid`, every ask field
    /// `ask`, and the spread is `ask - bid`.
    pub fn new(
        symbol: Symbol,
        bid: Price,
        ask: Price,
        volume: Volume,
        time: i64,
        resolution: Resolution,
        candle_type: CandleType,
    ) -> (r: QuoteBar)
        requires
            crate::decimal::difference_fits(ask@, bid@),
        ensures
            r == (QuoteBar {
                symbol,
                bid_high: bid,
                bid_low: bid,
                bid_open: bid,
                bid_close: bid,
                ask_high: ask,
                ask_low: ask,
                ask_open: ask,
                ask_close: ask,
                volume,
                range: r.range,
                spread: r.spread,
                time,
                is_closed: false,
                resolution,
                candle_type,
            }),
            r.range@ == (DecimalParts { mantissa: 0, scale: 0 }),
            r.spread@ == crate::decimal::decimal_difference(ask@, bid@),
    {
        let spread = crate::decimal::decimal_sub(ask, bid);
        QuoteBar {
            symbol,
            bid_high: bid,
            bid_low: bid,
            bid_open: bid,
            bid_close: bid,
            ask_high: ask,
            ask_low: ask,
            ask_open: ask,
            ask_close: ask,
            volume,
            range: Decimal::zero(),
            spread,
            time,
            is_closed: false,
            resolution,
            candle_type,
        }
    }

    pub fn copy(&self) -> (r: QuoteBar)
        ensures
            r == *self,
    {
        QuoteBar {
            symbol: self.symbol.copy(),
            bid_high: self.bid_high,
            bid_low: self.bid_low,
            bid_open: self.bid_open,
            bid_close: self.bid_close,
            ask_high: self.ask_high,
            ask_low: self.ask_low,
            ask_open: self.ask_open,
            ask_close: self.ask_close,
            volume: self.volume,
            range: self.range,
            spread: self.spread,
            time: self.time,
            is_closed: self.is_closed,
            resolution: self.resolution,
            candle_type: self.candle_type,
        }
    }
}

/// One data point of any kind.
#[derive(Debug, PartialEq, Eq)]
pub enum BaseDataEnum {
    Tick(Tick),
    Quote(Quote),
    TradePrice(TradePrice),
    Candle(Candle),
    QuoteBar(QuoteBar),
}

impl BaseDataEnum {
    /// The time the data point opens, in UTC nanoseconds.
    pub open spec fn spec_time_utc(self) -> int {
        match self {
            BaseDataEnum::Tick(t) => t.time as int,
            BaseDataEnum::Quote(q) => q.time as int,
            BaseDataEnum::TradePrice(p) => p.time as int,
            BaseDataEnum::Candle(c) => c.time as int,
            BaseDataEnum::QuoteBar(b) => b.time as int,
        }
    }

    /// The time the data point is complete: the open time plus the bar's resolution for
    /// bars, the time itself for ticks, quotes and trade prices.
    pub open spec fn spec_time_created_utc(self) -> int {
        match self {
            BaseDataEnum::Candle(c) => c.time + resolution_nanos(c.resolution),
            BaseDataEnum::QuoteBar(b) => b.time + resolution_nanos(b.resolution),
            _ => self.spec_time_utc(),
        }
    }

    /// The completion time is a representable time.
    pub open spec fn time_created_fits(self) -> bool {
        i64::MIN <= self.spec_time_created_utc() <= i64::MAX
    }

    pub open spec fn spec_base_data_type(self) -> BaseDataType {
        match self {
            BaseDataEnum::Tick(_) => BaseDataType::Ticks,
            BaseDataEnum::Quote(_) => BaseDataType::Quotes,
            BaseDataEnum::TradePrice(_) => BaseDataType::TradePrices,
            BaseDataEnum::Candle(_) => BaseDataType::Candles,
            BaseDataEnum::QuoteBar(_) => BaseDataType::QuoteBars,
        }
    }

    /// The same data point marked closed (bars) or unchanged (other kinds).
    pub open spec fn spec_closed(self) -> BaseDataEnum {
        match self {
            BaseDataEnum::Candle(c) => BaseDataEnum::Candle(Candle { is_closed: true, ..c }),
            BaseDataEnum::QuoteBar(b) => BaseDataEnum::QuoteBar(QuoteBar { is_closed: true, ..b }),
            _ => self,
        }
    }

    /// Whether the data point is a bar marked closed.
    pub open spec fn is_closed_bar(self) -> bool {
        match self {
            BaseDataEnum::Candle(c) => c.is_closed,
            BaseDataEnum::QuoteBar(b) => b.is_closed,
            _ => false,
        }
    }

    pub open spec fn spec_symbol(self) -> Symbol {
        match self {
            BaseDataEnum::Tick(t) => t.symbol,
            BaseDataEnum::Quote(q) => q.symbol,
            BaseDataEnum::TradePrice(p) => p.symbol,
            BaseDataEnum::Candle(c) => c.symbol,
            BaseDataEnum::QuoteBar(b) => b.symbol,
        }
    }

    pub fn time_utc(&self) -> (r: i64)
        ensures
            r == self.spec_time_utc(),
    {
        match self {
            BaseDataEnum::Tick(t) => t.time,
            BaseDataEnum::Quote(q) => q.time,
            BaseDataEnum::TradePrice(p) => p.time,
            BaseDataEnum::Candle(c) => c.time,
            BaseDataEnum::QuoteBar(b) => b.time,
        }
    }

    /// The time the data point is complete, in UTC nanoseconds.
    pub fn time_created_utc(&self) -> (r: i64)
        requires
            self.time_created_fits(),
        ensures
            r == self.spec_time_created_utc(),
    {
        match self {
            BaseDataEnum::Candle(c) => (c.time as i128 + c.resolution.nanos()) as i64,
            BaseDataEnum::QuoteBar(b) => (b.time as i128 + b.resolution.nanos()) as i64,
            BaseDataEnum::Tick(t) => t.time,
            BaseDataEnum::Quote(q) => q.time,
            BaseDataEnum::TradePrice(p) => p.time,
        }
    }

    /// Whether the completion time is a representable time.
    pub fn time_created_representable(&self) -> (r: bool)
        ensures
            r == self.time_created_fits(),
    {
        let created: i128 = match self {
            BaseDataEnum::Candle(c) => c.time as i128 + c.resolution.nanos(),
            BaseDataEnum::QuoteBar(b) => b.time as i128 + b.resolution.nanos(),
            BaseDataEnum::Tick(t) => t.time as i128,
            BaseDataEnum::Quote(q) => q.time as i128,
            BaseDataEnum::TradePrice(p) => p.time as i128,
        };
        -0x8000_0000_0000_0000i128 <= created && created <= 0x7fff_ffff_ffff_ffffi128
    }

    pub fn base_data_type(&self) -> (r: BaseDataType)
        ensures
            r == self.spec_base_data_type(),
    {
        match self {
            BaseDataEnum::Tick(_) => BaseDataType::Ticks,
            BaseDataEnum::Quote(_) => BaseDataType::Quotes,
            BaseDataEnum::TradePrice(_) => BaseDataType::TradePrices,
            BaseDataEnum::Candle(_) => BaseDataType::Candles,
            BaseDataEnum::QuoteBar(_) => BaseDataType::QuoteBars,
        }
    }

    pub fn symbol(&self) -> (r: &Symbol)
        ensures
            *r == self.spec_symbol(),
    {
        match self {
            BaseDataEnum::Tick(t) => &t.symbol,
            BaseDataEnum::Quote(q) => &q.symbol,
            BaseDataEnum::TradePrice(p) => &p.symbol,
            BaseDataEnum::Candle(c) => &c.symbol,
            BaseDataEnum::QuoteBar(b) => &b.symbol,
        }
    }

    /// Marks a bar closed; other kinds of data are left as they are.
    pub fn set_is_closed(&mut self, is_closed: bool)
        ensures
            *final(self) == (match *old(self) {
                BaseDataEnum::Candle(c) => BaseDataEnum::Candle(Candle { is_closed, ..c }),
                BaseDataEnum::QuoteBar(b) => BaseDataEnum::QuoteBar(QuoteBar { is_closed, ..b }),
                other => other,
            }),
    {
        match self {
            BaseDataEnum::Candle(c) => c.is_closed = is_closed,
            BaseDataEnum::QuoteBar(b) => b.is_closed = is_closed,
            _ => {},
        }
    }

    pub fn copy(&self) -> (r: BaseDataEnum)
        ensures
            r == *self,
    {
        match self {
            BaseDataEnum::Tick(t) => BaseDataEnum::Tick(
                Tick { symbol: t.symbol.copy(), price: t.price, time: t.time, volume: t.volume },
            ),
            BaseDataEnum::Quote(q) => BaseDataEnum::Quote(
                Quote {
                    symbol: q.symbol.copy(),
                    ask: q.ask,
                    bid: q.bid,
                    ask_volume: q.ask_volume,
                    bid_volume: q.bid_volume,
                    time: q.time,
                },
            ),
            BaseDataEnum::TradePrice(p) => BaseDataEnum::TradePrice(
                TradePrice { symbol: p.symbol.copy(), price: p.price, time: p.time },
            ),
            BaseDataEnum::Candle(c) => BaseDataEnum::Candle(c.copy()),
            BaseDataEnum::QuoteBar(b) => BaseDataEnum::QuoteBar(b.copy()),
        }
    }
}

} // verus!
