//! Heikin-Ashi candles: each bar opens at the midpoint of the previous bar's open and
//! close, and a candle's close is the average of its open, high, low and close.
use crate::consolidators::consolidator_enum::ConsolidatedData;
use crate::decimal::{
    checked_difference, checked_quotient, checked_sum, decimal_add, decimal_difference, decimal_div, decimal_quotient, decimal_sub, decimal_sum,
    difference_fits, lemma_le_transitive, lemma_max_min_bounds, quotient_fits, spec_le, spec_max, spec_min, sum_fits, zero_parts, Decimal,
    DecimalParts,
};
use crate::helpers::converters::{open_time, open_time_defined, spec_open_time, time_in_range};
use crate::helpers::decimal_calculators::{
    checked_round_to_tick_size, round_to_tick_size, spec_round_to_tick_size, tick_rounding_fits,
};
use crate::rolling_window::{
    all_closed_bars, lemma_add_keeps_closed, law_window_bounded, spec_window_add, RollingWindow,
};
use crate::standardized_types::{
    resolution_nanos, BaseDataEnum, BaseDataType, Candle, CandleType, DataSubscription, Price,
    Resolution, NANOS_PER_DAY,
};
use vstd::prelude::*;

verus! {

/// The decimal 2.
pub open spec fn two_parts() -> DecimalParts {
    DecimalParts { mantissa: 2, scale: 0 }
}

/// The decimal 4.
pub open spec fn four_parts() -> DecimalParts {
    DecimalParts { mantissa: 4, scale: 0 }
}

/// The open and close that stand in for the previous bar's when there is none yet:
/// a candle's own open and close, or the price that the data carries (a quote's and a
/// quote bar's bid side).
pub open spec fn ha_seed(data: BaseDataEnum) -> (Decimal, Decimal) {
    match data {
        BaseDataEnum::Candle(k) => (k.open, k.close),
        BaseDataEnum::Tick(t) => (t.price, t.price),
        BaseDataEnum::TradePrice(p) => (p.price, p.price),
        BaseDataEnum::QuoteBar(b) => (b.bid_close, b.bid_close),
        BaseDataEnum::Quote(q) => (q.bid, q.bid),
    }
}

/// The previous open and close a new bar is computed from: the data's seed while both
/// are still zero, the stored ones otherwise.
pub open spec fn ha_previous(prev_open: Decimal, prev_close: Decimal, data: BaseDataEnum) -> (Decimal, Decimal) {
    if prev_close@.mantissa == 0 && prev_open@.mantissa == 0 {
        ha_seed(data)
    } else {
        (prev_open, prev_close)
    }
}

/// The open of a new bar: `(previous open + previous close) / 2`, rounded to the tick size.
pub open spec fn ha_open_value(prev: (Decimal, Decimal), tick_size: DecimalParts) -> DecimalParts {
    spec_round_to_tick_size(decimal_quotient(decimal_sum(prev.0@, prev.1@), two_parts()), tick_size)
}

/// The sum of a candle's open, high, low and close, added in that order.
pub open spec fn ohlc_sum(k: Candle) -> DecimalParts {
    decimal_sum(decimal_sum(decimal_sum(k.open@, k.high@), k.low@), k.close@)
}

/// The close of a new bar: for a candle `(open + high + low + close) / 4` rounded to the
/// tick size, otherwise the price the data carries.
pub open spec fn ha_close_value(data: BaseDataEnum, tick_size: DecimalParts) -> DecimalParts {
    match data {
        BaseDataEnum::Candle(k) => spec_round_to_tick_size(
            decimal_quotient(ohlc_sum(k), four_parts()),
            tick_size,
        ),
        _ => ha_seed(data).1@,
    }
}

/// The high and low of a new bar with the given open and close: for a candle they also
/// take in the candle's own high and low.
pub open spec fn ha_extremes(data: BaseDataEnum, open: DecimalParts, close: DecimalParts) -> (DecimalParts, DecimalParts) {
    match data {
        BaseDataEnum::Candle(k) => (
            spec_max(spec_max(k.high@, open), close),
            spec_min(spec_min(k.low@, open), close),
        ),
        _ => (spec_max(close, open), spec_min(close, open)),
    }
}

/// Every step of opening a bar with `data` stays within the decimal range, and its open
/// time and close time are representable.
pub open spec fn ha_opens_defined(
    sub: DataSubscription,
    prev_open: Decimal,
    prev_close: Decimal,
    data: BaseDataEnum,
    tick_size: DecimalParts,
) -> bool {
    let prev = ha_previous(prev_open, prev_close, data);
    let half = decimal_quotient(decimal_sum(prev.0@, prev.1@), two_parts());
    let open = ha_open_value(prev, tick_size);
    let close = ha_close_value(data, tick_size);
    let (high, low) = ha_extremes(data, open, close);
    &&& open_time_defined(sub.resolution)
    &&& time_in_range(data.spec_time_utc())
    &&& spec_open_time(sub.resolution, data.spec_time_utc()) + resolution_nanos(sub.resolution)
        <= i64::MAX
    &&& sum_fits(prev.0@, prev.1@)
    &&& quotient_fits(decimal_sum(prev.0@, prev.1@), two_parts())
    &&& tick_rounding_fits(half, tick_size)
    &&& (data matches BaseDataEnum::Candle(k) ==> {
        &&& sum_fits(k.open@, k.high@)
        &&& sum_fits(decimal_sum(k.open@, k.high@), k.low@)
        &&& sum_fits(decimal_sum(decimal_sum(k.open@, k.high@), k.low@), k.close@)
        &&& quotient_fits(ohlc_sum(k), four_parts())
        &&& tick_rounding_fits(decimal_quotient(ohlc_sum(k), four_parts()), tick_size)
    })
    &&& difference_fits(high, low)
}

/// `c` is the Heikin-Ashi bar opened with `data` after a bar with open `prev_open` and
/// close `prev_close`: open and close as above, high and low from [`ha_extremes`], range
/// `high - low`, and the data's volume (quotes and trade prices carry none).
pub open spec fn opened_ha_candle(
    sub: DataSubscription,
    prev_open: Decimal,
    prev_close: Decimal,
    data: BaseDataEnum,
    tick_size: DecimalParts,
    c: Candle,
) -> bool {
    let prev = ha_previous(prev_open, prev_close, data);
    let time = spec_open_time(sub.resolution, data.spec_time_utc());
    let (high, low) = ha_extremes(data, c.open@, c.close@);
    &&& c == (Candle {
        symbol: sub.symbol,
        open: c.open,
        high: c.high,
        low: c.low,
        close: c.close,
        volume: c.volume,
        time: time as i64,
        resolution: sub.resolution,
        is_closed: false,
        range: c.range,
        candle_type: CandleType::HeikinAshi,
    })
    &&& c.open@ == ha_open_value(prev, tick_size)
    &&& c.close@ == ha_close_value(data, tick_size)
    &&& (!(data is Candle) ==> c.close == ha_seed(data).1)
    &&& c.high@ == high
    &&& c.low@ == low
    &&& c.range@ == decimal_difference(high, low)
    &&& match data {
        BaseDataEnum::Candle(k) => c.volume == k.volume,
        BaseDataEnum::Tick(t) => c.volume == t.volume,
        BaseDataEnum::QuoteBar(b) => c.volume == b.volume,
        _ => c.volume@ == zero_parts(),
    }
}

/// The high, low and close that data brings to an open Heikin-Ashi bar (the bid side of
/// quotes and quote bars).
pub open spec fn ha_input_prices(data: BaseDataEnum) -> (Decimal, Decimal, Decimal) {
    match data {
        BaseDataEnum::Tick(t) => (t.price, t.price, t.price),
        BaseDataEnum::Candle(k) => (k.high, k.low, k.close),
        BaseDataEnum::TradePrice(p) => (p.price, p.price, p.price),
        BaseDataEnum::QuoteBar(b) => (b.bid_high, b.bid_low, b.bid_close),
        BaseDataEnum::Quote(q) => (q.bid, q.bid, q.bid),
    }
}

/// The volume that data adds to an open Heikin-Ashi bar, if it carries one.
pub open spec fn ha_input_volume(data: BaseDataEnum) -> Option<Decimal> {
    match data {
        BaseDataEnum::Tick(t) => Some(t.volume),
        BaseDataEnum::Candle(k) => Some(k.volume),
        BaseDataEnum::QuoteBar(b) => Some(b.volume),
        _ => None,
    }
}

/// The high and low of the open bar `c` after `data` is folded into it.
pub open spec fn ha_merged_extremes(c: Candle, data: BaseDataEnum) -> (DecimalParts, DecimalParts) {
    let (high_in, low_in, close_in) = ha_input_prices(data);
    if data is Quote {
        (spec_max(c.high@, high_in@), spec_min(c.low@, low_in@))
    } else {
        (spec_max(high_in@, c.high@), spec_min(low_in@, c.low@))
    }
}

/// `n` is the open bar `c` after `data` is folded into it: the extremes widen, the close
/// is the data's, the range is `high - low` rounded to the tick size, and the volume grows
/// by the data's volume.
pub open spec fn merged_ha_candle(c: Candle, data: BaseDataEnum, tick_size: DecimalParts, n: Candle) -> bool {
    let (high, low) = ha_merged_extremes(c, data);
    &&& n == (Candle {
        high: n.high,
        low: n.low,
        close: ha_input_prices(data).2,
        range: n.range,
        volume: n.volume,
        ..c
    })
    &&& n.high@ == high
    &&& n.low@ == low
    &&& n.range@ == spec_round_to_tick_size(decimal_difference(high, low), tick_size)
    &&& match ha_input_volume(data) {
        Some(v) => n.volume@ == decimal_sum(c.volume@, v@),
        None => n.volume == c.volume,
    }
}

/// Folding `data` into the open bar `c` stays within the decimal range.
pub open spec fn ha_merge_fits(c: Candle, data: BaseDataEnum, tick_size: DecimalParts) -> bool {
    let (high, low) = ha_merged_extremes(c, data);
    &&& difference_fits(high, low)
    &&& tick_rounding_fits(decimal_difference(high, low), tick_size)
    &&& match ha_input_volume(data) {
        Some(v) => sum_fits(c.volume@, v@),
        None => true,
    }
}

/// A newly opened Heikin-Ashi bar spans its own open and close: its high is at least
/// both and its low at most both.
pub proof fn law_ha_bar_spans_open_close(
    sub: DataSubscription,
    prev_open: Decimal,
    prev_close: Decimal,
    data: BaseDataEnum,
    tick_size: DecimalParts,
    c: Candle,
)
    requires
        opened_ha_candle(sub, prev_open, prev_close, data, tick_size, c),
    ensures
        spec_le(c.open@, c.high@),
        spec_le(c.close@, c.high@),
        spec_le(c.low@, c.open@),
        spec_le(c.low@, c.close@),
{
    match data {
        BaseDataEnum::Candle(k) => {
            let inner_high = spec_max(k.high@, c.open@);
            let inner_low = spec_min(k.low@, c.open@);
            lemma_max_min_bounds(k.high@, c.open@);
            lemma_max_min_bounds(inner_high, c.close@);
            lemma_max_min_bounds(k.low@, c.open@);
            lemma_max_min_bounds(inner_low, c.close@);
            lemma_le_transitive(c.open@, inner_high, c.high@);
            lemma_le_transitive(c.low@, inner_low, c.open@);
        },
        _ => {
            lemma_max_min_bounds(c.close@, c.open@);
        },
    }
}

/// Builds Heikin-Ashi candles of a fixed time resolution, keeping a history of the closed
/// bars.
pub struct HeikinAshiConsolidator {
    current_data: Option<BaseDataEnum>,
    subscription: DataSubscription,
    history: RollingWindow<BaseDataEnum>,
    previous_ha_close: Price,
    previous_ha_open: Price,
    tick_size: Price,
}

impl HeikinAshiConsolidator {
    /// The bar being built, if any.
    pub closed spec fn current_bar(&self) -> Option<BaseDataEnum> {
        self.current_data
    }

    pub closed spec fn spec_subscription(&self) -> DataSubscription {
        self.subscription
    }

    /// The closed bars kept, latest first.
    pub closed spec fn history_view(&self) -> Seq<BaseDataEnum> {
        self.history@
    }

    /// How many closed bars are kept.
    pub closed spec fn history_capacity(&self) -> nat {
        self.history.capacity()
    }

    pub closed spec fn spec_tick_size(&self) -> Decimal {
        self.tick_size
    }

    /// The open and close of the last bar opened; zero before the first.
    pub closed spec fn spec_previous(&self) -> (Decimal, Decimal) {
        (self.previous_ha_open, self.previous_ha_close)
    }

    /// The bar being built is an open candle whose close time is representable, every
    /// bar in the history is marked closed, and a history with a capacity holds no more
    /// than it.
    pub open spec fn wf(&self) -> bool {
        &&& match self.current_bar() {
            None => true,
            Some(bar) => bar is Candle && bar.time_created_fits() && !bar.is_closed_bar(),
        }
        &&& all_closed_bars(self.history_view())
        &&& (self.history_capacity() > 0 ==> self.history_view().len() <= self.history_capacity())
    }

    /// A bar can be opened with `data`.
    pub open spec fn opens_with(&self, data: BaseDataEnum) -> bool {
        ha_opens_defined(
            self.spec_subscription(),
            self.spec_previous().0,
            self.spec_previous().1,
            data,
            self.spec_tick_size()@,
        )
    }

    /// `bar` is the bar opened with `data`, and `next` remembers its open and close.
    pub open spec fn opened(&self, data: BaseDataEnum, bar: BaseDataEnum, next: &Self) -> bool {
        &&& bar matches BaseDataEnum::Candle(c) && opened_ha_candle(
            self.spec_subscription(),
            self.spec_previous().0,
            self.spec_previous().1,
            data,
            self.spec_tick_size()@,
            c,
        ) && next.spec_previous() == (c.open, c.close)
    }

    /// `update(data)` is defined: the data's close time is representable, and the data
    /// either opens a new bar or folds into the open one, within the decimal range.
    pub open spec fn update_defined(&self, data: BaseDataEnum) -> bool {
        &&& data.time_created_fits()
        &&& match self.current_bar() {
            None => self.opens_with(data),
            Some(bar) => if data.spec_time_created_utc() >= bar.spec_time_created_utc() {
                self.opens_with(data)
            } else {
                bar matches BaseDataEnum::Candle(c) && ha_merge_fits(c, data, self.spec_tick_size()@)
            },
        }
    }

    /// What `update(data)` does, taking the consolidator to `next` and returning `r`:
    /// with no bar open the data opens one; when the data completes at or after the open
    /// bar's close time that bar is closed, returned and added to the history, and the
    /// data opens the next bar; otherwise the data is folded into the open bar.
    pub open spec fn update_result(&self, data: BaseDataEnum, next: &Self, r: ConsolidatedData) -> bool {
        &&& next.spec_subscription() == self.spec_subscription()
        &&& next.spec_tick_size() == self.spec_tick_size()
        &&& next.history_capacity() == self.history_capacity()
        &&& next.current_bar() == Some(r.open_data)
        &&& match self.current_bar() {
            None => {
                &&& self.opened(data, r.open_data, next)
                &&& r.closed_data is None
                &&& next.history_view() == self.history_view()
            },
            Some(bar) => if data.spec_time_created_utc() >= bar.spec_time_created_utc() {
                &&& self.opened(data, r.open_data, next)
                &&& r.closed_data == Some(bar.spec_closed())
                &&& next.history_view() == spec_window_add(
                    self.history_view(),
                    self.history_capacity(),
                    bar.spec_closed(),
                )
            } else {
                &&& bar matches BaseDataEnum::Candle(c) && r.open_data matches BaseDataEnum::Candle(
                    n,
                ) && merged_ha_candle(c, data, self.spec_tick_size()@, n)
                &&& r.closed_data is None
                &&& next.history_view() == self.history_view()
                &&& next.spec_previous() == self.spec_previous()
            },
        }
    }

    /// A consolidator for `subscription` that keeps `history_to_retain` closed bars and
    /// rounds to `tick_size`. Fundamentals and candle types other than Heikin-Ashi are
    /// refused.
    pub fn new(subscription: DataSubscription, history_to_retain: usize, tick_size: Price) -> (r:
        Result<HeikinAshiConsolidator, String>)
        ensures
            r is Ok <==> (subscription.base_data_type != BaseDataType::Fundamentals && (
            subscription.candle_type matches Some(t) ==> t == CandleType::HeikinAshi)),
            r matches Ok(c) ==> {
                &&& c.wf()
                &&& c.spec_subscription() == subscription
                &&& c.current_bar() is None
                &&& c.history_view() == Seq::<BaseDataEnum>::empty()
                &&& c.history_capacity() == history_to_retain
                &&& c.spec_tick_size() == tick_size
                &&& c.spec_previous().0@ == zero_parts()
                &&& c.spec_previous().1@ == zero_parts()
            },
    {
        if subscription.base_data_type == BaseDataType::Fundamentals {
            return Err(
                String::from_str("Fundamentals is an Invalid base data type for HeikinAshiConsolidator"),
            );
        }
        if let Some(candle_type) = subscription.candle_type {
            if candle_type != CandleType::HeikinAshi {
                return Err(String::from_str("Invalid candle type for HeikinAshiConsolidator"));
            }
        }
        Ok(
            HeikinAshiConsolidator {
                current_data: None,
                subscription,
                history: RollingWindow::new(history_to_retain),
                previous_ha_close: Decimal::zero(),
                previous_ha_open: Decimal::zero(),
                tick_size,
            },
        )
    }
    /// The open and close that seed the first bar.
    fn seed_of(data: &BaseDataEnum) -> (r: (Decimal, Decimal))
        ensures
            r == ha_seed(*data),
    {
        match data {
            BaseDataEnum::Candle(k) => (k.open, k.close),
            BaseDataEnum::Tick(t) => (t.price, t.price),
            BaseDataEnum::TradePrice(p) => (p.price, p.price),
            BaseDataEnum::QuoteBar(b) => (b.bid_close, b.bid_close),
            BaseDataEnum::Quote(q) => (q.bid, q.bid),
        }
    }

    /// Opens the next Heikin-Ashi bar with `new_data` and remembers its open and close.
    fn new_heikin_ashi_candle(&mut self, new_data: &BaseDataEnum) -> (c: Candle)
        requires
            old(self).opens_with(*new_data),
        ensures
            old(self).opened(*new_data, BaseDataEnum::Candle(c), &*final(self)),
            BaseDataEnum::Candle(c).time_created_fits(),
            final(self).current_bar() == old(self).current_bar(),
            final(self).spec_subscription() == old(self).spec_subscription(),
            final(self).spec_tick_size() == old(self).spec_tick_size(),
            final(self).history_view() == old(self).history_view(),
            final(self).history_capacity() == old(self).history_capacity(),
    {
        if self.previous_ha_close.is_zero() && self.previous_ha_open.is_zero() {
            let (seed_open, seed_close) = Self::seed_of(new_data);
            self.previous_ha_close = seed_close;
            self.previous_ha_open = seed_open;
        }
        let ha_open = round_to_tick_size(
            decimal_div(
                decimal_add(self.previous_ha_open, self.previous_ha_close),
                Decimal::from_int(2),
            ),
            self.tick_size,
        );
        let (ha_close, ha_high, ha_low, volume) = match new_data {
            BaseDataEnum::Candle(candle) => {
                let ha_close = round_to_tick_size(
                    decimal_div(
                        decimal_add(
                            decimal_add(decimal_add(candle.open, candle.high), candle.low),
                            candle.close,
                        ),
                        Decimal::from_int(4),
                    ),
                    self.tick_size,
                );
                let ha_high = candle.high.max(ha_open).max(ha_close);
                let ha_low = candle.low.min(ha_open).min(ha_close);
                (ha_close, ha_high, ha_low, candle.volume)
            },
            BaseDataEnum::TradePrice(price) => {
                let ha_close = price.price;
                (ha_close, ha_close.max(ha_open), ha_close.min(ha_open), Decimal::zero())
            },
            BaseDataEnum::QuoteBar(bar) => {
                let ha_close = bar.bid_close;
                (ha_close, ha_close.max(ha_open), ha_close.min(ha_open), bar.volume)
            },
            BaseDataEnum::Tick(tick) => {
                let ha_close = tick.price;
                (ha_close, ha_close.max(ha_open), ha_close.min(ha_open), tick.volume)
            },
            BaseDataEnum::Quote(quote) => {
                let ha_close = quote.bid;
                (ha_close, ha_close.max(ha_open), ha_close.min(ha_open), Decimal::zero())
            },
        };
        self.previous_ha_close = ha_close;
        self.previous_ha_open = ha_open;
        let time = open_time(&self.subscription, new_data.time_utc());
        Candle {
            symbol: self.subscription.symbol.copy(),
            open: ha_open,
            high: ha_high,
            low: ha_low,
            close: ha_close,
            volume,
            time,
            resolution: self.subscription.resolution,
            is_closed: false,
            range: decimal_sub(ha_high, ha_low),
            candle_type: CandleType::HeikinAshi,
        }
    }

    /// The open bar with `base_data` folded into it.
    fn merge_ha_candle(&self, candle: Candle, base_data: &BaseDataEnum) -> (n: Candle)
        requires
            ha_merge_fits(candle, *base_data, self.tick_size@),
        ensures
            merged_ha_candle(candle, *base_data, self.tick_size@, n),
    {
        let mut candle = candle;
        match base_data {
            BaseDataEnum::Tick(tick) => {
                candle.high = tick.price.max(candle.high);
                candle.low = tick.price.min(candle.low);
                candle.close = tick.price;
                candle.range = round_to_tick_size(decimal_sub(candle.high, candle.low), self.tick_size);
                candle.volume = decimal_add(candle.volume, tick.volume);
            },
            BaseDataEnum::Candle(new_candle) => {
                candle.high = new_candle.high.max(candle.high);
                candle.low = new_candle.low.min(candle.low);
                candle.close = new_candle.close;
                candle.range = round_to_tick_size(decimal_sub(candle.high, candle.low), self.tick_size);
                candle.volume = decimal_add(candle.volume, new_candle.volume);
            },
            BaseDataEnum::TradePrice(price) => {
                candle.high = price.price.max(candle.high);
                candle.low = price.price.min(candle.low);
                candle.close = price.price;
                candle.range = round_to_tick_size(decimal_sub(candle.high, candle.low), self.tick_size);
            },
            BaseDataEnum::QuoteBar(bar) => {
                candle.high = bar.bid_high.max(candle.high);
                candle.low = bar.bid_low.min(candle.low);
                candle.close = bar.bid_close;
                candle.range = round_to_tick_size(decimal_sub(candle.high, candle.low), self.tick_size);
                candle.volume = decimal_add(candle.volume, bar.volume);
            },
            BaseDataEnum::Quote(quote) => {
                candle.high = candle.high.max(quote.bid);
                candle.low = candle.low.min(quote.bid);
                candle.close = quote.bid;
                candle.range = round_to_tick_size(decimal_sub(candle.high, candle.low), self.tick_size);
            },
        }
        candle
    }

    /// Feeds one data point: opens, closes or extends the open bar. Returns the open bar,
    /// and the bar just closed if the data point completed it.
    pub fn update(&mut self, base_data: &BaseDataEnum) -> (r: ConsolidatedData)
        requires
            old(self).wf(),
            old(self).update_defined(*base_data),
        ensures
            final(self).wf(),
            old(self).update_result(*base_data, &*final(self), r),
    {
        match self.current_data.take() {
            None => {
                let bar = BaseDataEnum::Candle(self.new_heikin_ashi_candle(base_data));
                self.current_data = Some(bar.copy());
                ConsolidatedData::with_open(bar)
            },
            Some(current_bar) => {
                if base_data.time_created_utc() >= current_bar.time_created_utc() {
                    let mut consolidated_bar = current_bar;
                    consolidated_bar.set_is_closed(true);
                    proof {
                        lemma_add_keeps_closed(self.history@, self.history.capacity(), consolidated_bar);
                        if self.history.capacity() > 0 {
                            law_window_bounded(self.history@, self.history.capacity(), consolidated_bar);
                        }
                    }
                    self.history.add(consolidated_bar.copy());
                    let new_bar = self.new_heikin_ashi_candle(base_data);
                    self.current_data = Some(BaseDataEnum::Candle(new_bar.copy()));
                    ConsolidatedData::with_closed(BaseDataEnum::Candle(new_bar), consolidated_bar)
                } else {
                    match current_bar {
                        BaseDataEnum::Candle(candle) => {
                            let merged = self.merge_ha_candle(candle, base_data);
                            self.current_data = Some(BaseDataEnum::Candle(merged.copy()));
                            ConsolidatedData::with_open(BaseDataEnum::Candle(merged))
                        },
                        _ => vstd::pervasive::unreached(),
                    }
                }
            },
        }
    }

    /// Whether a bar can be opened with `data`: its open and close times are representable
    /// and every step of its open, close, extremes and range can be computed.
    pub fn opens_is_defined(&self, data: &BaseDataEnum) -> (r: bool)
        ensures
            r == self.opens_with(*data),
    {
        let interval_ok = match self.subscription.resolution {
            Resolution::Seconds(interval) => 0 < interval && interval <= 0x7fff_ffff_ffff_ffffu64,
            Resolution::Minutes(interval) => interval > 0,
            Resolution::Hours(interval) => interval > 0,
            _ => true,
        };
        if !interval_ok {
            return false;
        }
        let time = data.time_utc();
        if time < i64::MIN + NANOS_PER_DAY {
            return false;
        }
        let start = open_time(&self.subscription, time);
        if start as i128 + self.subscription.resolution.nanos() > 0x7fff_ffff_ffff_ffffi128 {
            return false;
        }
        let (prev_open, prev_close) = if self.previous_ha_close.is_zero()
            && self.previous_ha_open.is_zero() {
            Self::seed_of(data)
        } else {
            (self.previous_ha_open, self.previous_ha_close)
        };
        let sum = match checked_sum(prev_open, prev_close) {
            Some(s) => s,
            None => return false,
        };
        let half = match checked_quotient(sum, Decimal::from_int(2)) {
            Some(h) => h,
            None => return false,
        };
        let open = match checked_round_to_tick_size(half, self.tick_size) {
            Some(o) => o,
            None => return false,
        };
        let (high, low) = match data {
            BaseDataEnum::Candle(k) => {
                let s1 = match checked_sum(k.open, k.high) {
                    Some(v) => v,
                    None => return false,
                };
                let s2 = match checked_sum(s1, k.low) {
                    Some(v) => v,
                    None => return false,
                };
                let s3 = match checked_sum(s2, k.close) {
                    Some(v) => v,
                    None => return false,
                };
                let quarter = match checked_quotient(s3, Decimal::from_int(4)) {
                    Some(v) => v,
                    None => return false,
                };
                let close = match checked_round_to_tick_size(quarter, self.tick_size) {
                    Some(v) => v,
                    None => return false,
                };
                (k.high.max(open).max(close), k.low.min(open).min(close))
            },
            _ => {
                let close = Self::seed_of(data).1;
                (close.max(open), close.min(open))
            },
        };
        checked_difference(high, low).is_some()
    }

    /// Whether `data` can be folded into the open candle `c`.
    fn merge_is_defined(&self, c: &Candle, data: &BaseDataEnum) -> (r: bool)
        ensures
            r == ha_merge_fits(*c, *data, self.tick_size@),
    {
        let (high_in, low_in, volume) = match data {
            BaseDataEnum::Tick(t) => (t.price, t.price, Some(t.volume)),
            BaseDataEnum::Candle(k) => (k.high, k.low, Some(k.volume)),
            BaseDataEnum::TradePrice(p) => (p.price, p.price, None),
            BaseDataEnum::QuoteBar(b) => (b.bid_high, b.bid_low, Some(b.volume)),
            BaseDataEnum::Quote(q) => (q.bid, q.bid, None),
        };
        let (high, low) = match data {
            BaseDataEnum::Quote(_) => (c.high.max(high_in), c.low.min(low_in)),
            _ => (high_in.max(c.high), low_in.min(c.low)),
        };
        let range_ok = match checked_difference(high, low) {
            Some(range) => checked_round_to_tick_size(range, self.tick_size).is_some(),
            None => false,
        };
        range_ok && match volume {
            Some(v) => checked_sum(c.volume, v).is_some(),
            None => true,
        }
    }

    /// Whether [`HeikinAshiConsolidator::update`] is defined for `data`.
    pub fn update_is_defined(&self, data: &BaseDataEnum) -> (r: bool)
        requires
            self.wf(),
        ensures
            r == self.update_defined(*data),
    {
        if !data.time_created_representable() {
            return false;
        }
        match &self.current_data {
            None => self.opens_is_defined(data),
            Some(bar) => {
                if data.time_created_utc() >= bar.time_created_utc() {
                    self.opens_is_defined(data)
                } else {
                    match bar {
                        BaseDataEnum::Candle(c) => self.merge_is_defined(c, data),
                        _ => false,
                    }
                }
            },
        }
    }

    /// Feeds `data` as [`HeikinAshiConsolidator::update`] does where that is defined;
    /// otherwise returns `None` and leaves the consolidator as it was.
    pub fn try_update(&mut self, data: &BaseDataEnum) -> (r: Option<ConsolidatedData>)
        requires
            old(self).wf(),
        ensures
            final(self).wf(),
            (r is Some) == old(self).update_defined(*data),
            r matches Some(c) ==> old(self).update_result(*data, &*final(self), c),
            r is None ==> *final(self) == *old(self),
    {
        if self.update_is_defined(data) {
            Some(self.update(data))
        } else {
            None
        }
    }

    /// What `update_time(time)` does, taking the consolidator to `next` and returning `r`:
    /// the open bar is closed and returned once `time` reaches its close time; the settings,
    /// the history and the previous bar stay.
    pub open spec fn time_update_result(&self, time: int, next: &Self, r: Option<BaseDataEnum>) -> bool {
        &&& next.spec_subscription() == self.spec_subscription()
        &&& next.spec_tick_size() == self.spec_tick_size()
        &&& next.history_capacity() == self.history_capacity()
        &&& next.history_view() == self.history_view()
        &&& next.spec_previous() == self.spec_previous()
        &&& match self.current_bar() {
            Some(bar) => if time >= bar.spec_time_created_utc() {
                r == Some(bar.spec_closed()) && next.current_bar() is None
            } else {
                r is None && next.current_bar() == Some(bar)
            },
            None => r is None && next.current_bar() is None,
        }
    }

    /// Advances the clock to `time` (UTC nanoseconds): the open bar is closed and returned
    /// once `time` reaches its close time. Bars closed here are not added to the history.
    pub fn update_time(&mut self, time: i64) -> (r: Option<BaseDataEnum>)
        requires
            old(self).wf(),
        ensures
            final(self).wf(),
            old(self).time_update_result(time as int, &*final(self), r),
    {
        let closes = match &self.current_data {
            Some(bar) => time >= bar.time_created_utc(),
            None => false,
        };
        if closes {
            let mut return_data = self.current_data.take().unwrap();
            return_data.set_is_closed(true);
            return Some(return_data);
        }
        None
    }

    /// A copy of the closed bars kept, latest first.
    pub fn history(&self) -> (r: RollingWindow<BaseDataEnum>)
        ensures
            r@ == self.history_view(),
            r.capacity() == self.history_capacity(),
    {
        self.history.copy()
    }

    /// A copy of the closed bar `index` places back from the latest, if there is one.
    pub fn index(&self, index: usize) -> (r: Option<BaseDataEnum>)
        ensures
            r == (if index < self.history_view().len() {
                Some(self.history_view()[index as int])
            } else {
                None::<BaseDataEnum>
            }),
    {
        match self.history.get(index) {
            Some(data) => Some(data.copy()),
            None => None,
        }
    }

    /// A copy of the bar being built, if any.
    pub fn current(&self) -> (r: Option<BaseDataEnum>)
        ensures
            r == self.current_bar(),
    {
        match &self.current_data {
            Some(data) => Some(data.copy()),
            None => None,
        }
    }

    /// The subscription the consolidator builds bars for.
    pub fn subscription(&self) -> (r: &DataSubscription)
        ensures
            *r == self.spec_subscription(),
    {
        &self.subscription
    }

    /// How many closed bars are kept.
    pub fn history_to_retain(&self) -> (r: usize)
        ensures
            r == self.history_capacity(),
    {
        self.history.number()
    }
}

/// The update opens a new bar: none was open, or the data completes at or after the open
/// bar's close time.
pub open spec fn ha_update_opens(s: HeikinAshiConsolidator, data: BaseDataEnum) -> bool {
    s.current_bar() is None || data.spec_time_created_utc() >= s.current_bar()->0.spec_time_created_utc()
}

/// Each Heikin-Ashi bar opens at the midpoint of the previous bar's open and close,
/// rounded to the tick size: when one update opens a bar `c1` and the next update opens
/// the bar after it, that bar's open is `(c1.open + c1.close) / 2` rounded. (Before the
/// first bar, and after a bar whose open and close are both zero, the data seeds it.)
pub proof fn law_ha_opens_at_midpoint_of_previous_bar(
    s0: HeikinAshiConsolidator,
    d1: BaseDataEnum,
    s1: HeikinAshiConsolidator,
    r1: ConsolidatedData,
    d2: BaseDataEnum,
    s2: HeikinAshiConsolidator,
    r2: ConsolidatedData,
)
    requires
        s0.update_result(d1, &s1, r1),
        ha_update_opens(s0, d1),
        s1.update_result(d2, &s2, r2),
        ha_update_opens(s1, d2),
        r1.open_data matches BaseDataEnum::Candle(c1) && !(c1.open@.mantissa == 0
            && c1.close@.mantissa == 0),
    ensures
        ({
            let c1 = r1.open_data->Candle_0;
            r2.open_data matches BaseDataEnum::Candle(c2) && c2.open@ == spec_round_to_tick_size(
                decimal_quotient(decimal_sum(c1.open@, c1.close@), two_parts()),
                s0.spec_tick_size()@,
            )
        }),
{
}

/// Folding data into the open bar keeps the open price and the open and close the next
/// bar is computed from: the next bar opens at the midpoint of the bar's open and its
/// close as it was when the bar opened.
pub proof fn law_ha_folding_keeps_the_open(
    s: HeikinAshiConsolidator,
    data: BaseDataEnum,
    next: HeikinAshiConsolidator,
    r: ConsolidatedData,
)
    requires
        s.update_result(data, &next, r),
        !ha_update_opens(s, data),
    ensures
        next.spec_previous() == s.spec_previous(),
        r.open_data matches BaseDataEnum::Candle(n) && s.current_bar()->0 matches BaseDataEnum::Candle(
            c,
        ) && n.open == c.open && n.time == c.time,
{
}

/// A bar opened by a candle closes at the average of the candle's open, high, low and
/// close, rounded to the tick size; a bar opened by any other data closes at the price it
/// carries (the bid for quotes and quote bars). Its high is at least, and its low at
/// most, both its open and its close.
pub proof fn law_ha_opened_bar_close(
    s: HeikinAshiConsolidator,
    data: BaseDataEnum,
    next: HeikinAshiConsolidator,
    r: ConsolidatedData,
)
    requires
        s.update_result(data, &next, r),
        ha_update_opens(s, data),
    ensures
        r.open_data matches BaseDataEnum::Candle(c) && match data {
            BaseDataEnum::Candle(k) => c.close@ == spec_round_to_tick_size(
                decimal_quotient(
                    decimal_sum(decimal_sum(decimal_sum(k.open@, k.high@), k.low@), k.close@),
                    four_parts(),
                ),
                s.spec_tick_size()@,
            ),
            BaseDataEnum::Tick(t) => c.close == t.price,
            BaseDataEnum::TradePrice(p) => c.close == p.price,
            BaseDataEnum::Quote(q) => c.close == q.bid,
            BaseDataEnum::QuoteBar(b) => c.close == b.bid_close,
        },
        r.open_data matches BaseDataEnum::Candle(c) && spec_le(c.open@, c.high@) && spec_le(
            c.close@,
            c.high@,
        ) && spec_le(c.low@, c.open@) && spec_le(c.low@, c.close@),
{
    let c = r.open_data->Candle_0;
    law_ha_bar_spans_open_close(
        s.spec_subscription(),
        s.spec_previous().0,
        s.spec_previous().1,
        data,
        s.spec_tick_size()@,
        c,
    );
}

/// Folding data into the open bar adds the volume the data carries (ticks, candles and
/// quote bars) and leaves the volume as it was for data that carries none.
pub proof fn law_ha_folding_adds_the_datas_volume(
    s: HeikinAshiConsolidator,
    data: BaseDataEnum,
    next: HeikinAshiConsolidator,
    r: ConsolidatedData,
)
    requires
        s.update_result(data, &next, r),
        !ha_update_opens(s, data),
    ensures
        r.open_data matches BaseDataEnum::Candle(n) && s.current_bar()->0 matches BaseDataEnum::Candle(
            c,
        ) && match data {
            BaseDataEnum::Tick(t) => n.volume@ == decimal_sum(c.volume@, t.volume@),
            BaseDataEnum::Candle(k) => n.volume@ == decimal_sum(c.volume@, k.volume@),
            BaseDataEnum::QuoteBar(b) => n.volume@ == decimal_sum(c.volume@, b.volume@),
            _ => n.volume == c.volume,
        },
{
}

/// Folding data into the open Heikin-Ashi bar takes the data's price as the close (the
/// bid for quotes and quote bars) and only widens the bar: the new high is the larger of
/// the bar's high and the data's, the new low the smaller of the two lows.
pub proof fn law_ha_folding_widens_the_bar(
    s: HeikinAshiConsolidator,
    data: BaseDataEnum,
    next: HeikinAshiConsolidator,
    r: ConsolidatedData,
)
    requires
        s.update_result(data, &next, r),
        !ha_update_opens(s, data),
    ensures
        ({
            let (high_in, low_in, close_in) = match data {
                BaseDataEnum::Tick(t) => (t.price, t.price, t.price),
                BaseDataEnum::TradePrice(p) => (p.price, p.price, p.price),
                BaseDataEnum::Candle(k) => (k.high, k.low, k.close),
                BaseDataEnum::Quote(q) => (q.bid, q.bid, q.bid),
                BaseDataEnum::QuoteBar(b) => (b.bid_high, b.bid_low, b.bid_close),
            };
            r.open_data matches BaseDataEnum::Candle(n) && s.current_bar()->0 matches BaseDataEnum::Candle(
                c,
            ) && n.close == close_in && spec_le(c.high@, n.high@) && spec_le(high_in@, n.high@) && (
            n.high@ == c.high@ || n.high@ == high_in@) && spec_le(n.low@, c.low@) && spec_le(
                n.low@,
                low_in@,
            ) && (n.low@ == c.low@ || n.low@ == low_in@)
        }),
{
    let c = s.current_bar()->0->Candle_0;
    let (high_in, low_in, close_in) = ha_input_prices(data);
    lemma_max_min_bounds(c.high@, high_in@);
    lemma_max_min_bounds(high_in@, c.high@);
    lemma_max_min_bounds(c.low@, low_in@);
    lemma_max_min_bounds(low_in@, c.low@);
}

} // verus!
