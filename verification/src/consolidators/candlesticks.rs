//! Time-based consolidation of ticks, trade prices and candles into candles, and of
//! quotes and quote bars into quote bars.
use crate::consolidators::consolidator_enum::ConsolidatedData;
use crate::decimal::{
    checked_difference, checked_sum, decimal_add, decimal_difference, decimal_sub, decimal_sum, difference_fits, spec_max, spec_min,
    spec_le, sum_fits, zero_parts, Decimal, DecimalParts,
};
use crate::helpers::converters::{open_time, open_time_defined, spec_open_time, time_in_range};
use crate::helpers::decimal_calculators::{
    checked_round_to_tick_size, round_to_tick_size, spec_round_to_tick_size, tick_rounding_fits,
};
use crate::messages::data_server_messaging::FundForgeError;
use crate::rolling_window::{
    all_closed_bars, lemma_add_keeps_closed, law_window_bounded, spec_window_add, RollingWindow,
};
use crate::standardized_types::{
    resolution_nanos, BaseDataEnum, BaseDataType, Candle, CandleType, DataSubscription, Price,
    QuoteBar, Resolution, NANOS_PER_DAY,
};
use vstd::prelude::*;

verus! {

/// Data that builds candles: ticks, trade prices and candles.
pub open spec fn is_candle_input(data: BaseDataEnum) -> bool {
    data is Tick || data is TradePrice || data is Candle
}

/// Data that builds quote bars: quotes and quote bars.
pub open spec fn is_quote_input(data: BaseDataEnum) -> bool {
    data is Quote || data is QuoteBar
}

/// A bar can be opened for `data`: its open time is defined and representable together
/// with its close time, a tick or trade price finds a candle type in the subscription, and
/// a quote's spread is a representable decimal.
pub open spec fn opens_defined(sub: DataSubscription, data: BaseDataEnum) -> bool {
    &&& open_time_defined(sub.resolution)
    &&& time_in_range(data.spec_time_utc())
    &&& spec_open_time(sub.resolution, data.spec_time_utc()) + resolution_nanos(sub.resolution)
        <= i64::MAX
    &&& (data is Tick || data is TradePrice ==> sub.candle_type is Some)
    &&& (data matches BaseDataEnum::Quote(q) ==> difference_fits(q.ask@, q.bid@))
}

/// `bar` is the bar that `sub` opens with `data`, at the open time of the bar of the
/// subscription's resolution that contains the data's time.
pub open spec fn opened_bar(sub: DataSubscription, data: BaseDataEnum, bar: BaseDataEnum) -> bool {
    let time = spec_open_time(sub.resolution, data.spec_time_utc());
    match data {
        BaseDataEnum::Tick(t) => bar matches BaseDataEnum::Candle(c) && c == (Candle {
            symbol: sub.symbol,
            high: t.price,
            low: t.price,
            open: t.price,
            close: t.price,
            volume: t.volume,
            range: c.range,
            time: time as i64,
            is_closed: false,
            resolution: sub.resolution,
            candle_type: sub.candle_type->0,
        }) && c.range@ == zero_parts(),
        BaseDataEnum::TradePrice(p) => bar matches BaseDataEnum::Candle(c) && c == (Candle {
            symbol: sub.symbol,
            high: p.price,
            low: p.price,
            open: p.price,
            close: p.price,
            volume: c.volume,
            range: c.range,
            time: time as i64,
            is_closed: false,
            resolution: sub.resolution,
            candle_type: sub.candle_type->0,
        }) && c.range@ == zero_parts() && c.volume@ == zero_parts(),
        BaseDataEnum::Candle(k) => bar == BaseDataEnum::Candle(
            Candle { is_closed: false, resolution: sub.resolution, time: time as i64, ..k },
        ),
        BaseDataEnum::Quote(q) => bar matches BaseDataEnum::QuoteBar(b) && b == (QuoteBar {
            symbol: sub.symbol,
            bid_high: q.bid,
            bid_low: q.bid,
            bid_open: q.bid,
            bid_close: q.bid,
            ask_high: q.ask,
            ask_low: q.ask,
            ask_open: q.ask,
            ask_close: q.ask,
            volume: b.volume,
            range: b.range,
            spread: b.spread,
            time: time as i64,
            is_closed: false,
            resolution: sub.resolution,
            candle_type: CandleType::CandleStick,
        }) && b.volume@ == zero_parts() && b.range@ == zero_parts() && b.spread@
            == decimal_difference(q.ask@, q.bid@),
        BaseDataEnum::QuoteBar(k) => bar == BaseDataEnum::QuoteBar(
            QuoteBar { is_closed: false, time: time as i64, resolution: sub.resolution, ..k },
        ),
    }
}

/// The high, low and close a candle input brings to an open candle.
pub open spec fn candle_input_prices(data: BaseDataEnum) -> (Decimal, Decimal, Decimal) {
    match data {
        BaseDataEnum::Tick(t) => (t.price, t.price, t.price),
        BaseDataEnum::TradePrice(p) => (p.price, p.price, p.price),
        BaseDataEnum::Candle(k) => (k.high, k.low, k.close),
        BaseDataEnum::Quote(q) => (q.ask, q.bid, q.ask),
        BaseDataEnum::QuoteBar(b) => (b.ask_high, b.bid_low, b.ask_close),
    }
}

/// `n` is the open candle `c` after `data` is folded into it: the high is the larger of the
/// two highs, the low the smaller of the two lows, the close is the data's, the range is
/// `high - low` rounded to the tick size, and the volume grows by the data's volume
/// (trade prices carry none).
pub open spec fn merged_candle(c: Candle, data: BaseDataEnum, tick_size: DecimalParts, n: Candle) -> bool {
    let (high_in, low_in, close_in) = candle_input_prices(data);
    &&& n == (Candle {
        high: n.high,
        low: n.low,
        close: close_in,
        range: n.range,
        volume: n.volume,
        ..c
    })
    &&& n.high@ == spec_max(c.high@, high_in@)
    &&& n.low@ == spec_min(c.low@, low_in@)
    &&& n.range@ == spec_round_to_tick_size(decimal_difference(n.high@, n.low@), tick_size)
    &&& match data {
        BaseDataEnum::Tick(t) => n.volume@ == decimal_sum(c.volume@, t.volume@),
        BaseDataEnum::Candle(k) => n.volume@ == decimal_sum(c.volume@, k.volume@),
        _ => n.volume == c.volume,
    }
}

/// Folding `data` into the open candle `c` stays within the decimal range.
pub open spec fn candle_merge_fits(c: Candle, data: BaseDataEnum, tick_size: DecimalParts) -> bool {
    let (high_in, low_in, close_in) = candle_input_prices(data);
    let high = spec_max(c.high@, high_in@);
    let low = spec_min(c.low@, low_in@);
    &&& difference_fits(high, low)
    &&& tick_rounding_fits(decimal_difference(high, low), tick_size)
    &&& match data {
        BaseDataEnum::Tick(t) => sum_fits(c.volume@, t.volume@),
        BaseDataEnum::Candle(k) => sum_fits(c.volume@, k.volume@),
        _ => true,
    }
}

/// `n` is the open quote bar `b` after `data` is folded into it: ask high and bid high
/// take the larger, ask low the smaller value, the closes are the data's, the range is
/// `ask high - bid low` and the spread `ask close - bid close`, both rounded to the tick
/// size. A quote adds no volume; a quote bar adds its volume, and its own bid low
/// replaces the open bar's bid low.
pub open spec fn merged_quote_bar(b: QuoteBar, data: BaseDataEnum, tick_size: DecimalParts, n: QuoteBar) -> bool {
    &&& n == (QuoteBar {
        ask_high: n.ask_high,
        ask_low: n.ask_low,
        bid_high: n.bid_high,
        bid_low: n.bid_low,
        ask_close: n.ask_close,
        bid_close: n.bid_close,
        volume: n.volume,
        range: n.range,
        spread: n.spread,
        ..b
    })
    &&& n.range@ == spec_round_to_tick_size(decimal_difference(n.ask_high@, n.bid_low@), tick_size)
    &&& n.spread@ == spec_round_to_tick_size(decimal_difference(n.ask_close@, n.bid_close@), tick_size)
    &&& match data {
        BaseDataEnum::Quote(q) => {
            &&& n.ask_high@ == spec_max(b.ask_high@, q.ask@)
            &&& n.ask_low@ == spec_min(b.ask_low@, q.ask@)
            &&& n.bid_high@ == spec_max(b.bid_high@, q.bid@)
            &&& n.bid_low@ == spec_min(b.bid_low@, q.bid@)
            &&& n.ask_close == q.ask
            &&& n.bid_close == q.bid
            &&& n.volume == b.volume
        },
        BaseDataEnum::QuoteBar(k) => {
            &&& n.ask_high@ == spec_max(b.ask_high@, k.ask_high@)
            &&& n.ask_low@ == spec_min(b.ask_low@, k.ask_low@)
            &&& n.bid_high@ == spec_max(b.bid_high@, k.bid_high@)
            &&& n.bid_low@ == spec_min(k.bid_low@, k.bid_low@)
            &&& n.ask_close == k.ask_close
            &&& n.bid_close == k.bid_close
            &&& n.volume@ == decimal_sum(b.volume@, k.volume@)
        },
        _ => false,
    }
}

/// Folding `data` into the open quote bar `b` stays within the decimal range.
pub open spec fn quote_merge_fits(b: QuoteBar, data: BaseDataEnum, tick_size: DecimalParts) -> bool {
    match data {
        BaseDataEnum::Quote(q) => {
            let ask_high = spec_max(b.ask_high@, q.ask@);
            let bid_low = spec_min(b.bid_low@, q.bid@);
            &&& difference_fits(ask_high, bid_low)
            &&& tick_rounding_fits(decimal_difference(ask_high, bid_low), tick_size)
            &&& difference_fits(q.ask@, q.bid@)
            &&& tick_rounding_fits(decimal_difference(q.ask@, q.bid@), tick_size)
        },
        BaseDataEnum::QuoteBar(k) => {
            let ask_high = spec_max(b.ask_high@, k.ask_high@);
            let bid_low = spec_min(k.bid_low@, k.bid_low@);
            &&& sum_fits(b.volume@, k.volume@)
            &&& difference_fits(ask_high, bid_low)
            &&& tick_rounding_fits(decimal_difference(ask_high, bid_low), tick_size)
            &&& difference_fits(k.ask_close@, k.bid_close@)
            &&& tick_rounding_fits(decimal_difference(k.ask_close@, k.bid_close@), tick_size)
        },
        _ => false,
    }
}

/// `data` can be folded into the open `bar`: candle inputs into a candle, quote inputs
/// into a quote bar, within the decimal range.
pub open spec fn merge_defined(bar: BaseDataEnum, data: BaseDataEnum, tick_size: DecimalParts) -> bool {
    match bar {
        BaseDataEnum::Candle(c) => is_candle_input(data) && candle_merge_fits(c, data, tick_size),
        BaseDataEnum::QuoteBar(b) => is_quote_input(data) && quote_merge_fits(b, data, tick_size),
        _ => false,
    }
}

/// `next` is the open `bar` after `data` is folded into it.
pub open spec fn merged_bar(bar: BaseDataEnum, data: BaseDataEnum, tick_size: DecimalParts, next: BaseDataEnum) -> bool {
    match (bar, next) {
        (BaseDataEnum::Candle(c), BaseDataEnum::Candle(n)) => merged_candle(c, data, tick_size, n),
        (BaseDataEnum::QuoteBar(b), BaseDataEnum::QuoteBar(n)) => merged_quote_bar(b, data, tick_size, n),
        _ => false,
    }
}

/// The last candle close after `bar` is closed by `data`: the bar's close when a candle
/// input closes a candle, `last` otherwise.
pub open spec fn close_after(bar: BaseDataEnum, data: BaseDataEnum, last: Option<Decimal>) -> Option<Decimal> {
    match bar {
        BaseDataEnum::Candle(c) => if is_candle_input(data) {
            Some(c.close)
        } else {
            last
        },
        _ => last,
    }
}

/// The last ask and bid closes after `bar` is closed by `data`: the bar's closes when a
/// quote input closes a quote bar, `last` otherwise.
pub open spec fn quote_closes_after(
    bar: BaseDataEnum,
    data: BaseDataEnum,
    last: (Option<Decimal>, Option<Decimal>),
) -> (Option<Decimal>, Option<Decimal>) {
    match bar {
        BaseDataEnum::QuoteBar(b) => if is_quote_input(data) {
            (Some(b.ask_close), Some(b.bid_close))
        } else {
            last
        },
        _ => last,
    }
}

/// Folding data into an open candle never lowers its high nor raises its low: the new
/// high is at least the old high and the data's high, the new low at most the old low
/// and the data's low; the open price and open time stay, and the close is the data's.
pub proof fn law_candle_extremes(c: Candle, data: BaseDataEnum, tick_size: DecimalParts, n: Candle)
    requires
        is_candle_input(data),
        merged_candle(c, data, tick_size, n),
    ensures
        spec_le(c.high@, n.high@),
        spec_le(candle_input_prices(data).0@, n.high@),
        spec_le(n.low@, c.low@),
        spec_le(n.low@, candle_input_prices(data).1@),
        n.open == c.open,
        n.time == c.time,
        n.close == candle_input_prices(data).2,
{
}

/// Folding a quote into an open quote bar never lowers the ask and bid highs nor raises
/// the ask low, and leaves the bar's opens and open time as they were.
pub proof fn law_quote_bar_extremes(b: QuoteBar, data: BaseDataEnum, tick_size: DecimalParts, n: QuoteBar)
    requires
        data is Quote,
        merged_quote_bar(b, data, tick_size, n),
    ensures
        spec_le(b.ask_high@, n.ask_high@),
        spec_le(b.bid_high@, n.bid_high@),
        spec_le(n.ask_low@, b.ask_low@),
        spec_le(n.bid_low@, b.bid_low@),
        spec_le(data->Quote_0.ask@, n.ask_high@),
        spec_le(n.bid_low@, data->Quote_0.bid@),
        n.ask_open == b.ask_open,
        n.bid_open == b.bid_open,
        n.time == b.time,
{
}

/// Whether `high - low` and its rounding to `tick_size` can be computed.
fn range_is_defined(high: Decimal, low: Decimal, tick_size: Decimal) -> (r: bool)
    ensures
        r == (difference_fits(high@, low@) && tick_rounding_fits(
            decimal_difference(high@, low@),
            tick_size@,
        )),
{
    match checked_difference(high, low) {
        Some(range) => checked_round_to_tick_size(range, tick_size).is_some(),
        None => false,
    }
}

/// Whether a bar can be opened for `data` under `sub`.
fn opens_is_defined(sub: &DataSubscription, data: &BaseDataEnum) -> (r: bool)
    ensures
        r == opens_defined(*sub, *data),
{
    let interval_ok = match sub.resolution {
        Resolution::Seconds(interval) => 0 < interval && interval <= 0x7fff_ffff_ffff_ffffu64,
        Resolution::Minutes(interval) => interval > 0,
        Resolution::Hours(interval) => interval > 0,
        _ => true,
    };
    if !interval_ok {
        return false;
    }
    let time = data.time_utc();
    if time < i64::MIN + NANOS_PER_DAY {
        return false;
    }
    let open = open_time(sub, time);
    if open as i128 + sub.resolution.nanos() > 0x7fff_ffff_ffff_ffffi128 {
        return false;
    }
    let needs_candle_type = match data {
        BaseDataEnum::Tick(_) => true,
        BaseDataEnum::TradePrice(_) => true,
        _ => false,
    };
    if needs_candle_type && sub.candle_type.is_none() {
        return false;
    }
    match data {
        BaseDataEnum::Quote(q) => checked_difference(q.ask, q.bid).is_some(),
        _ => true,
    }
}

/// Whether `data` can be folded into the open `bar`.
fn merge_is_defined(bar: &BaseDataEnum, data: &BaseDataEnum, tick_size: Decimal) -> (r: bool)
    ensures
        r == merge_defined(*bar, *data, tick_size@),
{
    match bar {
        BaseDataEnum::Candle(c) => match data {
            BaseDataEnum::Tick(t) => range_is_defined(c.high.max(t.price), c.low.min(t.price), tick_size)
                && checked_sum(c.volume, t.volume).is_some(),
            BaseDataEnum::TradePrice(p) => range_is_defined(
                c.high.max(p.price),
                c.low.min(p.price),
                tick_size,
            ),
            BaseDataEnum::Candle(k) => range_is_defined(c.high.max(k.high), c.low.min(k.low), tick_size)
                && checked_sum(c.volume, k.volume).is_some(),
            _ => false,
        },
        BaseDataEnum::QuoteBar(b) => match data {
            BaseDataEnum::Quote(q) => range_is_defined(b.ask_high.max(q.ask), b.bid_low.min(q.bid), tick_size)
                && range_is_defined(q.ask, q.bid, tick_size),
            BaseDataEnum::QuoteBar(k) => checked_sum(b.volume, k.volume).is_some()
                && range_is_defined(b.ask_high.max(k.ask_high), k.bid_low.min(k.bid_low), tick_size)
                && range_is_defined(k.ask_close, k.bid_close, tick_size),
            _ => false,
        },
        _ => false,
    }
}

/// Builds candles or quote bars of a fixed time resolution from finer data, keeping a
/// history of the closed bars.
pub struct CandleStickConsolidator {
    current_data: Option<BaseDataEnum>,
    subscription: DataSubscription,
    history: RollingWindow<BaseDataEnum>,
    tick_size: Price,
    last_close: Option<Price>,
    last_ask_close: Option<Price>,
    last_bid_close: Option<Price>,
    fill_forward: bool,
}

impl CandleStickConsolidator {
    /// The bar being built, if any.
    pub closed spec fn current_bar(&self) -> Option<BaseDataEnum> {
        self.current_data
    }

    pub closed spec fn spec_subscription(&self) -> DataSubscription {
        self.subscription
    }

    /// The closed bars kept, latest first.
    pub closed spec fn history_view(&self) -> Seq<BaseDataEnum> {
        self.history@
    }

    /// How many closed bars are kept.
    pub closed spec fn history_capacity(&self) -> nat {
        self.history.capacity()
    }

    pub closed spec fn spec_tick_size(&self) -> Decimal {
        self.tick_size
    }

    /// The close of the last candle closed.
    pub closed spec fn spec_last_close(&self) -> Option<Decimal> {
        self.last_close
    }

    /// The ask and bid closes of the last quote bar closed.
    pub closed spec fn spec_last_quote_closes(&self) -> (Option<Decimal>, Option<Decimal>) {
        (self.last_ask_close, self.last_bid_close)
    }

    pub closed spec fn spec_fill_forward(&self) -> bool {
        self.fill_forward
    }

    /// The bar being built is an open candle or quote bar whose close time is
    /// representable, every bar in the history is marked closed, and a history with a
    /// capacity holds no more than it.
    pub open spec fn wf(&self) -> bool {
        &&& match self.current_bar() {
            None => true,
            Some(bar) => (bar is Candle || bar is QuoteBar) && bar.time_created_fits()
                && !bar.is_closed_bar(),
        }
        &&& all_closed_bars(self.history_view())
        &&& (self.history_capacity() > 0 ==> self.history_view().len() <= self.history_capacity())
    }

    /// The parts that no update changes are the same in `next`.
    pub open spec fn same_settings(&self, next: &Self) -> bool {
        &&& next.spec_subscription() == self.spec_subscription()
        &&& next.spec_tick_size() == self.spec_tick_size()
        &&& next.history_capacity() == self.history_capacity()
        &&& next.spec_fill_forward() == self.spec_fill_forward()
    }

    /// With fill-forward on and no bar open, `update_time` opens a bar that carries the
    /// last close forward: for quote bar subscriptions once a quote bar has closed, for
    /// candle subscriptions once a candle has closed.
    pub open spec fn fills_forward(&self) -> bool {
        &&& self.spec_fill_forward()
        &&& self.current_bar() is None
        &&& match self.spec_subscription().base_data_type {
            BaseDataType::QuoteBars => self.spec_last_quote_closes().0 is Some
                && self.spec_last_quote_closes().1 is Some,
            BaseDataType::Candles => self.spec_last_close() is Some,
            _ => false,
        }
    }

    /// The bar carrying the last close forward can be opened at `time`.
    pub open spec fn forward_defined(&self, time: int) -> bool {
        let sub = self.spec_subscription();
        let ask = self.spec_last_quote_closes().0->0;
        let bid = self.spec_last_quote_closes().1->0;
        &&& open_time_defined(sub.resolution)
        &&& time_in_range(time)
        &&& spec_open_time(sub.resolution, time) + resolution_nanos(sub.resolution) <= i64::MAX
        &&& (sub.base_data_type is QuoteBars ==> {
            &&& difference_fits(ask@, bid@)
            &&& tick_rounding_fits(decimal_difference(ask@, bid@), self.spec_tick_size()@)
        })
    }

    /// `bar` is the bar that carries the last close forward to the bar containing `time`:
    /// every price is the last close, there is no volume and no range, and a quote bar's
    /// spread is the last ask close minus the last bid close rounded to the tick size.
    pub open spec fn forward_bar(&self, time: int, bar: BaseDataEnum) -> bool {
        let sub = self.spec_subscription();
        let open = spec_open_time(sub.resolution, time) as i64;
        let ask = self.spec_last_quote_closes().0->0;
        let bid = self.spec_last_quote_closes().1->0;
        let close = self.spec_last_close()->0;
        match sub.base_data_type {
            BaseDataType::QuoteBars => bar matches BaseDataEnum::QuoteBar(b) && b == (QuoteBar {
                symbol: sub.symbol,
                ask_open: ask,
                ask_high: ask,
                ask_low: ask,
                ask_close: ask,
                bid_open: bid,
                bid_high: bid,
                bid_low: bid,
                bid_close: bid,
                volume: b.volume,
                time: open,
                resolution: sub.resolution,
                is_closed: false,
                range: b.range,
                candle_type: CandleType::CandleStick,
                spread: b.spread,
            }) && b.volume@ == zero_parts() && b.range@ == zero_parts() && b.spread@
                == spec_round_to_tick_size(decimal_difference(ask@, bid@), self.spec_tick_size()@),
            _ => bar matches BaseDataEnum::Candle(c) && c == (Candle {
                symbol: sub.symbol,
                open: close,
                high: close,
                low: close,
                close: close,
                volume: c.volume,
                time: open,
                resolution: sub.resolution,
                is_closed: false,
                range: c.range,
                candle_type: CandleType::CandleStick,
            }) && c.volume@ == zero_parts() && c.range@ == zero_parts(),
        }
    }

    /// What `update_time(time)` does with the bar `bar` that is open once fill-forward
    /// has run: when `time` has reached its close time it is closed and returned, and no
    /// bar stays open; otherwise nothing is returned and it stays open.
    pub open spec fn closes_at(bar: BaseDataEnum, time: int, next: &Self, r: Option<BaseDataEnum>) -> bool {
        if time >= bar.spec_time_created_utc() {
            r == Some(bar.spec_closed()) && next.current_bar() is None
        } else {
            r is None && next.current_bar() == Some(bar)
        }
    }

    /// `update(data)` is defined: the data's close time is representable, and the data
    /// either opens a new bar (none is open, or the data completes at or after the open
    /// bar's close time) or folds into the open bar.
    pub open spec fn update_defined(&self, data: BaseDataEnum) -> bool {
        &&& data.time_created_fits()
        &&& match self.current_bar() {
            None => opens_defined(self.spec_subscription(), data),
            Some(bar) => if data.spec_time_created_utc() >= bar.spec_time_created_utc() {
                opens_defined(self.spec_subscription(), data)
            } else {
                merge_defined(bar, data, self.spec_tick_size()@)
            },
        }
    }

    /// What `update(data)` does, taking the consolidator to `next` and returning `r`:
    /// with no bar open, the data opens one; when the data completes at or after the open
    /// bar's close time, that bar is closed, returned, added to the history and its closes
    /// remembered, and the data opens the next bar; otherwise the data is folded into the
    /// open bar. In every case the open bar is returned and kept.
    pub open spec fn update_result(&self, data: BaseDataEnum, next: &Self, r: ConsolidatedData) -> bool {
        let sub = self.spec_subscription();
        &&& self.same_settings(next)
        &&& next.current_bar() == Some(r.open_data)
        &&& match self.current_bar() {
            None => {
                &&& opened_bar(sub, data, r.open_data)
                &&& r.closed_data is None
                &&& next.history_view() == self.history_view()
                &&& next.spec_last_close() == self.spec_last_close()
                &&& next.spec_last_quote_closes() == self.spec_last_quote_closes()
            },
            Some(bar) => if data.spec_time_created_utc() >= bar.spec_time_created_utc() {
                &&& opened_bar(sub, data, r.open_data)
                &&& r.closed_data == Some(bar.spec_closed())
                &&& next.history_view() == spec_window_add(
                    self.history_view(),
                    self.history_capacity(),
                    bar.spec_closed(),
                )
                &&& next.spec_last_close() == close_after(bar, data, self.spec_last_close())
                &&& next.spec_last_quote_closes() == quote_closes_after(
                    bar,
                    data,
                    self.spec_last_quote_closes(),
                )
            } else {
                &&& merged_bar(bar, data, self.spec_tick_size()@, r.open_data)
                &&& r.closed_data is None
                &&& next.history_view() == self.history_view()
                &&& next.spec_last_close() == self.spec_last_close()
                &&& next.spec_last_quote_closes() == self.spec_last_quote_closes()
            },
        }
    }

    /// A consolidator for `subscription` that keeps `history_to_retain` closed bars and
    /// rounds ranges and spreads to `tick_size`. Fundamentals cannot be consolidated and
    /// tick resolutions are not time based: both are refused.
    pub fn new(
        subscription: DataSubscription,
        history_to_retain: usize,
        fill_forward: bool,
        tick_size: Price,
    ) -> (r: Result<Self, FundForgeError>)
        ensures
            r is Ok <==> (subscription.base_data_type != BaseDataType::Fundamentals
                && !(subscription.resolution is Ticks)),
            r matches Err(e) ==> e is ClientSideErrorDebug,
            r matches Ok(c) ==> {
                &&& c.wf()
                &&& c.spec_subscription() == subscription
                &&& c.current_bar() is None
                &&& c.history_view() == Seq::<BaseDataEnum>::empty()
                &&& c.history_capacity() == history_to_retain
                &&& c.spec_tick_size() == tick_size
                &&& c.spec_fill_forward() == fill_forward
                &&& c.spec_last_close() is None
                &&& c.spec_last_quote_closes() == (None::<Decimal>, None::<Decimal>)
            },
    {
        if subscription.base_data_type == BaseDataType::Fundamentals {
            return Err(
                FundForgeError::ClientSideErrorDebug(
                    String::from_str("Fundamentals is an Invalid base data type for TimeConsolidator"),
                ),
            );
        }
        if let Resolution::Ticks(_) = subscription.resolution {
            return Err(
                FundForgeError::ClientSideErrorDebug(
                    String::from_str("Ticks is an Invalid resolution for TimeConsolidator"),
                ),
            );
        }
        Ok(
            CandleStickConsolidator {
                current_data: None,
                subscription,
                history: RollingWindow::new(history_to_retain),
                tick_size,
                last_close: None,
                last_ask_close: None,
                last_bid_close: None,
                fill_forward,
            },
        )
    }
    /// The candle this consolidator opens with a candle input.
    fn new_candle(&self, new_data: &BaseDataEnum) -> (r: Candle)
        requires
            is_candle_input(*new_data),
            opens_defined(self.subscription, *new_data),
        ensures
            opened_bar(self.subscription, *new_data, BaseDataEnum::Candle(r)),
            BaseDataEnum::Candle(r).time_created_fits(),
    {
        let time = open_time(&self.subscription, new_data.time_utc());
        match new_data {
            BaseDataEnum::Tick(tick) => Candle::new(
                self.subscription.symbol.copy(),
                tick.price,
                tick.volume,
                time,
                self.subscription.resolution,
                self.subscription.candle_type.unwrap(),
            ),
            BaseDataEnum::Candle(candle) => {
                let mut consolidated = candle.copy();
                consolidated.is_closed = false;
                consolidated.resolution = self.subscription.resolution;
                consolidated.time = time;
                consolidated
            },
            BaseDataEnum::TradePrice(price) => Candle::new(
                self.subscription.symbol.copy(),
                price.price,
                Decimal::zero(),
                time,
                self.subscription.resolution,
                self.subscription.candle_type.unwrap(),
            ),
            _ => vstd::pervasive::unreached(),
        }
    }

    /// The quote bar this consolidator opens with a quote input.
    fn new_quote_bar(&self, new_data: &BaseDataEnum) -> (r: QuoteBar)
        requires
            is_quote_input(*new_data),
            opens_defined(self.subscription, *new_data),
        ensures
            opened_bar(self.subscription, *new_data, BaseDataEnum::QuoteBar(r)),
            BaseDataEnum::QuoteBar(r).time_created_fits(),
    {
        let time = open_time(&self.subscription, new_data.time_utc());
        match new_data {
            BaseDataEnum::QuoteBar(bar) => {
                let mut new_bar = bar.copy();
                new_bar.is_closed = false;
                new_bar.time = time;
                new_bar.resolution = self.subscription.resolution;
                new_bar
            },
            BaseDataEnum::Quote(quote) => QuoteBar::new(
                self.subscription.symbol.copy(),
                quote.bid,
                quote.ask,
                Decimal::zero(),
                time,
                self.subscription.resolution,
                CandleType::CandleStick,
            ),
            _ => vstd::pervasive::unreached(),
        }
    }

    /// The open candle with a candle input folded into it.
    fn merge_candle(&self, candle: Candle, base_data: &BaseDataEnum) -> (n: Candle)
        requires
            is_candle_input(*base_data),
            candle_merge_fits(candle, *base_data, self.tick_size@),
        ensures
            merged_candle(candle, *base_data, self.tick_size@, n),
    {
        let mut candle = candle;
        match base_data {
            BaseDataEnum::Tick(tick) => {
                candle.high = candle.high.max(tick.price);
                candle.low = candle.low.min(tick.price);
                candle.close = tick.price;
                candle.range = round_to_tick_size(decimal_sub(candle.high, candle.low), self.tick_size);
                candle.volume = decimal_add(candle.volume, tick.volume);
            },
            BaseDataEnum::Candle(new_candle) => {
                candle.high = candle.high.max(new_candle.high);
                candle.low = candle.low.min(new_candle.low);
                candle.range = round_to_tick_size(decimal_sub(candle.high, candle.low), self.tick_size);
                candle.close = new_candle.close;
                candle.volume = decimal_add(candle.volume, new_candle.volume);
            },
            BaseDataEnum::TradePrice(price) => {
                candle.high = candle.high.max(price.price);
                candle.low = candle.low.min(price.price);
                candle.range = round_to_tick_size(decimal_sub(candle.high, candle.low), self.tick_size);
                candle.close = price.price;
            },
            _ => {},
        }
        candle
    }

    /// The open quote bar with a quote input folded into it.
    fn merge_quote_bar(&self, quote_bar: QuoteBar, base_data: &BaseDataEnum) -> (n: QuoteBar)
        requires
            quote_merge_fits(quote_bar, *base_data, self.tick_size@),
        ensures
            merged_quote_bar(quote_bar, *base_data, self.tick_size@, n),
    {
        let mut quote_bar = quote_bar;
        match base_data {
            BaseDataEnum::Quote(quote) => {
                quote_bar.ask_high = quote_bar.ask_high.max(quote.ask);
                quote_bar.ask_low = quote_bar.ask_low.min(quote.ask);
                quote_bar.bid_high = quote_bar.bid_high.max(quote.bid);
                quote_bar.bid_low = quote_bar.bid_low.min(quote.bid);
                quote_bar.ask_close = quote.ask;
                quote_bar.bid_close = quote.bid;
            },
            BaseDataEnum::QuoteBar(bar) => {
                quote_bar.ask_high = quote_bar.ask_high.max(bar.ask_high);
                quote_bar.ask_low = quote_bar.ask_low.min(bar.ask_low);
                quote_bar.bid_high = quote_bar.bid_high.max(bar.bid_high);
                quote_bar.bid_low = bar.bid_low.min(bar.bid_low);
                quote_bar.ask_close = bar.ask_close;
                quote_bar.bid_close = bar.bid_close;
                quote_bar.volume = decimal_add(quote_bar.volume, bar.volume);
            },
            _ => {},
        }
        quote_bar.range = round_to_tick_size(
            decimal_sub(quote_bar.ask_high, quote_bar.bid_low),
            self.tick_size,
        );
        quote_bar.spread = round_to_tick_size(
            decimal_sub(quote_bar.ask_close, quote_bar.bid_close),
            self.tick_size,
        );
        quote_bar
    }
    /// Feeds a candle input: opens, closes or extends the open bar.
    fn update_candles(&mut self, base_data: &BaseDataEnum) -> (r: ConsolidatedData)
        requires
            old(self).wf(),
            old(self).update_defined(*base_data),
            is_candle_input(*base_data),
        ensures
            final(self).wf(),
            old(self).update_result(*base_data, &*final(self), r),
    {
        match self.current_data.take() {
            None => {
                let bar = BaseDataEnum::Candle(self.new_candle(base_data));
                self.current_data = Some(bar.copy());
                ConsolidatedData::with_open(bar)
            },
            Some(current_bar) => {
                if base_data.time_created_utc() >= current_bar.time_created_utc() {
                    let mut consolidated_bar = current_bar;
                    consolidated_bar.set_is_closed(true);
                    if let BaseDataEnum::Candle(candle) = &consolidated_bar {
                        self.last_close = Some(candle.close);
                    }
                    proof {
                        lemma_add_keeps_closed(self.history@, self.history.capacity(), consolidated_bar);
                        if self.history.capacity() > 0 {
                            law_window_bounded(self.history@, self.history.capacity(), consolidated_bar);
                        }
                    }
                    self.history.add(consolidated_bar.copy());
                    let new_bar = self.new_candle(base_data);
                    self.current_data = Some(BaseDataEnum::Candle(new_bar.copy()));
                    ConsolidatedData::with_closed(BaseDataEnum::Candle(new_bar), consolidated_bar)
                } else {
                    match current_bar {
                        BaseDataEnum::Candle(candle) => {
                            let merged = self.merge_candle(candle, base_data);
                            self.current_data = Some(BaseDataEnum::Candle(merged.copy()));
                            ConsolidatedData::with_open(BaseDataEnum::Candle(merged))
                        },
                        _ => vstd::pervasive::unreached(),
                    }
                }
            },
        }
    }

    /// Feeds a quote input: opens, closes or extends the open bar.
    fn update_quote_bars(&mut self, base_data: &BaseDataEnum) -> (r: ConsolidatedData)
        requires
            old(self).wf(),
            old(self).update_defined(*base_data),
            is_quote_input(*base_data),
        ensures
            final(self).wf(),
            old(self).update_result(*base_data, &*final(self), r),
    {
        match self.current_data.take() {
            None => {
                let bar = BaseDataEnum::QuoteBar(self.new_quote_bar(base_data));
                self.current_data = Some(bar.copy());
                ConsolidatedData::with_open(bar)
            },
            Some(current_bar) => {
                if base_data.time_created_utc() >= current_bar.time_created_utc() {
                    let mut consolidated_bar = current_bar;
                    consolidated_bar.set_is_closed(true);
                    proof {
                        lemma_add_keeps_closed(self.history@, self.history.capacity(), consolidated_bar);
                        if self.history.capacity() > 0 {
                            law_window_bounded(self.history@, self.history.capacity(), consolidated_bar);
                        }
                    }
                    self.history.add(consolidated_bar.copy());
                    let new_bar = self.new_quote_bar(base_data);
                    if let BaseDataEnum::QuoteBar(quote_bar) = &consolidated_bar {
                        self.last_ask_close = Some(quote_bar.ask_close);
                        self.last_bid_close = Some(quote_bar.bid_close);
                    }
                    self.current_data = Some(BaseDataEnum::QuoteBar(new_bar.copy()));
                    ConsolidatedData::with_closed(BaseDataEnum::QuoteBar(new_bar), consolidated_bar)
                } else {
                    match current_bar {
                        BaseDataEnum::QuoteBar(quote_bar) => {
                            let merged = self.merge_quote_bar(quote_bar, base_data);
                            self.current_data = Some(BaseDataEnum::QuoteBar(merged.copy()));
                            ConsolidatedData::with_open(BaseDataEnum::QuoteBar(merged))
                        },
                        _ => vstd::pervasive::unreached(),
                    }
                }
            },
        }
    }

    /// Feeds one data point: ticks, trade prices and candles build candles, quotes and
    /// quote bars build quote bars. Returns the open bar, and the bar just closed if the
    /// data point completed it.
    pub fn update(&mut self, base_data: &BaseDataEnum) -> (r: ConsolidatedData)
        requires
            old(self).wf(),
            old(self).update_defined(*base_data),
        ensures
            final(self).wf(),
            old(self).update_result(*base_data, &*final(self), r),
    {
        match base_data.base_data_type() {
            BaseDataType::Ticks => self.update_candles(base_data),
            BaseDataType::Quotes => self.update_quote_bars(base_data),
            BaseDataType::TradePrices => self.update_candles(base_data),
            BaseDataType::QuoteBars => self.update_quote_bars(base_data),
            BaseDataType::Candles => self.update_candles(base_data),
            BaseDataType::Fundamentals => vstd::pervasive::unreached(),
        }
    }

    /// Whether [`CandleStickConsolidator::update`] is defined for `data`.
    pub fn update_is_defined(&self, data: &BaseDataEnum) -> (r: bool)
        requires
            self.wf(),
        ensures
            r == self.update_defined(*data),
    {
        if !data.time_created_representable() {
            return false;
        }
        match &self.current_data {
            None => opens_is_defined(&self.subscription, data),
            Some(bar) => {
                if data.time_created_utc() >= bar.time_created_utc() {
                    opens_is_defined(&self.subscription, data)
                } else {
                    merge_is_defined(bar, data, self.tick_size)
                }
            },
        }
    }

    /// Feeds `data` as [`CandleStickConsolidator::update`] does where that is defined;
    /// otherwise returns `None` and leaves the consolidator as it was.
    pub fn try_update(&mut self, data: &BaseDataEnum) -> (r: Option<ConsolidatedData>)
        requires
            old(self).wf(),
        ensures
            final(self).wf(),
            (r is Some) == old(self).update_defined(*data),
            r matches Some(c) ==> old(self).update_result(*data, &*final(self), c),
            r is None ==> *final(self) == *old(self),
    {
        if self.update_is_defined(data) {
            Some(self.update(data))
        } else {
            None
        }
    }

    /// What `update_time(time)` does, taking the consolidator to `next` and returning `r`:
    /// with fill-forward due, a bar carrying the last close forward is opened first; then
    /// the open bar is closed and returned once `time` reaches its close time. The settings,
    /// the history and the last closes stay.
    pub open spec fn time_update_result(&self, time: int, next: &Self, r: Option<BaseDataEnum>) -> bool {
        &&& self.same_settings(next)
        &&& next.history_view() == self.history_view()
        &&& next.spec_last_close() == self.spec_last_close()
        &&& next.spec_last_quote_closes() == self.spec_last_quote_closes()
        &&& self.fills_forward() ==> exists|bar: BaseDataEnum|
            #[trigger] self.forward_bar(time, bar) && Self::closes_at(bar, time, next, r)
        &&& !self.fills_forward() ==> match self.current_bar() {
            Some(bar) => Self::closes_at(bar, time, next, r),
            None => r is None && next.current_bar() is None,
        }
    }

    /// Advances the clock to `time` (UTC nanoseconds). With fill-forward on and no bar
    /// open, a bar carrying the last close forward is opened first. The open bar is closed
    /// and returned once `time` reaches its close time. Closed bars returned here are not
    /// added to the history.
    pub fn update_time(&mut self, time: i64) -> (r: Option<BaseDataEnum>)
        requires
            old(self).wf(),
            old(self).fills_forward() ==> old(self).forward_defined(time as int),
        ensures
            final(self).wf(),
            old(self).time_update_result(time as int, &*final(self), r),
    {
        if self.fill_forward && self.current_data.is_none() {
            match self.subscription.base_data_type {
                BaseDataType::QuoteBars => {
                    if let (Some(last_bid_close), Some(last_ask_close)) = (
                        self.last_bid_close,
                        self.last_ask_close,
                    ) {
                        let open = open_time(&self.subscription, time);
                        let spread = round_to_tick_size(
                            decimal_sub(last_ask_close, last_bid_close),
                            self.tick_size,
                        );
                        self.current_data = Some(
                            BaseDataEnum::QuoteBar(
                                QuoteBar {
                                    symbol: self.subscription.symbol.copy(),
                                    ask_open: last_ask_close,
                                    ask_high: last_ask_close,
                                    ask_low: last_ask_close,
                                    ask_close: last_ask_close,
                                    bid_open: last_bid_close,
                                    bid_high: last_bid_close,
                                    bid_low: last_bid_close,
                                    bid_close: last_bid_close,
                                    volume: Decimal::zero(),
                                    time: open,
                                    resolution: self.subscription.resolution,
                                    is_closed: false,
                                    range: Decimal::zero(),
                                    candle_type: CandleType::CandleStick,
                                    spread,
                                },
                            ),
                        );
                    }
                },
                BaseDataType::Candles => {
                    if let Some(last_close) = self.last_close {
                        let open = open_time(&self.subscription, time);
                        self.current_data = Some(
                            BaseDataEnum::Candle(
                                Candle {
                                    symbol: self.subscription.symbol.copy(),
                                    open: last_close,
                                    high: last_close,
                                    low: last_close,
                                    close: last_close,
                                    volume: Decimal::zero(),
                                    time: open,
                                    resolution: self.subscription.resolution,
                                    is_closed: false,
                                    range: Decimal::zero(),
                                    candle_type: CandleType::CandleStick,
                                },
                            ),
                        );
                    }
                },
                _ => {
                    return None;
                },
            }
        }
        let ghost filled = self.current_data;
        let closes = match &self.current_data {
            Some(bar) => time >= bar.time_created_utc(),
            None => false,
        };
        if closes {
            let mut return_data = self.current_data.take().unwrap();
            return_data.set_is_closed(true);
            proof {
                if old(self).fills_forward() {
                    assert(old(self).forward_bar(time as int, filled->0));
                }
            }
            return Some(return_data);
        }
        proof {
            if old(self).fills_forward() {
                assert(old(self).forward_bar(time as int, filled->0));
            }
        }
        None
    }

    /// A copy of the closed bars kept, latest first.
    pub fn history(&self) -> (r: RollingWindow<BaseDataEnum>)
        ensures
            r@ == self.history_view(),
            r.capacity() == self.history_capacity(),
    {
        self.history.copy()
    }

    /// A copy of the closed bar `index` places back from the latest, if there is one.
    pub fn index(&self, index: usize) -> (r: Option<BaseDataEnum>)
        ensures
            r == (if index < self.history_view().len() {
                Some(self.history_view()[index as int])
            } else {
                None::<BaseDataEnum>
            }),
    {
        match self.history.get(index) {
            Some(data) => Some(data.copy()),
            None => None,
        }
    }

    /// A copy of the bar being built, if any.
    pub fn current(&self) -> (r: Option<BaseDataEnum>)
        ensures
            r == self.current_bar(),
    {
        match &self.current_data {
            Some(data) => Some(data.copy()),
            None => None,
        }
    }

    /// The subscription the consolidator builds bars for.
    pub fn subscription(&self) -> (r: &DataSubscription)
        ensures
            *r == self.spec_subscription(),
    {
        &self.subscription
    }

    /// How many closed bars are kept.
    pub fn history_to_retain(&self) -> (r: usize)
        ensures
            r == self.history_capacity(),
    {
        self.history.number()
    }
}

/// The volume a data point carries: ticks, candles and quote bars have one; trade
/// prices and quotes carry none.
pub open spec fn carried_volume(data: BaseDataEnum) -> Option<Decimal> {
    match data {
        BaseDataEnum::Tick(t) => Some(t.volume),
        BaseDataEnum::Candle(k) => Some(k.volume),
        BaseDataEnum::QuoteBar(k) => Some(k.volume),
        _ => None,
    }
}

/// The volume of a consolidated bar (candles and quote bars).
pub open spec fn bar_volume(bar: BaseDataEnum) -> Decimal {
    match bar {
        BaseDataEnum::Candle(c) => c.volume,
        BaseDataEnum::QuoteBar(b) => b.volume,
        _ => arbitrary(),
    }
}

/// The highest and lowest price a candle input reaches, and the price it ends at.
pub open spec fn candle_reach(data: BaseDataEnum) -> (DecimalParts, DecimalParts, Decimal) {
    match data {
        BaseDataEnum::Tick(t) => (t.price@, t.price@, t.price),
        BaseDataEnum::TradePrice(p) => (p.price@, p.price@, p.price),
        BaseDataEnum::Candle(k) => (k.high@, k.low@, k.close),
        _ => arbitrary(),
    }
}

/// Folding a data point into the open bar adds the volume the data carries to the bar's
/// volume and leaves it as it was for data that carries none; so a bar's volume is the sum
/// of the volumes of the data folded into it, starting from the volume of the data that
/// opened it (see `law_opening_bar_takes_the_datas_volume`).
pub proof fn law_folding_adds_the_datas_volume(
    s: CandleStickConsolidator,
    data: BaseDataEnum,
    next: CandleStickConsolidator,
    r: ConsolidatedData,
)
    requires
        s.update_defined(data),
        s.update_result(data, &next, r),
        s.current_bar() is Some,
        data.spec_time_created_utc() < s.current_bar()->0.spec_time_created_utc(),
    ensures
        r.closed_data is None,
        match carried_volume(data) {
            Some(v) => bar_volume(r.open_data)@ == decimal_sum(bar_volume(s.current_bar()->0)@, v@),
            None => bar_volume(r.open_data) == bar_volume(s.current_bar()->0),
        },
{
}

/// A bar opened by a data point starts with the volume that data carries, or with none.
pub proof fn law_opening_bar_takes_the_datas_volume(
    s: CandleStickConsolidator,
    data: BaseDataEnum,
    next: CandleStickConsolidator,
    r: ConsolidatedData,
)
    requires
        s.update_result(data, &next, r),
        s.current_bar() is None || data.spec_time_created_utc() >= s.current_bar()->0.spec_time_created_utc(),
    ensures
        match carried_volume(data) {
            Some(v) => bar_volume(r.open_data) == v,
            None => bar_volume(r.open_data)@ == zero_parts(),
        },
{
}

/// Folding a candle input into the open candle keeps its symbol, open and open time,
/// takes the data's last price as the close, and widens the high and low to the data's.
pub proof fn law_folding_into_a_candle(
    s: CandleStickConsolidator,
    data: BaseDataEnum,
    next: CandleStickConsolidator,
    r: ConsolidatedData,
)
    requires
        s.update_defined(data),
        s.update_result(data, &next, r),
        s.current_bar() matches Some(BaseDataEnum::Candle(_)),
        data.spec_time_created_utc() < s.current_bar()->0.spec_time_created_utc(),
    ensures
        ({
            let c = s.current_bar()->0->Candle_0;
            let (high, low, close) = candle_reach(data);
            r.open_data matches BaseDataEnum::Candle(n) && n.symbol == c.symbol && n.open == c.open
                && n.time == c.time && n.close == close && n.high@ == spec_max(
                c.high@,
                high,
            ) && n.low@ == spec_min(c.low@, low)
        }),
{
}

/// The price a candle input opens at.
pub open spec fn candle_open_price(data: BaseDataEnum) -> Decimal {
    match data {
        BaseDataEnum::Tick(t) => t.price,
        BaseDataEnum::TradePrice(p) => p.price,
        BaseDataEnum::Candle(k) => k.open,
        _ => arbitrary(),
    }
}

/// A candle opened by a candle input starts at the open time of the subscription's bar
/// containing the data's time, is not closed, carries the subscription's resolution, opens
/// at the data's open price, and reaches exactly the data's high and low and ends at its
/// close.
pub proof fn law_opened_candle_starts_from_the_data(
    s: CandleStickConsolidator,
    data: BaseDataEnum,
    next: CandleStickConsolidator,
    r: ConsolidatedData,
)
    requires
        s.update_result(data, &next, r),
        s.current_bar() is None || data.spec_time_created_utc() >= s.current_bar()->0.spec_time_created_utc(),
        is_candle_input(data),
    ensures
        r.open_data matches BaseDataEnum::Candle(c) && c.time == spec_open_time(
            s.spec_subscription().resolution,
            data.spec_time_utc(),
        ) as i64 && !c.is_closed && c.resolution == s.spec_subscription().resolution && c.open
            == candle_open_price(data) && c.high@ == candle_reach(data).0 && c.low@ == candle_reach(
            data,
        ).1 && c.close == candle_reach(data).2,
{
}

/// Data that completes at or after the open bar's close time closes that bar: it is
/// returned marked closed and becomes the newest bar of the history, and a new bar opens.
/// Data before that time closes nothing and leaves the history as it was.
pub proof fn law_bars_close_at_their_close_time(
    s: CandleStickConsolidator,
    data: BaseDataEnum,
    next: CandleStickConsolidator,
    r: ConsolidatedData,
)
    requires
        s.wf(),
        s.update_result(data, &next, r),
        s.current_bar() is Some,
    ensures
        data.spec_time_created_utc() >= s.current_bar()->0.spec_time_created_utc() ==> {
            &&& r.closed_data matches Some(closed) && closed.is_closed_bar() && closed == match s.current_bar()->0 {
                BaseDataEnum::Candle(c) => BaseDataEnum::Candle(Candle { is_closed: true, ..c }),
                BaseDataEnum::QuoteBar(b) => BaseDataEnum::QuoteBar(QuoteBar { is_closed: true, ..b }),
                other => other,
            }
            &&& next.history_view().len() > 0
            &&& next.history_view()[0] == r.closed_data->0
        },
        data.spec_time_created_utc() < s.current_bar()->0.spec_time_created_utc() ==> {
            &&& r.closed_data is None
            &&& next.history_view() == s.history_view()
        },
        next.current_bar() == Some(r.open_data),
{
}

} // verus!
