//! Tick-count consolidation: a candle closes after a fixed number of ticks.
use crate::consolidators::consolidator_enum::ConsolidatedData;
use crate::decimal::{
    checked_difference, checked_sum, decimal_add, decimal_difference, decimal_sub, decimal_sum, difference_fits, spec_max, spec_min,
    sum_fits, zero_parts, Decimal, DecimalParts,
};
use crate::helpers::decimal_calculators::{
    checked_round_to_tick_size, round_to_tick_size, spec_round_to_tick_size, tick_rounding_fits,
};
use crate::rolling_window::{
    all_closed_bars, lemma_add_keeps_closed, law_window_bounded, spec_window_add, RollingWindow,
};
use crate::standardized_types::{
    BaseDataEnum, BaseDataType, Candle, DataSubscription, Price, Resolution, Tick,
};
use vstd::prelude::*;

verus! {

/// `c` is the empty candle a count consolidator starts each bar from: every price and the
/// volume zero, no time, the tick resolution and the subscription's candle type.
pub open spec fn fresh_count_candle(sub: DataSubscription, number: u64, c: Candle) -> bool {
    &&& c == (Candle {
        symbol: sub.symbol,
        high: c.open,
        low: c.open,
        open: c.open,
        close: c.open,
        volume: c.volume,
        range: c.range,
        time: 0,
        is_closed: false,
        resolution: Resolution::Ticks(number),
        candle_type: sub.candle_type->0,
    })
    &&& c.open@ == zero_parts()
    &&& c.volume@ == zero_parts()
    &&& c.range@ == zero_parts()
}

/// The candle a tick is folded into: the open candle, or, for the first tick of a bar,
/// the open candle restarted at the tick's symbol, time, price and volume.
pub open spec fn count_base(c: Candle, counter: u64, t: Tick) -> Candle {
    if counter == 0 {
        Candle {
            symbol: t.symbol,
            time: t.time,
            open: t.price,
            volume: t.volume,
            high: t.price,
            low: t.price,
            ..c
        }
    } else {
        c
    }
}

/// `n` is `base` with the tick folded in: the extremes widen to the price, the close is
/// the price, the range is `high - low` rounded to the tick size, and the tick's volume is
/// added. (On the first tick of a bar the volume, already set to the tick's, is added to
/// once more.)
pub open spec fn count_merged(base: Candle, t: Tick, tick_size: DecimalParts, n: Candle) -> bool {
    &&& n == (Candle {
        high: n.high,
        low: n.low,
        range: n.range,
        close: t.price,
        volume: n.volume,
        ..base
    })
    &&& n.high@ == spec_max(base.high@, t.price@)
    &&& n.low@ == spec_min(base.low@, t.price@)
    &&& n.range@ == spec_round_to_tick_size(decimal_difference(n.high@, n.low@), tick_size)
    &&& n.volume@ == decimal_sum(base.volume@, t.volume@)
}

/// Folding the tick into `base` stays within the decimal range.
pub open spec fn count_merge_fits(base: Candle, t: Tick, tick_size: DecimalParts) -> bool {
    let high = spec_max(base.high@, t.price@);
    let low = spec_min(base.low@, t.price@);
    &&& difference_fits(high, low)
    &&& tick_rounding_fits(decimal_difference(high, low), tick_size)
    &&& sum_fits(base.volume@, t.volume@)
}

/// Produces a candle after a fixed number of ticks have been added, keeping a history of
/// the closed candles. Supports ticks only.
pub struct CountConsolidator {
    number: u64,
    counter: u64,
    current_data: Candle,
    subscription: DataSubscription,
    history: RollingWindow<BaseDataEnum>,
    tick_size: Price,
}

impl CountConsolidator {
    /// How many ticks make a candle.
    pub closed spec fn spec_number(&self) -> u64 {
        self.number
    }

    /// How many ticks the open candle holds.
    pub closed spec fn spec_counter(&self) -> u64 {
        self.counter
    }

    /// The candle being built.
    pub closed spec fn current_candle(&self) -> Candle {
        self.current_data
    }

    pub closed spec fn spec_subscription(&self) -> DataSubscription {
        self.subscription
    }

    /// The closed candles kept, latest first.
    pub closed spec fn history_view(&self) -> Seq<BaseDataEnum> {
        self.history@
    }

    /// How many closed candles are kept.
    pub closed spec fn history_capacity(&self) -> nat {
        self.history.capacity()
    }

    pub closed spec fn spec_tick_size(&self) -> Decimal {
        self.tick_size
    }

    /// The counter stays below the number of ticks per candle (when that is not zero),
    /// the candle being built is open, the subscription names a candle type, every candle
    /// in the history is marked closed, and a history with a capacity holds no more than it.
    pub open spec fn wf(&self) -> bool {
        &&& (self.spec_number() > 0 ==> self.spec_counter() < self.spec_number())
        &&& !self.current_candle().is_closed
        &&& self.spec_subscription().candle_type is Some
        &&& all_closed_bars(self.history_view())
        &&& (self.history_capacity() > 0 ==> self.history_view().len() <= self.history_capacity())
    }

    /// `update` is defined for `t`: the counter can grow and the tick folds into the open
    /// candle within the decimal range.
    pub open spec fn update_defined(&self, t: Tick) -> bool {
        &&& self.spec_counter() < u64::MAX
        &&& count_merge_fits(
            count_base(self.current_candle(), self.spec_counter(), t),
            t,
            self.spec_tick_size()@,
        )
    }

    /// What `update(data)` does with a tick, taking the consolidator to `next` and
    /// returning `r`: the tick is folded into the open candle (restarted for the first
    /// tick of a bar); when that completes the count the candle is closed, returned and
    /// added to the history, and an empty candle is started; the open candle is returned.
    pub open spec fn update_result(&self, data: BaseDataEnum, next: &Self, r: ConsolidatedData) -> bool {
        let t = data->Tick_0;
        let base = count_base(self.current_candle(), self.spec_counter(), t);
        &&& next.spec_subscription() == self.spec_subscription()
        &&& next.spec_number() == self.spec_number()
        &&& next.spec_tick_size() == self.spec_tick_size()
        &&& next.history_capacity() == self.history_capacity()
        &&& r.open_data == BaseDataEnum::Candle(next.current_candle())
        &&& if self.spec_counter() + 1 == self.spec_number() {
            &&& r.closed_data matches Some(BaseDataEnum::Candle(k)) && k.is_closed
                && count_merged(base, t, self.spec_tick_size()@, Candle { is_closed: false, ..k })
            &&& next.spec_counter() == 0
            &&& fresh_count_candle(self.spec_subscription(), self.spec_number(), next.current_candle())
            &&& next.history_view() == spec_window_add(
                self.history_view(),
                self.history_capacity(),
                r.closed_data->0,
            )
        } else {
            &&& r.closed_data is None
            &&& next.spec_counter() == self.spec_counter() + 1
            &&& count_merged(base, t, self.spec_tick_size()@, next.current_candle())
            &&& next.history_view() == self.history_view()
        }
    }

    /// A consolidator for a tick-count `subscription` that keeps `history_to_retain` closed
    /// candles and rounds ranges to `tick_size`. Resolutions other than a tick count and
    /// base data other than ticks are refused.
    pub fn new(subscription: DataSubscription, history_to_retain: usize, tick_size: Price) -> (r:
        Result<Self, String>)
        requires
            subscription.resolution is Ticks && subscription.base_data_type == BaseDataType::Ticks
                ==> subscription.candle_type is Some,
        ensures
            r is Ok <==> (subscription.resolution is Ticks && subscription.base_data_type
                == BaseDataType::Ticks),
            r matches Ok(c) ==> {
                &&& c.wf()
                &&& c.spec_subscription() == subscription
                &&& c.spec_number() == subscription.resolution->Ticks_0
                &&& c.spec_counter() == 0
                &&& fresh_count_candle(subscription, c.spec_number(), c.current_candle())
                &&& c.history_view() == Seq::<BaseDataEnum>::empty()
                &&& c.history_capacity() == history_to_retain
                &&& c.spec_tick_size() == tick_size
            },
    {
        let number = match subscription.resolution {
            Resolution::Ticks(num) => num,
            _ => {
                return Err(String::from_str("Invalid resolution for CountConsolidator"));
            },
        };
        if subscription.base_data_type != BaseDataType::Ticks {
            return Err(String::from_str("Invalid base data type for CountConsolidator"));
        }
        let current_data = Candle::new(
            subscription.symbol.copy(),
            Decimal::zero(),
            Decimal::zero(),
            0,
            Resolution::Ticks(number),
            subscription.candle_type.unwrap(),
        );
        Ok(
            CountConsolidator {
                number,
                counter: 0,
                current_data,
                subscription,
                history: RollingWindow::new(history_to_retain),
                tick_size,
            },
        )
    }

    /// Adds a tick to the open candle; when it completes the count, the candle is closed,
    /// returned and added to the history, and an empty candle is started.
    pub fn update(&mut self, base_data: &BaseDataEnum) -> (r: ConsolidatedData)
        requires
            old(self).wf(),
            *base_data matches BaseDataEnum::Tick(t) && old(self).update_defined(t),
        ensures
            final(self).wf(),
            old(self).update_result(*base_data, &*final(self), r),
    {
        match base_data {
            BaseDataEnum::Tick(tick) => {
                if self.counter == 0 {
                    self.current_data.symbol = tick.symbol.copy();
                    self.current_data.time = tick.time;
                    self.current_data.open = tick.price;
                    self.current_data.volume = tick.volume;
                    self.current_data.high = tick.price;
                    self.current_data.low = tick.price;
                }
                self.counter = self.counter + 1;
                self.current_data.high = self.current_data.high.max(tick.price);
                self.current_data.low = self.current_data.low.min(tick.price);
                self.current_data.range = round_to_tick_size(
                    decimal_sub(self.current_data.high, self.current_data.low),
                    self.tick_size,
                );
                self.current_data.close = tick.price;
                self.current_data.volume = decimal_add(self.current_data.volume, tick.volume);
                if self.counter == self.number {
                    let mut consolidated_candle = self.current_data.copy();
                    consolidated_candle.is_closed = true;
                    self.counter = 0;
                    let consolidated_data = BaseDataEnum::Candle(consolidated_candle);
                    proof {
                        lemma_add_keeps_closed(self.history@, self.history.capacity(), consolidated_data);
                        if self.history.capacity() > 0 {
                            law_window_bounded(self.history@, self.history.capacity(), consolidated_data);
                        }
                    }
                    self.history.add(consolidated_data.copy());
                    self.current_data = Candle::new(
                        self.subscription.symbol.copy(),
                        Decimal::zero(),
                        Decimal::zero(),
                        0,
                        Resolution::Ticks(self.number),
                        self.subscription.candle_type.unwrap(),
                    );
                    ConsolidatedData::with_closed(
                        BaseDataEnum::Candle(self.current_data.copy()),
                        consolidated_data,
                    )
                } else {
                    ConsolidatedData::with_open(BaseDataEnum::Candle(self.current_data.copy()))
                }
            },
            _ => vstd::pervasive::unreached(),
        }
    }

    /// Whether [`CountConsolidator::update`] is defined for `data`: a tick whose folding
    /// stays within the counter and the decimal range.
    pub fn update_is_defined(&self, data: &BaseDataEnum) -> (r: bool)
        ensures
            r == (*data matches BaseDataEnum::Tick(t) && self.update_defined(t)),
    {
        match data {
            BaseDataEnum::Tick(tick) => {
                if self.counter == u64::MAX {
                    return false;
                }
                let (high, low, volume) = if self.counter == 0 {
                    (tick.price, tick.price, tick.volume)
                } else {
                    (self.current_data.high, self.current_data.low, self.current_data.volume)
                };
                let high = high.max(tick.price);
                let low = low.min(tick.price);
                match checked_difference(high, low) {
                    Some(range) => checked_round_to_tick_size(range, self.tick_size).is_some()
                        && checked_sum(volume, tick.volume).is_some(),
                    None => false,
                }
            },
            _ => false,
        }
    }

    /// Adds `data` as [`CountConsolidator::update`] does where that is defined; otherwise
    /// returns `None` and leaves the consolidator as it was.
    pub fn try_update(&mut self, data: &BaseDataEnum) -> (r: Option<ConsolidatedData>)
        requires
            old(self).wf(),
        ensures
            final(self).wf(),
            (r is Some) == (*data matches BaseDataEnum::Tick(t) && old(self).update_defined(t)),
            r matches Some(c) ==> old(self).update_result(*data, &*final(self), c),
            r is None ==> *final(self) == *old(self),
    {
        if self.update_is_defined(data) {
            Some(self.update(data))
        } else {
            None
        }
    }

    /// A copy of the closed candles kept, latest first.
    pub fn history(&self) -> (r: RollingWindow<BaseDataEnum>)
        ensures
            r@ == self.history_view(),
            r.capacity() == self.history_capacity(),
    {
        self.history.copy()
    }

    /// A copy of the closed candle `index` places back from the latest, if there is one.
    pub fn index(&self, index: usize) -> (r: Option<BaseDataEnum>)
        ensures
            r == (if index < self.history_view().len() {
                Some(self.history_view()[index as int])
            } else {
                None::<BaseDataEnum>
            }),
    {
        match self.history.get(index) {
            Some(data) => Some(data.copy()),
            None => None,
        }
    }

    /// A copy of the candle being built.
    pub fn current(&self) -> (r: Option<BaseDataEnum>)
        ensures
            r == Some(BaseDataEnum::Candle(self.current_candle())),
    {
        Some(BaseDataEnum::Candle(self.current_data.copy()))
    }

    /// The subscription the consolidator builds candles for.
    pub fn subscription(&self) -> (r: &DataSubscription)
        ensures
            *r == self.spec_subscription(),
    {
        &self.subscription
    }

    /// How many closed candles are kept.
    pub fn history_to_retain(&self) -> (r: usize)
        ensures
            r == self.history_capacity(),
    {
        self.history.number()
    }
}

} // verus!
