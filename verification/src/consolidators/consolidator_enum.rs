//! The result of feeding one data point to a consolidator.
use crate::consolidators::candlesticks::CandleStickConsolidator;
use crate::consolidators::count::{fresh_count_candle, CountConsolidator};
use crate::consolidators::heikinashi::HeikinAshiConsolidator;
use crate::decimal::zero_parts;
use crate::rolling_window::all_closed_bars;
use crate::standardized_types::{
    BaseDataEnum, BaseDataType, CandleType, DataSubscription, Price, Resolution,
};
use vstd::prelude::*;

verus! {

/// The bar still being built, and the bar that was just closed, if one was.
#[derive(Debug, PartialEq, Eq)]
pub struct ConsolidatedData {
    pub open_data: BaseDataEnum,
    pub closed_data: Option<BaseDataEnum>,
}

impl ConsolidatedData {
    /// Only an open bar.
    pub fn with_open(open_data: BaseDataEnum) -> (r: ConsolidatedData)
        ensures
            r == (ConsolidatedData { open_data, closed_data: None }),
    {
        ConsolidatedData { open_data, closed_data: None }
    }

    /// A newly opened bar and the bar it replaced.
    pub fn with_closed(open_data: BaseDataEnum, closed_data: BaseDataEnum) -> (r: ConsolidatedData)
        ensures
            r == (ConsolidatedData { open_data, closed_data: Some(closed_data) }),
    {
        ConsolidatedData { open_data, closed_data: Some(closed_data) }
    }
}

/// A consolidator of any kind.
pub enum ConsolidatorEnum {
    Count(CountConsolidator),
    CandleStickConsolidator(CandleStickConsolidator),
    HeikinAshi(HeikinAshiConsolidator),
}

/// A consolidator can be created for `subscription`: tick counts need ticks and a candle
/// type; time consolidation needs a candle type that is not Renko (none, when warming
/// up, means candlesticks) and data other than fundamentals.
pub open spec fn creation_defined(is_warmed_up: bool, subscription: DataSubscription) -> bool {
    if subscription.resolution is Ticks {
        subscription.base_data_type == BaseDataType::Ticks && subscription.candle_type is Some
    } else {
        &&& subscription.base_data_type != BaseDataType::Fundamentals
        &&& match subscription.candle_type {
            Some(CandleType::Renko) => false,
            Some(_) => true,
            None => is_warmed_up,
        }
    }
}

impl ConsolidatorEnum {
    /// The consolidator inside is well formed.
    pub open spec fn wf(&self) -> bool {
        match self {
            ConsolidatorEnum::Count(c) => c.wf(),
            ConsolidatorEnum::CandleStickConsolidator(c) => c.wf(),
            ConsolidatorEnum::HeikinAshi(c) => c.wf(),
        }
    }

    /// The subscription of the consolidator inside.
    pub open spec fn spec_subscription(&self) -> DataSubscription {
        match self {
            ConsolidatorEnum::Count(c) => c.spec_subscription(),
            ConsolidatorEnum::CandleStickConsolidator(c) => c.spec_subscription(),
            ConsolidatorEnum::HeikinAshi(c) => c.spec_subscription(),
        }
    }

    /// The closed bars the consolidator inside keeps, latest first.
    pub open spec fn history_view(&self) -> Seq<BaseDataEnum> {
        match self {
            ConsolidatorEnum::Count(c) => c.history_view(),
            ConsolidatorEnum::CandleStickConsolidator(c) => c.history_view(),
            ConsolidatorEnum::HeikinAshi(c) => c.history_view(),
        }
    }

    /// How many closed bars the consolidator inside keeps.
    pub open spec fn history_capacity(&self) -> nat {
        match self {
            ConsolidatorEnum::Count(c) => c.history_capacity(),
            ConsolidatorEnum::CandleStickConsolidator(c) => c.history_capacity(),
            ConsolidatorEnum::HeikinAshi(c) => c.history_capacity(),
        }
    }

    /// The consolidator for `subscription`: a tick count for tick resolutions, otherwise
    /// by candle type a Heikin-Ashi or candlestick consolidator (candlesticks when no type
    /// is given and the consolidator is warmed up), keeping `history_to_retain` closed bars.
    pub fn create_consolidator(
        is_warmed_up: bool,
        subscription: DataSubscription,
        history_to_retain: usize,
        tick_size: Price,
        fill_forward: bool,
    ) -> (r: ConsolidatorEnum)
        requires
            creation_defined(is_warmed_up, subscription),
        ensures
            r.wf(),
            r.spec_subscription() == subscription,
            r.history_view() == Seq::<BaseDataEnum>::empty(),
            r.history_capacity() == history_to_retain,
            subscription.resolution is Ticks ==> (r matches ConsolidatorEnum::Count(c)
                && c.spec_counter() == 0 && c.spec_tick_size() == tick_size && fresh_count_candle(
                subscription,
                c.spec_number(),
                c.current_candle(),
            )),
            !(subscription.resolution is Ticks) && subscription.candle_type == Some(
                CandleType::HeikinAshi,
            ) ==> (r matches ConsolidatorEnum::HeikinAshi(c) && c.current_bar() is None
                && c.spec_tick_size() == tick_size && c.spec_previous().0@ == zero_parts()
                && c.spec_previous().1@ == zero_parts()),
            !(subscription.resolution is Ticks) && subscription.candle_type != Some(
                CandleType::HeikinAshi,
            ) ==> (r matches ConsolidatorEnum::CandleStickConsolidator(c) && c.current_bar() is None
                && c.spec_tick_size() == tick_size && c.spec_fill_forward() == fill_forward
                && c.spec_last_close() is None),
    {
        let is_tick = match subscription.resolution {
            Resolution::Ticks(_) => true,
            _ => false,
        };
        if is_tick {
            return match CountConsolidator::new(subscription, history_to_retain, tick_size) {
                Ok(c) => ConsolidatorEnum::Count(c),
                Err(_) => vstd::pervasive::unreached(),
            };
        }
        let is_heikin_ashi = match subscription.candle_type {
            Some(CandleType::HeikinAshi) => true,
            _ => false,
        };
        if is_heikin_ashi {
            match HeikinAshiConsolidator::new(subscription, history_to_retain, tick_size) {
                Ok(c) => ConsolidatorEnum::HeikinAshi(c),
                Err(_) => vstd::pervasive::unreached(),
            }
        } else {
            match CandleStickConsolidator::new(subscription, history_to_retain, fill_forward, tick_size) {
                Ok(c) => ConsolidatorEnum::CandleStickConsolidator(c),
                Err(_) => vstd::pervasive::unreached(),
            }
        }
    }

    /// `update(data)` is defined for the consolidator inside.
    pub open spec fn update_defined(&self, data: BaseDataEnum) -> bool {
        match self {
            ConsolidatorEnum::Count(c) => data matches BaseDataEnum::Tick(t) && c.update_defined(t),
            ConsolidatorEnum::CandleStickConsolidator(c) => c.update_defined(data),
            ConsolidatorEnum::HeikinAshi(c) => c.update_defined(data),
        }
    }

    /// What `update(data)` does: what the consolidator inside does, which stays of the same
    /// kind.
    pub open spec fn update_result(&self, data: BaseDataEnum, next: &Self, r: ConsolidatedData) -> bool {
        match (self, next) {
            (ConsolidatorEnum::Count(c), ConsolidatorEnum::Count(n)) => c.update_result(data, n, r),
            (
                ConsolidatorEnum::CandleStickConsolidator(c),
                ConsolidatorEnum::CandleStickConsolidator(n),
            ) => c.update_result(data, n, r),
            (ConsolidatorEnum::HeikinAshi(c), ConsolidatorEnum::HeikinAshi(n)) => c.update_result(
                data,
                n,
                r,
            ),
            _ => false,
        }
    }

    /// Feeds one data point to the consolidator.
    pub fn update(&mut self, base_data: &BaseDataEnum) -> (r: ConsolidatedData)
        requires
            old(self).wf(),
            old(self).update_defined(*base_data),
        ensures
            final(self).wf(),
            old(self).update_result(*base_data, &*final(self), r),
    {
        match self {
            ConsolidatorEnum::Count(count_consolidator) => count_consolidator.update(base_data),
            ConsolidatorEnum::CandleStickConsolidator(time_consolidator) => time_consolidator.update(
                base_data,
            ),
            ConsolidatorEnum::HeikinAshi(heikin_ashi_consolidator) => heikin_ashi_consolidator.update(
                base_data,
            ),
        }
    }

    /// Whether [`ConsolidatorEnum::update`] is defined for `data`.
    pub fn update_is_defined(&self, data: &BaseDataEnum) -> (r: bool)
        requires
            self.wf(),
        ensures
            r == self.update_defined(*data),
    {
        match self {
            ConsolidatorEnum::Count(c) => c.update_is_defined(data),
            ConsolidatorEnum::CandleStickConsolidator(c) => c.update_is_defined(data),
            ConsolidatorEnum::HeikinAshi(c) => c.update_is_defined(data),
        }
    }

    /// Feeds `data` as [`ConsolidatorEnum::update`] does where that is defined; otherwise
    /// returns `None` and leaves the consolidator as it was.
    pub fn try_update(&mut self, data: &BaseDataEnum) -> (r: Option<ConsolidatedData>)
        requires
            old(self).wf(),
        ensures
            final(self).wf(),
            (r is Some) == old(self).update_defined(*data),
            r matches Some(c) ==> old(self).update_result(*data, &*final(self), c),
            r is None ==> *final(self) == *old(self),
    {
        if self.update_is_defined(data) {
            Some(self.update(data))
        } else {
            None
        }
    }

    /// The subscription of the consolidator.
    pub fn subscription(&self) -> (r: &DataSubscription)
        ensures
            *r == self.spec_subscription(),
    {
        match self {
            ConsolidatorEnum::Count(c) => c.subscription(),
            ConsolidatorEnum::CandleStickConsolidator(c) => c.subscription(),
            ConsolidatorEnum::HeikinAshi(c) => c.subscription(),
        }
    }

    /// The resolution of the consolidator's bars.
    pub fn resolution(&self) -> (r: Resolution)
        ensures
            r == self.spec_subscription().resolution,
    {
        self.subscription().resolution
    }

    /// How many closed bars the consolidator keeps.
    pub fn history_to_retain(&self) -> (r: usize)
        ensures
            r == self.history_capacity(),
    {
        match self {
            ConsolidatorEnum::Count(c) => c.history_to_retain(),
            ConsolidatorEnum::CandleStickConsolidator(c) => c.history_to_retain(),
            ConsolidatorEnum::HeikinAshi(c) => c.history_to_retain(),
        }
    }

    /// A copy of the bar being built, if any.
    pub fn current(&self) -> (r: Option<BaseDataEnum>)
        ensures
            r == (match self {
                ConsolidatorEnum::Count(c) => Some(BaseDataEnum::Candle(c.current_candle())),
                ConsolidatorEnum::CandleStickConsolidator(c) => c.current_bar(),
                ConsolidatorEnum::HeikinAshi(c) => c.current_bar(),
            }),
    {
        match self {
            ConsolidatorEnum::Count(c) => c.current(),
            ConsolidatorEnum::CandleStickConsolidator(c) => c.current(),
            ConsolidatorEnum::HeikinAshi(c) => c.current(),
        }
    }

    /// A copy of the closed bar `index` places back from the latest, if there is one.
    pub fn index(&self, index: usize) -> (r: Option<BaseDataEnum>)
        ensures
            r == (if index < self.history_view().len() {
                Some(self.history_view()[index as int])
            } else {
                None::<BaseDataEnum>
            }),
    {
        match self {
            ConsolidatorEnum::Count(c) => c.index(index),
            ConsolidatorEnum::CandleStickConsolidator(c) => c.index(index),
            ConsolidatorEnum::HeikinAshi(c) => c.index(index),
        }
    }

    /// Advances the clock of a time-based consolidator, returning the bar it closes; tick
    /// counts never close on time.
    pub fn update_time(&mut self, time: i64) -> (r: Option<BaseDataEnum>)
        requires
            old(self).wf(),
            *old(self) matches ConsolidatorEnum::CandleStickConsolidator(c) ==> (c.fills_forward()
                ==> c.forward_defined(time as int)),
        ensures
            final(self).wf(),
            final(self).spec_subscription() == old(self).spec_subscription(),
            final(self).history_view() == old(self).history_view(),
            *old(self) is Count ==> r is None && *final(self) == *old(self),
            *old(self) matches ConsolidatorEnum::HeikinAshi(c) ==> (*final(self) matches ConsolidatorEnum::HeikinAshi(n)
                && c.time_update_result(time as int, &n, r)),
            *old(self) matches ConsolidatorEnum::CandleStickConsolidator(c) ==> (*final(self) matches ConsolidatorEnum::CandleStickConsolidator(n)
                && c.time_update_result(time as int, &n, r)),
    {
        match self {
            ConsolidatorEnum::Count(_) => None,
            ConsolidatorEnum::CandleStickConsolidator(c) => c.update_time(time),
            ConsolidatorEnum::HeikinAshi(c) => c.update_time(time),
        }
    }
}


/// Every bar a well-formed consolidator keeps in its history is marked closed, and a
/// history with a capacity holds no more bars than it. Creation gives a well-formed
/// consolidator and every update keeps it so.
pub proof fn law_history_closed_and_bounded(consolidator: ConsolidatorEnum)
    requires
        consolidator.wf(),
    ensures
        all_closed_bars(consolidator.history_view()),
        consolidator.history_capacity() > 0 ==> consolidator.history_view().len()
            <= consolidator.history_capacity(),
{
}

} // verus!
