//! The true ranges behind the average true range: how far each bar reaches beyond the
//! close of the bar beside it in the window.
use crate::decimal::{
    abs_parts, decimal_difference, difference_fits, spec_max, Decimal, DecimalParts,
};
use crate::rolling_window::{spec_window_add, RollingWindow};
use crate::standardized_types::{BaseDataEnum, Price};
use vstd::prelude::*;

verus! {

/// The true range of a bar with `high` and `low` next to a bar that closed at
/// `prev_close`: the largest of its high-low range and the distances from that close to
/// its high and to its low.
pub open spec fn spec_true_range(prev_close: DecimalParts, high: DecimalParts, low: DecimalParts) -> DecimalParts {
    spec_max(
        spec_max(decimal_difference(high, low), abs_parts(decimal_difference(high, prev_close))),
        abs_parts(decimal_difference(low, prev_close)),
    )
}

/// The three differences of a true range can be computed.
pub open spec fn true_range_fits(prev_close: DecimalParts, high: DecimalParts, low: DecimalParts) -> bool {
    &&& difference_fits(high, low)
    &&& difference_fits(high, prev_close)
    &&& difference_fits(low, prev_close)
}

/// The close of `prev` and the high and low of `cur`, for two quote bars (bid prices) or
/// two candles; other pairs have none.
pub open spec fn pair_prices(prev: BaseDataEnum, cur: BaseDataEnum) -> Option<(Decimal, Decimal, Decimal)> {
    match (prev, cur) {
        (BaseDataEnum::QuoteBar(p), BaseDataEnum::QuoteBar(c)) => Some((p.bid_close, c.bid_high, c.bid_low)),
        (BaseDataEnum::Candle(p), BaseDataEnum::Candle(c)) => Some((p.close, c.high, c.low)),
        _ => None,
    }
}

/// Every two neighbours of the window are bars of one kind whose true range can be
/// computed.
pub open spec fn true_ranges_computable(history: Seq<BaseDataEnum>) -> bool {
    forall|i: int|
        1 <= i < history.len() ==> match #[trigger] pair_prices(history[i - 1], history[i]) {
            Some((p, h, l)) => true_range_fits(p@, h@, l@),
            None => false,
        }
}

/// The true range of the `i`-th pair of neighbours: the bar at `i + 1` next to the bar at
/// `i`, whose close it is measured from.
pub open spec fn pair_true_range(history: Seq<BaseDataEnum>, i: int) -> DecimalParts {
    let (p, h, l) = pair_prices(history[i], history[i + 1])->0;
    spec_true_range(p@, h@, l@)
}

/// The true range of a bar next to one that closed at `prev_close`.
pub fn true_range(prev_close: Price, high: Price, low: Price) -> (r: Price)
    requires
        true_range_fits(prev_close@, high@, low@),
    ensures
        r@ == spec_true_range(prev_close@, high@, low@),
{
    let high_low = crate::decimal::decimal_sub(high, low);
    let high_close = crate::decimal::decimal_sub(high, prev_close).abs();
    let low_close = crate::decimal::decimal_sub(low, prev_close).abs();
    high_low.max(high_close).max(low_close)
}

/// The true range of each pair of neighbours of the window, in the window's order: the
/// bar at `i` (0 is the latest) gives the close the bar at `i + 1` is measured from.
pub fn true_ranges(window: &RollingWindow<BaseDataEnum>) -> (r: Vec<Price>)
    requires
        true_ranges_computable(window@),
    ensures
        r@.len() == (if window@.len() > 0 {
            window@.len() - 1
        } else {
            0
        }),
        forall|i: int| 0 <= i < r@.len() ==> (#[trigger] r@[i])@ == pair_true_range(window@, i),
{
    let history = window.history();
    let n = history.len();
    let mut ranges: Vec<Price> = Vec::new();
    if n == 0 {
        return ranges;
    }
    let mut i: usize = 1;
    while i < n
        invariant
            history@ == window@,
            n == window@.len(),
            1 <= i <= n,
            true_ranges_computable(window@),
            ranges@.len() == i - 1,
            forall|k: int| 0 <= k < ranges@.len() ==> (#[trigger] ranges@[k])@ == pair_true_range(window@, k),
        decreases n - i,
    {
        let prev = &history[i - 1];
        let cur = &history[i];
        assert(pair_prices(window@[i - 1], window@[i as int]) is Some);
        let range = match (prev, cur) {
            (BaseDataEnum::QuoteBar(p), BaseDataEnum::QuoteBar(c)) => true_range(p.bid_close, c.bid_high, c.bid_low),
            (BaseDataEnum::Candle(p), BaseDataEnum::Candle(c)) => true_range(p.close, c.high, c.low),
            _ => {
                proof {
                    assert(false);
                }
                Decimal::new(0, 0)
            },
        };
        ranges.push(range);
        i = i + 1;
    }
    ranges
}

/// The bars an average true range is taken over, and whether it has been ready since its
/// window first filled.
pub struct AverageTrueRange {
    pub base_data_history: RollingWindow<BaseDataEnum>,
    pub is_ready: bool,
}

impl AverageTrueRange {
    /// No bars yet, over a window of `period` bars.
    pub fn new(period: usize) -> (r: Self)
        ensures
            r.base_data_history@ == Seq::<BaseDataEnum>::empty(),
            r.base_data_history.capacity() == period,
            !r.is_ready,
    {
        AverageTrueRange { base_data_history: RollingWindow::new(period), is_ready: false }
    }

    /// Takes in a bar and says whether an average is to be computed now: a bar that is
    /// not closed changes nothing and gives none; a closed bar joins the window, and from
    /// the first time the window is full on, every closed bar gives one.
    pub fn take_bar(&mut self, base_data: &BaseDataEnum) -> (r: bool)
        requires
            base_data is Candle || base_data is QuoteBar,
        ensures
            !base_data.is_closed_bar() ==> {
                &&& final(self).base_data_history@ == old(self).base_data_history@
                &&& final(self).is_ready == old(self).is_ready
                &&& !r
            },
            base_data.is_closed_bar() ==> {
                &&& final(self).base_data_history@ == spec_window_add(
                    old(self).base_data_history@,
                    old(self).base_data_history.capacity(),
                    *base_data,
                )
                &&& final(self).is_ready == (old(self).is_ready || final(self).base_data_history@.len()
                    == old(self).base_data_history.capacity())
                &&& r == final(self).is_ready
            },
            final(self).base_data_history.capacity() == old(self).base_data_history.capacity(),
    {
        let closed = match base_data {
            BaseDataEnum::Candle(c) => c.is_closed,
            BaseDataEnum::QuoteBar(b) => b.is_closed,
            _ => false,
        };
        if !closed {
            return false;
        }
        self.base_data_history.add(base_data.copy());
        if !self.is_ready {
            if !self.base_data_history.is_full() {
                return false;
            }
            self.is_ready = true;
        }
        true
    }

    /// The true ranges of the bars in the window (see [`true_ranges`]).
    pub fn true_ranges(&self) -> (r: Vec<Price>)
        requires
            true_ranges_computable(self.base_data_history@),
        ensures
            r@.len() == (if self.base_data_history@.len() > 0 {
                self.base_data_history@.len() - 1
            } else {
                0
            }),
            forall|i: int| 0 <= i < r@.len() ==> (#[trigger] r@[i])@ == pair_true_range(self.base_data_history@, i),
    {
        true_ranges(&self.base_data_history)
    }
}

} // verus!
