//! Data points placed on a chart's time axis.
pub mod ohlc_enum;
pub mod single_value_data_enum;

use crate::lightweight_charts::horz_scale::ohlc_enum::OhlcData;
use crate::lightweight_charts::horz_scale::single_value_data_enum::SingleValueData;
use crate::standardized_types::TimeStamp;
use vstd::prelude::*;

verus! {

/// A data point on the time axis: a bar or a single value.
#[derive(Debug, PartialEq, Eq)]
pub enum HorizontalScaleItem {
    OhlcData(OhlcData),
    SingleValueData(SingleValueData),
}

impl HorizontalScaleItem {
    /// The UTC time of the data point, in seconds since the epoch.
    pub open spec fn spec_timestamp_utc(&self) -> TimeStamp {
        match self {
            HorizontalScaleItem::OhlcData(ohlc) => ohlc.spec_timestamp_utc(),
            HorizontalScaleItem::SingleValueData(svd) => svd.spec_timestamp_utc(),
        }
    }

    /// The UTC time of the data point, in seconds since the epoch.
    pub fn timestamp_utc(&self) -> (r: TimeStamp)
        ensures
            r == self.spec_timestamp_utc(),
    {
        match self {
            HorizontalScaleItem::OhlcData(ohlc) => ohlc.timestamp_utc(),
            HorizontalScaleItem::SingleValueData(svd) => svd.timestamp_utc(),
        }
    }
}

} // verus!
