//! Single-value series items: areas, baselines, histograms and lines.
use crate::standardized_types::{Color, Price, TimeStamp};
use vstd::prelude::*;

verus! {

/// An item of a single-value series.
#[derive(Debug, PartialEq, Eq)]
pub enum SingleValueData {
    AreaData(AreaData),
    BaselineData(BaselineData),
    HistogramData(HistogramData),
    LineData(LineData),
}

impl SingleValueData {
    /// The item's value.
    pub open spec fn spec_value(&self) -> Price {
        match self {
            SingleValueData::AreaData(area) => area.spec_value(),
            SingleValueData::BaselineData(line) => line.value,
            SingleValueData::HistogramData(hist) => hist.value,
            SingleValueData::LineData(line) => line.value,
        }
    }

    /// The item's UTC time, in seconds since the epoch.
    pub open spec fn spec_timestamp_utc(&self) -> TimeStamp {
        match self {
            SingleValueData::AreaData(area) => area.spec_time_utc(),
            SingleValueData::BaselineData(line) => line.time_utc,
            SingleValueData::HistogramData(hist) => hist.time_utc,
            SingleValueData::LineData(line) => line.time_utc,
        }
    }

    /// The item's value.
    pub fn value(&self) -> (r: Price)
        ensures
            r == self.spec_value(),
    {
        match self {
            SingleValueData::AreaData(area) => area.value,
            SingleValueData::BaselineData(line) => line.value,
            SingleValueData::HistogramData(hist) => hist.value,
            SingleValueData::LineData(line) => line.value,
        }
    }

    /// The item's UTC time, in seconds since the epoch.
    pub fn timestamp_utc(&self) -> (r: TimeStamp)
        ensures
            r == self.spec_timestamp_utc(),
    {
        match self {
            SingleValueData::AreaData(area) => area.time_utc,
            SingleValueData::BaselineData(line) => line.time_utc,
            SingleValueData::HistogramData(hist) => hist.time_utc,
            SingleValueData::LineData(line) => line.time_utc,
        }
    }
}

/// An item of an area series.
#[derive(Debug, PartialEq, Eq)]
pub struct AreaData {
    /// The UTC time, in seconds since the epoch.
    pub time_utc: TimeStamp,
    line_color: Option<Color>,
    top_color: Option<Color>,
    bottom_color: Option<Color>,
    value: Price,
}

impl AreaData {
    /// An area item; missing colors are taken from the series.
    pub fn new(
        time_utc: TimeStamp,
        line_color: Option<Color>,
        top_color: Option<Color>,
        bottom_color: Option<Color>,
        value: Price,
    ) -> (r: Self)
        ensures
            r.spec_time_utc() == time_utc,
            r.spec_value() == value,
            r.colors() == (line_color, top_color, bottom_color),
    {
        AreaData { time_utc, line_color, top_color, bottom_color, value }
    }

    /// The item's value.
    pub closed spec fn spec_value(&self) -> Price {
        self.value
    }

    /// The item's UTC time, in seconds since the epoch.
    pub closed spec fn spec_time_utc(&self) -> TimeStamp {
        self.time_utc
    }

    /// The line, top and bottom colors.
    pub closed spec fn colors(&self) -> (Option<Color>, Option<Color>, Option<Color>) {
        (self.line_color, self.top_color, self.bottom_color)
    }
}

/// An item of a baseline series.
#[derive(Debug, PartialEq, Eq)]
pub struct BaselineData {
    /// The UTC time, in seconds since the epoch.
    pub time_utc: TimeStamp,
    pub top_fill_color1: Option<Color>,
    pub top_fill_color2: Option<Color>,
    pub top_line_color: Option<Color>,
    pub bottom_fill_color1: Option<Color>,
    pub bottom_fill_color2: Option<Color>,
    pub bottom_line_color: Option<Color>,
    pub value: Price,
}

/// An item of a histogram series.
#[derive(Debug, PartialEq, Eq)]
pub struct HistogramData {
    /// The UTC time, in seconds since the epoch.
    pub time_utc: TimeStamp,
    pub color: Option<Color>,
    pub value: Price,
}

/// An item of a line series.
#[derive(Debug, PartialEq, Eq)]
pub struct LineData {
    /// The UTC time, in seconds since the epoch.
    pub time_utc: TimeStamp,
    pub color: Option<Color>,
    pub value: Price,
}

impl LineData {
    pub fn new(time_utc: TimeStamp, color: Option<Color>, value: Price) -> (r: Self)
        ensures
            r == (LineData { time_utc, color, value }),
    {
        Self { time_utc, color, value }
    }
}

} // verus!
