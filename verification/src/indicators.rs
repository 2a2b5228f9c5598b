//! Indicator values, and the average true range.
pub mod average_true_range;

use crate::standardized_types::{Color, Price};
use vstd::prelude::*;

verus! {

/// The name of one plotted line of an indicator.
pub type PlotName = String;

/// One plotted value of an indicator.
#[derive(Debug, PartialEq, Eq)]
pub struct IndicatorPlot {
    pub name: PlotName,
    pub value: Price,
    pub color: Option<Color>,
}

impl IndicatorPlot {
    pub fn new(plot_name: PlotName, value: Price, color: Option<Color>) -> (r: Self)
        ensures
            r == (IndicatorPlot { name: plot_name, value, color }),
    {
        Self { name: plot_name, value, color }
    }
}

} // verus!
