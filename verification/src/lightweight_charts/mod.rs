//! Chart data in the shapes the lightweight-charts library draws.
pub mod horz_scale;
