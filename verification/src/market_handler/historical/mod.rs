//! Matching of backtest orders against the simulated market.
pub mod order_matching;
