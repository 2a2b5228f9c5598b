//! CME futures market configuration.
pub mod market_config;
