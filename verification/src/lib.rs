//! Market data consolidation, rolling history windows, order-book pricing and
//! futures product tables for the Fund Forge trading engine.

pub mod decimal;
pub mod rolling_window;
pub mod standardized_types;
pub mod helpers;
pub mod consolidators;
pub mod messages;
pub mod market_handler;
pub mod markets;
pub mod apis;
pub mod product_maps;
pub mod lightweight_charts;
pub mod display_settings;
pub mod export_formats;
pub mod server_connections;
pub mod indicators;
