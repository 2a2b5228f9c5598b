//! The simulated market: order books and prices.
pub mod historical;
pub mod market_handlers;
pub mod markets;
pub mod position_manager;
