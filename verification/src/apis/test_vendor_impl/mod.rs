//! A test data vendor and brokerage to guide development.
pub mod api_client;
