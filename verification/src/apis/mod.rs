//! Brokerages, data vendors and their product tables.
pub mod brokerage;
pub mod api_modes;
pub mod vendor;
pub mod rithmic;
pub mod rithmic_api;
pub mod test_vendor_impl;
pub mod test_api;
