//! The Rithmic API client.
pub mod api_client;
