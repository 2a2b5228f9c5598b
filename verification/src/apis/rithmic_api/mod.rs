//! Rithmic product codes.
pub mod products;
