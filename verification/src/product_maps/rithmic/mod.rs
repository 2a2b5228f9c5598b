//! Futures products as Rithmic lists them, and their contract rollover.
pub mod maps;
pub mod rollover;
