//! Product tables: futures contracts and economic data sets.
pub mod fred;
pub mod oanda;
pub mod rithmic;
