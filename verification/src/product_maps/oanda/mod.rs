//! Oanda instruments.
pub mod maps;
