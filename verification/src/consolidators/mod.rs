//! Consolidators turn a stream of base data into bars of a coarser resolution.
pub mod candlesticks;
pub mod consolidator_enum;
pub mod heikinashi;
pub mod count;
