//! Economic data sets.
pub mod models;
