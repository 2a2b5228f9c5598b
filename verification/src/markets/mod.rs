//! Exchange calendars.
pub mod cme_futures;
