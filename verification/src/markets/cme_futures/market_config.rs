//! Special trading days of a market: a date and a wall-clock time in the market's zone.
use crate::helpers::converters::{
    resolve_market_datetime_in_timezone, spec_resolve_market_time, ZonedTime,
};
use crate::standardized_types::NANOS_PER_SECOND;
use chrono::Timelike;
use vstd::prelude::*;

verus! {

/// Midnight of the date chrono's `NaiveDate::parse_from_str(s, format)` reads, as
/// nanoseconds since the epoch of that wall-clock reading (as if in UTC), when it reads
/// one that fits.
pub uninterp spec fn parsed_date_start(s: Seq<char>, format: Seq<char>) -> Option<i64>;

/// `NaiveDate::parse_from_str(s, format)` at `NaiveTime::MIN`, read with
/// `and_utc().timestamp_nanos_opt()`. The format language and the calendar are chrono's
/// and are not restated here.
#[verifier::external_body]
fn parse_date_start(s: &str, format: &str) -> (r: Option<i64>)
    ensures
        r == parsed_date_start(s@, format@),
{
    match chrono::NaiveDate::parse_from_str(s, format) {
        Ok(date) => date.and_time(chrono::NaiveTime::MIN).and_utc().timestamp_nanos_opt(),
        Err(_) => None,
    }
}

/// The time of day chrono's `NaiveTime::parse_from_str(s, format)` reads, as seconds
/// from midnight and nanoseconds, when it reads one.
pub uninterp spec fn parsed_time_of_day(s: Seq<char>, format: Seq<char>) -> Option<(u32, u32)>;

/// `NaiveTime::parse_from_str(s, format)` read with `num_seconds_from_midnight()` and
/// `nanosecond()`. The format language is chrono's and is not restated here; chrono
/// documents fewer than 86400 seconds from midnight, and fewer than 2 * 10^9 nanoseconds
/// (the upper half only for a leap second).
#[verifier::external_body]
fn parse_time_of_day(s: &str, format: &str) -> (r: Option<(u32, u32)>)
    ensures
        r == parsed_time_of_day(s@, format@),
        r matches Some(t) ==> t.0 < 86400 && t.1 < 2_000_000_000,
{
    match chrono::NaiveTime::parse_from_str(s, format) {
        Ok(time) => Some((time.num_seconds_from_midnight(), time.nanosecond())),
        Err(_) => None,
    }
}

/// A special trading day: a date (`YYYY-MM-DD`) and a wall-clock time (`HH:MM:SS`) in
/// the market's time zone, such as an early close or a late open.
#[derive(Debug, PartialEq, Eq)]
pub struct SpecialTime {
    pub date: String,
    pub time: String,
}

/// The instant of the special time: the date's midnight plus the time of day, resolved
/// in `zone` as market schedules resolve wall-clock times; `None` where the date or the
/// time does not parse, or the wall-clock reading leaves the nanosecond range.
pub open spec fn spec_special_time(date: Seq<char>, time: Seq<char>, zone: Seq<char>) -> Option<ZonedTime> {
    match (parsed_date_start(date, "%Y-%m-%d"@), parsed_time_of_day(time, "%H:%M:%S"@)) {
        (Some(start), Some((secs, nanos))) => {
            let local = start + secs * NANOS_PER_SECOND + nanos;
            if local <= i64::MAX {
                spec_resolve_market_time(zone, local)
            } else {
                None
            }
        },
        _ => None,
    }
}

impl SpecialTime {
    /// The special time as an instant in the time zone named `zone`.
    pub fn time(&self, zone: &str) -> (r: Option<ZonedTime>)
        ensures
            r == spec_special_time(self.date@, self.time@, zone@),
    {
        let date_format = "%Y-%m-%d";
        let time_format = "%H:%M:%S";
        proof {
            reveal_strlit("%Y-%m-%d");
            reveal_strlit("%H:%M:%S");
        }
        let start = match parse_date_start(self.date.as_str(), date_format) {
            Some(start) => start,
            None => return None,
        };
        let (secs, nanos) = match parse_time_of_day(self.time.as_str(), time_format) {
            Some(t) => t,
            None => return None,
        };
        let into_day: i64 = secs as i64 * NANOS_PER_SECOND + nanos as i64;
        if start > i64::MAX - into_day {
            return None;
        }
        resolve_market_datetime_in_timezone(zone, start + into_day)
    }
}

} // verus!
