//! File formats historical data can be exported to, and the dates daily data files are
//! named for.
use crate::helpers::converters::{parse_i64, spec_parse_i64};
use vstd::prelude::*;

verus! {

/// The formats data can be exported to.
#[derive(Clone, Copy, Debug, PartialEq, Eq, Structural)]
pub enum ExportFormat {
    CSV,
    JSON,
}

impl ExportFormat {
    /// The format's name: `"CSV"` or `"JSON"`.
    pub fn name(&self) -> (r: &'static str)
        ensures
            r@ == (match self {
                ExportFormat::CSV => "CSV"@,
                ExportFormat::JSON => "JSON"@,
            }),
    {
        match self {
            ExportFormat::CSV => "CSV",
            ExportFormat::JSON => "JSON",
        }
    }
}


/// What `u32::from_str` reads from a short `s`: what `i64::from_str` reads, without a
/// leading `-`, within the range of `u32`.
pub open spec fn spec_parse_u32(s: Seq<char>) -> Option<u32> {
    if s.len() > 0 && s[0] == '-' {
        None
    } else {
        match spec_parse_i64(s) {
            Some(v) => if 0 <= v <= u32::MAX {
                Some(v as u32)
            } else {
                None
            },
            None => None,
        }
    }
}

/// Reads a number as `u32::from_str` does.
fn parse_u32(s: &str) -> (r: Option<u32>)
    ensures
        r == spec_parse_u32(s@),
{
    if s.unicode_len() > 0 && s.get_char(0) == '-' {
        return None;
    }
    match parse_i64(s) {
        Some(v) => {
            if 0 <= v && v <= 0xffff_ffff {
                Some(v as u32)
            } else {
                None
            }
        },
        None => None,
    }
}

/// The first and last years of chrono's calendar.
pub open spec fn calendar_year_in_range(year: int) -> bool {
    -262143 <= year <= 262142
}

/// Whether `year` is a leap year of the proleptic Gregorian calendar.
pub open spec fn is_leap_year(year: int) -> bool {
    year % 4 == 0 && (year % 100 != 0 || year % 400 == 0)
}

/// The number of days of a month (1 to 12) of `year`.
pub open spec fn days_in_month(year: int, month: int) -> int {
    if month == 2 {
        if is_leap_year(year) {
            29
        } else {
            28
        }
    } else if month == 4 || month == 6 || month == 9 || month == 11 {
        30
    } else {
        31
    }
}

/// Whether chrono's calendar has the date `year-month-day`: a year in its range, a month
/// from 1 to 12 and a day of that month.
pub open spec fn calendar_date_exists(year: int, month: int, day: int) -> bool {
    &&& calendar_year_in_range(year)
    &&& 1 <= month <= 12
    &&& 1 <= day <= days_in_month(year, month)
}

/// `NaiveDate::from_ymd_opt(year, month, day).is_some()`: chrono documents `None` for a
/// day that does not exist, an invalid month or day, and a year out of its range, which
/// its source sets from -262143 to 262142.
#[verifier::external_body]
fn date_exists(year: i32, month: u32, day: u32) -> (r: bool)
    ensures
        r == calendar_date_exists(year as int, month as int, day as int),
{
    chrono::NaiveDate::from_ymd_opt(year, month, day).is_some()
}

/// The date a daily data file is named for, from its file stem `YYYYMMDD`, or the reason
/// it is not one.
pub open spec fn spec_date_from_stem(stem: Seq<char>) -> Result<(i32, u32, u32), Seq<char>> {
    if stem.len() != 8 {
        Err("Invalid date format in filename"@)
    } else {
        match spec_parse_i64(stem.subrange(0, 4)) {
            None => Err("Invalid year"@),
            Some(year) => match spec_parse_u32(stem.subrange(4, 6)) {
                None => Err("Invalid month"@),
                Some(month) => match spec_parse_u32(stem.subrange(6, 8)) {
                    None => Err("Invalid day"@),
                    Some(day) => if calendar_date_exists(year as int, month as int, day as int) {
                        Ok((year as i32, month, day))
                    } else {
                        Err("Invalid date"@)
                    },
                },
            },
        }
    }
}

/// The date (year, month, day) a daily data file is named for, read from its file stem
/// `YYYYMMDD`; otherwise the reason it is not one.
pub fn date_from_file_stem(stem: &str) -> (r: Result<(i32, u32, u32), String>)
    requires
        stem.is_ascii(),
    ensures
        match spec_date_from_stem(stem@) {
            Ok(date) => r == Ok::<(i32, u32, u32), String>(date),
            Err(m) => r matches Err(e) && e@ == m,
        },
{
    proof {
        reveal_strlit("Invalid date format in filename");
        reveal_strlit("Invalid year");
        reveal_strlit("Invalid month");
        reveal_strlit("Invalid day");
        reveal_strlit("Invalid date");
    }
    if stem.unicode_len() != 8 {
        return Err(String::from_str("Invalid date format in filename"));
    }
    let year = match parse_i64(stem.substring_ascii(0, 4)) {
        Some(y) => y,
        None => return Err(String::from_str("Invalid year")),
    };
    let month = match parse_u32(stem.substring_ascii(4, 6)) {
        Some(m) => m,
        None => return Err(String::from_str("Invalid month")),
    };
    let day = match parse_u32(stem.substring_ascii(6, 8)) {
        Some(d) => d,
        None => return Err(String::from_str("Invalid day")),
    };
    proof {
        lemma_four_chars_fit_i32(stem@.subrange(0, 4));
    }
    let year = year as i32;
    if date_exists(year, month, day) {
        Ok((year, month, day))
    } else {
        Err(String::from_str("Invalid date"))
    }
}

/// What `i64::from_str` reads from four characters fits an `i32`.
proof fn lemma_four_chars_fit_i32(s: Seq<char>)
    requires
        s.len() == 4,
    ensures
        spec_parse_i64(s) matches Some(v) ==> -9999 <= v <= 9999,
{
    crate::helpers::converters::lemma_short_parse_bound(s);
}

} // verus!
