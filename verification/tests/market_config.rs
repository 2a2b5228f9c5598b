use chrono::{DateTime, FixedOffset};
use ff_standard_lib::helpers::converters::{
    resolve_market_datetime_in_timezone, time_convert_utc_to_local, time_local_from_utc_str, ZonedTime,
};
use ff_standard_lib::markets::cme_futures::market_config::SpecialTime;

const NEW_YORK: &str = "America/New_York";

fn formatted(z: ZonedTime) -> String {
    let offset = FixedOffset::east_opt(z.offset_seconds).unwrap();
    DateTime::from_timestamp_nanos(z.utc_nanos)
        .with_timezone(&offset)
        .format("%Y-%m-%d %H:%M:%S %z")
        .to_string()
}

#[test]
fn test_special_time_conversion() {
    let special_time = SpecialTime {
        date: "2024-01-15".to_string(),
        time: "13:00:00".to_string(),
    };
    let dt = special_time.time(NEW_YORK).unwrap();
    assert_eq!(formatted(dt), "2024-01-15 13:00:00 -0500");
}

#[test]
fn test_dst_spring_forward() {
    // 2:30 AM does not exist on the day daylight saving starts: it moves to 3:30 AM.
    let special_time = SpecialTime {
        date: "2024-03-10".to_string(),
        time: "02:30:00".to_string(),
    };
    let dt = special_time.time(NEW_YORK).unwrap();
    assert_eq!(formatted(dt), "2024-03-10 03:30:00 -0400");
}

#[test]
fn test_dst_fall_back() {
    // 1:30 AM happens twice on the day daylight saving ends: the earlier one is taken.
    let special_time = SpecialTime {
        date: "2024-11-03".to_string(),
        time: "01:30:00".to_string(),
    };
    let dt = special_time.time(NEW_YORK).unwrap();
    assert_eq!(formatted(dt), "2024-11-03 01:30:00 -0400");
}

#[test]
fn test_normal_time() {
    let special_time = SpecialTime {
        date: "2024-07-15".to_string(),
        time: "14:30:00".to_string(),
    };
    let dt = special_time.time(NEW_YORK).unwrap();
    assert_eq!(formatted(dt), "2024-07-15 14:30:00 -0400");
}

#[test]
fn special_time_refuses_bad_text_and_zones() {
    let bad_date = SpecialTime { date: "2024-13-01".to_string(), time: "10:00:00".to_string() };
    assert_eq!(bad_date.time(NEW_YORK), None);
    let bad_time = SpecialTime { date: "2024-07-15".to_string(), time: "25:00:00".to_string() };
    assert_eq!(bad_time.time(NEW_YORK), None);
    let good = SpecialTime { date: "2024-07-15".to_string(), time: "14:30:00".to_string() };
    assert_eq!(good.time("Mars/Olympus_Mons"), None);
}

#[test]
fn resolve_market_time_in_utc_and_chicago() {
    // 2024-07-15T14:30:00 as a wall-clock reading.
    let local: i64 = 1_721_053_800_000_000_000;
    assert_eq!(
        resolve_market_datetime_in_timezone("UTC", local),
        Some(ZonedTime { utc_nanos: local, offset_seconds: 0 })
    );
    // Chicago is five hours behind UTC in July.
    assert_eq!(
        resolve_market_datetime_in_timezone("America/Chicago", local),
        Some(ZonedTime { utc_nanos: local + 5 * 3_600_000_000_000, offset_seconds: -5 * 3600 })
    );
}

#[test]
fn utc_strings_shown_in_a_zone() {
    // 2024-07-15T14:30:00Z is four hours ahead of New York in July.
    let z = time_local_from_utc_str(NEW_YORK, "2024-07-15T14:30:00Z").unwrap();
    assert_eq!(z, ZonedTime { utc_nanos: 1_721_053_800_000_000_000, offset_seconds: -4 * 3600 });
    assert_eq!(formatted(z), "2024-07-15 10:30:00 -0400");
    // An offset in the string is taken into account.
    let z = time_local_from_utc_str("UTC", "2024-07-15T16:30:00+02:00").unwrap();
    assert_eq!(z, ZonedTime { utc_nanos: 1_721_053_800_000_000_000, offset_seconds: 0 });
    assert_eq!(time_local_from_utc_str(NEW_YORK, "not a time"), None);
    assert_eq!(time_local_from_utc_str("Nowhere/Land", "2024-07-15T14:30:00Z"), None);
    // January: five hours behind.
    let jan = time_convert_utc_to_local(NEW_YORK, 1_705_501_800_000_000_000).unwrap();
    assert_eq!(jan.offset_seconds, -5 * 3600);
    assert_eq!(formatted(jan), "2024-01-17 09:30:00 -0500");
}
