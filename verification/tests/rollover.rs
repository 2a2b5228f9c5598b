use ff_standard_lib::product_maps::rithmic::rollover::{
    front_month, get_front_month, get_next_month, month_to_code, RolloverError,
};

fn utc_nanos(date_str: &str) -> i64 {
    chrono::NaiveDateTime::parse_from_str(date_str, "%Y-%m-%d %H:%M:%S")
        .expect("Invalid test date")
        .and_utc()
        .timestamp_nanos_opt()
        .unwrap()
}

fn test_case(symbol: &str, date_str: &str, expected: &str) {
    let result = get_front_month(symbol, utc_nanos(date_str)).unwrap();
    assert_eq!(
        result, expected,
        "Test failed for {} on {}. Expected {}, got {}",
        symbol, date_str, expected, result
    );
}

#[test]
fn test_cl_rollover() {
    test_case("CL", "2024-01-17 14:30:00", "CLG24");
    test_case("CL", "2024-01-18 14:30:00", "CLH24");
}

#[test]
fn test_gc_rollover() {
    test_case("GC", "2024-01-25 14:30:00", "GCG24");
    test_case("GC", "2024-01-26 14:30:00", "GCH24");
}

#[test]
fn test_es_quarterly() {
    test_case("ES", "2024-03-08 14:30:00", "ESH24");
    test_case("ES", "2024-03-09 14:30:00", "ESM24");
}

#[test]
fn test_year_boundary() {
    test_case("CL", "2024-12-18 14:30:00", "CLF25");
    test_case("ES", "2024-12-13 14:30:00", "ESH25");
}

#[test]
fn unknown_symbol_is_an_error() {
    let r = get_front_month("XYZ", utc_nanos("2024-01-17 14:30:00"));
    assert_eq!(r, Err(RolloverError::UnknownSymbol("XYZ".to_string())));
    assert_eq!(
        RolloverError::UnknownSymbol("XYZ".to_string()).message(),
        "Symbol not recognized: XYZ"
    );
}

#[test]
fn chicago_date_decides_the_contract() {
    // 03:00 UTC on the 18th is still the 17th in Chicago: before CL's rollover day.
    test_case("CL", "2024-01-18 03:00:00", "CLG24");
}

#[test]
fn month_codes() {
    let codes = "FGHJKMNQUVXZ";
    for (i, c) in codes.chars().enumerate() {
        assert_eq!(month_to_code(i as u32 + 1), Ok(c));
    }
    assert_eq!(month_to_code(0), Err(RolloverError::InvalidMonth(0)));
    assert_eq!(month_to_code(13), Err(RolloverError::InvalidMonth(13)));
    assert_eq!(
        RolloverError::InvalidMonth(13).message(),
        "Invalid month for rollover: 13"
    );
}

#[test]
fn next_months() {
    assert_eq!(get_next_month(12, true), (3, true));
    assert_eq!(get_next_month(1, true), (3, false));
    assert_eq!(get_next_month(3, true), (6, false));
    assert_eq!(get_next_month(11, true), (12, false));
    assert_eq!(get_next_month(12, false), (1, true));
    assert_eq!(get_next_month(5, false), (6, false));
}

#[test]
fn front_month_on_calendar_dates() {
    assert_eq!(front_month("NG", 2024, 12, 28).unwrap(), "NGF25");
    assert_eq!(front_month("NG", 2024, 12, 27).unwrap(), "NGF25");
    assert_eq!(front_month("NG", 2024, 11, 28).unwrap(), "NGF25");
    assert_eq!(front_month("ZN", 2023, 12, 21).unwrap(), "ZNH24");
    assert_eq!(front_month("ZN", 2023, 11, 30).unwrap(), "ZNZ23");
    assert_eq!(front_month("CT", 2009, 5, 1).unwrap(), "CTM09");
}
