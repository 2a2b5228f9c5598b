use ff_standard_lib::apis::brokerage::Brokerage;
use ff_standard_lib::helpers::converters::{
    following_month, format_duration, fund_forge_formatted_symbol_name, next_month, open_time,
    parse_i64, timestamp_from_str,
};
use ff_standard_lib::helpers::text::{starts_with, str_eq, trim, trim_start_matches};
use ff_standard_lib::messages::data_server_messaging::FundForgeError;
use ff_standard_lib::server_connections::ConnectionType;
use ff_standard_lib::standardized_types::{
    BaseDataType, DataSubscription, DataVendor, MarketType, Resolution, Symbol, NANOS_PER_HOUR,
    NANOS_PER_MINUTE, NANOS_PER_SECOND,
};

fn sub(resolution: Resolution) -> DataSubscription {
    DataSubscription {
        symbol: Symbol::new("EUR-USD".to_string(), DataVendor::Test, MarketType::Forex),
        resolution,
        base_data_type: BaseDataType::Candles,
        market_type: MarketType::Forex,
        candle_type: None,
    }
}

#[test]
fn open_times_of_bars() {
    // 2024-01-01 10:47:31.5 UTC
    let t = 1_704_106_051 * NANOS_PER_SECOND + 500_000_000;
    let hour = 1_704_103_200 * NANOS_PER_SECOND;
    assert_eq!(open_time(&sub(Resolution::Seconds(15)), t), 1_704_106_050 * NANOS_PER_SECOND);
    assert_eq!(open_time(&sub(Resolution::Minutes(15)), t), hour + 45 * NANOS_PER_MINUTE);
    assert_eq!(open_time(&sub(Resolution::Minutes(7)), t), hour + 42 * NANOS_PER_MINUTE);
    assert_eq!(open_time(&sub(Resolution::Minutes(90)), t), hour);
    assert_eq!(open_time(&sub(Resolution::Hours(4)), t), hour - 2 * NANOS_PER_HOUR);
    assert_eq!(open_time(&sub(Resolution::Day), t), t);
}

#[test]
fn formatted_symbol_names() {
    assert_eq!(fund_forge_formatted_symbol_name("aud/usd"), "AUD-USD");
    assert_eq!(fund_forge_formatted_symbol_name("es:z_4 x?"), "ES-Z-4-X-");
    assert_eq!(fund_forge_formatted_symbol_name("straße"), "STRASSE");
}

#[test]
fn durations() {
    assert_eq!(format_duration(0, 12), "12ns");
    assert_eq!(format_duration(5, 0), "5s 0ns");
    assert_eq!(format_duration(86_405, 7), "1d 0h 0m 5s 7ns");
    assert_eq!(format_duration(3_661, 0), "1h 1m 1s 0ns");
    assert_eq!(format_duration(-5, -3), "-3ns");
}

#[test]
fn integers_and_timestamps() {
    assert_eq!(parse_i64("1700000000"), Some(1_700_000_000));
    assert_eq!(parse_i64("-42"), Some(-42));
    assert_eq!(parse_i64("+7"), Some(7));
    assert_eq!(parse_i64("9223372036854775807"), Some(i64::MAX));
    assert_eq!(parse_i64("-9223372036854775808"), Some(i64::MIN));
    assert_eq!(parse_i64("9223372036854775808"), None);
    assert_eq!(parse_i64(""), None);
    assert_eq!(parse_i64("-"), None);
    assert_eq!(parse_i64("12a"), None);
    assert_eq!(parse_i64(" 1"), None);
    assert_eq!(timestamp_from_str("1700000000"), Ok(1_700_000_000));
    assert_eq!(timestamp_from_str("2024-01-17T14:30:00Z"), Ok(1_705_501_800));
    assert_eq!(timestamp_from_str("2024-01-17 14:30:00"), Ok(1_705_501_800));
    assert_eq!(timestamp_from_str("01/17/2024 14:30:00"), Ok(1_705_501_800));
    assert_eq!(timestamp_from_str("yesterday"), Err(()));
}

#[test]
fn text_helpers() {
    assert!(str_eq("abc", "abc"));
    assert!(!str_eq("abc", "abd"));
    assert!(!str_eq("ab", "abc"));
    assert!(starts_with("Broker:Test", "Broker:"));
    assert!(!starts_with("Brok", "Broker:"));
    assert_eq!(trim_start_matches("ababx", "ab"), "x");
    assert_eq!(trim("  \t x y \n"), "x y");
    assert_eq!(trim("\u{3000}"), "");
}

#[test]
fn connection_types_by_name() {
    assert_eq!(ConnectionType::from_str("Default"), Ok(ConnectionType::Default));
    assert_eq!(ConnectionType::from_str("default"), Ok(ConnectionType::Default));
    assert_eq!(ConnectionType::from_str("strategy_registry"), Ok(ConnectionType::StrategyRegistry));
    assert_eq!(ConnectionType::from_str("Broker: Test"), Ok(ConnectionType::Broker(Brokerage::Test)));
    assert_eq!(ConnectionType::from_str("Broker:Rithmic"), Ok(ConnectionType::Broker(Brokerage::Rithmic)));
    assert_eq!(ConnectionType::from_str("Vendor:Test"), Ok(ConnectionType::Vendor(DataVendor::Test)));
    assert_eq!(
        ConnectionType::from_str("Broker:Nope"),
        Err(FundForgeError::ClientSideErrorDebug("Invalid brokerage string: Nope".to_string()))
    );
    assert_eq!(
        ConnectionType::from_str("Vendor:Rithmic"),
        Err(FundForgeError::ClientSideErrorDebug("Unknown DataVendor string: Rithmic".to_string()))
    );
    assert_eq!(
        ConnectionType::from_str("Server"),
        Err(FundForgeError::ClientSideErrorDebug("Connection Type Server is not recognized".to_string()))
    );
}

#[test]
fn following_month_wraps_december() {
    assert_eq!(following_month(2024, 3), (2024, 4));
    assert_eq!(following_month(2023, 12), (2024, 1));
}

#[test]
fn next_month_is_first_midnight_of_following_month() {
    // 2024-03-15T12:30:00Z -> 2024-04-01T00:00:00Z
    assert_eq!(next_month(1_710_505_800_000_000_000), Some(1_711_929_600_000_000_000));
    // 2023-12-31T23:59:59Z -> 2024-01-01T00:00:00Z
    assert_eq!(next_month(1_704_067_199_000_000_000), Some(1_704_067_200_000_000_000));
    // 2262-04-01: the following May is past the nanosecond range of an i64
    assert_eq!(next_month(9_222_422_400_000_000_000), None);
}

#[test]
fn formatting_an_ascii_name_twice_changes_nothing() {
    for name in ["eur/usd", "aud_cad", "es:z_4 x?", "MES"] {
        let once = fund_forge_formatted_symbol_name(name);
        assert_eq!(once.len(), name.len());
        assert!(!once.contains(|c: char| c == '/' || c == ':' || c == '?' || c == '_' || c == ' '));
        assert_eq!(fund_forge_formatted_symbol_name(&once), once);
        assert_eq!(once.to_uppercase(), once);
    }
}
