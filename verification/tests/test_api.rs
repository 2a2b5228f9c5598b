use ff_standard_lib::apis::brokerage::Brokerage;
use ff_standard_lib::apis::test_api::TestApiClient;
use ff_standard_lib::decimal::Decimal;
use ff_standard_lib::messages::data_server_messaging::FundForgeError;
use ff_standard_lib::standardized_types::{
    BaseDataType, Currency, DataVendor, FuturesExchange, MarketType, Resolution,
};

fn d(m: i64, s: u32) -> Decimal {
    Decimal::new(m, s)
}

#[test]
fn test_client_lists_three_forex_symbols() {
    let client = TestApiClient::new();
    let symbols = client.symbols_response(MarketType::Futures(FuturesExchange::CME));
    let names: Vec<&str> = symbols.iter().map(|s| s.name.as_str()).collect();
    assert_eq!(names, vec!["EUR-USD", "AUD-USD", "AUD-CAD"]);
    assert!(symbols.iter().all(|s| s.data_vendor == DataVendor::Test && s.market_type == MarketType::Forex));
}

#[test]
fn test_client_symbol_info_by_formatted_name() {
    let client = TestApiClient::new();
    let eur = client.symbol_info_response("eur/usd");
    assert_eq!(eur.symbol_name(), "EUR-USD");
    assert_eq!(eur.pnl_currency(), Currency::USD);
    assert_eq!(eur.value_per_tick(), d(10, 1));
    assert_eq!(eur.tick_size(), d(1, 4));
    let other = client.symbol_info_response("xau_usd");
    assert_eq!(other.symbol_name(), "XAU-USD");
    assert_eq!(other.value_per_tick(), d(1, 1));
    assert_eq!(other.tick_size(), d(1, 5));
}

#[test]
fn test_client_margin_at_hundred_to_one() {
    let client = TestApiClient::new();
    let (name, margin) = client.margin_required_response("aud/cad", d(250, 0)).unwrap();
    assert_eq!(name, "AUD-CAD");
    assert!(margin.value_eq(&d(25, 1)));
    let (_, small) = client.margin_required_response("EUR-USD", d(1234, 3)).unwrap();
    assert!(small.value_eq(&d(1, 2)));
    let refused = || FundForgeError::ClientSideErrorDebug("Quantity cannot be 0".to_string());
    assert_eq!(client.margin_required_response("EUR-USD", d(0, 0)), Err(refused()));
    assert_eq!(client.margin_required_response("EUR-USD", d(0, 2)), Err(refused()));
}

#[test]
fn test_client_fixed_answers() {
    let client = TestApiClient::new();
    assert_eq!(client.accounts_response(), vec!["TestAccount1".to_string(), "TestAccount2".to_string()]);
    assert_eq!(client.resolutions_response(MarketType::Forex), vec![(BaseDataType::Quotes, Resolution::Instant)]);
    assert_eq!(client.markets_response(), vec![MarketType::Forex]);
    assert_eq!(client.decimal_accuracy_response("EUR-USD"), 5);
    assert_eq!(client.tick_size_response("EUR-USD"), d(1, 5));
    assert_eq!(client.base_data_types_response(), vec![BaseDataType::Quotes]);
    let info = client.account_info_response("TestAccount1".to_string());
    assert_eq!(info.brokerage, Brokerage::Test);
    assert_eq!(info.cash_value, d(100000, 0));
    assert_eq!(info.cash_available, d(100000, 0));
    assert_eq!(info.cash_used, d(0, 0));
    assert_eq!(info.currency, Currency::USD);
    assert!(!info.is_hedging);
}

#[test]
fn test_client_checked_margin() {
    let client = TestApiClient::new();
    match client.checked_margin_required_response("aud/cad", d(250, 0)) {
        Some(Ok((name, margin))) => {
            assert_eq!(name, "AUD-CAD");
            assert!(margin.value_eq(&d(25, 1)));
        }
        _ => panic!("expected a margin"),
    }
    assert!(matches!(client.checked_margin_required_response("EUR-USD", d(0, 0)), Some(Err(FundForgeError::ClientSideErrorDebug(_)))));
    assert!(Brokerage::Test.checked_margin_required_historical(&"ES".to_string(), d(25, 1)).unwrap().value_eq(&d(2500, 0)));
    let max = Decimal::from_parts(79228162514264337593543950335, 0).unwrap();
    assert_eq!(Brokerage::Test.checked_margin_required_historical(&"ES".to_string(), max), None);
}
