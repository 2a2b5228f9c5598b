use ff_standard_lib::export_formats::date_from_file_stem;
use ff_standard_lib::server_connections::{response_action, DataSubscriptionEvent, ResponseAction};
use ff_standard_lib::standardized_types::{DataSubscription, Symbol};
use ff_standard_lib::apis::api_modes::Mode;
use ff_standard_lib::apis::brokerage::{Brokerage, SymbolInfo};
use ff_standard_lib::apis::rithmic::api_client::{Credentials, RithmicApiClient};
use ff_standard_lib::apis::test_vendor_impl::api_client::TestVendorApi;
use ff_standard_lib::decimal::Decimal;
use ff_standard_lib::export_formats::ExportFormat;
use ff_standard_lib::helpers::{get_resources, get_toml_file_path};
use ff_standard_lib::indicators::IndicatorPlot;
use ff_standard_lib::lightweight_charts::horz_scale::ohlc_enum::{BarData, CandleStickData, OhlcData};
use ff_standard_lib::lightweight_charts::horz_scale::single_value_data_enum::{AreaData, LineData, SingleValueData};
use ff_standard_lib::lightweight_charts::horz_scale::HorizontalScaleItem;
use ff_standard_lib::messages::data_server_messaging::{
    DataServerRequest, DataServerResponse, FundForgeError, SubscriptionResolutionType,
};
use ff_standard_lib::standardized_types::{
    BaseDataType, Currency, DataVendor, MarketType, Resolution, StrategyMode,
};

fn d(m: i64, s: u32) -> Decimal {
    Decimal::new(m, s)
}

#[test]
fn callback_ids() {
    let mut r = DataServerRequest::TickSize { callback_id: 0, data_vendor: DataVendor::Test, symbol_name: "ES".to_string() };
    r.set_callback_id(42);
    assert_eq!(r, DataServerRequest::TickSize { callback_id: 42, data_vendor: DataVendor::Test, symbol_name: "ES".to_string() });
    r.set_callback_id(7);
    assert_eq!(r, DataServerRequest::TickSize { callback_id: 7, data_vendor: DataVendor::Test, symbol_name: "ES".to_string() });
    let mut reg = DataServerRequest::Register(StrategyMode::Backtest);
    reg.set_callback_id(9);
    assert_eq!(reg, DataServerRequest::Register(StrategyMode::Backtest));
    let mut streamer = DataServerRequest::RegisterStreamer { port: 1, secs: 2, subsec: 3 };
    streamer.set_callback_id(9);
    assert_eq!(streamer, DataServerRequest::RegisterStreamer { port: 1, secs: 2, subsec: 3 });
}

#[test]
fn brokerage_and_vendor_names() {
    assert_eq!(Brokerage::from_str("Test"), Ok(Brokerage::Test));
    assert_eq!(Brokerage::from_str("Rithmic"), Ok(Brokerage::Rithmic));
    assert_eq!(Brokerage::from_str("IB"), Err(FundForgeError::ClientSideErrorDebug("Invalid brokerage string: IB".to_string())));
    assert_eq!(Brokerage::Rithmic.name(), "Rithmic");
    assert_eq!(Brokerage::Test.user_currency(), Currency::USD);
    assert_eq!(Brokerage::Test.starting_cash(), d(1000000, 1));
    assert!(Brokerage::Test.margin_required_historical(&"ES".to_string(), d(15, 1)).value_eq(&d(1500, 0)));
    assert_eq!(DataVendor::from_str("Test"), Ok(DataVendor::Test));
    assert_eq!(DataVendor::from_str("X"), Err(FundForgeError::ClientSideErrorDebug("Unknown DataVendor string: X".to_string())));
    assert_eq!(Mode::from_str("live"), Ok(Mode::Live));
    assert_eq!(Mode::from_str("practice"), Ok(Mode::Practice));
    assert_eq!(Mode::from_str("Live"), Err(()));
    assert_eq!(Mode::Practice.to_str(), "practice");
    assert_eq!(ExportFormat::JSON.name(), "JSON");
}

#[test]
fn symbol_info_and_clients() {
    let info = SymbolInfo::new("ES".to_string(), Currency::USD, d(125, 1), d(25, 2));
    assert_eq!(info.symbol_name(), "ES");
    assert_eq!(info.pnl_currency(), Currency::USD);
    assert_eq!(info.value_per_tick(), d(125, 1));
    assert_eq!(info.tick_size(), d(25, 2));
    let creds = Credentials {
        uri: "wss://x".to_string(), user: "u".to_string(), system_name: "s".to_string(), password: "p".to_string(),
        app_name: "a".to_string(), app_version: "1".to_string(), aggregated_quotes: true,
        template_version: "3".to_string(), pem: "pem".to_string(), base_url: "b".to_string(),
    };
    let client = RithmicApiClient::new(creds);
    assert_eq!(client.credentials().user, "u");
}

#[test]
fn test_vendor_answers() {
    let api = TestVendorApi::new();
    let symbols = api.basedata_symbols_response(MarketType::Forex).unwrap();
    assert_eq!(symbols.len(), 2);
    assert_eq!(symbols[0].name, "AUD-USD");
    assert_eq!(symbols[1].name, "AUD-CAD");
    assert_eq!(
        api.basedata_symbols_response(MarketType::CFD).unwrap_err(),
        FundForgeError::ClientSideErrorDebug("Market Type not supported".to_string())
    );
    assert_eq!(api.resolutions_response(MarketType::Forex).unwrap(), vec![Resolution::Ticks(1), Resolution::Minutes(1)]);
    assert!(api.resolutions_response(MarketType::Equities).is_err());
    assert_eq!(api.markets_response(), vec![MarketType::Forex]);
    assert_eq!(api.account_currency_reponse("a".to_string()), ("a".to_string(), Currency::USD));
    let info = api.account_info_response("a".to_string());
    assert!(info.is_hedging);
    assert!(info.cash_value.value_eq(&d(100000, 0)));
}

#[test]
fn chart_items() {
    let candle = CandleStickData::new(10, d(1, 0), d(3, 0), d(0, 0), d(2, 0), Some("#fff".to_string()), None, None);
    let ohlc = OhlcData::CandleStickData(candle);
    assert_eq!(ohlc.open(), d(1, 0));
    assert_eq!(ohlc.high(), d(3, 0));
    assert_eq!(ohlc.low(), d(0, 0));
    assert_eq!(ohlc.close(), d(2, 0));
    assert_eq!(ohlc.timestamp_utc(), 10);
    let bar = BarData::new(20, d(1, 0), d(2, 0), d(0, 0), d(1, 0), None);
    assert_eq!(bar.timestamp_utc(), 20);
    let line = SingleValueData::LineData(LineData::new(30, None, d(5, 0)));
    assert_eq!(line.value(), d(5, 0));
    let area = SingleValueData::AreaData(AreaData::new(40, None, None, None, d(6, 0)));
    assert_eq!(area.value(), d(6, 0));
    assert_eq!(HorizontalScaleItem::SingleValueData(area).timestamp_utc(), 40);
    assert_eq!(HorizontalScaleItem::OhlcData(OhlcData::BarData(bar)).timestamp_utc(), 20);
    let plot = IndicatorPlot::new("atr".to_string(), d(15, 1), None);
    assert_eq!(plot.value, d(15, 1));
}

#[test]
fn resource_paths() {
    assert_eq!(get_resources(), "resources");
    assert_eq!(get_toml_file_path(), "resources/server_settings.toml");
}

#[test]
fn fund_forge_error_messages() {
    assert_eq!(FundForgeError::InvalidApiKey.message(), "InvalidApiKey");
    assert_eq!(FundForgeError::InvalidRequestType("Foo".to_string()).message(), "InvalidRequestType: Foo");
    assert_eq!(FundForgeError::ServerErrorDebug("db down".to_string()).message(), "ServerErrorDebug: db down");
    assert_eq!(FundForgeError::ClientSideErrorDebug("bad bytes".to_string()).message(), "ClientSideErrorDebug: bad bytes");
    assert_eq!(FundForgeError::UnknownBlameError("?".to_string()).message(), "UnknownBlameError: ?");
    assert_eq!(FundForgeError::ConnectionNotFound("Default".to_string()).message(), "ConnectionNotFound: Default:");
}

#[test]
fn daily_file_stems_name_dates() {
    assert_eq!(date_from_file_stem("20240131"), Ok((2024, 1, 31)));
    assert_eq!(date_from_file_stem("20240229"), Ok((2024, 2, 29)));
    assert_eq!(date_from_file_stem("20230229"), Err("Invalid date".to_string()));
    assert_eq!(date_from_file_stem("2024013"), Err("Invalid date format in filename".to_string()));
    assert_eq!(date_from_file_stem("20x40131"), Err("Invalid year".to_string()));
    assert_eq!(date_from_file_stem("2024-131"), Err("Invalid month".to_string()));
    assert_eq!(date_from_file_stem("202401+x"), Err("Invalid day".to_string()));
    assert_eq!(date_from_file_stem("+9990101"), Ok((999, 1, 1)));
}

#[test]
fn responses_carry_the_callback_id_of_their_request() {
    let error = DataServerResponse::Error { callback_id: 7, error: FundForgeError::InvalidApiKey };
    assert_eq!(error.get_callback_id(), Some(7));
    let markets = DataServerResponse::Markets { callback_id: 9, markets: vec![MarketType::Forex] };
    assert_eq!(markets.get_callback_id(), Some(9));
    let resolutions = DataServerResponse::Resolutions {
        callback_id: 11,
        subscription_resolutions_types: vec![SubscriptionResolutionType {
            base_data_type: BaseDataType::Quotes,
            resolution: Resolution::Instant,
        }],
        market_type: MarketType::Forex,
    };
    assert_eq!(resolutions.get_callback_id(), Some(11));
    assert_eq!(DataServerResponse::RegistrationResponse(8080).get_callback_id(), None);
    let snapshot = DataServerResponse::LiveAccountSnapShot {
        brokerage: Brokerage::Test,
        account_id: "acc".to_string(),
        cash_value: Decimal::new(1, 0),
        cash_available: Decimal::new(1, 0),
        cash_used: Decimal::new(0, 0),
    };
    assert_eq!(snapshot.get_callback_id(), None);
}

fn eur_quotes() -> DataSubscription {
    DataSubscription {
        symbol: Symbol::new("EUR-USD".to_string(), DataVendor::Test, MarketType::Forex),
        resolution: Resolution::Instant,
        base_data_type: BaseDataType::Quotes,
        market_type: MarketType::Forex,
        candle_type: None,
    }
}

#[test]
fn server_answers_are_routed() {
    match response_action(DataServerResponse::Markets { callback_id: 4, markets: vec![MarketType::Forex] }) {
        ResponseAction::Callback(4, DataServerResponse::Markets { .. }) => {}
        other => panic!("unexpected {:?}", other),
    }
    match response_action(DataServerResponse::SubscribeResponse { success: true, subscription: eur_quotes(), reason: None }) {
        ResponseAction::SendEvent(DataSubscriptionEvent::Subscribed(s)) => assert_eq!(s, eur_quotes()),
        other => panic!("unexpected {:?}", other),
    }
    match response_action(DataServerResponse::SubscribeResponse { success: false, subscription: eur_quotes(), reason: Some("no data".to_string()) }) {
        ResponseAction::BufferEvent(DataSubscriptionEvent::FailedSubscribed(_, reason)) => assert_eq!(reason, "no data"),
        other => panic!("unexpected {:?}", other),
    }
    match response_action(DataServerResponse::UnSubscribeResponse { success: true, subscription: eur_quotes(), reason: None }) {
        ResponseAction::BufferEvent(DataSubscriptionEvent::Unsubscribed(_)) => {}
        other => panic!("unexpected {:?}", other),
    }
    match response_action(DataServerResponse::UnSubscribeResponse { success: false, subscription: eur_quotes(), reason: Some("none".to_string()) }) {
        ResponseAction::BufferEvent(DataSubscriptionEvent::FailedUnSubscribed(_, reason)) => assert_eq!(reason, "none"),
        other => panic!("unexpected {:?}", other),
    }
}
