use ff_standard_lib::messages::data_server_messaging::{DataServerRequest, StreamRequest};
use ff_standard_lib::server_connections::{
    contains_subscription, opening_subscription_requests, subscription_changes, ConnectionType,
};
use ff_standard_lib::standardized_types::{
    BaseDataType, DataSubscription, DataVendor, MarketType, Resolution, StrategyMode, Symbol,
};

fn quotes(name: &str, vendor: DataVendor) -> DataSubscription {
    DataSubscription {
        symbol: Symbol::new(name.to_string(), vendor, MarketType::Forex),
        resolution: Resolution::Instant,
        base_data_type: BaseDataType::Quotes,
        market_type: MarketType::Forex,
        candle_type: None,
    }
}

fn subscribe(connection: ConnectionType, s: DataSubscription) -> (ConnectionType, DataServerRequest) {
    (connection, DataServerRequest::StreamRequest { request: StreamRequest::Subscribe(s) })
}

fn unsubscribe(connection: ConnectionType, s: DataSubscription) -> (ConnectionType, DataServerRequest) {
    (connection, DataServerRequest::StreamRequest { request: StreamRequest::Unsubscribe(s) })
}

#[test]
fn new_subscriptions_are_subscribed_and_gone_ones_unsubscribed() {
    let current = vec![quotes("EUR-USD", DataVendor::Test), quotes("AUD-CAD", DataVendor::Test)];
    let updated = vec![quotes("AUD-CAD", DataVendor::Test), quotes("GBP-USD", DataVendor::Test)];
    let requests = subscription_changes(&current, &updated, &vec![DataVendor::Test]);
    assert_eq!(requests, vec![
        subscribe(ConnectionType::Vendor(DataVendor::Test), quotes("GBP-USD", DataVendor::Test)),
        unsubscribe(ConnectionType::Vendor(DataVendor::Test), quotes("EUR-USD", DataVendor::Test)),
    ]);
    // Without a connection configured for the vendor, the default connection is used.
    let requests = subscription_changes(&current, &updated, &vec![]);
    assert_eq!(requests[0].0, ConnectionType::Default);
    assert_eq!(requests[1].0, ConnectionType::Default);
}

#[test]
fn unchanged_subscriptions_send_nothing() {
    let current = vec![quotes("EUR-USD", DataVendor::Test), quotes("AUD-CAD", DataVendor::Test)];
    assert!(subscription_changes(&current, &current, &vec![DataVendor::Test]).is_empty());
    assert!(contains_subscription(&current, &quotes("AUD-CAD", DataVendor::Test)));
    let mut minutes = quotes("AUD-CAD", DataVendor::Test);
    minutes.resolution = Resolution::Minutes(1);
    assert!(!contains_subscription(&current, &minutes));
}

#[test]
fn opening_registers_and_subscribes_each_subscription() {
    let subscriptions = vec![quotes("EUR-USD", DataVendor::Test)];
    let requests = opening_subscription_requests(StrategyMode::Live, &subscriptions, &vec![]);
    assert_eq!(requests, vec![
        (ConnectionType::Default, DataServerRequest::Register(StrategyMode::Live)),
        subscribe(ConnectionType::Default, quotes("EUR-USD", DataVendor::Test)),
    ]);
    assert!(opening_subscription_requests(StrategyMode::Backtest, &subscriptions, &vec![]).is_empty());
}
