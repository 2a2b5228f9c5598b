//! The connections a strategy holds: to a data vendor, a brokerage, the default server or
//! the strategy registry.
use crate::apis::brokerage::Brokerage;
use crate::helpers::text::{
    spec_starts_with, spec_trim, starts_with, str_eq, strip_repeated, trim, trim_start_matches,
};
use crate::messages::data_server_messaging::{
    DataServerRequest, DataServerResponse, FundForgeError, StreamRequest,
};
use crate::standardized_types::{CandleType, DataSubscription, DataVendor, StrategyMode};
use heck::ToPascalCase;
use vstd::prelude::*;

verus! {

/// Either a `Brokerage` or a `DataVendor`, or one of the two fixed connections.
#[derive(Clone, Copy, Debug, PartialEq, Eq, Structural, Hash)]
pub enum ConnectionType {
    Vendor(DataVendor),
    Broker(Brokerage),
    Default,
    StrategyRegistry,
}

/// What `heck`'s `to_pascal_case` returns for `s`.
pub uninterp spec fn pascal_case(s: Seq<char>) -> Seq<char>;

/// `heck::ToPascalCase::to_pascal_case`. Its word splitting and capitalisation rules are
/// not restated here.
#[verifier::external_body]
fn to_pascal_case(s: &str) -> (r: String)
    ensures
        r@ == pascal_case(s@),
{
    s.to_pascal_case()
}

/// The text after the prefix, with the prefix's repetitions and surrounding white space
/// removed.
pub open spec fn after_prefix(s: Seq<char>, prefix: Seq<char>) -> Seq<char> {
    spec_trim(strip_repeated(s, prefix))
}

impl ConnectionType {
    /// The connection named `s`: `"Default"` and `"StrategyRegistry"` as their Pascal-case
    /// forms, `"Broker:<name>"` and `"Vendor:<name>"` with the brokerage or vendor name;
    /// anything else is not recognized.
    pub fn from_str(s: &str) -> (r: Result<ConnectionType, FundForgeError>)
        ensures
            pascal_case(s@) == "Default"@ ==> r == Ok::<ConnectionType, FundForgeError>(
                ConnectionType::Default,
            ),
            pascal_case(s@) != "Default"@ && pascal_case(s@) == "StrategyRegistry"@ ==> r == Ok::<
                ConnectionType,
                FundForgeError,
            >(ConnectionType::StrategyRegistry),
            pascal_case(s@) != "Default"@ && pascal_case(s@) != "StrategyRegistry"@ ==> {
                if spec_starts_with(s@, "Broker:"@) {
                    let name = after_prefix(s@, "Broker:"@);
                    &&& name == "Rithmic"@ ==> r == Ok::<ConnectionType, FundForgeError>(
                        ConnectionType::Broker(Brokerage::Rithmic),
                    )
                    &&& name == "Test"@ ==> r == Ok::<ConnectionType, FundForgeError>(
                        ConnectionType::Broker(Brokerage::Test),
                    )
                    &&& name != "Rithmic"@ && name != "Test"@ ==> (r matches Err(
                        FundForgeError::ClientSideErrorDebug(m),
                    ) && m@ == "Invalid brokerage string: "@ + name)
                } else if spec_starts_with(s@, "Vendor:"@) {
                    let name = after_prefix(s@, "Vendor:"@);
                    &&& name == "Test"@ ==> r == Ok::<ConnectionType, FundForgeError>(
                        ConnectionType::Vendor(DataVendor::Test),
                    )
                    &&& name != "Test"@ ==> (r matches Err(FundForgeError::ClientSideErrorDebug(m))
                        && m@ == "Unknown DataVendor string: "@ + name)
                } else {
                    r matches Err(FundForgeError::ClientSideErrorDebug(m)) && m@
                        == "Connection Type "@ + s@ + " is not recognized"@
                }
            },
    {
        proof {
            reveal_strlit("Broker:");
            reveal_strlit("Vendor:");
        }
        let string = to_pascal_case(s);
        if str_eq(string.as_str(), "Default") {
            Ok(ConnectionType::Default)
        } else if str_eq(string.as_str(), "StrategyRegistry") {
            Ok(ConnectionType::StrategyRegistry)
        } else if starts_with(s, "Broker:") {
            let data = trim(trim_start_matches(s, "Broker:"));
            match Brokerage::from_str(data) {
                Ok(brokerage) => Ok(ConnectionType::Broker(brokerage)),
                Err(e) => Err(e),
            }
        } else if starts_with(s, "Vendor:") {
            let data = trim(trim_start_matches(s, "Vendor:"));
            match DataVendor::from_str(data) {
                Ok(vendor) => Ok(ConnectionType::Vendor(vendor)),
                Err(e) => Err(e),
            }
        } else {
            Err(
                FundForgeError::ClientSideErrorDebug(
                    String::from_str("Connection Type ").concat(s).concat(" is not recognized"),
                ),
            )
        }
    }
}


/// What happened to a data subscription the strategy asked for.
#[derive(Debug, PartialEq, Eq)]
pub enum DataSubscriptionEvent {
    Subscribed(DataSubscription),
    FailedSubscribed(DataSubscription, String),
    Unsubscribed(DataSubscription),
    FailedUnSubscribed(DataSubscription, String),
}

/// What the client does with an answer from a server.
#[derive(Debug)]
pub enum ResponseAction {
    /// Hand the answer to the request waiting on this callback id.
    Callback(u64, DataServerResponse),
    /// Send the event to the strategy at once.
    SendEvent(DataSubscriptionEvent),
    /// Add the event to the events sent with the next time slice.
    BufferEvent(DataSubscriptionEvent),
}

/// The client can act on `response`: it answers a request, or it is a subscription or
/// unsubscription answer that gives a reason where it failed.
pub open spec fn response_handled(response: DataServerResponse) -> bool {
    match response.spec_callback_id() {
        Some(_) => true,
        None => match response {
            DataServerResponse::SubscribeResponse { success, reason, .. } => success || reason is Some,
            DataServerResponse::UnSubscribeResponse { success, reason, .. } => success || reason is Some,
            _ => false,
        },
    }
}

/// What the client does with `response`: an answer to a request goes to the request
/// waiting on its callback id; a successful subscription is reported to the strategy at
/// once; a failed subscription and every unsubscription answer wait for the next time
/// slice.
pub fn response_action(response: DataServerResponse) -> (r: ResponseAction)
    requires
        response_handled(response),
    ensures
        match response.spec_callback_id() {
            Some(id) => r == ResponseAction::Callback(id, response),
            None => match response {
                DataServerResponse::SubscribeResponse { success, subscription, reason } => r == (
                if success {
                    ResponseAction::SendEvent(DataSubscriptionEvent::Subscribed(subscription))
                } else {
                    ResponseAction::BufferEvent(
                        DataSubscriptionEvent::FailedSubscribed(subscription, reason->0),
                    )
                }),
                DataServerResponse::UnSubscribeResponse { success, subscription, reason } => r == (
                if success {
                    ResponseAction::BufferEvent(DataSubscriptionEvent::Unsubscribed(subscription))
                } else {
                    ResponseAction::BufferEvent(
                        DataSubscriptionEvent::FailedUnSubscribed(subscription, reason->0),
                    )
                }),
                _ => false,
            },
        },
{
    match response.get_callback_id() {
        Some(id) => ResponseAction::Callback(id, response),
        None => match response {
            DataServerResponse::SubscribeResponse { success, subscription, reason } => {
                if success {
                    ResponseAction::SendEvent(DataSubscriptionEvent::Subscribed(subscription))
                } else {
                    ResponseAction::BufferEvent(
                        DataSubscriptionEvent::FailedSubscribed(subscription, reason.unwrap()),
                    )
                }
            },
            DataServerResponse::UnSubscribeResponse { success, subscription, reason } => {
                if success {
                    ResponseAction::BufferEvent(DataSubscriptionEvent::Unsubscribed(subscription))
                } else {
                    ResponseAction::BufferEvent(
                        DataSubscriptionEvent::FailedUnSubscribed(subscription, reason.unwrap()),
                    )
                }
            },
            _ => vstd::pervasive::unreached(),
        },
    }
}

/// Two subscriptions to the same data: the same symbol (name, market and vendor), the
/// same resolution, base data type, market type and candle type.
pub open spec fn same_subscription(a: DataSubscription, b: DataSubscription) -> bool {
    &&& a.symbol.name@ == b.symbol.name@
    &&& a.symbol.market_type == b.symbol.market_type
    &&& a.symbol.data_vendor == b.symbol.data_vendor
    &&& a.resolution == b.resolution
    &&& a.base_data_type == b.base_data_type
    &&& a.market_type == b.market_type
    &&& a.candle_type == b.candle_type
}

/// `s` is among `subscriptions`.
pub open spec fn subscribed(subscriptions: Seq<DataSubscription>, s: DataSubscription) -> bool {
    exists|i: int| 0 <= i < subscriptions.len() && same_subscription(#[trigger] subscriptions[i], s)
}

/// The connection a vendor's data comes over: the vendor's own where the settings
/// configure one, else the default connection.
pub open spec fn vendor_connection(vendor: DataVendor, configured: Seq<DataVendor>) -> ConnectionType {
    if configured.contains(vendor) {
        ConnectionType::Vendor(vendor)
    } else {
        ConnectionType::Default
    }
}

/// A stream request for `s`, on the connection its vendor's data comes over.
pub open spec fn stream_request_for(
    s: DataSubscription,
    configured: Seq<DataVendor>,
    request: StreamRequest,
) -> (ConnectionType, DataServerRequest) {
    (vendor_connection(s.symbol.data_vendor, configured), DataServerRequest::StreamRequest { request })
}

/// The subscribe requests for the subscriptions of `updated` that `current` lacks, in
/// their order.
pub open spec fn subscribe_requests(
    current: Seq<DataSubscription>,
    updated: Seq<DataSubscription>,
    configured: Seq<DataVendor>,
) -> Seq<(ConnectionType, DataServerRequest)>
    decreases updated.len(),
{
    if updated.len() == 0 {
        Seq::empty()
    } else {
        let rest = subscribe_requests(current, updated.drop_last(), configured);
        let s = updated.last();
        if subscribed(current, s) {
            rest
        } else {
            rest.push(stream_request_for(s, configured, StreamRequest::Subscribe(s)))
        }
    }
}

/// The unsubscribe requests for the subscriptions of `current` that `updated` lacks, in
/// their order.
pub open spec fn unsubscribe_requests(
    current: Seq<DataSubscription>,
    updated: Seq<DataSubscription>,
    configured: Seq<DataVendor>,
) -> Seq<(ConnectionType, DataServerRequest)>
    decreases current.len(),
{
    if current.len() == 0 {
        Seq::empty()
    } else {
        let rest = unsubscribe_requests(current.drop_last(), updated, configured);
        let s = current.last();
        if subscribed(updated, s) {
            rest
        } else {
            rest.push(stream_request_for(s, configured, StreamRequest::Unsubscribe(s)))
        }
    }
}

/// For each subscription in order: the registration of the strategy's mode and the
/// subscribe request, both on the subscription's connection.
pub open spec fn opening_requests(
    mode: StrategyMode,
    subscriptions: Seq<DataSubscription>,
    configured: Seq<DataVendor>,
) -> Seq<(ConnectionType, DataServerRequest)>
    decreases subscriptions.len(),
{
    if subscriptions.len() == 0 {
        Seq::empty()
    } else {
        let s = subscriptions.last();
        let connection = vendor_connection(s.symbol.data_vendor, configured);
        opening_requests(mode, subscriptions.drop_last(), configured).push(
            (connection, DataServerRequest::Register(mode)),
        ).push(stream_request_for(s, configured, StreamRequest::Subscribe(s)))
    }
}

/// Whether `a` and `b` subscribe to the same data.
pub fn is_same_subscription(a: &DataSubscription, b: &DataSubscription) -> (r: bool)
    ensures
        r == same_subscription(*a, *b),
{
    let same_candles = match (a.candle_type, b.candle_type) {
        (Some(x), Some(y)) => x == y,
        (None, None) => true,
        _ => false,
    };
    a.symbol.name == b.symbol.name && a.symbol.market_type == b.symbol.market_type
        && a.symbol.data_vendor == b.symbol.data_vendor && a.resolution == b.resolution
        && a.base_data_type == b.base_data_type && a.market_type == b.market_type && same_candles
}

/// Whether `s` is among `subscriptions`.
pub fn contains_subscription(subscriptions: &Vec<DataSubscription>, s: &DataSubscription) -> (r: bool)
    ensures
        r == subscribed(subscriptions@, *s),
{
    let mut i: usize = 0;
    while i < subscriptions.len()
        invariant
            i <= subscriptions@.len(),
            forall|k: int| 0 <= k < i ==> !same_subscription(#[trigger] subscriptions@[k], *s),
        decreases subscriptions.len() - i,
    {
        if is_same_subscription(&subscriptions[i], s) {
            return true;
        }
        i = i + 1;
    }
    false
}

/// The connection `vendor`'s data comes over, given the vendors the settings configure.
pub fn connection_for_vendor(vendor: DataVendor, configured: &Vec<DataVendor>) -> (r: ConnectionType)
    ensures
        r == vendor_connection(vendor, configured@),
{
    let mut i: usize = 0;
    while i < configured.len()
        invariant
            i <= configured@.len(),
            forall|k: int| 0 <= k < i ==> configured@[k] != vendor,
        decreases configured.len() - i,
    {
        if configured[i] == vendor {
            proof {
                assert(configured@[i as int] == vendor);
            }
            return ConnectionType::Vendor(vendor);
        }
        i = i + 1;
    }
    ConnectionType::Default
}

/// What the live subscription handler sends when it starts: for each primary subscription,
/// in order, the registration of the strategy's mode and the subscribe request, on the
/// subscription vendor's connection where one is configured (else the default). A
/// backtest sends nothing.
pub fn opening_subscription_requests(
    mode: StrategyMode,
    subscriptions: &Vec<DataSubscription>,
    configured_vendors: &Vec<DataVendor>,
) -> (r: Vec<(ConnectionType, DataServerRequest)>)
    ensures
        mode == StrategyMode::Backtest ==> r@.len() == 0,
        mode != StrategyMode::Backtest ==> r@ == opening_requests(mode, subscriptions@, configured_vendors@),
{
    let mut requests: Vec<(ConnectionType, DataServerRequest)> = Vec::new();
    if mode == StrategyMode::Backtest {
        return requests;
    }
    let mut i: usize = 0;
    while i < subscriptions.len()
        invariant
            i <= subscriptions@.len(),
            requests@ == opening_requests(mode, subscriptions@.take(i as int), configured_vendors@),
        decreases subscriptions.len() - i,
    {
        let s = &subscriptions[i];
        let connection = connection_for_vendor(s.symbol.data_vendor, configured_vendors);
        requests.push((connection, DataServerRequest::Register(mode)));
        requests.push((connection, DataServerRequest::StreamRequest { request: StreamRequest::Subscribe(s.copy()) }));
        proof {
            assert(subscriptions@.take(i + 1).drop_last() =~= subscriptions@.take(i as int));
            assert(subscriptions@.take(i + 1).last() == subscriptions@[i as int]);
        }
        i = i + 1;
    }
    proof {
        assert(subscriptions@.take(subscriptions@.len() as int) =~= subscriptions@);
    }
    requests
}

/// What the live subscription handler sends when the primary subscriptions change from
/// `current` to `updated`: a subscribe request for each subscription that is new, in
/// order, then an unsubscribe request for each that is gone; each on its vendor's
/// connection where one is configured, else the default.
pub fn subscription_changes(
    current: &Vec<DataSubscription>,
    updated: &Vec<DataSubscription>,
    configured_vendors: &Vec<DataVendor>,
) -> (r: Vec<(ConnectionType, DataServerRequest)>)
    ensures
        r@ == subscribe_requests(current@, updated@, configured_vendors@) + unsubscribe_requests(
            current@,
            updated@,
            configured_vendors@,
        ),
{
    let mut requests: Vec<(ConnectionType, DataServerRequest)> = Vec::new();
    let mut i: usize = 0;
    while i < updated.len()
        invariant
            i <= updated@.len(),
            requests@ == subscribe_requests(current@, updated@.take(i as int), configured_vendors@),
        decreases updated.len() - i,
    {
        let s = &updated[i];
        proof {
            assert(updated@.take(i + 1).drop_last() =~= updated@.take(i as int));
            assert(updated@.take(i + 1).last() == updated@[i as int]);
        }
        if !contains_subscription(current, s) {
            let connection = connection_for_vendor(s.symbol.data_vendor, configured_vendors);
            requests.push((connection, DataServerRequest::StreamRequest { request: StreamRequest::Subscribe(s.copy()) }));
        }
        i = i + 1;
    }
    proof {
        assert(updated@.take(updated@.len() as int) =~= updated@);
    }
    let ghost subscribes = requests@;
    let mut j: usize = 0;
    proof {
        assert(current@.take(0) =~= Seq::<DataSubscription>::empty());
        assert(subscribes + Seq::<(ConnectionType, DataServerRequest)>::empty() =~= subscribes);
    }
    while j < current.len()
        invariant
            j <= current@.len(),
            requests@ == subscribes + unsubscribe_requests(current@.take(j as int), updated@, configured_vendors@),
        decreases current.len() - j,
    {
        let s = &current[j];
        proof {
            assert(current@.take(j + 1).drop_last() =~= current@.take(j as int));
            assert(current@.take(j + 1).last() == current@[j as int]);
        }
        let ghost before = requests@;
        if !contains_subscription(updated, s) {
            let connection = connection_for_vendor(s.symbol.data_vendor, configured_vendors);
            requests.push((connection, DataServerRequest::StreamRequest { request: StreamRequest::Unsubscribe(s.copy()) }));
            proof {
                assert(requests@ =~= subscribes + unsubscribe_requests(current@.take(j as int), updated@, configured_vendors@).push(
                    stream_request_for(current@[j as int], configured_vendors@, StreamRequest::Unsubscribe(current@[j as int])),
                ));
            }
        }
        j = j + 1;
    }
    proof {
        assert(current@.take(current@.len() as int) =~= current@);
    }
    requests
}

/// Every subscription is among the subscriptions it was taken from.
proof fn lemma_each_subscribed(subscriptions: Seq<DataSubscription>, i: int)
    requires
        0 <= i < subscriptions.len(),
    ensures
        subscribed(subscriptions, subscriptions[i]),
{
    assert(same_subscription(subscriptions[i], subscriptions[i]));
}

proof fn lemma_nothing_new(current: Seq<DataSubscription>, updated: Seq<DataSubscription>, configured: Seq<DataVendor>)
    requires
        forall|i: int| 0 <= i < updated.len() ==> subscribed(current, #[trigger] updated[i]),
    ensures
        subscribe_requests(current, updated, configured).len() == 0,
        unsubscribe_requests(updated, current, configured).len() == 0,
    decreases updated.len(),
{
    if updated.len() > 0 {
        let init = updated.drop_last();
        assert forall|i: int| 0 <= i < init.len() implies subscribed(current, #[trigger] init[i]) by {
            assert(init[i] == updated[i]);
        }
        lemma_nothing_new(current, init, configured);
        assert(subscribed(current, updated[updated.len() - 1]));
    }
}

/// When the primary subscriptions have not changed, the handler sends nothing.
pub proof fn law_unchanged_subscriptions_send_nothing(subscriptions: Seq<DataSubscription>, configured: Seq<DataVendor>)
    ensures
        subscribe_requests(subscriptions, subscriptions, configured) + unsubscribe_requests(
            subscriptions,
            subscriptions,
            configured,
        ) == Seq::<(ConnectionType, DataServerRequest)>::empty(),
{
    assert forall|i: int| 0 <= i < subscriptions.len() implies subscribed(subscriptions, #[trigger] subscriptions[i]) by {
        lemma_each_subscribed(subscriptions, i);
    }
    lemma_nothing_new(subscriptions, subscriptions, configured);
    assert(subscribe_requests(subscriptions, subscriptions, configured) + unsubscribe_requests(
        subscriptions,
        subscriptions,
        configured,
    ) =~= Seq::<(ConnectionType, DataServerRequest)>::empty());
}

} // verus!
