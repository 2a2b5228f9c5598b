//! Requests, responses and errors of the data server protocol.
use crate::apis::brokerage::{AccountId, AccountInfo, Brokerage};
use crate::decimal::Decimal;
use crate::standardized_types::{
    BaseDataEnum, BaseDataType, CommissionInfo, Currency, DataSubscription, DataVendor,
    MarketType, Price, Resolution, StrategyMode, Symbol, SymbolInfo, SymbolName, Volume,
};
use std::collections::BTreeMap;
use vstd::prelude::*;

verus! {

/// The kind of error that occurred, with a debug message where there is one.
#[derive(Debug, PartialEq, Eq)]
pub enum FundForgeError {
    /// The API key used to authenticate the request is invalid.
    InvalidApiKey,
    /// The type of request being made is invalid.
    InvalidRequestType(String),
    /// A server side error occurred.
    ServerErrorDebug(String),
    /// A client side error occurred.
    ClientSideErrorDebug(String),
    /// An unknown error occurred, the blame is unknown.
    UnknownBlameError(String),
    /// The connection was not found.
    ConnectionNotFound(String),
}

impl FundForgeError {
    /// The error as text: the kind, then a colon and the debug message where there is one.
    pub fn message(&self) -> (r: String)
        ensures
            r@ == (match self {
                FundForgeError::InvalidApiKey => "InvalidApiKey"@,
                FundForgeError::InvalidRequestType(s) => "InvalidRequestType: "@ + s@,
                FundForgeError::ServerErrorDebug(s) => "ServerErrorDebug: "@ + s@,
                FundForgeError::ClientSideErrorDebug(s) => "ClientSideErrorDebug: "@ + s@,
                FundForgeError::UnknownBlameError(s) => "UnknownBlameError: "@ + s@,
                FundForgeError::ConnectionNotFound(s) => "ConnectionNotFound: "@ + s@ + ":"@,
            }),
    {
        match self {
            FundForgeError::InvalidApiKey => String::from_str("InvalidApiKey"),
            FundForgeError::InvalidRequestType(s) => String::from_str("InvalidRequestType: ").concat(s.as_str()),
            FundForgeError::ServerErrorDebug(s) => String::from_str("ServerErrorDebug: ").concat(s.as_str()),
            FundForgeError::ClientSideErrorDebug(s) => String::from_str("ClientSideErrorDebug: ").concat(s.as_str()),
            FundForgeError::UnknownBlameError(s) => String::from_str("UnknownBlameError: ").concat(s.as_str()),
            FundForgeError::ConnectionNotFound(s) => String::from_str("ConnectionNotFound: ").concat(s.as_str()).concat(":"),
        }
    }
}

/// What the server streams back about subscriptions.
#[derive(Debug, PartialEq, Eq)]
pub enum StreamResponse {
    SubscribeBaseData(DataSubscription),
    CreateConsolidator { primary: DataSubscription, secondary: DataSubscription },
    UnSubscribeBaseData(DataSubscription),
}

/// Streams a client asks the server for.
#[derive(Debug, PartialEq, Eq)]
pub enum StreamRequest {
    AccountUpdates(Brokerage, AccountId),
    Subscribe(DataSubscription),
    Unsubscribe(DataSubscription),
}

/// A request to the data server. Requests that expect an answer carry the callback id the
/// answer will be matched by.
#[derive(Debug, PartialEq, Eq)]
pub enum DataServerRequest {
    Register(StrategyMode),
    HistoricalBaseDataRange { callback_id: u64, subscriptions: Vec<DataSubscription>, from_time: String, to_time: String },
    SymbolsVendor { callback_id: u64, data_vendor: DataVendor, market_type: MarketType, time: Option<String> },
    BaseDataTypes { callback_id: u64, data_vendor: DataVendor },
    Resolutions { callback_id: u64, data_vendor: DataVendor, market_type: MarketType },
    AccountInfo { callback_id: u64, brokerage: Brokerage, account_id: AccountId },
    Markets { callback_id: u64, data_vendor: DataVendor },
    TickSize { callback_id: u64, data_vendor: DataVendor, symbol_name: SymbolName },
    DecimalAccuracy { callback_id: u64, data_vendor: DataVendor, symbol_name: SymbolName },
    SymbolInfo { callback_id: u64, brokerage: Brokerage, symbol_name: SymbolName },
    StreamRequest { request: StreamRequest },
    IntradayMarginRequired { callback_id: u64, quantity: Volume, brokerage: Brokerage, symbol_name: SymbolName },
    OvernightMarginRequired { callback_id: u64, quantity: Volume, brokerage: Brokerage, symbol_name: SymbolName },
    PrimarySubscriptionFor { callback_id: u64, subscription: DataSubscription },
    CommissionInfo { callback_id: u64, brokerage: Brokerage, symbol_name: SymbolName },
    SessionMarketHours { callback_id: u64, data_vendor: DataVendor, symbol_name: SymbolName, date: String },
    PaperAccountInit { callback_id: u64, account_id: AccountId, brokerage: Brokerage },
    Accounts { callback_id: u64, brokerage: Brokerage },
    SymbolNames { callback_id: u64, brokerage: Brokerage, time: Option<String> },
    RegisterStreamer { port: u16, secs: u64, subsec: u32 },
}

impl DataServerRequest {
    /// The callback id of a request that expects an answer.
    pub open spec fn spec_callback_id(self) -> Option<u64> {
        match self {
            DataServerRequest::Register(..) => None,
            DataServerRequest::HistoricalBaseDataRange { callback_id, .. } => Some(callback_id),
            DataServerRequest::SymbolsVendor { callback_id, .. } => Some(callback_id),
            DataServerRequest::BaseDataTypes { callback_id, .. } => Some(callback_id),
            DataServerRequest::Resolutions { callback_id, .. } => Some(callback_id),
            DataServerRequest::AccountInfo { callback_id, .. } => Some(callback_id),
            DataServerRequest::Markets { callback_id, .. } => Some(callback_id),
            DataServerRequest::TickSize { callback_id, .. } => Some(callback_id),
            DataServerRequest::DecimalAccuracy { callback_id, .. } => Some(callback_id),
            DataServerRequest::SymbolInfo { callback_id, .. } => Some(callback_id),
            DataServerRequest::StreamRequest { .. } => None,
            DataServerRequest::IntradayMarginRequired { callback_id, .. } => Some(callback_id),
            DataServerRequest::OvernightMarginRequired { callback_id, .. } => Some(callback_id),
            DataServerRequest::PrimarySubscriptionFor { callback_id, .. } => Some(callback_id),
            DataServerRequest::CommissionInfo { callback_id, .. } => Some(callback_id),
            DataServerRequest::SessionMarketHours { callback_id, .. } => Some(callback_id),
            DataServerRequest::PaperAccountInit { callback_id, .. } => Some(callback_id),
            DataServerRequest::Accounts { callback_id, .. } => Some(callback_id),
            DataServerRequest::SymbolNames { callback_id, .. } => Some(callback_id),
            DataServerRequest::RegisterStreamer { .. } => None,
        }
    }

    /// The request with its callback id set to `id`; requests without one are unchanged.
    pub open spec fn with_callback_id(self, id: u64) -> DataServerRequest {
        match self {
            DataServerRequest::Register(..) => self,
            DataServerRequest::HistoricalBaseDataRange { subscriptions, from_time, to_time, .. } => DataServerRequest::HistoricalBaseDataRange { callback_id: id, subscriptions, from_time, to_time },
            DataServerRequest::SymbolsVendor { data_vendor, market_type, time, .. } => DataServerRequest::SymbolsVendor { callback_id: id, data_vendor, market_type, time },
            DataServerRequest::BaseDataTypes { data_vendor, .. } => DataServerRequest::BaseDataTypes { callback_id: id, data_vendor },
            DataServerRequest::Resolutions { data_vendor, market_type, .. } => DataServerRequest::Resolutions { callback_id: id, data_vendor, market_type },
            DataServerRequest::AccountInfo { brokerage, account_id, .. } => DataServerRequest::AccountInfo { callback_id: id, brokerage, account_id },
            DataServerRequest::Markets { data_vendor, .. } => DataServerRequest::Markets { callback_id: id, data_vendor },
            DataServerRequest::TickSize { data_vendor, symbol_name, .. } => DataServerRequest::TickSize { callback_id: id, data_vendor, symbol_name },
            DataServerRequest::DecimalAccuracy { data_vendor, symbol_name, .. } => DataServerRequest::DecimalAccuracy { callback_id: id, data_vendor, symbol_name },
            DataServerRequest::SymbolInfo { brokerage, symbol_name, .. } => DataServerRequest::SymbolInfo { callback_id: id, brokerage, symbol_name },
            DataServerRequest::StreamRequest { .. } => self,
            DataServerRequest::IntradayMarginRequired { quantity, brokerage, symbol_name, .. } => DataServerRequest::IntradayMarginRequired { callback_id: id, quantity, brokerage, symbol_name },
            DataServerRequest::OvernightMarginRequired { quantity, brokerage, symbol_name, .. } => DataServerRequest::OvernightMarginRequired { callback_id: id, quantity, brokerage, symbol_name },
            DataServerRequest::PrimarySubscriptionFor { subscription, .. } => DataServerRequest::PrimarySubscriptionFor { callback_id: id, subscription },
            DataServerRequest::CommissionInfo { brokerage, symbol_name, .. } => DataServerRequest::CommissionInfo { callback_id: id, brokerage, symbol_name },
            DataServerRequest::SessionMarketHours { data_vendor, symbol_name, date, .. } => DataServerRequest::SessionMarketHours { callback_id: id, data_vendor, symbol_name, date },
            DataServerRequest::PaperAccountInit { account_id, brokerage, .. } => DataServerRequest::PaperAccountInit { callback_id: id, account_id, brokerage },
            DataServerRequest::Accounts { brokerage, .. } => DataServerRequest::Accounts { callback_id: id, brokerage },
            DataServerRequest::SymbolNames { brokerage, time, .. } => DataServerRequest::SymbolNames { callback_id: id, brokerage, time },
            DataServerRequest::RegisterStreamer { .. } => self,
        }
    }

    /// Sets the callback id of a request that expects an answer; other requests are left
    /// as they are.
    pub fn set_callback_id(&mut self, id: u64)
        ensures
            *final(self) == old(self).with_callback_id(id),
    {
        match self {
            DataServerRequest::Register(..) => {},
            DataServerRequest::HistoricalBaseDataRange { callback_id, .. } => {
                *callback_id = id;
            },
            DataServerRequest::SymbolsVendor { callback_id, .. } => {
                *callback_id = id;
            },
            DataServerRequest::BaseDataTypes { callback_id, .. } => {
                *callback_id = id;
            },
            DataServerRequest::Resolutions { callback_id, .. } => {
                *callback_id = id;
            },
            DataServerRequest::AccountInfo { callback_id, .. } => {
                *callback_id = id;
            },
            DataServerRequest::Markets { callback_id, .. } => {
                *callback_id = id;
            },
            DataServerRequest::TickSize { callback_id, .. } => {
                *callback_id = id;
            },
            DataServerRequest::DecimalAccuracy { callback_id, .. } => {
                *callback_id = id;
            },
            DataServerRequest::SymbolInfo { callback_id, .. } => {
                *callback_id = id;
            },
            DataServerRequest::StreamRequest { .. } => {},
            DataServerRequest::IntradayMarginRequired { callback_id, .. } => {
                *callback_id = id;
            },
            DataServerRequest::OvernightMarginRequired { callback_id, .. } => {
                *callback_id = id;
            },
            DataServerRequest::PrimarySubscriptionFor { callback_id, .. } => {
                *callback_id = id;
            },
            DataServerRequest::CommissionInfo { callback_id, .. } => {
                *callback_id = id;
            },
            DataServerRequest::SessionMarketHours { callback_id, .. } => {
                *callback_id = id;
            },
            DataServerRequest::PaperAccountInit { callback_id, .. } => {
                *callback_id = id;
            },
            DataServerRequest::Accounts { callback_id, .. } => {
                *callback_id = id;
            },
            DataServerRequest::SymbolNames { callback_id, .. } => {
                *callback_id = id;
            },
            DataServerRequest::RegisterStreamer { .. } => {},
        }
    }
}

/// A native resolution a vendor supplies for a kind of base data.
#[derive(Clone, Copy, Debug, PartialEq, Eq, Structural)]
pub struct SubscriptionResolutionType {
    pub base_data_type: BaseDataType,
    pub resolution: Resolution,
}

/// An answer from the data server. Answers to requests carry the callback id of the
/// request they answer.
#[derive(Debug)]
pub enum DataServerResponse {
    /// The data of the subscriptions asked for, by time.
    HistoricalBaseData { callback_id: u64, payload: BTreeMap<i64, Vec<BaseDataEnum>> },
    Symbols { callback_id: u64, symbols: Vec<Symbol>, market_type: MarketType },
    BaseDataTypes { callback_id: u64, base_data_types: Vec<BaseDataType> },
    /// The native resolutions available for each kind of data.
    Resolutions {
        callback_id: u64,
        subscription_resolutions_types: Vec<SubscriptionResolutionType>,
        market_type: MarketType,
    },
    Error { callback_id: u64, error: FundForgeError },
    AccountInfo { callback_id: u64, account_info: AccountInfo },
    Markets { callback_id: u64, markets: Vec<MarketType> },
    TickSize { callback_id: u64, tick_size: Price },
    DecimalAccuracy { callback_id: u64, accuracy: u32 },
    ValuePerTick { callback_id: u64, currency: Currency, price: Price },
    SymbolInfo { callback_id: u64, symbol_info: SymbolInfo },
    SymbolInfoMany { callback_id: u64, info_vec: Vec<SymbolInfo> },
    /// No price means the product is not leveraged: cash is used one to one.
    IntradayMarginRequired { callback_id: u64, symbol_name: SymbolName, price: Option<Price> },
    /// No price means the product is not leveraged: cash is used one to one.
    OvernightMarginRequired { callback_id: u64, symbol_name: SymbolName, price: Option<Price> },
    SubscribeResponse { success: bool, subscription: DataSubscription, reason: Option<String> },
    UnSubscribeResponse { success: bool, subscription: DataSubscription, reason: Option<String> },
    SymbolNames { callback_id: u64, symbol_names: Vec<SymbolName> },
    Accounts { callback_id: u64, accounts: Vec<AccountId> },
    PrimarySubscriptionFor { callback_id: u64, primary_subscription: DataSubscription },
    RegistrationResponse(u16),
    CommissionInfo { callback_id: u64, commission_info: CommissionInfo },
    PaperAccountInit { callback_id: u64, account_info: AccountInfo },
    LiveAccountSnapShot {
        brokerage: Brokerage,
        account_id: AccountId,
        cash_value: Decimal,
        cash_available: Decimal,
        cash_used: Decimal,
    },
}

impl DataServerResponse {
    /// The callback id of an answer to a request.
    pub open spec fn spec_callback_id(&self) -> Option<u64> {
        match self {
            DataServerResponse::HistoricalBaseData { callback_id, .. } => Some(*callback_id),
            DataServerResponse::Symbols { callback_id, .. } => Some(*callback_id),
            DataServerResponse::BaseDataTypes { callback_id, .. } => Some(*callback_id),
            DataServerResponse::Resolutions { callback_id, .. } => Some(*callback_id),
            DataServerResponse::Error { callback_id, .. } => Some(*callback_id),
            DataServerResponse::AccountInfo { callback_id, .. } => Some(*callback_id),
            DataServerResponse::Markets { callback_id, .. } => Some(*callback_id),
            DataServerResponse::TickSize { callback_id, .. } => Some(*callback_id),
            DataServerResponse::DecimalAccuracy { callback_id, .. } => Some(*callback_id),
            DataServerResponse::ValuePerTick { callback_id, .. } => Some(*callback_id),
            DataServerResponse::SymbolInfo { callback_id, .. } => Some(*callback_id),
            DataServerResponse::SymbolInfoMany { callback_id, .. } => Some(*callback_id),
            DataServerResponse::IntradayMarginRequired { callback_id, .. } => Some(*callback_id),
            DataServerResponse::OvernightMarginRequired { callback_id, .. } => Some(*callback_id),
            DataServerResponse::SubscribeResponse { .. } => None,
            DataServerResponse::UnSubscribeResponse { .. } => None,
            DataServerResponse::SymbolNames { callback_id, .. } => Some(*callback_id),
            DataServerResponse::Accounts { callback_id, .. } => Some(*callback_id),
            DataServerResponse::PrimarySubscriptionFor { callback_id, .. } => Some(*callback_id),
            DataServerResponse::RegistrationResponse(..) => None,
            DataServerResponse::CommissionInfo { callback_id, .. } => Some(*callback_id),
            DataServerResponse::PaperAccountInit { callback_id, .. } => Some(*callback_id),
            DataServerResponse::LiveAccountSnapShot { .. } => None,
        }
    }

    /// The callback id of an answer to a request; `None` for subscription answers,
    /// registrations and account snapshots.
    pub fn get_callback_id(&self) -> (r: Option<u64>)
        ensures
            r == self.spec_callback_id(),
    {
        match self {
            DataServerResponse::HistoricalBaseData { callback_id, .. } => Some(*callback_id),
            DataServerResponse::Symbols { callback_id, .. } => Some(*callback_id),
            DataServerResponse::BaseDataTypes { callback_id, .. } => Some(*callback_id),
            DataServerResponse::Resolutions { callback_id, .. } => Some(*callback_id),
            DataServerResponse::Error { callback_id, .. } => Some(*callback_id),
            DataServerResponse::AccountInfo { callback_id, .. } => Some(*callback_id),
            DataServerResponse::Markets { callback_id, .. } => Some(*callback_id),
            DataServerResponse::TickSize { callback_id, .. } => Some(*callback_id),
            DataServerResponse::DecimalAccuracy { callback_id, .. } => Some(*callback_id),
            DataServerResponse::ValuePerTick { callback_id, .. } => Some(*callback_id),
            DataServerResponse::SymbolInfo { callback_id, .. } => Some(*callback_id),
            DataServerResponse::SymbolInfoMany { callback_id, .. } => Some(*callback_id),
            DataServerResponse::IntradayMarginRequired { callback_id, .. } => Some(*callback_id),
            DataServerResponse::OvernightMarginRequired { callback_id, .. } => Some(*callback_id),
            DataServerResponse::SubscribeResponse { .. } => None,
            DataServerResponse::UnSubscribeResponse { .. } => None,
            DataServerResponse::SymbolNames { callback_id, .. } => Some(*callback_id),
            DataServerResponse::Accounts { callback_id, .. } => Some(*callback_id),
            DataServerResponse::PrimarySubscriptionFor { callback_id, .. } => Some(*callback_id),
            DataServerResponse::RegistrationResponse(..) => None,
            DataServerResponse::CommissionInfo { callback_id, .. } => Some(*callback_id),
            DataServerResponse::PaperAccountInit { callback_id, .. } => Some(*callback_id),
            DataServerResponse::LiveAccountSnapShot { .. } => None,
        }
    }
}

/// The answer to a subscription request.
#[derive(Debug, PartialEq, Eq)]
pub enum SubscriptionResponse {
    CreateConsolidator { callback_id: u64, base_subscription: DataSubscription },
    Subscribed { callback_id: u64 },
    UnableToSubscribe { callback_id: u64 },
}

/// Setting a callback id and reading it back gives that id, for every request that
/// carries one, and leaves the others without one.
pub proof fn law_callback_id_round_trip(request: DataServerRequest, id: u64)
    ensures
        request.with_callback_id(id).spec_callback_id() == (match request.spec_callback_id() {
            Some(_) => Some(id),
            None => None,
        }),
{
}

/// Setting the callback id twice is the same as setting it once to the second id.
pub proof fn law_callback_id_last_wins(request: DataServerRequest, first: u64, second: u64)
    ensures
        request.with_callback_id(first).with_callback_id(second) == request.with_callback_id(second),
{
}

} // verus!
