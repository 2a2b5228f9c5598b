//! A test data vendor and brokerage: two forex symbols, tick and minute resolutions, and a
//! hedging USD account of 100000.
use crate::apis::brokerage::{AccountId, AccountInfo, Brokerage};
use crate::decimal::{zero_parts, Decimal, DecimalParts};
use crate::messages::data_server_messaging::FundForgeError;
use crate::standardized_types::{Currency, DataVendor, MarketType, Resolution, Symbol};
use vstd::prelude::*;

verus! {

/// A test data vendor that links the functions fund forge needs from a vendor to fixed
/// answers.
#[derive(Clone, Copy, Debug, PartialEq, Eq, Structural, Hash)]
pub struct TestVendorApi {}

/// The error for markets other than forex.
pub open spec fn market_not_supported(e: FundForgeError) -> bool {
    e matches FundForgeError::ClientSideErrorDebug(m) && m@ == "Market Type not supported"@
}

impl TestVendorApi {
    pub fn new() -> (r: TestVendorApi)
        ensures
            r == (TestVendorApi {}),
    {
        TestVendorApi {}
    }

    /// The symbols of a market: AUD-USD and AUD-CAD for forex; other markets are not
    /// supported.
    pub fn basedata_symbols_response(&self, market_type: MarketType) -> (r: Result<
        Vec<Symbol>,
        FundForgeError,
    >)
        ensures
            market_type != MarketType::Forex ==> (r matches Err(e) && market_not_supported(e)),
            market_type == MarketType::Forex ==> (r matches Ok(symbols) && symbols@.len() == 2
                && symbols@[0].name@ == "AUD-USD"@ && symbols@[1].name@ == "AUD-CAD"@ && forall|
                i: int,
            |
                0 <= i < 2 ==> symbols@[i].data_vendor == DataVendor::Test && symbols@[i].market_type
                    == MarketType::Forex),
    {
        if market_type != MarketType::Forex {
            let r = Err(FundForgeError::ClientSideErrorDebug(String::from_str("Market Type not supported")));
            proof {
                reveal_strlit("Market Type not supported");
            }
            return r;
        }
        let mut symbols = Vec::new();
        symbols.push(Symbol::new(String::from_str("AUD-USD"), DataVendor::Test, MarketType::Forex));
        symbols.push(Symbol::new(String::from_str("AUD-CAD"), DataVendor::Test, MarketType::Forex));
        Ok(symbols)
    }

    /// The resolutions of a market: one tick and one minute for forex; other markets are
    /// not supported.
    pub fn resolutions_response(&self, market_type: MarketType) -> (r: Result<
        Vec<Resolution>,
        FundForgeError,
    >)
        ensures
            market_type != MarketType::Forex ==> (r matches Err(e) && market_not_supported(e)),
            market_type == MarketType::Forex ==> (r matches Ok(resolutions) && resolutions@
                == seq![Resolution::Ticks(1), Resolution::Minutes(1)]),
    {
        if market_type != MarketType::Forex {
            let r = Err(FundForgeError::ClientSideErrorDebug(String::from_str("Market Type not supported")));
            proof {
                reveal_strlit("Market Type not supported");
            }
            return r;
        }
        Ok(vec![Resolution::Ticks(1), Resolution::Minutes(1)])
    }

    /// The markets offered: forex only.
    pub fn markets_response(&self) -> (r: Vec<MarketType>)
        ensures
            r@ == seq![MarketType::Forex],
    {
        vec![MarketType::Forex]
    }

    /// The currency of any account: USD.
    pub fn account_currency_reponse(&self, account_id: AccountId) -> (r: (AccountId, Currency))
        ensures
            r == (account_id, Currency::USD),
    {
        (account_id, Currency::USD)
    }

    /// The state of any account: a hedging USD account at the test brokerage with 100000.0
    /// in cash, all of it available.
    pub fn account_info_response(&self, account_id: AccountId) -> (r: AccountInfo)
        ensures
            r.account_id == account_id,
            r.brokerage == Brokerage::Test,
            r.cash_value@ == (DecimalParts { mantissa: 1000000, scale: 1 }),
            r.cash_available@ == (DecimalParts { mantissa: 1000000, scale: 1 }),
            r.currency == Currency::USD,
            r.cash_used@ == (DecimalParts { mantissa: 0, scale: 1 }),
            r.is_hedging,
    {
        AccountInfo {
            account_id,
            brokerage: Brokerage::Test,
            cash_value: Decimal::new(1000000, 1),
            cash_available: Decimal::new(1000000, 1),
            currency: Currency::USD,
            cash_used: Decimal::new(0, 1),
            is_hedging: true,
        }
    }
}

} // verus!
