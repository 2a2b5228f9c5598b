//! The test brokerage and data vendor: three forex symbols quoted at an instant
//! resolution, fixed symbol information, margin at 100:1 leverage and two accounts.
use crate::apis::brokerage::{AccountId, AccountInfo, Brokerage, SymbolInfo};
use crate::decimal::{
    decimal_div, decimal_quotient, lemma_quotient_fits_by_ten_or_more, Decimal, DecimalParts,
};
use crate::helpers::converters::{dashed, fund_forge_formatted_symbol_name, unicode_uppercase};
use crate::helpers::decimal_calculators::{
    checked_round_to_decimals, decimal_rounding_fits, round_to_decimals, spec_round_to_decimals,
};
use crate::helpers::text::str_eq;
use crate::messages::data_server_messaging::FundForgeError;
use crate::standardized_types::{
    BaseDataType, Currency, DataVendor, MarketType, Price, Resolution, Symbol, SymbolName, Volume,
};
use vstd::prelude::*;

verus! {

/// The test brokerage and data vendor, answering every request from fixed data.
#[derive(Clone, Copy, Debug, PartialEq, Eq, Structural)]
pub struct TestApiClient {}

/// A symbol name as the test client files it: separators made dashes, then upper-cased.
pub open spec fn formatted_name(symbol_name: Seq<char>) -> Seq<char> {
    unicode_uppercase(dashed(symbol_name))
}

/// The profit currency, tick value and tick size of a formatted symbol name: one dollar a
/// tick of 0.0001 for EUR-USD and AUD-CAD, ten cents a tick of 0.00001 for anything else.
pub open spec fn test_symbol_terms(name: Seq<char>) -> (Currency, DecimalParts, DecimalParts) {
    if name == "EUR-USD"@ || name == "AUD-CAD"@ {
        (Currency::USD, DecimalParts { mantissa: 10, scale: 1 }, DecimalParts { mantissa: 1, scale: 4 })
    } else {
        (Currency::USD, DecimalParts { mantissa: 1, scale: 1 }, DecimalParts { mantissa: 1, scale: 5 })
    }
}

/// One hundred, the leverage the test brokerage grants.
pub open spec fn hundred() -> DecimalParts {
    DecimalParts { mantissa: 1000, scale: 1 }
}

/// The error for a margin request of no quantity.
pub open spec fn zero_quantity_error(e: FundForgeError) -> bool {
    e matches FundForgeError::ClientSideErrorDebug(m) && m@ == "Quantity cannot be 0"@
}

impl TestApiClient {
    pub fn new() -> (r: TestApiClient)
        ensures
            r == (TestApiClient {}),
    {
        TestApiClient {}
    }

    /// The symbols offered, whatever market is asked for: EUR-USD, AUD-USD and AUD-CAD,
    /// forex symbols of the test vendor.
    pub fn symbols_response(&self, market_type: MarketType) -> (r: Vec<Symbol>)
        ensures
            r@.len() == 3,
            r@[0].name@ == "EUR-USD"@,
            r@[1].name@ == "AUD-USD"@,
            r@[2].name@ == "AUD-CAD"@,
            forall|i: int|
                0 <= i < 3 ==> (#[trigger] r@[i]).data_vendor == DataVendor::Test
                    && r@[i].market_type == MarketType::Forex,
    {
        let mut symbols = Vec::new();
        symbols.push(Symbol::new(String::from_str("EUR-USD"), DataVendor::Test, MarketType::Forex));
        symbols.push(Symbol::new(String::from_str("AUD-USD"), DataVendor::Test, MarketType::Forex));
        symbols.push(Symbol::new(String::from_str("AUD-CAD"), DataVendor::Test, MarketType::Forex));
        proof {
            reveal_strlit("EUR-USD");
            reveal_strlit("AUD-USD");
            reveal_strlit("AUD-CAD");
        }
        symbols
    }

    /// The state of any account: a USD account at the test brokerage with 100000 in cash,
    /// all of it available, that does not hedge.
    pub fn account_info_response(&self, account_id: AccountId) -> (r: AccountInfo)
        ensures
            r.account_id == account_id,
            r.brokerage == Brokerage::Test,
            r.cash_value@ == (DecimalParts { mantissa: 100000, scale: 0 }),
            r.cash_available@ == (DecimalParts { mantissa: 100000, scale: 0 }),
            r.currency == Currency::USD,
            r.cash_used@ == (DecimalParts { mantissa: 0, scale: 0 }),
            !r.is_hedging,
    {
        AccountInfo {
            account_id,
            brokerage: Brokerage::Test,
            cash_value: Decimal::new(100000, 0),
            cash_available: Decimal::new(100000, 0),
            currency: Currency::USD,
            cash_used: Decimal::new(0, 0),
            is_hedging: false,
        }
    }

    /// What the test brokerage says of a symbol, under its formatted name.
    pub fn symbol_info_response(&self, symbol_name: &str) -> (r: SymbolInfo)
        ensures
            r.spec_symbol_name()@ == formatted_name(symbol_name@),
            (r.spec_pnl_currency(), r.spec_value_per_tick()@, r.spec_tick_size()@)
                == test_symbol_terms(formatted_name(symbol_name@)),
    {
        let name = fund_forge_formatted_symbol_name(symbol_name);
        proof {
            reveal_strlit("EUR-USD");
            reveal_strlit("AUD-CAD");
        }
        if str_eq(name.as_str(), "EUR-USD") || str_eq(name.as_str(), "AUD-CAD") {
            SymbolInfo::new(name, Currency::USD, Decimal::new(10, 1), Decimal::new(1, 4))
        } else {
            SymbolInfo::new(name, Currency::USD, Decimal::new(1, 1), Decimal::new(1, 5))
        }
    }

    /// The margin for `quantity` of a symbol at 100:1 leverage, rounded to two places,
    /// with the symbol's formatted name; a quantity of zero is refused.
    pub fn margin_required_response(&self, symbol_name: &str, quantity: Volume) -> (r: Result<
        (SymbolName, Price),
        FundForgeError,
    >)
        requires
            quantity@.mantissa != 0 ==> decimal_rounding_fits(
                decimal_quotient(quantity@, hundred()),
                2,
            ),
        ensures
            quantity@.mantissa == 0 ==> (r matches Err(e) && zero_quantity_error(e)),
            quantity@.mantissa != 0 ==> (r matches Ok((name, margin)) && name@ == formatted_name(
                symbol_name@,
            ) && margin@ == spec_round_to_decimals(decimal_quotient(quantity@, hundred()), 2)),
    {
        let name = fund_forge_formatted_symbol_name(symbol_name);
        if quantity.is_zero() {
            let r = Err(FundForgeError::ClientSideErrorDebug(String::from_str("Quantity cannot be 0")));
            proof {
                reveal_strlit("Quantity cannot be 0");
            }
            return r;
        }
        let leverage = Decimal::new(1000, 1);
        proof {
            assert(crate::decimal::pow10(1) == 10) by {
                reveal_with_fuel(crate::decimal::pow10, 2);
            }
            lemma_quotient_fits_by_ten_or_more(quantity@, hundred());
        }
        let margin = round_to_decimals(decimal_div(quantity, leverage), 2);
        Ok((name, margin))
    }

    /// The answer [`TestApiClient::margin_required_response`] gives, when the margin can be
    /// computed: `None` only for a quantity other than zero whose margin leaves the decimal
    /// range.
    pub fn checked_margin_required_response(&self, symbol_name: &str, quantity: Volume) -> (r: Option<
        Result<(SymbolName, Price), FundForgeError>,
    >)
        ensures
            (r is None) == (quantity@.mantissa != 0 && !decimal_rounding_fits(
                decimal_quotient(quantity@, hundred()),
                2,
            )),
            quantity@.mantissa == 0 ==> (r matches Some(Err(e)) && zero_quantity_error(e)),
            quantity@.mantissa != 0 ==> (r matches Some(Ok((name, margin))) ==> name@
                == formatted_name(symbol_name@) && margin@ == spec_round_to_decimals(
                decimal_quotient(quantity@, hundred()),
                2,
            )),
    {
        if !quantity.is_zero() {
            let leverage = Decimal::new(1000, 1);
            proof {
                assert(crate::decimal::pow10(1) == 10) by {
                    reveal_with_fuel(crate::decimal::pow10, 2);
                }
                lemma_quotient_fits_by_ten_or_more(quantity@, hundred());
            }
            let share = decimal_div(quantity, leverage);
            if checked_round_to_decimals(share, 2).is_none() {
                return None;
            }
        }
        Some(self.margin_required_response(symbol_name, quantity))
    }

    /// The accounts at the test brokerage.
    pub fn accounts_response(&self) -> (r: Vec<AccountId>)
        ensures
            r@.len() == 2,
            r@[0]@ == "TestAccount1"@,
            r@[1]@ == "TestAccount2"@,
    {
        let accounts = vec![String::from_str("TestAccount1"), String::from_str("TestAccount2")];
        proof {
            reveal_strlit("TestAccount1");
            reveal_strlit("TestAccount2");
        }
        accounts
    }

    /// The data offered, whatever market is asked for: quotes at an instant resolution.
    pub fn resolutions_response(&self, market_type: MarketType) -> (r: Vec<(BaseDataType, Resolution)>)
        ensures
            r@ == seq![(BaseDataType::Quotes, Resolution::Instant)],
    {
        vec![(BaseDataType::Quotes, Resolution::Instant)]
    }

    /// The markets offered: forex only.
    pub fn markets_response(&self) -> (r: Vec<MarketType>)
        ensures
            r@ == seq![MarketType::Forex],
    {
        vec![MarketType::Forex]
    }

    /// The decimal places of any symbol's prices: 5.
    pub fn decimal_accuracy_response(&self, symbol_name: &str) -> (r: u32)
        ensures
            r == 5,
    {
        5
    }

    /// The tick size of any symbol: 0.00001.
    pub fn tick_size_response(&self, symbol_name: &str) -> (r: Price)
        ensures
            r@ == (DecimalParts { mantissa: 1, scale: 5 }),
    {
        Decimal::new(1, 5)
    }

    /// The kinds of base data offered: quotes.
    pub fn base_data_types_response(&self) -> (r: Vec<BaseDataType>)
        ensures
            r@ == seq![BaseDataType::Quotes],
    {
        vec![BaseDataType::Quotes]
    }
}

} // verus!
