//! Brokerages, the instruments they trade and the accounts they hold.
use crate::decimal::{Decimal, DecimalParts};
use crate::helpers::decimal_calculators::{
    checked_round_to_decimals, decimal_rounding_fits, round_to_decimals, spec_round_to_decimals,
};
use crate::helpers::text::str_eq;
use crate::messages::data_server_messaging::FundForgeError;
use crate::standardized_types::{Currency, Price, SymbolName, Volume};
use vstd::prelude::*;

verus! {

/// The identifier of an account at a brokerage.
pub type AccountId = String;

/// The brokerages orders can be routed to.
#[derive(Clone, Copy, Debug, PartialEq, Eq, Structural, Hash)]
pub enum Brokerage {
    Test,
    Rithmic,
}

/// The margin the test brokerage asks for `quantity`: `quantity * 1000` rounded to cents.
pub open spec fn test_margin(quantity: DecimalParts) -> DecimalParts {
    spec_round_to_decimals(crate::decimal::decimal_product(quantity, thousand()), 2)
}

/// The decimal 1000.
pub open spec fn thousand() -> DecimalParts {
    DecimalParts { mantissa: 1000, scale: 0 }
}

impl Brokerage {
    /// The brokerage named `s`: `"Rithmic"` or `"Test"`.
    pub fn from_str(s: &str) -> (r: Result<Brokerage, FundForgeError>)
        ensures
            s@ == "Rithmic"@ ==> r == Ok::<Brokerage, FundForgeError>(Brokerage::Rithmic),
            s@ == "Test"@ ==> r == Ok::<Brokerage, FundForgeError>(Brokerage::Test),
            s@ != "Rithmic"@ && s@ != "Test"@ ==> (r matches Err(FundForgeError::ClientSideErrorDebug(m))
                && m@ == "Invalid brokerage string: "@ + s@),
    {
        proof {
            reveal_strlit("Rithmic");
            reveal_strlit("Test");
            assert("Test"@.len() != "Rithmic"@.len());
        }
        if str_eq(s, "Rithmic") {
            Ok(Brokerage::Rithmic)
        } else if str_eq(s, "Test") {
            Ok(Brokerage::Test)
        } else {
            Err(
                FundForgeError::ClientSideErrorDebug(
                    String::from_str("Invalid brokerage string: ").concat(s),
                ),
            )
        }
    }

    /// The brokerage's name.
    pub fn name(&self) -> (r: &'static str)
        ensures
            r@ == (match self {
                Brokerage::Test => "Test"@,
                Brokerage::Rithmic => "Rithmic"@,
            }),
    {
        match self {
            Brokerage::Test => "Test",
            Brokerage::Rithmic => "Rithmic",
        }
    }

    /// The currency the test brokerage keeps accounts in.
    pub fn user_currency(&self) -> (r: Currency)
        requires
            *self == Brokerage::Test,
        ensures
            r == Currency::USD,
    {
        Currency::USD
    }

    /// The cash a test account starts with: 100000.0.
    pub fn starting_cash(&self) -> (r: Price)
        requires
            *self == Brokerage::Test,
        ensures
            r@ == (DecimalParts { mantissa: 1000000, scale: 1 }),
    {
        Decimal::from_parts(1000000, 1).unwrap()
    }

    /// The margin the test brokerage asks for `quantity` of any symbol: 1000 per unit,
    /// rounded to two decimal places.
    pub fn margin_required_historical(&self, symbol_name: &SymbolName, quantity: Volume) -> (r:
        Price)
        requires
            *self == Brokerage::Test,
            crate::decimal::product_fits(quantity@, thousand()),
            decimal_rounding_fits(crate::decimal::decimal_product(quantity@, thousand()), 2),
        ensures
            r@ == test_margin(quantity@),
    {
        round_to_decimals(crate::decimal::decimal_mul(quantity, Decimal::from_int(1000)), 2)
    }

    /// The margin the test brokerage asks for `quantity`, as
    /// [`Brokerage::margin_required_historical`] computes it, when every step can be
    /// computed; `None` otherwise.
    pub fn checked_margin_required_historical(&self, symbol_name: &SymbolName, quantity: Volume) -> (r:
        Option<Price>)
        requires
            *self == Brokerage::Test,
        ensures
            (r is Some) == (crate::decimal::product_fits(quantity@, thousand())
                && decimal_rounding_fits(crate::decimal::decimal_product(quantity@, thousand()), 2)),
            r matches Some(m) ==> m@ == test_margin(quantity@),
    {
        match crate::decimal::checked_product(quantity, Decimal::from_int(1000)) {
            Some(p) => match checked_round_to_decimals(p, 2) {
                Some(_) => Some(self.margin_required_historical(symbol_name, quantity)),
                None => None,
            },
            None => None,
        }
    }
}

/// What a brokerage says of an instrument: the currency its profit is counted in, the
/// value of one tick and the tick size.
#[derive(Debug, PartialEq, Eq)]
pub struct SymbolInfo {
    symbol_name: SymbolName,
    pnl_currency: Currency,
    value_per_tick: Price,
    tick_size: Price,
}

impl SymbolInfo {
    pub fn new(symbol_name: SymbolName, pnl_currency: Currency, value_per_tick: Price, tick_size: Price) -> (r: Self)
        ensures
            r.spec_symbol_name() == symbol_name,
            r.spec_pnl_currency() == pnl_currency,
            r.spec_value_per_tick() == value_per_tick,
            r.spec_tick_size() == tick_size,
    {
        Self { symbol_name, pnl_currency, value_per_tick, tick_size }
    }

    pub closed spec fn spec_symbol_name(&self) -> SymbolName {
        self.symbol_name
    }

    pub closed spec fn spec_pnl_currency(&self) -> Currency {
        self.pnl_currency
    }

    pub closed spec fn spec_value_per_tick(&self) -> Price {
        self.value_per_tick
    }

    pub closed spec fn spec_tick_size(&self) -> Price {
        self.tick_size
    }

    pub fn symbol_name(&self) -> (r: &SymbolName)
        ensures
            *r == self.spec_symbol_name(),
    {
        &self.symbol_name
    }

    pub fn pnl_currency(&self) -> (r: Currency)
        ensures
            r == self.spec_pnl_currency(),
    {
        self.pnl_currency
    }

    pub fn value_per_tick(&self) -> (r: Price)
        ensures
            r == self.spec_value_per_tick(),
    {
        self.value_per_tick
    }

    pub fn tick_size(&self) -> (r: Price)
        ensures
            r == self.spec_tick_size(),
    {
        self.tick_size
    }
}

/// The state of an account: its cash, what of it is used and available, its currency and
/// whether it may hold opposite positions in one symbol.
#[derive(Debug, PartialEq, Eq)]
pub struct AccountInfo {
    pub account_id: AccountId,
    pub brokerage: Brokerage,
    pub cash_value: Price,
    pub cash_available: Price,
    pub currency: Currency,
    pub cash_used: Price,
    pub is_hedging: bool,
}

} // verus!
