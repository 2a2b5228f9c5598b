//! The futures products offered through Rithmic: their names, exchanges, tick sizes and
//! tick values, margins, commissions and trading hours.
use crate::decimal::{Decimal, DecimalParts};
use crate::helpers::text::str_eq;
use crate::messages::data_server_messaging::FundForgeError;
use crate::standardized_types::{CommissionInfo, Currency, FuturesExchange, SymbolInfo, SymbolName};
use vstd::prelude::*;
use vstd::string::*;

verus! {

/// The base symbols of the products offered.
pub open spec fn available_symbol_names() -> Seq<Seq<char>> {
    seq!["XC"@, "XK"@, "XW"@, "YM"@, "ZB"@, "ZC"@, "ZF"@, "ZL"@, "ZM"@, "ZN"@, "ZO"@, "ZR"@, "ZS"@, "ZT"@, "ZW"@, "6A"@, "6B"@, "6C"@, "6E"@, "6J"@, "6M"@, "6N"@, "6S"@, "E7"@, "EMD"@, "ES"@, "GE"@, "GF"@, "HE"@, "J7"@, "LE"@, "NQ"@, "RF"@, "SP"@, "GC"@, "HG"@, "QI"@, "SI"@, "CL"@, "HO"@, "NG"@, "PA"@, "PL"@, "QM"@, "RB"@, "MES"@, "MNQ"@, "M2K"@, "MYM"@, "MGC"@, "SIL"@, "MCL"@, "MBT"@, "M6A"@, "M6B"@, "M6E"@, "MJY"@]
}

/// Whether `name` is the base symbol of a product offered.
pub open spec fn is_available_symbol_name(name: Seq<char>) -> bool {
    name == "XC"@ || name == "XK"@ || name == "XW"@ || name == "YM"@ || name == "ZB"@ || name == "ZC"@ || name == "ZF"@ || name == "ZL"@ || name == "ZM"@ || name == "ZN"@ || name == "ZO"@ || name == "ZR"@ || name == "ZS"@ || name == "ZT"@ || name == "ZW"@ || name == "6A"@ || name == "6B"@ || name == "6C"@ || name == "6E"@ || name == "6J"@ || name == "6M"@ || name == "6N"@ || name == "6S"@ || name == "E7"@ || name == "EMD"@ || name == "ES"@ || name == "GE"@ || name == "GF"@ || name == "HE"@ || name == "J7"@ || name == "LE"@ || name == "NQ"@ || name == "RF"@ || name == "SP"@ || name == "GC"@ || name == "HG"@ || name == "QI"@ || name == "SI"@ || name == "CL"@ || name == "HO"@ || name == "NG"@ || name == "PA"@ || name == "PL"@ || name == "QM"@ || name == "RB"@ || name == "MES"@ || name == "MNQ"@ || name == "M2K"@ || name == "MYM"@ || name == "MGC"@ || name == "SIL"@ || name == "MCL"@ || name == "MBT"@ || name == "M6A"@ || name == "M6B"@ || name == "M6E"@ || name == "MJY"@
}

/// Whether `name` is the base symbol of a product offered.
pub fn is_available_rithmic_symbol(name: &str) -> (r: bool)
    ensures
        r == is_available_symbol_name(name@),
{
    str_eq(name, "XC") || str_eq(name, "XK") || str_eq(name, "XW") || str_eq(name, "YM") || str_eq(name, "ZB") || str_eq(name, "ZC") || str_eq(name, "ZF") || str_eq(name, "ZL") || str_eq(name, "ZM") || str_eq(name, "ZN") || str_eq(name, "ZO") || str_eq(name, "ZR") || str_eq(name, "ZS") || str_eq(name, "ZT") || str_eq(name, "ZW") || str_eq(name, "6A") || str_eq(name, "6B") || str_eq(name, "6C") || str_eq(name, "6E") || str_eq(name, "6J") || str_eq(name, "6M") || str_eq(name, "6N") || str_eq(name, "6S") || str_eq(name, "E7") || str_eq(name, "EMD") || str_eq(name, "ES") || str_eq(name, "GE") || str_eq(name, "GF") || str_eq(name, "HE") || str_eq(name, "J7") || str_eq(name, "LE") || str_eq(name, "NQ") || str_eq(name, "RF") || str_eq(name, "SP") || str_eq(name, "GC") || str_eq(name, "HG") || str_eq(name, "QI") || str_eq(name, "SI") || str_eq(name, "CL") || str_eq(name, "HO") || str_eq(name, "NG") || str_eq(name, "PA") || str_eq(name, "PL") || str_eq(name, "QM") || str_eq(name, "RB") || str_eq(name, "MES") || str_eq(name, "MNQ") || str_eq(name, "M2K") || str_eq(name, "MYM") || str_eq(name, "MGC") || str_eq(name, "SIL") || str_eq(name, "MCL") || str_eq(name, "MBT") || str_eq(name, "M6A") || str_eq(name, "M6B") || str_eq(name, "M6E") || str_eq(name, "MJY")
}

/// The base symbols of the products offered, in the order they are listed.
pub fn get_available_rithmic_symbol_names() -> (r: Vec<String>)
    ensures
        r.len() == available_symbol_names().len(),
        forall|i: int| 0 <= i < r.len() ==> #[trigger] r@[i]@ == available_symbol_names()[i],
{
    let mut names: Vec<String> = Vec::new();
    names.push(String::from_str("XC"));
    names.push(String::from_str("XK"));
    names.push(String::from_str("XW"));
    names.push(String::from_str("YM"));
    names.push(String::from_str("ZB"));
    names.push(String::from_str("ZC"));
    names.push(String::from_str("ZF"));
    names.push(String::from_str("ZL"));
    names.push(String::from_str("ZM"));
    names.push(String::from_str("ZN"));
    names.push(String::from_str("ZO"));
    names.push(String::from_str("ZR"));
    names.push(String::from_str("ZS"));
    names.push(String::from_str("ZT"));
    names.push(String::from_str("ZW"));
    names.push(String::from_str("6A"));
    names.push(String::from_str("6B"));
    names.push(String::from_str("6C"));
    names.push(String::from_str("6E"));
    names.push(String::from_str("6J"));
    names.push(String::from_str("6M"));
    names.push(String::from_str("6N"));
    names.push(String::from_str("6S"));
    names.push(String::from_str("E7"));
    names.push(String::from_str("EMD"));
    names.push(String::from_str("ES"));
    names.push(String::from_str("GE"));
    names.push(String::from_str("GF"));
    names.push(String::from_str("HE"));
    names.push(String::from_str("J7"));
    names.push(String::from_str("LE"));
    names.push(String::from_str("NQ"));
    names.push(String::from_str("RF"));
    names.push(String::from_str("SP"));
    names.push(String::from_str("GC"));
    names.push(String::from_str("HG"));
    names.push(String::from_str("QI"));
    names.push(String::from_str("SI"));
    names.push(String::from_str("CL"));
    names.push(String::from_str("HO"));
    names.push(String::from_str("NG"));
    names.push(String::from_str("PA"));
    names.push(String::from_str("PL"));
    names.push(String::from_str("QM"));
    names.push(String::from_str("RB"));
    names.push(String::from_str("MES"));
    names.push(String::from_str("MNQ"));
    names.push(String::from_str("M2K"));
    names.push(String::from_str("MYM"));
    names.push(String::from_str("MGC"));
    names.push(String::from_str("SIL"));
    names.push(String::from_str("MCL"));
    names.push(String::from_str("MBT"));
    names.push(String::from_str("M6A"));
    names.push(String::from_str("M6B"));
    names.push(String::from_str("M6E"));
    names.push(String::from_str("MJY"));
    proof {
        assert(names@.len() == available_symbol_names().len());
    }
    names
}

/// The full name of each product code.
pub open spec fn spec_futures_code_name(code: Seq<char>) -> Option<Seq<char>> {
    if code == "XC"@ {
        Some("CBOT Mini-sized Corn Futures"@)
    } else if code == "XK"@ {
        Some("CBOT Mini-sized Soybean Futures"@)
    } else if code == "XW"@ {
        Some("CBOT Mini-sized Wheat Futures"@)
    } else if code == "YM"@ {
        Some("Mini-sized Dow Futures ($5)"@)
    } else if code == "ZB"@ {
        Some("30 Year US Treasury Bond Futures"@)
    } else if code == "ZC"@ {
        Some("Corn Futures"@)
    } else if code == "ZF"@ {
        Some("5 Year US Treasury Note Futures"@)
    } else if code == "ZL"@ {
        Some("Soybean Oil Futures"@)
    } else if code == "ZM"@ {
        Some("Soybean Meal Futures"@)
    } else if code == "ZN"@ {
        Some("10 Year US Treasury Note Futures"@)
    } else if code == "ZO"@ {
        Some("Oat Futures"@)
    } else if code == "ZR"@ {
        Some("Rough Rice Futures"@)
    } else if code == "ZS"@ {
        Some("Soybean Futures"@)
    } else if code == "ZT"@ {
        Some("2 Year US Treasury Note Futures"@)
    } else if code == "ZW"@ {
        Some("Wheat Futures"@)
    } else if code == "6A"@ {
        Some("Australian Dollar"@)
    } else if code == "6B"@ {
        Some("British Pound"@)
    } else if code == "6C"@ {
        Some("Canadian Dollar"@)
    } else if code == "6E"@ {
        Some("Euro Fx"@)
    } else if code == "6J"@ {
        Some("Japanese Yen"@)
    } else if code == "6M"@ {
        Some("Mexican Peso"@)
    } else if code == "6N"@ {
        Some("New Zealand Dollar"@)
    } else if code == "6S"@ {
        Some("Swiss Franc"@)
    } else if code == "E7"@ {
        Some("E-Mini Euro Fx"@)
    } else if code == "EMD"@ {
        Some("E-Mini S&P Midcap 400"@)
    } else if code == "ES"@ {
        Some("E-Mini S&P 500"@)
    } else if code == "GE"@ {
        Some("Eurodollar"@)
    } else if code == "GF"@ {
        Some("E-Livestock Feeder Cattle"@)
    } else if code == "HE"@ {
        Some("Lean Hog"@)
    } else if code == "J7"@ {
        Some("E-Mini Japanese Yen"@)
    } else if code == "LE"@ {
        Some("E-Livestock Live Cattle"@)
    } else if code == "NQ"@ {
        Some("E-Mini Nasdaq-100"@)
    } else if code == "RF"@ {
        Some("Euro Fx/Swiss Franc"@)
    } else if code == "SP"@ {
        Some("S&P 500"@)
    } else if code == "GC"@ {
        Some("COMEX Gold Futures"@)
    } else if code == "HG"@ {
        Some("COMEX Copper Futures"@)
    } else if code == "QG"@ {
        Some("NYMEX miNY Natural Gas"@)
    } else if code == "QI"@ {
        Some("COMEX miNY Silver Futures"@)
    } else if code == "QO"@ {
        Some("COMEX miNY Gold Futures"@)
    } else if code == "SI"@ {
        Some("COMEX Silver Futures"@)
    } else if code == "CL"@ {
        Some("Light Sweet Crude Oil"@)
    } else if code == "HO"@ {
        Some("Heating Oil"@)
    } else if code == "NG"@ {
        Some("Natural Gas"@)
    } else if code == "PA"@ {
        Some("NYMEX Palladium"@)
    } else if code == "PL"@ {
        Some("NYMEX Platinum"@)
    } else if code == "QM"@ {
        Some("NYMEX miNY Crude Oil"@)
    } else if code == "RB"@ {
        Some("New York Harbor RBOB Gasoline"@)
    } else if code == "MES"@ {
        Some("Micro E-mini S&P 500"@)
    } else if code == "MNQ"@ {
        Some("Micro E-mini Nasdaq-100"@)
    } else if code == "M2K"@ {
        Some("Micro E-mini Russell 2000"@)
    } else if code == "MYM"@ {
        Some("Micro E-mini Dow"@)
    } else if code == "MGC"@ {
        Some("Micro Gold"@)
    } else if code == "SIL"@ {
        Some("Micro Silver"@)
    } else if code == "MCL"@ {
        Some("Micro Crude Oil"@)
    } else if code == "MBT"@ {
        Some("Micro Bitcoin"@)
    } else if code == "M6A"@ {
        Some("Micro AUD/USD"@)
    } else if code == "M6B"@ {
        Some("Micro GBP/USD"@)
    } else if code == "M6E"@ {
        Some("Micro EUR/USD"@)
    } else if code == "MJY"@ {
        Some("Micro JPY/USD"@)
    } else {
        None
    }
}

/// The full name of the product with code `code`, if it has one.
pub fn futures_code_to_name(code: &str) -> (r: Option<&'static str>)
    ensures
        match spec_futures_code_name(code@) {
            Some(n) => r matches Some(s) && s@ == n,
            None => r is None,
        },
{
    if str_eq(code, "XC") {
        Some("CBOT Mini-sized Corn Futures")
    } else if str_eq(code, "XK") {
        Some("CBOT Mini-sized Soybean Futures")
    } else if str_eq(code, "XW") {
        Some("CBOT Mini-sized Wheat Futures")
    } else if str_eq(code, "YM") {
        Some("Mini-sized Dow Futures ($5)")
    } else if str_eq(code, "ZB") {
        Some("30 Year US Treasury Bond Futures")
    } else if str_eq(code, "ZC") {
        Some("Corn Futures")
    } else if str_eq(code, "ZF") {
        Some("5 Year US Treasury Note Futures")
    } else if str_eq(code, "ZL") {
        Some("Soybean Oil Futures")
    } else if str_eq(code, "ZM") {
        Some("Soybean Meal Futures")
    } else if str_eq(code, "ZN") {
        Some("10 Year US Treasury Note Futures")
    } else if str_eq(code, "ZO") {
        Some("Oat Futures")
    } else if str_eq(code, "ZR") {
        Some("Rough Rice Futures")
    } else if str_eq(code, "ZS") {
        Some("Soybean Futures")
    } else if str_eq(code, "ZT") {
        Some("2 Year US Treasury Note Futures")
    } else if str_eq(code, "ZW") {
        Some("Wheat Futures")
    } else if str_eq(code, "6A") {
        Some("Australian Dollar")
    } else if str_eq(code, "6B") {
        Some("British Pound")
    } else if str_eq(code, "6C") {
        Some("Canadian Dollar")
    } else if str_eq(code, "6E") {
        Some("Euro Fx")
    } else if str_eq(code, "6J") {
        Some("Japanese Yen")
    } else if str_eq(code, "6M") {
        Some("Mexican Peso")
    } else if str_eq(code, "6N") {
        Some("New Zealand Dollar")
    } else if str_eq(code, "6S") {
        Some("Swiss Franc")
    } else if str_eq(code, "E7") {
        Some("E-Mini Euro Fx")
    } else if str_eq(code, "EMD") {
        Some("E-Mini S&P Midcap 400")
    } else if str_eq(code, "ES") {
        Some("E-Mini S&P 500")
    } else if str_eq(code, "GE") {
        Some("Eurodollar")
    } else if str_eq(code, "GF") {
        Some("E-Livestock Feeder Cattle")
    } else if str_eq(code, "HE") {
        Some("Lean Hog")
    } else if str_eq(code, "J7") {
        Some("E-Mini Japanese Yen")
    } else if str_eq(code, "LE") {
        Some("E-Livestock Live Cattle")
    } else if str_eq(code, "NQ") {
        Some("E-Mini Nasdaq-100")
    } else if str_eq(code, "RF") {
        Some("Euro Fx/Swiss Franc")
    } else if str_eq(code, "SP") {
        Some("S&P 500")
    } else if str_eq(code, "GC") {
        Some("COMEX Gold Futures")
    } else if str_eq(code, "HG") {
        Some("COMEX Copper Futures")
    } else if str_eq(code, "QG") {
        Some("NYMEX miNY Natural Gas")
    } else if str_eq(code, "QI") {
        Some("COMEX miNY Silver Futures")
    } else if str_eq(code, "QO") {
        Some("COMEX miNY Gold Futures")
    } else if str_eq(code, "SI") {
        Some("COMEX Silver Futures")
    } else if str_eq(code, "CL") {
        Some("Light Sweet Crude Oil")
    } else if str_eq(code, "HO") {
        Some("Heating Oil")
    } else if str_eq(code, "NG") {
        Some("Natural Gas")
    } else if str_eq(code, "PA") {
        Some("NYMEX Palladium")
    } else if str_eq(code, "PL") {
        Some("NYMEX Platinum")
    } else if str_eq(code, "QM") {
        Some("NYMEX miNY Crude Oil")
    } else if str_eq(code, "RB") {
        Some("New York Harbor RBOB Gasoline")
    } else if str_eq(code, "MES") {
        Some("Micro E-mini S&P 500")
    } else if str_eq(code, "MNQ") {
        Some("Micro E-mini Nasdaq-100")
    } else if str_eq(code, "M2K") {
        Some("Micro E-mini Russell 2000")
    } else if str_eq(code, "MYM") {
        Some("Micro E-mini Dow")
    } else if str_eq(code, "MGC") {
        Some("Micro Gold")
    } else if str_eq(code, "SIL") {
        Some("Micro Silver")
    } else if str_eq(code, "MCL") {
        Some("Micro Crude Oil")
    } else if str_eq(code, "MBT") {
        Some("Micro Bitcoin")
    } else if str_eq(code, "M6A") {
        Some("Micro AUD/USD")
    } else if str_eq(code, "M6B") {
        Some("Micro GBP/USD")
    } else if str_eq(code, "M6E") {
        Some("Micro EUR/USD")
    } else if str_eq(code, "MJY") {
        Some("Micro JPY/USD")
    } else {
        None
    }
}

/// The exchange each product code trades on.
pub open spec fn spec_exchange_of(code: Seq<char>) -> Option<FuturesExchange> {
    if code == "XC"@ || code == "XK"@ || code == "XW"@ || code == "YM"@ || code == "ZB"@ || code == "ZC"@ || code == "ZF"@ || code == "ZL"@ || code == "ZM"@ || code == "ZN"@ || code == "ZO"@ || code == "ZR"@ || code == "ZS"@ || code == "ZT"@ || code == "ZW"@ {
        Some(FuturesExchange::CBOT)
    } else if code == "6A"@ || code == "6B"@ || code == "6C"@ || code == "6E"@ || code == "6J"@ || code == "6M"@ || code == "6N"@ || code == "6S"@ || code == "E7"@ || code == "EMD"@ || code == "ES"@ || code == "GE"@ || code == "GF"@ || code == "HE"@ || code == "J7"@ || code == "LE"@ || code == "NQ"@ || code == "RF"@ || code == "SP"@ {
        Some(FuturesExchange::CME)
    } else if code == "GC"@ || code == "HG"@ || code == "QI"@ || code == "QQ"@ || code == "SI"@ || code == "MGC"@ || code == "SIL"@ {
        Some(FuturesExchange::COMEX)
    } else if code == "CL"@ || code == "HO"@ || code == "NG"@ || code == "PA"@ || code == "PL"@ || code == "QG"@ || code == "QM"@ || code == "RB"@ || code == "MCL"@ || code == "MBT"@ {
        Some(FuturesExchange::NYMEX)
    } else if code == "MES"@ || code == "MNQ"@ || code == "M2K"@ || code == "MYM"@ || code == "M6A"@ || code == "M6B"@ || code == "M6E"@ || code == "MJY"@ {
        Some(FuturesExchange::CME)
    } else {
        None
    }
}

/// The exchange the product with code `code` trades on, if it is listed.
pub fn get_exchange_by_symbol_name(code: &str) -> (r: Option<FuturesExchange>)
    ensures
        r == spec_exchange_of(code@),
{
    if str_eq(code, "XC") || str_eq(code, "XK") || str_eq(code, "XW") || str_eq(code, "YM") || str_eq(code, "ZB") || str_eq(code, "ZC") || str_eq(code, "ZF") || str_eq(code, "ZL") || str_eq(code, "ZM") || str_eq(code, "ZN") || str_eq(code, "ZO") || str_eq(code, "ZR") || str_eq(code, "ZS") || str_eq(code, "ZT") || str_eq(code, "ZW") {
        Some(FuturesExchange::CBOT)
    } else if str_eq(code, "6A") || str_eq(code, "6B") || str_eq(code, "6C") || str_eq(code, "6E") || str_eq(code, "6J") || str_eq(code, "6M") || str_eq(code, "6N") || str_eq(code, "6S") || str_eq(code, "E7") || str_eq(code, "EMD") || str_eq(code, "ES") || str_eq(code, "GE") || str_eq(code, "GF") || str_eq(code, "HE") || str_eq(code, "J7") || str_eq(code, "LE") || str_eq(code, "NQ") || str_eq(code, "RF") || str_eq(code, "SP") {
        Some(FuturesExchange::CME)
    } else if str_eq(code, "GC") || str_eq(code, "HG") || str_eq(code, "QI") || str_eq(code, "QQ") || str_eq(code, "SI") || str_eq(code, "MGC") || str_eq(code, "SIL") {
        Some(FuturesExchange::COMEX)
    } else if str_eq(code, "CL") || str_eq(code, "HO") || str_eq(code, "NG") || str_eq(code, "PA") || str_eq(code, "PL") || str_eq(code, "QG") || str_eq(code, "QM") || str_eq(code, "RB") || str_eq(code, "MCL") || str_eq(code, "MBT") {
        Some(FuturesExchange::NYMEX)
    } else if str_eq(code, "MES") || str_eq(code, "MNQ") || str_eq(code, "M2K") || str_eq(code, "MYM") || str_eq(code, "M6A") || str_eq(code, "M6B") || str_eq(code, "M6E") || str_eq(code, "MJY") {
        Some(FuturesExchange::CME)
    } else {
        None
    }
}

/// The exchange the product with code `code` trades on; unknown codes are an error.
pub fn get_futures_exchange(code: &str) -> (r: Result<FuturesExchange, FundForgeError>)
    ensures
        match spec_exchange_of(code@) {
            Some(e) => r == Ok::<FuturesExchange, FundForgeError>(e),
            None => r matches Err(FundForgeError::ClientSideErrorDebug(m)) && m@
                == "Unknown futures code: "@ + code@ + ", please add mapping"@,
        },
{
    match get_exchange_by_symbol_name(code) {
        Some(exchange) => Ok(exchange),
        None => Err(
            FundForgeError::ClientSideErrorDebug(
                String::from_str("Unknown futures code: ").concat(code).concat(", please add mapping"),
            ),
        ),
    }
}

/// The tick data of each product: profit currency, value per tick, tick size and decimal
/// places.
pub open spec fn spec_symbol_info_entry(symbol: Seq<char>) -> Option<(Currency, DecimalParts, DecimalParts, u32)> {
    if symbol == "XC"@ {
        Some((Currency::USD, DecimalParts { mantissa: 125, scale: 2 }, DecimalParts { mantissa: 25, scale: 2 }, 2))
    } else if symbol == "XK"@ {
        Some((Currency::USD, DecimalParts { mantissa: 125, scale: 2 }, DecimalParts { mantissa: 25, scale: 2 }, 2))
    } else if symbol == "XW"@ {
        Some((Currency::USD, DecimalParts { mantissa: 125, scale: 2 }, DecimalParts { mantissa: 25, scale: 2 }, 2))
    } else if symbol == "YM"@ {
        Some((Currency::USD, DecimalParts { mantissa: 50, scale: 1 }, DecimalParts { mantissa: 10, scale: 1 }, 0))
    } else if symbol == "ZB"@ {
        Some((Currency::USD, DecimalParts { mantissa: 1953125, scale: 6 }, DecimalParts { mantissa: 625, scale: 4 }, 4))
    } else if symbol == "ZC"@ {
        Some((Currency::USD, DecimalParts { mantissa: 125, scale: 1 }, DecimalParts { mantissa: 25, scale: 2 }, 2))
    } else if symbol == "ZF"@ {
        Some((Currency::USD, DecimalParts { mantissa: 244140625, scale: 9 }, DecimalParts { mantissa: 78125, scale: 7 }, 6))
    } else if symbol == "ZL"@ {
        Some((Currency::USD, DecimalParts { mantissa: 60, scale: 1 }, DecimalParts { mantissa: 1, scale: 2 }, 4))
    } else if symbol == "ZM"@ {
        Some((Currency::USD, DecimalParts { mantissa: 100, scale: 1 }, DecimalParts { mantissa: 1, scale: 1 }, 1))
    } else if symbol == "ZN"@ {
        Some((Currency::USD, DecimalParts { mantissa: 48828125, scale: 8 }, DecimalParts { mantissa: 15625, scale: 6 }, 5))
    } else if symbol == "ZO"@ {
        Some((Currency::USD, DecimalParts { mantissa: 125, scale: 1 }, DecimalParts { mantissa: 25, scale: 2 }, 2))
    } else if symbol == "ZR"@ {
        Some((Currency::USD, DecimalParts { mantissa: 25, scale: 2 }, DecimalParts { mantissa: 5, scale: 3 }, 4))
    } else if symbol == "ZS"@ {
        Some((Currency::USD, DecimalParts { mantissa: 125, scale: 1 }, DecimalParts { mantissa: 25, scale: 2 }, 2))
    } else if symbol == "ZT"@ {
        Some((Currency::USD, DecimalParts { mantissa: 244140625, scale: 9 }, DecimalParts { mantissa: 78125, scale: 7 }, 6))
    } else if symbol == "ZW"@ {
        Some((Currency::USD, DecimalParts { mantissa: 125, scale: 1 }, DecimalParts { mantissa: 25, scale: 2 }, 2))
    } else if symbol == "6A"@ {
        Some((Currency::USD, DecimalParts { mantissa: 10, scale: 1 }, DecimalParts { mantissa: 1, scale: 4 }, 4))
    } else if symbol == "6B"@ {
        Some((Currency::USD, DecimalParts { mantissa: 625, scale: 3 }, DecimalParts { mantissa: 1, scale: 4 }, 4))
    } else if symbol == "6C"@ {
        Some((Currency::USD, DecimalParts { mantissa: 10, scale: 1 }, DecimalParts { mantissa: 1, scale: 4 }, 4))
    } else if symbol == "6E"@ {
        Some((Currency::USD, DecimalParts { mantissa: 125, scale: 2 }, DecimalParts { mantissa: 1, scale: 4 }, 4))
    } else if symbol == "6J"@ {
        Some((Currency::USD, DecimalParts { mantissa: 125, scale: 4 }, DecimalParts { mantissa: 1, scale: 6 }, 6))
    } else if symbol == "6M"@ {
        Some((Currency::USD, DecimalParts { mantissa: 1, scale: 1 }, DecimalParts { mantissa: 1, scale: 5 }, 5))
    } else if symbol == "6N"@ {
        Some((Currency::USD, DecimalParts { mantissa: 10, scale: 1 }, DecimalParts { mantissa: 1, scale: 4 }, 4))
    } else if symbol == "6S"@ {
        Some((Currency::USD, DecimalParts { mantissa: 125, scale: 2 }, DecimalParts { mantissa: 1, scale: 4 }, 4))
    } else if symbol == "E7"@ {
        Some((Currency::USD, DecimalParts { mantissa: 625, scale: 3 }, DecimalParts { mantissa: 1, scale: 4 }, 4))
    } else if symbol == "EMD"@ {
        Some((Currency::USD, DecimalParts { mantissa: 25, scale: 1 }, DecimalParts { mantissa: 5, scale: 2 }, 2))
    } else if symbol == "ES"@ {
        Some((Currency::USD, DecimalParts { mantissa: 125, scale: 1 }, DecimalParts { mantissa: 25, scale: 2 }, 2))
    } else if symbol == "GE"@ {
        Some((Currency::USD, DecimalParts { mantissa: 625, scale: 4 }, DecimalParts { mantissa: 25, scale: 4 }, 4))
    } else if symbol == "GF"@ {
        Some((Currency::USD, DecimalParts { mantissa: 125, scale: 2 }, DecimalParts { mantissa: 25, scale: 3 }, 3))
    } else if symbol == "HE"@ {
        Some((Currency::USD, DecimalParts { mantissa: 1, scale: 1 }, DecimalParts { mantissa: 25, scale: 4 }, 4))
    } else if symbol == "J7"@ {
        Some((Currency::USD, DecimalParts { mantissa: 625, scale: 5 }, DecimalParts { mantissa: 1, scale: 6 }, 6))
    } else if symbol == "LE"@ {
        Some((Currency::USD, DecimalParts { mantissa: 10, scale: 1 }, DecimalParts { mantissa: 25, scale: 3 }, 3))
    } else if symbol == "NQ"@ {
        Some((Currency::USD, DecimalParts { mantissa: 50, scale: 1 }, DecimalParts { mantissa: 25, scale: 2 }, 2))
    } else if symbol == "RF"@ {
        Some((Currency::USD, DecimalParts { mantissa: 125, scale: 2 }, DecimalParts { mantissa: 1, scale: 4 }, 4))
    } else if symbol == "SP"@ {
        Some((Currency::USD, DecimalParts { mantissa: 250, scale: 1 }, DecimalParts { mantissa: 1, scale: 1 }, 2))
    } else if symbol == "GC"@ {
        Some((Currency::USD, DecimalParts { mantissa: 100, scale: 1 }, DecimalParts { mantissa: 1, scale: 1 }, 2))
    } else if symbol == "HG"@ {
        Some((Currency::USD, DecimalParts { mantissa: 125, scale: 4 }, DecimalParts { mantissa: 5, scale: 4 }, 4))
    } else if symbol == "QI"@ {
        Some((Currency::USD, DecimalParts { mantissa: 3125, scale: 5 }, DecimalParts { mantissa: 25, scale: 4 }, 4))
    } else if symbol == "SI"@ {
        Some((Currency::USD, DecimalParts { mantissa: 125, scale: 3 }, DecimalParts { mantissa: 5, scale: 3 }, 3))
    } else if symbol == "CL"@ {
        Some((Currency::USD, DecimalParts { mantissa: 100, scale: 1 }, DecimalParts { mantissa: 1, scale: 2 }, 2))
    } else if symbol == "HO"@ {
        Some((Currency::USD, DecimalParts { mantissa: 42, scale: 1 }, DecimalParts { mantissa: 1, scale: 4 }, 4))
    } else if symbol == "NG"@ {
        Some((Currency::USD, DecimalParts { mantissa: 100, scale: 1 }, DecimalParts { mantissa: 1, scale: 3 }, 3))
    } else if symbol == "PA"@ {
        Some((Currency::USD, DecimalParts { mantissa: 50, scale: 1 }, DecimalParts { mantissa: 5, scale: 2 }, 2))
    } else if symbol == "PL"@ {
        Some((Currency::USD, DecimalParts { mantissa: 50, scale: 1 }, DecimalParts { mantissa: 1, scale: 1 }, 2))
    } else if symbol == "QM"@ {
        Some((Currency::USD, DecimalParts { mantissa: 50, scale: 1 }, DecimalParts { mantissa: 1, scale: 2 }, 2))
    } else if symbol == "RB"@ {
        Some((Currency::USD, DecimalParts { mantissa: 42, scale: 1 }, DecimalParts { mantissa: 1, scale: 4 }, 4))
    } else if symbol == "MES"@ {
        Some((Currency::USD, DecimalParts { mantissa: 125, scale: 2 }, DecimalParts { mantissa: 25, scale: 2 }, 2))
    } else if symbol == "MNQ"@ {
        Some((Currency::USD, DecimalParts { mantissa: 50, scale: 2 }, DecimalParts { mantissa: 25, scale: 2 }, 2))
    } else if symbol == "M2K"@ {
        Some((Currency::USD, DecimalParts { mantissa: 50, scale: 2 }, DecimalParts { mantissa: 1, scale: 1 }, 2))
    } else if symbol == "MYM"@ {
        Some((Currency::USD, DecimalParts { mantissa: 50, scale: 2 }, DecimalParts { mantissa: 10, scale: 1 }, 0))
    } else if symbol == "MGC"@ {
        Some((Currency::USD, DecimalParts { mantissa: 10, scale: 1 }, DecimalParts { mantissa: 1, scale: 1 }, 2))
    } else if symbol == "SIL"@ {
        Some((Currency::USD, DecimalParts { mantissa: 125, scale: 4 }, DecimalParts { mantissa: 5, scale: 3 }, 3))
    } else if symbol == "MCL"@ {
        Some((Currency::USD, DecimalParts { mantissa: 10, scale: 1 }, DecimalParts { mantissa: 1, scale: 2 }, 2))
    } else if symbol == "MBT"@ {
        Some((Currency::USD, DecimalParts { mantissa: 125, scale: 2 }, DecimalParts { mantissa: 25, scale: 2 }, 2))
    } else if symbol == "M6A"@ {
        Some((Currency::USD, DecimalParts { mantissa: 1, scale: 1 }, DecimalParts { mantissa: 1, scale: 4 }, 4))
    } else if symbol == "M6B"@ {
        Some((Currency::USD, DecimalParts { mantissa: 625, scale: 4 }, DecimalParts { mantissa: 1, scale: 4 }, 4))
    } else if symbol == "M6E"@ {
        Some((Currency::USD, DecimalParts { mantissa: 125, scale: 3 }, DecimalParts { mantissa: 1, scale: 4 }, 4))
    } else if symbol == "MJY"@ {
        Some((Currency::USD, DecimalParts { mantissa: 125, scale: 5 }, DecimalParts { mantissa: 1, scale: 6 }, 6))
    } else {
        None
    }
}

/// The tick data of `symbol`, if it is listed.
fn symbol_info_entry(symbol: &str) -> (r: Option<(Currency, Decimal, Decimal, u32)>)
    ensures
        match spec_symbol_info_entry(symbol@) {
            Some(e) => r matches Some(x) && (x.0, x.1@, x.2@, x.3) == e,
            None => r is None,
        },
{
    if str_eq(symbol, "XC") {
        Some((Currency::USD, Decimal::new(125, 2), Decimal::new(25, 2), 2))
    } else if str_eq(symbol, "XK") {
        Some((Currency::USD, Decimal::new(125, 2), Decimal::new(25, 2), 2))
    } else if str_eq(symbol, "XW") {
        Some((Currency::USD, Decimal::new(125, 2), Decimal::new(25, 2), 2))
    } else if str_eq(symbol, "YM") {
        Some((Currency::USD, Decimal::new(50, 1), Decimal::new(10, 1), 0))
    } else if str_eq(symbol, "ZB") {
        Some((Currency::USD, Decimal::new(1953125, 6), Decimal::new(625, 4), 4))
    } else if str_eq(symbol, "ZC") {
        Some((Currency::USD, Decimal::new(125, 1), Decimal::new(25, 2), 2))
    } else if str_eq(symbol, "ZF") {
        Some((Currency::USD, Decimal::new(244140625, 9), Decimal::new(78125, 7), 6))
    } else if str_eq(symbol, "ZL") {
        Some((Currency::USD, Decimal::new(60, 1), Decimal::new(1, 2), 4))
    } else if str_eq(symbol, "ZM") {
        Some((Currency::USD, Decimal::new(100, 1), Decimal::new(1, 1), 1))
    } else if str_eq(symbol, "ZN") {
        Some((Currency::USD, Decimal::new(48828125, 8), Decimal::new(15625, 6), 5))
    } else if str_eq(symbol, "ZO") {
        Some((Currency::USD, Decimal::new(125, 1), Decimal::new(25, 2), 2))
    } else if str_eq(symbol, "ZR") {
        Some((Currency::USD, Decimal::new(25, 2), Decimal::new(5, 3), 4))
    } else if str_eq(symbol, "ZS") {
        Some((Currency::USD, Decimal::new(125, 1), Decimal::new(25, 2), 2))
    } else if str_eq(symbol, "ZT") {
        Some((Currency::USD, Decimal::new(244140625, 9), Decimal::new(78125, 7), 6))
    } else if str_eq(symbol, "ZW") {
        Some((Currency::USD, Decimal::new(125, 1), Decimal::new(25, 2), 2))
    } else if str_eq(symbol, "6A") {
        Some((Currency::USD, Decimal::new(10, 1), Decimal::new(1, 4), 4))
    } else if str_eq(symbol, "6B") {
        Some((Currency::USD, Decimal::new(625, 3), Decimal::new(1, 4), 4))
    } else if str_eq(symbol, "6C") {
        Some((Currency::USD, Decimal::new(10, 1), Decimal::new(1, 4), 4))
    } else if str_eq(symbol, "6E") {
        Some((Currency::USD, Decimal::new(125, 2), Decimal::new(1, 4), 4))
    } else if str_eq(symbol, "6J") {
        Some((Currency::USD, Decimal::new(125, 4), Decimal::new(1, 6), 6))
    } else if str_eq(symbol, "6M") {
        Some((Currency::USD, Decimal::new(1, 1), Decimal::new(1, 5), 5))
    } else if str_eq(symbol, "6N") {
        Some((Currency::USD, Decimal::new(10, 1), Decimal::new(1, 4), 4))
    } else if str_eq(symbol, "6S") {
        Some((Currency::USD, Decimal::new(125, 2), Decimal::new(1, 4), 4))
    } else if str_eq(symbol, "E7") {
        Some((Currency::USD, Decimal::new(625, 3), Decimal::new(1, 4), 4))
    } else if str_eq(symbol, "EMD") {
        Some((Currency::USD, Decimal::new(25, 1), Decimal::new(5, 2), 2))
    } else if str_eq(symbol, "ES") {
        Some((Currency::USD, Decimal::new(125, 1), Decimal::new(25, 2), 2))
    } else if str_eq(symbol, "GE") {
        Some((Currency::USD, Decimal::new(625, 4), Decimal::new(25, 4), 4))
    } else if str_eq(symbol, "GF") {
        Some((Currency::USD, Decimal::new(125, 2), Decimal::new(25, 3), 3))
    } else if str_eq(symbol, "HE") {
        Some((Currency::USD, Decimal::new(1, 1), Decimal::new(25, 4), 4))
    } else if str_eq(symbol, "J7") {
        Some((Currency::USD, Decimal::new(625, 5), Decimal::new(1, 6), 6))
    } else if str_eq(symbol, "LE") {
        Some((Currency::USD, Decimal::new(10, 1), Decimal::new(25, 3), 3))
    } else if str_eq(symbol, "NQ") {
        Some((Currency::USD, Decimal::new(50, 1), Decimal::new(25, 2), 2))
    } else if str_eq(symbol, "RF") {
        Some((Currency::USD, Decimal::new(125, 2), Decimal::new(1, 4), 4))
    } else if str_eq(symbol, "SP") {
        Some((Currency::USD, Decimal::new(250, 1), Decimal::new(1, 1), 2))
    } else if str_eq(symbol, "GC") {
        Some((Currency::USD, Decimal::new(100, 1), Decimal::new(1, 1), 2))
    } else if str_eq(symbol, "HG") {
        Some((Currency::USD, Decimal::new(125, 4), Decimal::new(5, 4), 4))
    } else if str_eq(symbol, "QI") {
        Some((Currency::USD, Decimal::new(3125, 5), Decimal::new(25, 4), 4))
    } else if str_eq(symbol, "SI") {
        Some((Currency::USD, Decimal::new(125, 3), Decimal::new(5, 3), 3))
    } else if str_eq(symbol, "CL") {
        Some((Currency::USD, Decimal::new(100, 1), Decimal::new(1, 2), 2))
    } else if str_eq(symbol, "HO") {
        Some((Currency::USD, Decimal::new(42, 1), Decimal::new(1, 4), 4))
    } else if str_eq(symbol, "NG") {
        Some((Currency::USD, Decimal::new(100, 1), Decimal::new(1, 3), 3))
    } else if str_eq(symbol, "PA") {
        Some((Currency::USD, Decimal::new(50, 1), Decimal::new(5, 2), 2))
    } else if str_eq(symbol, "PL") {
        Some((Currency::USD, Decimal::new(50, 1), Decimal::new(1, 1), 2))
    } else if str_eq(symbol, "QM") {
        Some((Currency::USD, Decimal::new(50, 1), Decimal::new(1, 2), 2))
    } else if str_eq(symbol, "RB") {
        Some((Currency::USD, Decimal::new(42, 1), Decimal::new(1, 4), 4))
    } else if str_eq(symbol, "MES") {
        Some((Currency::USD, Decimal::new(125, 2), Decimal::new(25, 2), 2))
    } else if str_eq(symbol, "MNQ") {
        Some((Currency::USD, Decimal::new(50, 2), Decimal::new(25, 2), 2))
    } else if str_eq(symbol, "M2K") {
        Some((Currency::USD, Decimal::new(50, 2), Decimal::new(1, 1), 2))
    } else if str_eq(symbol, "MYM") {
        Some((Currency::USD, Decimal::new(50, 2), Decimal::new(10, 1), 0))
    } else if str_eq(symbol, "MGC") {
        Some((Currency::USD, Decimal::new(10, 1), Decimal::new(1, 1), 2))
    } else if str_eq(symbol, "SIL") {
        Some((Currency::USD, Decimal::new(125, 4), Decimal::new(5, 3), 3))
    } else if str_eq(symbol, "MCL") {
        Some((Currency::USD, Decimal::new(10, 1), Decimal::new(1, 2), 2))
    } else if str_eq(symbol, "MBT") {
        Some((Currency::USD, Decimal::new(125, 2), Decimal::new(25, 2), 2))
    } else if str_eq(symbol, "M6A") {
        Some((Currency::USD, Decimal::new(1, 1), Decimal::new(1, 4), 4))
    } else if str_eq(symbol, "M6B") {
        Some((Currency::USD, Decimal::new(625, 4), Decimal::new(1, 4), 4))
    } else if str_eq(symbol, "M6E") {
        Some((Currency::USD, Decimal::new(125, 3), Decimal::new(1, 4), 4))
    } else if str_eq(symbol, "MJY") {
        Some((Currency::USD, Decimal::new(125, 5), Decimal::new(1, 6), 6))
    } else {
        None
    }
}

/// `info` describes `symbol` as its table entry `e` does, without a base currency.
pub open spec fn info_from_entry(info: SymbolInfo, symbol: Seq<char>, e: (Currency, DecimalParts, DecimalParts, u32)) -> bool {
    &&& info.symbol_name@ == symbol
    &&& info.pnl_currency == e.0
    &&& info.value_per_tick@ == e.1
    &&& info.tick_size@ == e.2
    &&& info.decimal_accuracy == e.3
    &&& info.base_currency is None
}

fn info_of(symbol: &str, entry: (Currency, Decimal, Decimal, u32)) -> (r: SymbolInfo)
    ensures
        info_from_entry(r, symbol@, (entry.0, entry.1@, entry.2@, entry.3)),
{
    SymbolInfo {
        symbol_name: String::from_str(symbol),
        pnl_currency: entry.0,
        value_per_tick: entry.1,
        tick_size: entry.2,
        decimal_accuracy: entry.3,
        base_currency: None,
    }
}

/// What the table says of `symbol`; unlisted symbols are an error.
pub fn get_futures_symbol_info(symbol: &str) -> (r: Result<SymbolInfo, FundForgeError>)
    ensures
        match spec_symbol_info_entry(symbol@) {
            Some(e) => r matches Ok(info) && info_from_entry(info, symbol@, e),
            None => r matches Err(FundForgeError::ClientSideErrorDebug(m)) && m@
                == "Unknown futures symbol: "@ + symbol@ + ", please add mapping"@,
        },
{
    match symbol_info_entry(symbol) {
        Some(entry) => Ok(info_of(symbol, entry)),
        None => Err(
            FundForgeError::ClientSideErrorDebug(
                String::from_str("Unknown futures symbol: ").concat(symbol).concat(", please add mapping"),
            ),
        ),
    }
}

/// What the table says of `symbol`; unlisted symbols give `"<symbol> not found"`.
pub fn get_rithmic_symbol_info(symbol: &str) -> (r: Result<SymbolInfo, String>)
    ensures
        match spec_symbol_info_entry(symbol@) {
            Some(e) => r matches Ok(info) && info_from_entry(info, symbol@, e),
            None => r matches Err(m) && m@ == symbol@ + " not found"@,
        },
{
    match symbol_info_entry(symbol) {
        Some(entry) => Ok(info_of(symbol, entry)),
        None => Err(symbol.to_owned().concat(" not found")),
    }
}

/// The intraday margin in USD of each listed product.
pub open spec fn spec_intraday_margin(symbol: Seq<char>) -> Option<DecimalParts> {
    if symbol == "MES"@ {
        Some(DecimalParts { mantissa: 4000, scale: 2 })
    } else if symbol == "MNQ"@ {
        Some(DecimalParts { mantissa: 10000, scale: 2 })
    } else if symbol == "MYM"@ {
        Some(DecimalParts { mantissa: 5000, scale: 2 })
    } else if symbol == "M2K"@ {
        Some(DecimalParts { mantissa: 5000, scale: 2 })
    } else if symbol == "ES"@ {
        Some(DecimalParts { mantissa: 40000, scale: 2 })
    } else if symbol == "NQ"@ {
        Some(DecimalParts { mantissa: 100000, scale: 2 })
    } else if symbol == "YM"@ {
        Some(DecimalParts { mantissa: 50000, scale: 2 })
    } else if symbol == "RTY"@ {
        Some(DecimalParts { mantissa: 50000, scale: 2 })
    } else if symbol == "EMD"@ {
        Some(DecimalParts { mantissa: 377500, scale: 2 })
    } else if symbol == "NKD"@ {
        Some(DecimalParts { mantissa: 225000, scale: 2 })
    } else if symbol == "6A"@ {
        Some(DecimalParts { mantissa: 36250, scale: 2 })
    } else if symbol == "6B"@ {
        Some(DecimalParts { mantissa: 47500, scale: 2 })
    } else if symbol == "6C"@ {
        Some(DecimalParts { mantissa: 25000, scale: 2 })
    } else if symbol == "6E"@ {
        Some(DecimalParts { mantissa: 52500, scale: 2 })
    } else if symbol == "6J"@ {
        Some(DecimalParts { mantissa: 70000, scale: 2 })
    } else if symbol == "6N"@ {
        Some(DecimalParts { mantissa: 35000, scale: 2 })
    } else if symbol == "6S"@ {
        Some(DecimalParts { mantissa: 92500, scale: 2 })
    } else if symbol == "E7"@ {
        Some(DecimalParts { mantissa: 26250, scale: 2 })
    } else if symbol == "J7"@ {
        Some(DecimalParts { mantissa: 35000, scale: 2 })
    } else if symbol == "M6A"@ {
        Some(DecimalParts { mantissa: 3625, scale: 2 })
    } else if symbol == "M6B"@ {
        Some(DecimalParts { mantissa: 4750, scale: 2 })
    } else if symbol == "M6E"@ {
        Some(DecimalParts { mantissa: 5250, scale: 2 })
    } else if symbol == "MJY"@ {
        Some(DecimalParts { mantissa: 7000, scale: 2 })
    } else if symbol == "CL"@ {
        Some(DecimalParts { mantissa: 165000, scale: 2 })
    } else if symbol == "QM"@ {
        Some(DecimalParts { mantissa: 82500, scale: 2 })
    } else if symbol == "MCL"@ {
        Some(DecimalParts { mantissa: 16500, scale: 2 })
    } else if symbol == "NG"@ {
        Some(DecimalParts { mantissa: 550000, scale: 2 })
    } else if symbol == "QG"@ {
        Some(DecimalParts { mantissa: 146000, scale: 2 })
    } else if symbol == "RB"@ {
        Some(DecimalParts { mantissa: 790000, scale: 2 })
    } else if symbol == "HO"@ {
        Some(DecimalParts { mantissa: 860000, scale: 2 })
    } else if symbol == "GC"@ {
        Some(DecimalParts { mantissa: 207500, scale: 2 })
    } else if symbol == "QO"@ {
        Some(DecimalParts { mantissa: 103750, scale: 2 })
    } else if symbol == "MGC"@ {
        Some(DecimalParts { mantissa: 20750, scale: 2 })
    } else if symbol == "HG"@ {
        Some(DecimalParts { mantissa: 152500, scale: 2 })
    } else if symbol == "QC"@ {
        Some(DecimalParts { mantissa: 76250, scale: 2 })
    } else if symbol == "SI"@ {
        Some(DecimalParts { mantissa: 1100000, scale: 2 })
    } else if symbol == "QI"@ {
        Some(DecimalParts { mantissa: 550000, scale: 2 })
    } else if symbol == "SIL"@ {
        Some(DecimalParts { mantissa: 220000, scale: 2 })
    } else if symbol == "PL"@ {
        Some(DecimalParts { mantissa: 280000, scale: 2 })
    } else if symbol == "ZB"@ {
        Some(DecimalParts { mantissa: 92500, scale: 2 })
    } else if symbol == "ZF"@ {
        Some(DecimalParts { mantissa: 35000, scale: 2 })
    } else if symbol == "ZN"@ {
        Some(DecimalParts { mantissa: 50000, scale: 2 })
    } else if symbol == "ZT"@ {
        Some(DecimalParts { mantissa: 26250, scale: 2 })
    } else if symbol == "ZC"@ {
        Some(DecimalParts { mantissa: 130000, scale: 2 })
    } else if symbol == "ZW"@ {
        Some(DecimalParts { mantissa: 200000, scale: 2 })
    } else if symbol == "ZS"@ {
        Some(DecimalParts { mantissa: 240000, scale: 2 })
    } else if symbol == "ZL"@ {
        Some(DecimalParts { mantissa: 315000, scale: 2 })
    } else if symbol == "ZM"@ {
        Some(DecimalParts { mantissa: 310000, scale: 2 })
    } else if symbol == "ZO"@ {
        Some(DecimalParts { mantissa: 140000, scale: 2 })
    } else if symbol == "ZR"@ {
        Some(DecimalParts { mantissa: 157500, scale: 2 })
    } else if symbol == "XC"@ {
        Some(DecimalParts { mantissa: 26000, scale: 2 })
    } else if symbol == "XW"@ {
        Some(DecimalParts { mantissa: 40000, scale: 2 })
    } else if symbol == "XK"@ {
        Some(DecimalParts { mantissa: 48000, scale: 2 })
    } else {
        None
    }
}

/// The intraday margin in USD of `symbol`, if it is listed.
pub fn get_rithmic_intraday_margin_in_usd(symbol: &str) -> (r: Option<Decimal>)
    ensures
        match spec_intraday_margin(symbol@) {
            Some(m) => r matches Some(d) && d@ == m,
            None => r is None,
        },
{
    if str_eq(symbol, "MES") {
        Some(Decimal::new(4000, 2))
    } else if str_eq(symbol, "MNQ") {
        Some(Decimal::new(10000, 2))
    } else if str_eq(symbol, "MYM") {
        Some(Decimal::new(5000, 2))
    } else if str_eq(symbol, "M2K") {
        Some(Decimal::new(5000, 2))
    } else if str_eq(symbol, "ES") {
        Some(Decimal::new(40000, 2))
    } else if str_eq(symbol, "NQ") {
        Some(Decimal::new(100000, 2))
    } else if str_eq(symbol, "YM") {
        Some(Decimal::new(50000, 2))
    } else if str_eq(symbol, "RTY") {
        Some(Decimal::new(50000, 2))
    } else if str_eq(symbol, "EMD") {
        Some(Decimal::new(377500, 2))
    } else if str_eq(symbol, "NKD") {
        Some(Decimal::new(225000, 2))
    } else if str_eq(symbol, "6A") {
        Some(Decimal::new(36250, 2))
    } else if str_eq(symbol, "6B") {
        Some(Decimal::new(47500, 2))
    } else if str_eq(symbol, "6C") {
        Some(Decimal::new(25000, 2))
    } else if str_eq(symbol, "6E") {
        Some(Decimal::new(52500, 2))
    } else if str_eq(symbol, "6J") {
        Some(Decimal::new(70000, 2))
    } else if str_eq(symbol, "6N") {
        Some(Decimal::new(35000, 2))
    } else if str_eq(symbol, "6S") {
        Some(Decimal::new(92500, 2))
    } else if str_eq(symbol, "E7") {
        Some(Decimal::new(26250, 2))
    } else if str_eq(symbol, "J7") {
        Some(Decimal::new(35000, 2))
    } else if str_eq(symbol, "M6A") {
        Some(Decimal::new(3625, 2))
    } else if str_eq(symbol, "M6B") {
        Some(Decimal::new(4750, 2))
    } else if str_eq(symbol, "M6E") {
        Some(Decimal::new(5250, 2))
    } else if str_eq(symbol, "MJY") {
        Some(Decimal::new(7000, 2))
    } else if str_eq(symbol, "CL") {
        Some(Decimal::new(165000, 2))
    } else if str_eq(symbol, "QM") {
        Some(Decimal::new(82500, 2))
    } else if str_eq(symbol, "MCL") {
        Some(Decimal::new(16500, 2))
    } else if str_eq(symbol, "NG") {
        Some(Decimal::new(550000, 2))
    } else if str_eq(symbol, "QG") {
        Some(Decimal::new(146000, 2))
    } else if str_eq(symbol, "RB") {
        Some(Decimal::new(790000, 2))
    } else if str_eq(symbol, "HO") {
        Some(Decimal::new(860000, 2))
    } else if str_eq(symbol, "GC") {
        Some(Decimal::new(207500, 2))
    } else if str_eq(symbol, "QO") {
        Some(Decimal::new(103750, 2))
    } else if str_eq(symbol, "MGC") {
        Some(Decimal::new(20750, 2))
    } else if str_eq(symbol, "HG") {
        Some(Decimal::new(152500, 2))
    } else if str_eq(symbol, "QC") {
        Some(Decimal::new(76250, 2))
    } else if str_eq(symbol, "SI") {
        Some(Decimal::new(1100000, 2))
    } else if str_eq(symbol, "QI") {
        Some(Decimal::new(550000, 2))
    } else if str_eq(symbol, "SIL") {
        Some(Decimal::new(220000, 2))
    } else if str_eq(symbol, "PL") {
        Some(Decimal::new(280000, 2))
    } else if str_eq(symbol, "ZB") {
        Some(Decimal::new(92500, 2))
    } else if str_eq(symbol, "ZF") {
        Some(Decimal::new(35000, 2))
    } else if str_eq(symbol, "ZN") {
        Some(Decimal::new(50000, 2))
    } else if str_eq(symbol, "ZT") {
        Some(Decimal::new(26250, 2))
    } else if str_eq(symbol, "ZC") {
        Some(Decimal::new(130000, 2))
    } else if str_eq(symbol, "ZW") {
        Some(Decimal::new(200000, 2))
    } else if str_eq(symbol, "ZS") {
        Some(Decimal::new(240000, 2))
    } else if str_eq(symbol, "ZL") {
        Some(Decimal::new(315000, 2))
    } else if str_eq(symbol, "ZM") {
        Some(Decimal::new(310000, 2))
    } else if str_eq(symbol, "ZO") {
        Some(Decimal::new(140000, 2))
    } else if str_eq(symbol, "ZR") {
        Some(Decimal::new(157500, 2))
    } else if str_eq(symbol, "XC") {
        Some(Decimal::new(26000, 2))
    } else if str_eq(symbol, "XW") {
        Some(Decimal::new(40000, 2))
    } else if str_eq(symbol, "XK") {
        Some(Decimal::new(48000, 2))
    } else {
        None
    }
}

/// The overnight margin of each listed product.
pub open spec fn spec_overnight_margin(symbol: Seq<char>) -> Option<DecimalParts> {
    if symbol == "MES"@ {
        Some(DecimalParts { mantissa: 146000, scale: 2 })
    } else if symbol == "MNQ"@ {
        Some(DecimalParts { mantissa: 222000, scale: 2 })
    } else if symbol == "MYM"@ {
        Some(DecimalParts { mantissa: 104000, scale: 2 })
    } else if symbol == "M2K"@ {
        Some(DecimalParts { mantissa: 76000, scale: 2 })
    } else if symbol == "ES"@ {
        Some(DecimalParts { mantissa: 1460000, scale: 2 })
    } else if symbol == "NQ"@ {
        Some(DecimalParts { mantissa: 2220000, scale: 2 })
    } else if symbol == "YM"@ {
        Some(DecimalParts { mantissa: 1040000, scale: 2 })
    } else if symbol == "RTY"@ {
        Some(DecimalParts { mantissa: 760000, scale: 2 })
    } else if symbol == "EMD"@ {
        Some(DecimalParts { mantissa: 1510000, scale: 2 })
    } else if symbol == "NKD"@ {
        Some(DecimalParts { mantissa: 1200000, scale: 2 })
    } else if symbol == "6A"@ {
        Some(DecimalParts { mantissa: 145000, scale: 2 })
    } else if symbol == "6B"@ {
        Some(DecimalParts { mantissa: 190000, scale: 2 })
    } else if symbol == "6C"@ {
        Some(DecimalParts { mantissa: 100000, scale: 2 })
    } else if symbol == "6E"@ {
        Some(DecimalParts { mantissa: 210000, scale: 2 })
    } else if symbol == "6J"@ {
        Some(DecimalParts { mantissa: 280000, scale: 2 })
    } else if symbol == "6N"@ {
        Some(DecimalParts { mantissa: 145000, scale: 2 })
    } else if symbol == "6S"@ {
        Some(DecimalParts { mantissa: 370000, scale: 2 })
    } else if symbol == "E7"@ {
        Some(DecimalParts { mantissa: 105000, scale: 2 })
    } else if symbol == "J7"@ {
        Some(DecimalParts { mantissa: 140000, scale: 2 })
    } else if symbol == "M6A"@ {
        Some(DecimalParts { mantissa: 14500, scale: 2 })
    } else if symbol == "M6B"@ {
        Some(DecimalParts { mantissa: 19000, scale: 2 })
    } else if symbol == "M6E"@ {
        Some(DecimalParts { mantissa: 21000, scale: 2 })
    } else if symbol == "MJY"@ {
        Some(DecimalParts { mantissa: 28000, scale: 2 })
    } else if symbol == "CL"@ {
        Some(DecimalParts { mantissa: 660000, scale: 2 })
    } else if symbol == "QM"@ {
        Some(DecimalParts { mantissa: 330000, scale: 2 })
    } else if symbol == "MCL"@ {
        Some(DecimalParts { mantissa: 66000, scale: 2 })
    } else if symbol == "NG"@ {
        Some(DecimalParts { mantissa: 550000, scale: 2 })
    } else if symbol == "QG"@ {
        Some(DecimalParts { mantissa: 146000, scale: 2 })
    } else if symbol == "RB"@ {
        Some(DecimalParts { mantissa: 790000, scale: 2 })
    } else if symbol == "HO"@ {
        Some(DecimalParts { mantissa: 860000, scale: 2 })
    } else if symbol == "GC"@ {
        Some(DecimalParts { mantissa: 1000000, scale: 2 })
    } else if symbol == "QO"@ {
        Some(DecimalParts { mantissa: 500000, scale: 2 })
    } else if symbol == "MGC"@ {
        Some(DecimalParts { mantissa: 100000, scale: 2 })
    } else if symbol == "HG"@ {
        Some(DecimalParts { mantissa: 610000, scale: 2 })
    } else if symbol == "QC"@ {
        Some(DecimalParts { mantissa: 305000, scale: 2 })
    } else if symbol == "SI"@ {
        Some(DecimalParts { mantissa: 1100000, scale: 2 })
    } else if symbol == "QI"@ {
        Some(DecimalParts { mantissa: 550000, scale: 2 })
    } else if symbol == "SIL"@ {
        Some(DecimalParts { mantissa: 220000, scale: 2 })
    } else if symbol == "PL"@ {
        Some(DecimalParts { mantissa: 280000, scale: 2 })
    } else if symbol == "ZB"@ {
        Some(DecimalParts { mantissa: 370000, scale: 2 })
    } else if symbol == "ZF"@ {
        Some(DecimalParts { mantissa: 140000, scale: 2 })
    } else if symbol == "ZN"@ {
        Some(DecimalParts { mantissa: 200000, scale: 2 })
    } else if symbol == "ZT"@ {
        Some(DecimalParts { mantissa: 105000, scale: 2 })
    } else if symbol == "ZC"@ {
        Some(DecimalParts { mantissa: 130000, scale: 2 })
    } else if symbol == "ZW"@ {
        Some(DecimalParts { mantissa: 200000, scale: 2 })
    } else if symbol == "ZS"@ {
        Some(DecimalParts { mantissa: 240000, scale: 2 })
    } else if symbol == "ZL"@ {
        Some(DecimalParts { mantissa: 315000, scale: 2 })
    } else if symbol == "ZM"@ {
        Some(DecimalParts { mantissa: 310000, scale: 2 })
    } else if symbol == "ZO"@ {
        Some(DecimalParts { mantissa: 140000, scale: 2 })
    } else if symbol == "ZR"@ {
        Some(DecimalParts { mantissa: 157500, scale: 2 })
    } else if symbol == "XC"@ {
        Some(DecimalParts { mantissa: 26000, scale: 2 })
    } else if symbol == "XW"@ {
        Some(DecimalParts { mantissa: 40000, scale: 2 })
    } else if symbol == "XK"@ {
        Some(DecimalParts { mantissa: 48000, scale: 2 })
    } else {
        None
    }
}

/// The overnight margin of `symbol`, if it is listed.
pub fn get_overnight_margin(symbol: &str) -> (r: Option<Decimal>)
    ensures
        match spec_overnight_margin(symbol@) {
            Some(m) => r matches Some(d) && d@ == m,
            None => r is None,
        },
{
    if str_eq(symbol, "MES") {
        Some(Decimal::new(146000, 2))
    } else if str_eq(symbol, "MNQ") {
        Some(Decimal::new(222000, 2))
    } else if str_eq(symbol, "MYM") {
        Some(Decimal::new(104000, 2))
    } else if str_eq(symbol, "M2K") {
        Some(Decimal::new(76000, 2))
    } else if str_eq(symbol, "ES") {
        Some(Decimal::new(1460000, 2))
    } else if str_eq(symbol, "NQ") {
        Some(Decimal::new(2220000, 2))
    } else if str_eq(symbol, "YM") {
        Some(Decimal::new(1040000, 2))
    } else if str_eq(symbol, "RTY") {
        Some(Decimal::new(760000, 2))
    } else if str_eq(symbol, "EMD") {
        Some(Decimal::new(1510000, 2))
    } else if str_eq(symbol, "NKD") {
        Some(Decimal::new(1200000, 2))
    } else if str_eq(symbol, "6A") {
        Some(Decimal::new(145000, 2))
    } else if str_eq(symbol, "6B") {
        Some(Decimal::new(190000, 2))
    } else if str_eq(symbol, "6C") {
        Some(Decimal::new(100000, 2))
    } else if str_eq(symbol, "6E") {
        Some(Decimal::new(210000, 2))
    } else if str_eq(symbol, "6J") {
        Some(Decimal::new(280000, 2))
    } else if str_eq(symbol, "6N") {
        Some(Decimal::new(145000, 2))
    } else if str_eq(symbol, "6S") {
        Some(Decimal::new(370000, 2))
    } else if str_eq(symbol, "E7") {
        Some(Decimal::new(105000, 2))
    } else if str_eq(symbol, "J7") {
        Some(Decimal::new(140000, 2))
    } else if str_eq(symbol, "M6A") {
        Some(Decimal::new(14500, 2))
    } else if str_eq(symbol, "M6B") {
        Some(Decimal::new(19000, 2))
    } else if str_eq(symbol, "M6E") {
        Some(Decimal::new(21000, 2))
    } else if str_eq(symbol, "MJY") {
        Some(Decimal::new(28000, 2))
    } else if str_eq(symbol, "CL") {
        Some(Decimal::new(660000, 2))
    } else if str_eq(symbol, "QM") {
        Some(Decimal::new(330000, 2))
    } else if str_eq(symbol, "MCL") {
        Some(Decimal::new(66000, 2))
    } else if str_eq(symbol, "NG") {
        Some(Decimal::new(550000, 2))
    } else if str_eq(symbol, "QG") {
        Some(Decimal::new(146000, 2))
    } else if str_eq(symbol, "RB") {
        Some(Decimal::new(790000, 2))
    } else if str_eq(symbol, "HO") {
        Some(Decimal::new(860000, 2))
    } else if str_eq(symbol, "GC") {
        Some(Decimal::new(1000000, 2))
    } else if str_eq(symbol, "QO") {
        Some(Decimal::new(500000, 2))
    } else if str_eq(symbol, "MGC") {
        Some(Decimal::new(100000, 2))
    } else if str_eq(symbol, "HG") {
        Some(Decimal::new(610000, 2))
    } else if str_eq(symbol, "QC") {
        Some(Decimal::new(305000, 2))
    } else if str_eq(symbol, "SI") {
        Some(Decimal::new(1100000, 2))
    } else if str_eq(symbol, "QI") {
        Some(Decimal::new(550000, 2))
    } else if str_eq(symbol, "SIL") {
        Some(Decimal::new(220000, 2))
    } else if str_eq(symbol, "PL") {
        Some(Decimal::new(280000, 2))
    } else if str_eq(symbol, "ZB") {
        Some(Decimal::new(370000, 2))
    } else if str_eq(symbol, "ZF") {
        Some(Decimal::new(140000, 2))
    } else if str_eq(symbol, "ZN") {
        Some(Decimal::new(200000, 2))
    } else if str_eq(symbol, "ZT") {
        Some(Decimal::new(105000, 2))
    } else if str_eq(symbol, "ZC") {
        Some(Decimal::new(130000, 2))
    } else if str_eq(symbol, "ZW") {
        Some(Decimal::new(200000, 2))
    } else if str_eq(symbol, "ZS") {
        Some(Decimal::new(240000, 2))
    } else if str_eq(symbol, "ZL") {
        Some(Decimal::new(315000, 2))
    } else if str_eq(symbol, "ZM") {
        Some(Decimal::new(310000, 2))
    } else if str_eq(symbol, "ZO") {
        Some(Decimal::new(140000, 2))
    } else if str_eq(symbol, "ZR") {
        Some(Decimal::new(157500, 2))
    } else if str_eq(symbol, "XC") {
        Some(Decimal::new(26000, 2))
    } else if str_eq(symbol, "XW") {
        Some(Decimal::new(40000, 2))
    } else if str_eq(symbol, "XK") {
        Some(Decimal::new(48000, 2))
    } else {
        None
    }
}

/// The commission per contract and side of each listed product, and its currency.
pub open spec fn spec_commission(symbol: Seq<char>) -> Option<(DecimalParts, Currency)> {
    if symbol == "YM"@ {
        Some((DecimalParts { mantissa: 190, scale: 2 }, Currency::USD))
    } else if symbol == "ZDJ"@ {
        Some((DecimalParts { mantissa: 154, scale: 2 }, Currency::USD))
    } else if symbol == "M2K"@ {
        Some((DecimalParts { mantissa: 50, scale: 2 }, Currency::USD))
    } else if symbol == "MES"@ {
        Some((DecimalParts { mantissa: 50, scale: 2 }, Currency::USD))
    } else if symbol == "FDXS"@ {
        Some((DecimalParts { mantissa: 27, scale: 2 }, Currency::EUR))
    } else if symbol == "MYM"@ {
        Some((DecimalParts { mantissa: 50, scale: 2 }, Currency::USD))
    } else if symbol == "FSXE"@ {
        Some((DecimalParts { mantissa: 23, scale: 2 }, Currency::EUR))
    } else if symbol == "ES"@ {
        Some((DecimalParts { mantissa: 190, scale: 2 }, Currency::USD))
    } else if symbol == "MJNK"@ {
        Some((DecimalParts { mantissa: 3990, scale: 2 }, Currency::JPY))
    } else if symbol == "MNQ"@ {
        Some((DecimalParts { mantissa: 50, scale: 2 }, Currency::USD))
    } else if symbol == "NQ"@ {
        Some((DecimalParts { mantissa: 190, scale: 2 }, Currency::USD))
    } else if symbol == "EMD"@ {
        Some((DecimalParts { mantissa: 185, scale: 2 }, Currency::USD))
    } else if symbol == "NKD"@ {
        Some((DecimalParts { mantissa: 288, scale: 2 }, Currency::USD))
    } else if symbol == "SP"@ {
        Some((DecimalParts { mantissa: 288, scale: 2 }, Currency::USD))
    } else if symbol == "ZND"@ {
        Some((DecimalParts { mantissa: 288, scale: 2 }, Currency::USD))
    } else if symbol == "FXXP"@ {
        Some((DecimalParts { mantissa: 90, scale: 2 }, Currency::EUR))
    } else if symbol == "FDAX"@ {
        Some((DecimalParts { mantissa: 177, scale: 2 }, Currency::EUR))
    } else if symbol == "FESB"@ {
        Some((DecimalParts { mantissa: 80, scale: 2 }, Currency::EUR))
    } else if symbol == "FESX"@ {
        Some((DecimalParts { mantissa: 90, scale: 2 }, Currency::EUR))
    } else if symbol == "FDXM"@ {
        Some((DecimalParts { mantissa: 76, scale: 2 }, Currency::EUR))
    } else if symbol == "RTY"@ {
        Some((DecimalParts { mantissa: 190, scale: 2 }, Currency::USD))
    } else if symbol == "VX"@ {
        Some((DecimalParts { mantissa: 227, scale: 2 }, Currency::USD))
    } else if symbol == "FVS"@ {
        Some((DecimalParts { mantissa: 72, scale: 2 }, Currency::EUR))
    } else if symbol == "VXM"@ {
        Some((DecimalParts { mantissa: 35, scale: 2 }, Currency::USD))
    } else if symbol == "6Z"@ {
        Some((DecimalParts { mantissa: 213, scale: 2 }, Currency::USD))
    } else if symbol == "RMB"@ {
        Some((DecimalParts { mantissa: 213, scale: 2 }, Currency::USD))
    } else if symbol == "6M"@ {
        Some((DecimalParts { mantissa: 213, scale: 2 }, Currency::USD))
    } else if symbol == "TRE"@ {
        Some((DecimalParts { mantissa: 213, scale: 2 }, Currency::USD))
    } else if symbol == "6L"@ {
        Some((DecimalParts { mantissa: 213, scale: 2 }, Currency::USD))
    } else if symbol == "6N"@ {
        Some((DecimalParts { mantissa: 213, scale: 2 }, Currency::USD))
    } else if symbol == "PLN"@ {
        Some((DecimalParts { mantissa: 213, scale: 2 }, Currency::USD))
    } else if symbol == "SEK"@ {
        Some((DecimalParts { mantissa: 213, scale: 2 }, Currency::USD))
    } else if symbol == "TRY"@ {
        Some((DecimalParts { mantissa: 213, scale: 2 }, Currency::USD))
    } else if symbol == "6A"@ {
        Some((DecimalParts { mantissa: 212, scale: 2 }, Currency::USD))
    } else if symbol == "6B"@ {
        Some((DecimalParts { mantissa: 213, scale: 2 }, Currency::USD))
    } else if symbol == "6C"@ {
        Some((DecimalParts { mantissa: 213, scale: 2 }, Currency::USD))
    } else if symbol == "6E"@ {
        Some((DecimalParts { mantissa: 213, scale: 2 }, Currency::USD))
    } else if symbol == "6J"@ {
        Some((DecimalParts { mantissa: 213, scale: 2 }, Currency::USD))
    } else if symbol == "6S"@ {
        Some((DecimalParts { mantissa: 213, scale: 2 }, Currency::USD))
    } else if symbol == "E7"@ {
        Some((DecimalParts { mantissa: 138, scale: 2 }, Currency::USD))
    } else if symbol == "J7"@ {
        Some((DecimalParts { mantissa: 138, scale: 2 }, Currency::USD))
    } else if symbol == "M6A"@ {
        Some((DecimalParts { mantissa: 39, scale: 2 }, Currency::USD))
    } else if symbol == "M6B"@ {
        Some((DecimalParts { mantissa: 39, scale: 2 }, Currency::USD))
    } else if symbol == "MCD"@ {
        Some((DecimalParts { mantissa: 39, scale: 2 }, Currency::USD))
    } else if symbol == "M6E"@ {
        Some((DecimalParts { mantissa: 39, scale: 2 }, Currency::USD))
    } else if symbol == "MJY"@ {
        Some((DecimalParts { mantissa: 39, scale: 2 }, Currency::USD))
    } else if symbol == "MSF"@ {
        Some((DecimalParts { mantissa: 39, scale: 2 }, Currency::USD))
    } else if symbol == "DX"@ {
        Some((DecimalParts { mantissa: 188, scale: 2 }, Currency::USD))
    } else if symbol == "CL"@ {
        Some((DecimalParts { mantissa: 213, scale: 2 }, Currency::USD))
    } else if symbol == "MCL"@ {
        Some((DecimalParts { mantissa: 65, scale: 2 }, Currency::USD))
    } else if symbol == "MNG"@ {
        Some((DecimalParts { mantissa: 75, scale: 2 }, Currency::USD))
    } else if symbol == "HO"@ {
        Some((DecimalParts { mantissa: 213, scale: 2 }, Currency::USD))
    } else if symbol == "NG"@ {
        Some((DecimalParts { mantissa: 213, scale: 2 }, Currency::USD))
    } else if symbol == "QG"@ {
        Some((DecimalParts { mantissa: 103, scale: 2 }, Currency::USD))
    } else if symbol == "QH"@ {
        Some((DecimalParts { mantissa: 173, scale: 2 }, Currency::USD))
    } else if symbol == "QM"@ {
        Some((DecimalParts { mantissa: 173, scale: 2 }, Currency::USD))
    } else if symbol == "QU"@ {
        Some((DecimalParts { mantissa: 173, scale: 2 }, Currency::USD))
    } else if symbol == "RB"@ {
        Some((DecimalParts { mantissa: 213, scale: 2 }, Currency::USD))
    } else if symbol == "GC"@ {
        Some((DecimalParts { mantissa: 212, scale: 2 }, Currency::USD))
    } else if symbol == "HG"@ {
        Some((DecimalParts { mantissa: 212, scale: 2 }, Currency::USD))
    } else if symbol == "MHG"@ {
        Some((DecimalParts { mantissa: 75, scale: 2 }, Currency::USD))
    } else if symbol == "MGC"@ {
        Some((DecimalParts { mantissa: 65, scale: 2 }, Currency::USD))
    } else if symbol == "QC"@ {
        Some((DecimalParts { mantissa: 154, scale: 2 }, Currency::USD))
    } else if symbol == "QI"@ {
        Some((DecimalParts { mantissa: 154, scale: 2 }, Currency::USD))
    } else if symbol == "QO"@ {
        Some((DecimalParts { mantissa: 154, scale: 2 }, Currency::USD))
    } else if symbol == "SI"@ {
        Some((DecimalParts { mantissa: 212, scale: 2 }, Currency::USD))
    } else if symbol == "SIL"@ {
        Some((DecimalParts { mantissa: 115, scale: 2 }, Currency::USD))
    } else if symbol == "PA"@ {
        Some((DecimalParts { mantissa: 207, scale: 2 }, Currency::USD))
    } else if symbol == "PL"@ {
        Some((DecimalParts { mantissa: 212, scale: 2 }, Currency::USD))
    } else if symbol == "SR"@ {
        Some((DecimalParts { mantissa: 113, scale: 2 }, Currency::USD))
    } else if symbol == "10YY"@ {
        Some((DecimalParts { mantissa: 45, scale: 2 }, Currency::USD))
    } else if symbol == "30YY"@ {
        Some((DecimalParts { mantissa: 45, scale: 2 }, Currency::USD))
    } else if symbol == "2YY"@ {
        Some((DecimalParts { mantissa: 45, scale: 2 }, Currency::USD))
    } else if symbol == "5YY"@ {
        Some((DecimalParts { mantissa: 45, scale: 2 }, Currency::USD))
    } else if symbol == "UB"@ {
        Some((DecimalParts { mantissa: 147, scale: 2 }, Currency::USD))
    } else if symbol == "MWN"@ {
        Some((DecimalParts { mantissa: 45, scale: 2 }, Currency::USD))
    } else if symbol == "JGB"@ {
        Some((DecimalParts { mantissa: 49990, scale: 2 }, Currency::JPY))
    } else if symbol == "MTN"@ {
        Some((DecimalParts { mantissa: 45, scale: 2 }, Currency::USD))
    } else if symbol == "Z3N"@ {
        Some((DecimalParts { mantissa: 117, scale: 2 }, Currency::USD))
    } else if symbol == "ZB"@ {
        Some((DecimalParts { mantissa: 139, scale: 2 }, Currency::USD))
    } else if symbol == "ZF"@ {
        Some((DecimalParts { mantissa: 117, scale: 2 }, Currency::USD))
    } else if symbol == "ZN"@ {
        Some((DecimalParts { mantissa: 132, scale: 2 }, Currency::USD))
    } else if symbol == "TN"@ {
        Some((DecimalParts { mantissa: 132, scale: 2 }, Currency::USD))
    } else if symbol == "ZQ"@ {
        Some((DecimalParts { mantissa: 149, scale: 2 }, Currency::USD))
    } else if symbol == "ZT"@ {
        Some((DecimalParts { mantissa: 117, scale: 2 }, Currency::USD))
    } else if symbol == "GE"@ {
        Some((DecimalParts { mantissa: 172, scale: 2 }, Currency::USD))
    } else if symbol == "GLB"@ {
        Some((DecimalParts { mantissa: 172, scale: 2 }, Currency::USD))
    } else if symbol == "FGBL"@ {
        Some((DecimalParts { mantissa: 77, scale: 2 }, Currency::EUR))
    } else if symbol == "FGBM"@ {
        Some((DecimalParts { mantissa: 77, scale: 2 }, Currency::EUR))
    } else if symbol == "FGBS"@ {
        Some((DecimalParts { mantissa: 77, scale: 2 }, Currency::EUR))
    } else if symbol == "FBTP"@ {
        Some((DecimalParts { mantissa: 74, scale: 2 }, Currency::EUR))
    } else if symbol == "FOAT"@ {
        Some((DecimalParts { mantissa: 77, scale: 2 }, Currency::EUR))
    } else if symbol == "FGBX"@ {
        Some((DecimalParts { mantissa: 77, scale: 2 }, Currency::EUR))
    } else if symbol == "FBTS"@ {
        Some((DecimalParts { mantissa: 77, scale: 2 }, Currency::EUR))
    } else if symbol == "XC"@ {
        Some((DecimalParts { mantissa: 155, scale: 2 }, Currency::USD))
    } else if symbol == "XK"@ {
        Some((DecimalParts { mantissa: 156, scale: 2 }, Currency::USD))
    } else if symbol == "XW"@ {
        Some((DecimalParts { mantissa: 156, scale: 2 }, Currency::USD))
    } else if symbol == "ZC"@ {
        Some((DecimalParts { mantissa: 262, scale: 2 }, Currency::USD))
    } else if symbol == "ZE"@ {
        Some((DecimalParts { mantissa: 262, scale: 2 }, Currency::USD))
    } else if symbol == "ZL"@ {
        Some((DecimalParts { mantissa: 262, scale: 2 }, Currency::USD))
    } else if symbol == "ZM"@ {
        Some((DecimalParts { mantissa: 262, scale: 2 }, Currency::USD))
    } else if symbol == "ZO"@ {
        Some((DecimalParts { mantissa: 262, scale: 2 }, Currency::USD))
    } else if symbol == "ZR"@ {
        Some((DecimalParts { mantissa: 262, scale: 2 }, Currency::USD))
    } else if symbol == "ZS"@ {
        Some((DecimalParts { mantissa: 262, scale: 2 }, Currency::USD))
    } else if symbol == "ZW"@ {
        Some((DecimalParts { mantissa: 262, scale: 2 }, Currency::USD))
    } else if symbol == "DA"@ {
        Some((DecimalParts { mantissa: 242, scale: 2 }, Currency::USD))
    } else if symbol == "LBS"@ {
        Some((DecimalParts { mantissa: 242, scale: 2 }, Currency::USD))
    } else if symbol == "CC"@ {
        Some((DecimalParts { mantissa: 263, scale: 2 }, Currency::USD))
    } else if symbol == "CT"@ {
        Some((DecimalParts { mantissa: 263, scale: 2 }, Currency::USD))
    } else if symbol == "KC"@ {
        Some((DecimalParts { mantissa: 262, scale: 2 }, Currency::USD))
    } else if symbol == "OJ"@ {
        Some((DecimalParts { mantissa: 263, scale: 2 }, Currency::USD))
    } else if symbol == "SB"@ {
        Some((DecimalParts { mantissa: 263, scale: 2 }, Currency::USD))
    } else if symbol == "GF"@ {
        Some((DecimalParts { mantissa: 262, scale: 2 }, Currency::USD))
    } else if symbol == "HE"@ {
        Some((DecimalParts { mantissa: 262, scale: 2 }, Currency::USD))
    } else if symbol == "LE"@ {
        Some((DecimalParts { mantissa: 262, scale: 2 }, Currency::USD))
    } else {
        None
    }
}

fn commission_entry(symbol: &str) -> (r: Option<CommissionInfo>)
    ensures
        match spec_commission(symbol@) {
            Some(c) => r matches Some(info) && (info.per_side@, info.currency) == c,
            None => r is None,
        },
{
    if str_eq(symbol, "YM") {
        Some(CommissionInfo { per_side: Decimal::new(190, 2), currency: Currency::USD })
    } else if str_eq(symbol, "ZDJ") {
        Some(CommissionInfo { per_side: Decimal::new(154, 2), currency: Currency::USD })
    } else if str_eq(symbol, "M2K") {
        Some(CommissionInfo { per_side: Decimal::new(50, 2), currency: Currency::USD })
    } else if str_eq(symbol, "MES") {
        Some(CommissionInfo { per_side: Decimal::new(50, 2), currency: Currency::USD })
    } else if str_eq(symbol, "FDXS") {
        Some(CommissionInfo { per_side: Decimal::new(27, 2), currency: Currency::EUR })
    } else if str_eq(symbol, "MYM") {
        Some(CommissionInfo { per_side: Decimal::new(50, 2), currency: Currency::USD })
    } else if str_eq(symbol, "FSXE") {
        Some(CommissionInfo { per_side: Decimal::new(23, 2), currency: Currency::EUR })
    } else if str_eq(symbol, "ES") {
        Some(CommissionInfo { per_side: Decimal::new(190, 2), currency: Currency::USD })
    } else if str_eq(symbol, "MJNK") {
        Some(CommissionInfo { per_side: Decimal::new(3990, 2), currency: Currency::JPY })
    } else if str_eq(symbol, "MNQ") {
        Some(CommissionInfo { per_side: Decimal::new(50, 2), currency: Currency::USD })
    } else if str_eq(symbol, "NQ") {
        Some(CommissionInfo { per_side: Decimal::new(190, 2), currency: Currency::USD })
    } else if str_eq(symbol, "EMD") {
        Some(CommissionInfo { per_side: Decimal::new(185, 2), currency: Currency::USD })
    } else if str_eq(symbol, "NKD") {
        Some(CommissionInfo { per_side: Decimal::new(288, 2), currency: Currency::USD })
    } else if str_eq(symbol, "SP") {
        Some(CommissionInfo { per_side: Decimal::new(288, 2), currency: Currency::USD })
    } else if str_eq(symbol, "ZND") {
        Some(CommissionInfo { per_side: Decimal::new(288, 2), currency: Currency::USD })
    } else if str_eq(symbol, "FXXP") {
        Some(CommissionInfo { per_side: Decimal::new(90, 2), currency: Currency::EUR })
    } else if str_eq(symbol, "FDAX") {
        Some(CommissionInfo { per_side: Decimal::new(177, 2), currency: Currency::EUR })
    } else if str_eq(symbol, "FESB") {
        Some(CommissionInfo { per_side: Decimal::new(80, 2), currency: Currency::EUR })
    } else if str_eq(symbol, "FESX") {
        Some(CommissionInfo { per_side: Decimal::new(90, 2), currency: Currency::EUR })
    } else if str_eq(symbol, "FDXM") {
        Some(CommissionInfo { per_side: Decimal::new(76, 2), currency: Currency::EUR })
    } else if str_eq(symbol, "RTY") {
        Some(CommissionInfo { per_side: Decimal::new(190, 2), currency: Currency::USD })
    } else if str_eq(symbol, "VX") {
        Some(CommissionInfo { per_side: Decimal::new(227, 2), currency: Currency::USD })
    } else if str_eq(symbol, "FVS") {
        Some(CommissionInfo { per_side: Decimal::new(72, 2), currency: Currency::EUR })
    } else if str_eq(symbol, "VXM") {
        Some(CommissionInfo { per_side: Decimal::new(35, 2), currency: Currency::USD })
    } else if str_eq(symbol, "6Z") {
        Some(CommissionInfo { per_side: Decimal::new(213, 2), currency: Currency::USD })
    } else if str_eq(symbol, "RMB") {
        Some(CommissionInfo { per_side: Decimal::new(213, 2), currency: Currency::USD })
    } else if str_eq(symbol, "6M") {
        Some(CommissionInfo { per_side: Decimal::new(213, 2), currency: Currency::USD })
    } else if str_eq(symbol, "TRE") {
        Some(CommissionInfo { per_side: Decimal::new(213, 2), currency: Currency::USD })
    } else if str_eq(symbol, "6L") {
        Some(CommissionInfo { per_side: Decimal::new(213, 2), currency: Currency::USD })
    } else if str_eq(symbol, "6N") {
        Some(CommissionInfo { per_side: Decimal::new(213, 2), currency: Currency::USD })
    } else if str_eq(symbol, "PLN") {
        Some(CommissionInfo { per_side: Decimal::new(213, 2), currency: Currency::USD })
    } else if str_eq(symbol, "SEK") {
        Some(CommissionInfo { per_side: Decimal::new(213, 2), currency: Currency::USD })
    } else if str_eq(symbol, "TRY") {
        Some(CommissionInfo { per_side: Decimal::new(213, 2), currency: Currency::USD })
    } else if str_eq(symbol, "6A") {
        Some(CommissionInfo { per_side: Decimal::new(212, 2), currency: Currency::USD })
    } else if str_eq(symbol, "6B") {
        Some(CommissionInfo { per_side: Decimal::new(213, 2), currency: Currency::USD })
    } else if str_eq(symbol, "6C") {
        Some(CommissionInfo { per_side: Decimal::new(213, 2), currency: Currency::USD })
    } else if str_eq(symbol, "6E") {
        Some(CommissionInfo { per_side: Decimal::new(213, 2), currency: Currency::USD })
    } else if str_eq(symbol, "6J") {
        Some(CommissionInfo { per_side: Decimal::new(213, 2), currency: Currency::USD })
    } else if str_eq(symbol, "6S") {
        Some(CommissionInfo { per_side: Decimal::new(213, 2), currency: Currency::USD })
    } else if str_eq(symbol, "E7") {
        Some(CommissionInfo { per_side: Decimal::new(138, 2), currency: Currency::USD })
    } else if str_eq(symbol, "J7") {
        Some(CommissionInfo { per_side: Decimal::new(138, 2), currency: Currency::USD })
    } else if str_eq(symbol, "M6A") {
        Some(CommissionInfo { per_side: Decimal::new(39, 2), currency: Currency::USD })
    } else if str_eq(symbol, "M6B") {
        Some(CommissionInfo { per_side: Decimal::new(39, 2), currency: Currency::USD })
    } else if str_eq(symbol, "MCD") {
        Some(CommissionInfo { per_side: Decimal::new(39, 2), currency: Currency::USD })
    } else if str_eq(symbol, "M6E") {
        Some(CommissionInfo { per_side: Decimal::new(39, 2), currency: Currency::USD })
    } else if str_eq(symbol, "MJY") {
        Some(CommissionInfo { per_side: Decimal::new(39, 2), currency: Currency::USD })
    } else if str_eq(symbol, "MSF") {
        Some(CommissionInfo { per_side: Decimal::new(39, 2), currency: Currency::USD })
    } else if str_eq(symbol, "DX") {
        Some(CommissionInfo { per_side: Decimal::new(188, 2), currency: Currency::USD })
    } else if str_eq(symbol, "CL") {
        Some(CommissionInfo { per_side: Decimal::new(213, 2), currency: Currency::USD })
    } else if str_eq(symbol, "MCL") {
        Some(CommissionInfo { per_side: Decimal::new(65, 2), currency: Currency::USD })
    } else if str_eq(symbol, "MNG") {
        Some(CommissionInfo { per_side: Decimal::new(75, 2), currency: Currency::USD })
    } else if str_eq(symbol, "HO") {
        Some(CommissionInfo { per_side: Decimal::new(213, 2), currency: Currency::USD })
    } else if str_eq(symbol, "NG") {
        Some(CommissionInfo { per_side: Decimal::new(213, 2), currency: Currency::USD })
    } else if str_eq(symbol, "QG") {
        Some(CommissionInfo { per_side: Decimal::new(103, 2), currency: Currency::USD })
    } else if str_eq(symbol, "QH") {
        Some(CommissionInfo { per_side: Decimal::new(173, 2), currency: Currency::USD })
    } else if str_eq(symbol, "QM") {
        Some(CommissionInfo { per_side: Decimal::new(173, 2), currency: Currency::USD })
    } else if str_eq(symbol, "QU") {
        Some(CommissionInfo { per_side: Decimal::new(173, 2), currency: Currency::USD })
    } else if str_eq(symbol, "RB") {
        Some(CommissionInfo { per_side: Decimal::new(213, 2), currency: Currency::USD })
    } else if str_eq(symbol, "GC") {
        Some(CommissionInfo { per_side: Decimal::new(212, 2), currency: Currency::USD })
    } else if str_eq(symbol, "HG") {
        Some(CommissionInfo { per_side: Decimal::new(212, 2), currency: Currency::USD })
    } else if str_eq(symbol, "MHG") {
        Some(CommissionInfo { per_side: Decimal::new(75, 2), currency: Currency::USD })
    } else if str_eq(symbol, "MGC") {
        Some(CommissionInfo { per_side: Decimal::new(65, 2), currency: Currency::USD })
    } else if str_eq(symbol, "QC") {
        Some(CommissionInfo { per_side: Decimal::new(154, 2), currency: Currency::USD })
    } else if str_eq(symbol, "QI") {
        Some(CommissionInfo { per_side: Decimal::new(154, 2), currency: Currency::USD })
    } else if str_eq(symbol, "QO") {
        Some(CommissionInfo { per_side: Decimal::new(154, 2), currency: Currency::USD })
    } else if str_eq(symbol, "SI") {
        Some(CommissionInfo { per_side: Decimal::new(212, 2), currency: Currency::USD })
    } else if str_eq(symbol, "SIL") {
        Some(CommissionInfo { per_side: Decimal::new(115, 2), currency: Currency::USD })
    } else if str_eq(symbol, "PA") {
        Some(CommissionInfo { per_side: Decimal::new(207, 2), currency: Currency::USD })
    } else if str_eq(symbol, "PL") {
        Some(CommissionInfo { per_side: Decimal::new(212, 2), currency: Currency::USD })
    } else if str_eq(symbol, "SR") {
        Some(CommissionInfo { per_side: Decimal::new(113, 2), currency: Currency::USD })
    } else if str_eq(symbol, "10YY") {
        Some(CommissionInfo { per_side: Decimal::new(45, 2), currency: Currency::USD })
    } else if str_eq(symbol, "30YY") {
        Some(CommissionInfo { per_side: Decimal::new(45, 2), currency: Currency::USD })
    } else if str_eq(symbol, "2YY") {
        Some(CommissionInfo { per_side: Decimal::new(45, 2), currency: Currency::USD })
    } else if str_eq(symbol, "5YY") {
        Some(CommissionInfo { per_side: Decimal::new(45, 2), currency: Currency::USD })
    } else if str_eq(symbol, "UB") {
        Some(CommissionInfo { per_side: Decimal::new(147, 2), currency: Currency::USD })
    } else if str_eq(symbol, "MWN") {
        Some(CommissionInfo { per_side: Decimal::new(45, 2), currency: Currency::USD })
    } else if str_eq(symbol, "JGB") {
        Some(CommissionInfo { per_side: Decimal::new(49990, 2), currency: Currency::JPY })
    } else if str_eq(symbol, "MTN") {
        Some(CommissionInfo { per_side: Decimal::new(45, 2), currency: Currency::USD })
    } else if str_eq(symbol, "Z3N") {
        Some(CommissionInfo { per_side: Decimal::new(117, 2), currency: Currency::USD })
    } else if str_eq(symbol, "ZB") {
        Some(CommissionInfo { per_side: Decimal::new(139, 2), currency: Currency::USD })
    } else if str_eq(symbol, "ZF") {
        Some(CommissionInfo { per_side: Decimal::new(117, 2), currency: Currency::USD })
    } else if str_eq(symbol, "ZN") {
        Some(CommissionInfo { per_side: Decimal::new(132, 2), currency: Currency::USD })
    } else if str_eq(symbol, "TN") {
        Some(CommissionInfo { per_side: Decimal::new(132, 2), currency: Currency::USD })
    } else if str_eq(symbol, "ZQ") {
        Some(CommissionInfo { per_side: Decimal::new(149, 2), currency: Currency::USD })
    } else if str_eq(symbol, "ZT") {
        Some(CommissionInfo { per_side: Decimal::new(117, 2), currency: Currency::USD })
    } else if str_eq(symbol, "GE") {
        Some(CommissionInfo { per_side: Decimal::new(172, 2), currency: Currency::USD })
    } else if str_eq(symbol, "GLB") {
        Some(CommissionInfo { per_side: Decimal::new(172, 2), currency: Currency::USD })
    } else if str_eq(symbol, "FGBL") {
        Some(CommissionInfo { per_side: Decimal::new(77, 2), currency: Currency::EUR })
    } else if str_eq(symbol, "FGBM") {
        Some(CommissionInfo { per_side: Decimal::new(77, 2), currency: Currency::EUR })
    } else if str_eq(symbol, "FGBS") {
        Some(CommissionInfo { per_side: Decimal::new(77, 2), currency: Currency::EUR })
    } else if str_eq(symbol, "FBTP") {
        Some(CommissionInfo { per_side: Decimal::new(74, 2), currency: Currency::EUR })
    } else if str_eq(symbol, "FOAT") {
        Some(CommissionInfo { per_side: Decimal::new(77, 2), currency: Currency::EUR })
    } else if str_eq(symbol, "FGBX") {
        Some(CommissionInfo { per_side: Decimal::new(77, 2), currency: Currency::EUR })
    } else if str_eq(symbol, "FBTS") {
        Some(CommissionInfo { per_side: Decimal::new(77, 2), currency: Currency::EUR })
    } else if str_eq(symbol, "XC") {
        Some(CommissionInfo { per_side: Decimal::new(155, 2), currency: Currency::USD })
    } else if str_eq(symbol, "XK") {
        Some(CommissionInfo { per_side: Decimal::new(156, 2), currency: Currency::USD })
    } else if str_eq(symbol, "XW") {
        Some(CommissionInfo { per_side: Decimal::new(156, 2), currency: Currency::USD })
    } else if str_eq(symbol, "ZC") {
        Some(CommissionInfo { per_side: Decimal::new(262, 2), currency: Currency::USD })
    } else if str_eq(symbol, "ZE") {
        Some(CommissionInfo { per_side: Decimal::new(262, 2), currency: Currency::USD })
    } else if str_eq(symbol, "ZL") {
        Some(CommissionInfo { per_side: Decimal::new(262, 2), currency: Currency::USD })
    } else if str_eq(symbol, "ZM") {
        Some(CommissionInfo { per_side: Decimal::new(262, 2), currency: Currency::USD })
    } else if str_eq(symbol, "ZO") {
        Some(CommissionInfo { per_side: Decimal::new(262, 2), currency: Currency::USD })
    } else if str_eq(symbol, "ZR") {
        Some(CommissionInfo { per_side: Decimal::new(262, 2), currency: Currency::USD })
    } else if str_eq(symbol, "ZS") {
        Some(CommissionInfo { per_side: Decimal::new(262, 2), currency: Currency::USD })
    } else if str_eq(symbol, "ZW") {
        Some(CommissionInfo { per_side: Decimal::new(262, 2), currency: Currency::USD })
    } else if str_eq(symbol, "DA") {
        Some(CommissionInfo { per_side: Decimal::new(242, 2), currency: Currency::USD })
    } else if str_eq(symbol, "LBS") {
        Some(CommissionInfo { per_side: Decimal::new(242, 2), currency: Currency::USD })
    } else if str_eq(symbol, "CC") {
        Some(CommissionInfo { per_side: Decimal::new(263, 2), currency: Currency::USD })
    } else if str_eq(symbol, "CT") {
        Some(CommissionInfo { per_side: Decimal::new(263, 2), currency: Currency::USD })
    } else if str_eq(symbol, "KC") {
        Some(CommissionInfo { per_side: Decimal::new(262, 2), currency: Currency::USD })
    } else if str_eq(symbol, "OJ") {
        Some(CommissionInfo { per_side: Decimal::new(263, 2), currency: Currency::USD })
    } else if str_eq(symbol, "SB") {
        Some(CommissionInfo { per_side: Decimal::new(263, 2), currency: Currency::USD })
    } else if str_eq(symbol, "GF") {
        Some(CommissionInfo { per_side: Decimal::new(262, 2), currency: Currency::USD })
    } else if str_eq(symbol, "HE") {
        Some(CommissionInfo { per_side: Decimal::new(262, 2), currency: Currency::USD })
    } else if str_eq(symbol, "LE") {
        Some(CommissionInfo { per_side: Decimal::new(262, 2), currency: Currency::USD })
    } else {
        None
    }
}

/// The commission per contract and side for `symbol_name`; unlisted symbols give
/// `"No Symbol Found: <symbol>"`.
pub fn get_futures_commissions_info(symbol_name: &SymbolName) -> (r: Result<CommissionInfo, String>)
    ensures
        match spec_commission(symbol_name@) {
            Some(c) => r matches Ok(info) && (info.per_side@, info.currency) == c,
            None => r matches Err(m) && m@ == "No Symbol Found: "@ + symbol_name@,
        },
{
    match commission_entry(symbol_name.as_str()) {
        Some(info) => Ok(info),
        None => Err(String::from_str("No Symbol Found: ").concat(symbol_name.as_str())),
    }
}

/// The time zones trading hours are kept in.
#[derive(Clone, Copy, Debug, PartialEq, Eq, Structural)]
pub enum MarketTimeZone {
    Chicago,
    Berlin,
}

/// The opening and closing times of one weekday, in seconds after midnight; `None` when
/// the session carries over from or into another day.
#[derive(Clone, Copy, Debug, PartialEq, Eq, Structural)]
pub struct DaySession {
    pub open: Option<u32>,
    pub close: Option<u32>,
}

/// A weekly trading schedule in a market's time zone.
#[derive(Clone, Copy, Debug, PartialEq, Eq, Structural)]
pub struct TradingHours {
    pub timezone: MarketTimeZone,
    pub sunday: DaySession,
    pub monday: DaySession,
    pub tuesday: DaySession,
    pub wednesday: DaySession,
    pub thursday: DaySession,
    pub friday: DaySession,
    pub saturday: DaySession,
}

/// The schedules products follow.
#[derive(Clone, Copy, Debug, PartialEq, Eq, Structural)]
pub enum Schedule {
    Cme,
    CbotGrains,
    Eurex,
}

/// A schedule that opens at `open` in the evening of Sunday to Thursday (and Friday) and
/// closes at `close` on Monday to Friday, in `timezone`.
pub open spec fn weekly_hours(timezone: MarketTimeZone, open: u32, close: u32) -> TradingHours {
    TradingHours {
        timezone,
        sunday: DaySession { open: Some(open), close: None },
        monday: DaySession { open: None, close: Some(close) },
        tuesday: DaySession { open: Some(open), close: Some(close) },
        wednesday: DaySession { open: Some(open), close: Some(close) },
        thursday: DaySession { open: Some(open), close: Some(close) },
        friday: DaySession { open: Some(open), close: Some(close) },
        saturday: DaySession { open: None, close: None },
    }
}

/// The hours of a schedule: CME 17:00 to 16:00 Chicago time, CBOT grains 19:00 to 13:20
/// Chicago time, Eurex 08:00 to 22:00 Berlin time.
pub open spec fn schedule_hours(schedule: Schedule) -> TradingHours {
    match schedule {
        Schedule::Cme => weekly_hours(MarketTimeZone::Chicago, 61200, 57600),
        Schedule::CbotGrains => weekly_hours(MarketTimeZone::Chicago, 68400, 48000),
        Schedule::Eurex => weekly_hours(MarketTimeZone::Berlin, 28800, 79200),
    }
}

/// The hours of `schedule`.
pub fn trading_hours_of(schedule: Schedule) -> (r: TradingHours)
    ensures
        r == schedule_hours(schedule),
{
    let (timezone, open, close) = match schedule {
        Schedule::Cme => (MarketTimeZone::Chicago, 61200u32, 57600u32),
        Schedule::CbotGrains => (MarketTimeZone::Chicago, 68400u32, 48000u32),
        Schedule::Eurex => (MarketTimeZone::Berlin, 28800u32, 79200u32),
    };
    TradingHours {
        timezone,
        sunday: DaySession { open: Some(open), close: None },
        monday: DaySession { open: None, close: Some(close) },
        tuesday: DaySession { open: Some(open), close: Some(close) },
        wednesday: DaySession { open: Some(open), close: Some(close) },
        thursday: DaySession { open: Some(open), close: Some(close) },
        friday: DaySession { open: Some(open), close: Some(close) },
        saturday: DaySession { open: None, close: None },
    }
}

/// The schedule each listed product follows.
pub open spec fn spec_schedule_of(symbol: Seq<char>) -> Option<Schedule> {
    if symbol == "MNQ"@ || symbol == "MES"@ || symbol == "M2K"@ || symbol == "MYM"@ || symbol == "NQ"@ || symbol == "ES"@ || symbol == "RTY"@ || symbol == "YM"@ || symbol == "SP"@ || symbol == "DJ"@ || symbol == "GD"@ || symbol == "GI"@ || symbol == "GK"@ || symbol == "GV"@ || symbol == "GX"@ || symbol == "GZ"@ || symbol == "ZN"@ || symbol == "ZB"@ || symbol == "ZF"@ || symbol == "ZT"@ || symbol == "UB"@ || symbol == "GE"@ || symbol == "SR3"@ || symbol == "6E"@ || symbol == "6B"@ || symbol == "6J"@ || symbol == "6C"@ || symbol == "6A"@ || symbol == "6N"@ || symbol == "6S"@ || symbol == "E7"@ || symbol == "M6E"@ || symbol == "M6A"@ || symbol == "M6B"@ || symbol == "GC"@ || symbol == "SI"@ || symbol == "HG"@ || symbol == "CL"@ || symbol == "PL"@ || symbol == "PA"@ || symbol == "ALI"@ || symbol == "QC"@ || symbol == "MGC"@ || symbol == "SIL"@ || symbol == "MHG"@ || symbol == "MPA"@ || symbol == "QO"@ || symbol == "QI"@ || symbol == "OG"@ || symbol == "SO"@ || symbol == "HX"@ || symbol == "PO"@ || symbol == "PAO"@ || symbol == "GS"@ || symbol == "GSP"@ || symbol == "GPS"@ || symbol == "SPS"@ || symbol == "SPA"@ || symbol == "DJI"@ || symbol == "DOW"@ {
        Some(Schedule::Cme)
    } else if symbol == "ZC"@ || symbol == "ZS"@ || symbol == "ZW"@ || symbol == "ZL"@ || symbol == "ZM"@ || symbol == "ZO"@ || symbol == "KE"@ || symbol == "ZR"@ || symbol == "YC"@ || symbol == "YK"@ || symbol == "XW"@ || symbol == "XC"@ || symbol == "XK"@ || symbol == "ZS-ZM"@ || symbol == "ZS-ZL"@ || symbol == "ZM-ZL"@ {
        Some(Schedule::CbotGrains)
    } else if symbol == "FDAX"@ || symbol == "FDXM"@ || symbol == "OGBL"@ || symbol == "OGBM"@ || symbol == "OGBS"@ || symbol == "FESX"@ || symbol == "FESB"@ || symbol == "FESE"@ || symbol == "V2TX"@ || symbol == "EVIX"@ {
        Some(Schedule::Eurex)
    } else {
        None
    }
}

fn schedule_of(symbol: &str) -> (r: Option<Schedule>)
    ensures
        r == spec_schedule_of(symbol@),
{
    if str_eq(symbol, "MNQ") || str_eq(symbol, "MES") || str_eq(symbol, "M2K") || str_eq(symbol, "MYM") || str_eq(symbol, "NQ") || str_eq(symbol, "ES") || str_eq(symbol, "RTY") || str_eq(symbol, "YM") || str_eq(symbol, "SP") || str_eq(symbol, "DJ") || str_eq(symbol, "GD") || str_eq(symbol, "GI") || str_eq(symbol, "GK") || str_eq(symbol, "GV") || str_eq(symbol, "GX") || str_eq(symbol, "GZ") || str_eq(symbol, "ZN") || str_eq(symbol, "ZB") || str_eq(symbol, "ZF") || str_eq(symbol, "ZT") || str_eq(symbol, "UB") || str_eq(symbol, "GE") || str_eq(symbol, "SR3") || str_eq(symbol, "6E") || str_eq(symbol, "6B") || str_eq(symbol, "6J") || str_eq(symbol, "6C") || str_eq(symbol, "6A") || str_eq(symbol, "6N") || str_eq(symbol, "6S") || str_eq(symbol, "E7") || str_eq(symbol, "M6E") || str_eq(symbol, "M6A") || str_eq(symbol, "M6B") || str_eq(symbol, "GC") || str_eq(symbol, "SI") || str_eq(symbol, "HG") || str_eq(symbol, "CL") || str_eq(symbol, "PL") || str_eq(symbol, "PA") || str_eq(symbol, "ALI") || str_eq(symbol, "QC") || str_eq(symbol, "MGC") || str_eq(symbol, "SIL") || str_eq(symbol, "MHG") || str_eq(symbol, "MPA") || str_eq(symbol, "QO") || str_eq(symbol, "QI") || str_eq(symbol, "OG") || str_eq(symbol, "SO") || str_eq(symbol, "HX") || str_eq(symbol, "PO") || str_eq(symbol, "PAO") || str_eq(symbol, "GS") || str_eq(symbol, "GSP") || str_eq(symbol, "GPS") || str_eq(symbol, "SPS") || str_eq(symbol, "SPA") || str_eq(symbol, "DJI") || str_eq(symbol, "DOW") {
        Some(Schedule::Cme)
    } else if str_eq(symbol, "ZC") || str_eq(symbol, "ZS") || str_eq(symbol, "ZW") || str_eq(symbol, "ZL") || str_eq(symbol, "ZM") || str_eq(symbol, "ZO") || str_eq(symbol, "KE") || str_eq(symbol, "ZR") || str_eq(symbol, "YC") || str_eq(symbol, "YK") || str_eq(symbol, "XW") || str_eq(symbol, "XC") || str_eq(symbol, "XK") || str_eq(symbol, "ZS-ZM") || str_eq(symbol, "ZS-ZL") || str_eq(symbol, "ZM-ZL") {
        Some(Schedule::CbotGrains)
    } else if str_eq(symbol, "FDAX") || str_eq(symbol, "FDXM") || str_eq(symbol, "OGBL") || str_eq(symbol, "OGBM") || str_eq(symbol, "OGBS") || str_eq(symbol, "FESX") || str_eq(symbol, "FESB") || str_eq(symbol, "FESE") || str_eq(symbol, "V2TX") || str_eq(symbol, "EVIX") {
        Some(Schedule::Eurex)
    } else {
        None
    }
}

/// The trading hours of `symbol`, if it is listed.
pub fn get_futures_trading_hours(symbol: &str) -> (r: Option<TradingHours>)
    ensures
        r == (match spec_schedule_of(symbol@) {
            Some(s) => Some(schedule_hours(s)),
            None => None,
        }),
{
    match schedule_of(symbol) {
        Some(schedule) => Some(trading_hours_of(schedule)),
        None => None,
    }
}

/// The product symbol of a contract name: the name without its last three characters
/// (month code and two-digit year), or the whole name when it is shorter than four.
pub open spec fn spec_symbol_of_contract(contract: Seq<char>) -> Seq<char> {
    if contract.len() < 4 {
        contract
    } else {
        contract.subrange(0, contract.len() - 3)
    }
}

/// The product symbol of an ASCII contract name such as `"ESZ24"`.
pub fn extract_symbol_from_contract(contract: &str) -> (r: String)
    requires
        contract.is_ascii(),
    ensures
        r@ == spec_symbol_of_contract(contract@),
{
    let n = contract.unicode_len();
    if n < 4 {
        return contract.to_owned();
    }
    contract.substring_ascii(0, n - 3).to_owned()
}

/// The base symbol of an ASCII symbol or contract name: the name itself when it is a
/// listed product, else its first three characters when they are one, else the name
/// without its last two characters when that is one.
pub open spec fn spec_base_symbol(symbol: Seq<char>) -> Option<Seq<char>> {
    if is_available_symbol_name(symbol) {
        Some(symbol)
    } else if symbol.len() >= 3 && is_available_symbol_name(symbol.subrange(0, 3)) {
        Some(symbol.subrange(0, 3))
    } else if symbol.len() > 2 && is_available_symbol_name(symbol.subrange(0, symbol.len() - 2)) {
        Some(symbol.subrange(0, symbol.len() - 2))
    } else {
        None
    }
}

/// The listed product an ASCII symbol or contract name belongs to, if any.
pub fn find_base_symbol(symbol: &SymbolName) -> (r: Option<String>)
    requires
        symbol.is_ascii(),
    ensures
        match spec_base_symbol(symbol@) {
            Some(b) => r matches Some(s) && s@ == b,
            None => r is None,
        },
{
    let text = symbol.as_str();
    if is_available_rithmic_symbol(text) {
        return Some(text.to_owned());
    }
    let n = text.unicode_len();
    if n >= 3 {
        let first_three = text.substring_ascii(0, 3);
        if is_available_rithmic_symbol(first_three) {
            return Some(first_three.to_owned());
        }
    }
    if n > 2 {
        let without_last_two = text.substring_ascii(0, n - 2);
        if is_available_rithmic_symbol(without_last_two) {
            return Some(without_last_two.to_owned());
        }
    }
    None
}


/// A name is offered exactly when it is in the list of offered names.
pub proof fn lemma_available_is_listed(name: Seq<char>)
    ensures
        is_available_symbol_name(name) <==> available_symbol_names().contains(name),
{
    let names = available_symbol_names();
    if name == "XC"@ {
        assert(names[0] == name);
    } else if name == "XK"@ {
        assert(names[1] == name);
    } else if name == "XW"@ {
        assert(names[2] == name);
    } else if name == "YM"@ {
        assert(names[3] == name);
    } else if name == "ZB"@ {
        assert(names[4] == name);
    } else if name == "ZC"@ {
        assert(names[5] == name);
    } else if name == "ZF"@ {
        assert(names[6] == name);
    } else if name == "ZL"@ {
        assert(names[7] == name);
    } else if name == "ZM"@ {
        assert(names[8] == name);
    } else if name == "ZN"@ {
        assert(names[9] == name);
    } else if name == "ZO"@ {
        assert(names[10] == name);
    } else if name == "ZR"@ {
        assert(names[11] == name);
    } else if name == "ZS"@ {
        assert(names[12] == name);
    } else if name == "ZT"@ {
        assert(names[13] == name);
    } else if name == "ZW"@ {
        assert(names[14] == name);
    } else if name == "6A"@ {
        assert(names[15] == name);
    } else if name == "6B"@ {
        assert(names[16] == name);
    } else if name == "6C"@ {
        assert(names[17] == name);
    } else if name == "6E"@ {
        assert(names[18] == name);
    } else if name == "6J"@ {
        assert(names[19] == name);
    } else if name == "6M"@ {
        assert(names[20] == name);
    } else if name == "6N"@ {
        assert(names[21] == name);
    } else if name == "6S"@ {
        assert(names[22] == name);
    } else if name == "E7"@ {
        assert(names[23] == name);
    } else if name == "EMD"@ {
        assert(names[24] == name);
    } else if name == "ES"@ {
        assert(names[25] == name);
    } else if name == "GE"@ {
        assert(names[26] == name);
    } else if name == "GF"@ {
        assert(names[27] == name);
    } else if name == "HE"@ {
        assert(names[28] == name);
    } else if name == "J7"@ {
        assert(names[29] == name);
    } else if name == "LE"@ {
        assert(names[30] == name);
    } else if name == "NQ"@ {
        assert(names[31] == name);
    } else if name == "RF"@ {
        assert(names[32] == name);
    } else if name == "SP"@ {
        assert(names[33] == name);
    } else if name == "GC"@ {
        assert(names[34] == name);
    } else if name == "HG"@ {
        assert(names[35] == name);
    } else if name == "QI"@ {
        assert(names[36] == name);
    } else if name == "SI"@ {
        assert(names[37] == name);
    } else if name == "CL"@ {
        assert(names[38] == name);
    } else if name == "HO"@ {
        assert(names[39] == name);
    } else if name == "NG"@ {
        assert(names[40] == name);
    } else if name == "PA"@ {
        assert(names[41] == name);
    } else if name == "PL"@ {
        assert(names[42] == name);
    } else if name == "QM"@ {
        assert(names[43] == name);
    } else if name == "RB"@ {
        assert(names[44] == name);
    } else if name == "MES"@ {
        assert(names[45] == name);
    } else if name == "MNQ"@ {
        assert(names[46] == name);
    } else if name == "M2K"@ {
        assert(names[47] == name);
    } else if name == "MYM"@ {
        assert(names[48] == name);
    } else if name == "MGC"@ {
        assert(names[49] == name);
    } else if name == "SIL"@ {
        assert(names[50] == name);
    } else if name == "MCL"@ {
        assert(names[51] == name);
    } else if name == "MBT"@ {
        assert(names[52] == name);
    } else if name == "M6A"@ {
        assert(names[53] == name);
    } else if name == "M6B"@ {
        assert(names[54] == name);
    } else if name == "M6E"@ {
        assert(names[55] == name);
    } else if name == "MJY"@ {
        assert(names[56] == name);
    }
}

/// The listed base symbol of a symbol is offered and begins the symbol.
pub proof fn law_base_symbol_listed_prefix(symbol: Seq<char>)
    ensures
        spec_base_symbol(symbol) matches Some(b) ==> available_symbol_names().contains(b)
            && b.is_prefix_of(symbol),
{
    if let Some(b) = spec_base_symbol(symbol) {
        lemma_available_is_listed(b);
        assert(b =~= symbol.subrange(0, b.len() as int));
    }
}

/// The offered name at 0 differs from every later one.
proof fn lemma_name_0_differs(j: int)
    requires
        0 < j < 57,
    ensures
        available_symbol_names()[0] != available_symbol_names()[j],
{
    reveal_strlit("XC");
    assert(available_symbol_names()[0] == "XC"@);
    if j == 1 {
        reveal_strlit("XK");
        assert(available_symbol_names()[1] == "XK"@);
        assert("XC"@[1] != "XK"@[1]);
    } else if j == 2 {
        reveal_strlit("XW");
        assert(available_symbol_names()[2] == "XW"@);
        assert("XC"@[1] != "XW"@[1]);
    } else if j == 3 {
        reveal_strlit("YM");
        assert(available_symbol_names()[3] == "YM"@);
        assert("XC"@[0] != "YM"@[0]);
    } else if j == 4 {
        reveal_strlit("ZB");
        assert(available_symbol_names()[4] == "ZB"@);
        assert("XC"@[0] != "ZB"@[0]);
    } else if j == 5 {
        reveal_strlit("ZC");
        assert(available_symbol_names()[5] == "ZC"@);
        assert("XC"@[0] != "ZC"@[0]);
    } else if j == 6 {
        reveal_strlit("ZF");
        assert(available_symbol_names()[6] == "ZF"@);
        assert("XC"@[0] != "ZF"@[0]);
    } else if j == 7 {
        reveal_strlit("ZL");
        assert(available_symbol_names()[7] == "ZL"@);
        assert("XC"@[0] != "ZL"@[0]);
    } else if j == 8 {
        reveal_strlit("ZM");
        assert(available_symbol_names()[8] == "ZM"@);
        assert("XC"@[0] != "ZM"@[0]);
    } else if j == 9 {
        reveal_strlit("ZN");
        assert(available_symbol_names()[9] == "ZN"@);
        assert("XC"@[0] != "ZN"@[0]);
    } else if j == 10 {
        reveal_strlit("ZO");
        assert(available_symbol_names()[10] == "ZO"@);
        assert("XC"@[0] != "ZO"@[0]);
    } else if j == 11 {
        reveal_strlit("ZR");
        assert(available_symbol_names()[11] == "ZR"@);
        assert("XC"@[0] != "ZR"@[0]);
    } else if j == 12 {
        reveal_strlit("ZS");
        assert(available_symbol_names()[12] == "ZS"@);
        assert("XC"@[0] != "ZS"@[0]);
    } else if j == 13 {
        reveal_strlit("ZT");
        assert(available_symbol_names()[13] == "ZT"@);
        assert("XC"@[0] != "ZT"@[0]);
    } else if j == 14 {
        reveal_strlit("ZW");
        assert(available_symbol_names()[14] == "ZW"@);
        assert("XC"@[0] != "ZW"@[0]);
    } else if j == 15 {
        reveal_strlit("6A");
        assert(available_symbol_names()[15] == "6A"@);
        assert("XC"@[0] != "6A"@[0]);
    } else if j == 16 {
        reveal_strlit("6B");
        assert(available_symbol_names()[16] == "6B"@);
        assert("XC"@[0] != "6B"@[0]);
    } else if j == 17 {
        reveal_strlit("6C");
        assert(available_symbol_names()[17] == "6C"@);
        assert("XC"@[0] != "6C"@[0]);
    } else if j == 18 {
        reveal_strlit("6E");
        assert(available_symbol_names()[18] == "6E"@);
        assert("XC"@[0] != "6E"@[0]);
    } else if j == 19 {
        reveal_strlit("6J");
        assert(available_symbol_names()[19] == "6J"@);
        assert("XC"@[0] != "6J"@[0]);
    } else if j == 20 {
        reveal_strlit("6M");
        assert(available_symbol_names()[20] == "6M"@);
        assert("XC"@[0] != "6M"@[0]);
    } else if j == 21 {
        reveal_strlit("6N");
        assert(available_symbol_names()[21] == "6N"@);
        assert("XC"@[0] != "6N"@[0]);
    } else if j == 22 {
        reveal_strlit("6S");
        assert(available_symbol_names()[22] == "6S"@);
        assert("XC"@[0] != "6S"@[0]);
    } else if j == 23 {
        reveal_strlit("E7");
        assert(available_symbol_names()[23] == "E7"@);
        assert("XC"@[0] != "E7"@[0]);
    } else if j == 24 {
        reveal_strlit("EMD");
        assert(available_symbol_names()[24] == "EMD"@);
        assert("XC"@.len() != "EMD"@.len());
    } else if j == 25 {
        reveal_strlit("ES");
        assert(available_symbol_names()[25] == "ES"@);
        assert("XC"@[0] != "ES"@[0]);
    } else if j == 26 {
        reveal_strlit("GE");
        assert(available_symbol_names()[26] == "GE"@);
        assert("XC"@[0] != "GE"@[0]);
    } else if j == 27 {
        reveal_strlit("GF");
        assert(available_symbol_names()[27] == "GF"@);
        assert("XC"@[0] != "GF"@[0]);
    } else if j == 28 {
        reveal_strlit("HE");
        assert(available_symbol_names()[28] == "HE"@);
        assert("XC"@[0] != "HE"@[0]);
    } else if j == 29 {
        reveal_strlit("J7");
        assert(available_symbol_names()[29] == "J7"@);
        assert("XC"@[0] != "J7"@[0]);
    } else if j == 30 {
        reveal_strlit("LE");
        assert(available_symbol_names()[30] == "LE"@);
        assert("XC"@[0] != "LE"@[0]);
    } else if j == 31 {
        reveal_strlit("NQ");
        assert(available_symbol_names()[31] == "NQ"@);
        assert("XC"@[0] != "NQ"@[0]);
    } else if j == 32 {
        reveal_strlit("RF");
        assert(available_symbol_names()[32] == "RF"@);
        assert("XC"@[0] != "RF"@[0]);
    } else if j == 33 {
        reveal_strlit("SP");
        assert(available_symbol_names()[33] == "SP"@);
        assert("XC"@[0] != "SP"@[0]);
    } else if j == 34 {
        reveal_strlit("GC");
        assert(available_symbol_names()[34] == "GC"@);
        assert("XC"@[0] != "GC"@[0]);
    } else if j == 35 {
        reveal_strlit("HG");
        assert(available_symbol_names()[35] == "HG"@);
        assert("XC"@[0] != "HG"@[0]);
    } else if j == 36 {
        reveal_strlit("QI");
        assert(available_symbol_names()[36] == "QI"@);
        assert("XC"@[0] != "QI"@[0]);
    } else if j == 37 {
        reveal_strlit("SI");
        assert(available_symbol_names()[37] == "SI"@);
        assert("XC"@[0] != "SI"@[0]);
    } else if j == 38 {
        reveal_strlit("CL");
        assert(available_symbol_names()[38] == "CL"@);
        assert("XC"@[0] != "CL"@[0]);
    } else if j == 39 {
        reveal_strlit("HO");
        assert(available_symbol_names()[39] == "HO"@);
        assert("XC"@[0] != "HO"@[0]);
    } else if j == 40 {
        reveal_strlit("NG");
        assert(available_symbol_names()[40] == "NG"@);
        assert("XC"@[0] != "NG"@[0]);
    } else if j == 41 {
        reveal_strlit("PA");
        assert(available_symbol_names()[41] == "PA"@);
        assert("XC"@[0] != "PA"@[0]);
    } else if j == 42 {
        reveal_strlit("PL");
        assert(available_symbol_names()[42] == "PL"@);
        assert("XC"@[0] != "PL"@[0]);
    } else if j == 43 {
        reveal_strlit("QM");
        assert(available_symbol_names()[43] == "QM"@);
        assert("XC"@[0] != "QM"@[0]);
    } else if j == 44 {
        reveal_strlit("RB");
        assert(available_symbol_names()[44] == "RB"@);
        assert("XC"@[0] != "RB"@[0]);
    } else if j == 45 {
        reveal_strlit("MES");
        assert(available_symbol_names()[45] == "MES"@);
        assert("XC"@.len() != "MES"@.len());
    } else if j == 46 {
        reveal_strlit("MNQ");
        assert(available_symbol_names()[46] == "MNQ"@);
        assert("XC"@.len() != "MNQ"@.len());
    } else if j == 47 {
        reveal_strlit("M2K");
        assert(available_symbol_names()[47] == "M2K"@);
        assert("XC"@.len() != "M2K"@.len());
    } else if j == 48 {
        reveal_strlit("MYM");
        assert(available_symbol_names()[48] == "MYM"@);
        assert("XC"@.len() != "MYM"@.len());
    } else if j == 49 {
        reveal_strlit("MGC");
        assert(available_symbol_names()[49] == "MGC"@);
        assert("XC"@.len() != "MGC"@.len());
    } else if j == 50 {
        reveal_strlit("SIL");
        assert(available_symbol_names()[50] == "SIL"@);
        assert("XC"@.len() != "SIL"@.len());
    } else if j == 51 {
        reveal_strlit("MCL");
        assert(available_symbol_names()[51] == "MCL"@);
        assert("XC"@.len() != "MCL"@.len());
    } else if j == 52 {
        reveal_strlit("MBT");
        assert(available_symbol_names()[52] == "MBT"@);
        assert("XC"@.len() != "MBT"@.len());
    } else if j == 53 {
        reveal_strlit("M6A");
        assert(available_symbol_names()[53] == "M6A"@);
        assert("XC"@.len() != "M6A"@.len());
    } else if j == 54 {
        reveal_strlit("M6B");
        assert(available_symbol_names()[54] == "M6B"@);
        assert("XC"@.len() != "M6B"@.len());
    } else if j == 55 {
        reveal_strlit("M6E");
        assert(available_symbol_names()[55] == "M6E"@);
        assert("XC"@.len() != "M6E"@.len());
    } else if j == 56 {
        reveal_strlit("MJY");
        assert(available_symbol_names()[56] == "MJY"@);
        assert("XC"@.len() != "MJY"@.len());
    }
}

/// The offered name at 1 differs from every later one.
proof fn lemma_name_1_differs(j: int)
    requires
        1 < j < 57,
    ensures
        available_symbol_names()[1] != available_symbol_names()[j],
{
    reveal_strlit("XK");
    assert(available_symbol_names()[1] == "XK"@);
    if j == 2 {
        reveal_strlit("XW");
        assert(available_symbol_names()[2] == "XW"@);
        assert("XK"@[1] != "XW"@[1]);
    } else if j == 3 {
        reveal_strlit("YM");
        assert(available_symbol_names()[3] == "YM"@);
        assert("XK"@[0] != "YM"@[0]);
    } else if j == 4 {
        reveal_strlit("ZB");
        assert(available_symbol_names()[4] == "ZB"@);
        assert("XK"@[0] != "ZB"@[0]);
    } else if j == 5 {
        reveal_strlit("ZC");
        assert(available_symbol_names()[5] == "ZC"@);
        assert("XK"@[0] != "ZC"@[0]);
    } else if j == 6 {
        reveal_strlit("ZF");
        assert(available_symbol_names()[6] == "ZF"@);
        assert("XK"@[0] != "ZF"@[0]);
    } else if j == 7 {
        reveal_strlit("ZL");
        assert(available_symbol_names()[7] == "ZL"@);
        assert("XK"@[0] != "ZL"@[0]);
    } else if j == 8 {
        reveal_strlit("ZM");
        assert(available_symbol_names()[8] == "ZM"@);
        assert("XK"@[0] != "ZM"@[0]);
    } else if j == 9 {
        reveal_strlit("ZN");
        assert(available_symbol_names()[9] == "ZN"@);
        assert("XK"@[0] != "ZN"@[0]);
    } else if j == 10 {
        reveal_strlit("ZO");
        assert(available_symbol_names()[10] == "ZO"@);
        assert("XK"@[0] != "ZO"@[0]);
    } else if j == 11 {
        reveal_strlit("ZR");
        assert(available_symbol_names()[11] == "ZR"@);
        assert("XK"@[0] != "ZR"@[0]);
    } else if j == 12 {
        reveal_strlit("ZS");
        assert(available_symbol_names()[12] == "ZS"@);
        assert("XK"@[0] != "ZS"@[0]);
    } else if j == 13 {
        reveal_strlit("ZT");
        assert(available_symbol_names()[13] == "ZT"@);
        assert("XK"@[0] != "ZT"@[0]);
    } else if j == 14 {
        reveal_strlit("ZW");
        assert(available_symbol_names()[14] == "ZW"@);
        assert("XK"@[0] != "ZW"@[0]);
    } else if j == 15 {
        reveal_strlit("6A");
        assert(available_symbol_names()[15] == "6A"@);
        assert("XK"@[0] != "6A"@[0]);
    } else if j == 16 {
        reveal_strlit("6B");
        assert(available_symbol_names()[16] == "6B"@);
        assert("XK"@[0] != "6B"@[0]);
    } else if j == 17 {
        reveal_strlit("6C");
        assert(available_symbol_names()[17] == "6C"@);
        assert("XK"@[0] != "6C"@[0]);
    } else if j == 18 {
        reveal_strlit("6E");
        assert(available_symbol_names()[18] == "6E"@);
        assert("XK"@[0] != "6E"@[0]);
    } else if j == 19 {
        reveal_strlit("6J");
        assert(available_symbol_names()[19] == "6J"@);
        assert("XK"@[0] != "6J"@[0]);
    } else if j == 20 {
        reveal_strlit("6M");
        assert(available_symbol_names()[20] == "6M"@);
        assert("XK"@[0] != "6M"@[0]);
    } else if j == 21 {
        reveal_strlit("6N");
        assert(available_symbol_names()[21] == "6N"@);
        assert("XK"@[0] != "6N"@[0]);
    } else if j == 22 {
        reveal_strlit("6S");
        assert(available_symbol_names()[22] == "6S"@);
        assert("XK"@[0] != "6S"@[0]);
    } else if j == 23 {
        reveal_strlit("E7");
        assert(available_symbol_names()[23] == "E7"@);
        assert("XK"@[0] != "E7"@[0]);
    } else if j == 24 {
        reveal_strlit("EMD");
        assert(available_symbol_names()[24] == "EMD"@);
        assert("XK"@.len() != "EMD"@.len());
    } else if j == 25 {
        reveal_strlit("ES");
        assert(available_symbol_names()[25] == "ES"@);
        assert("XK"@[0] != "ES"@[0]);
    } else if j == 26 {
        reveal_strlit("GE");
        assert(available_symbol_names()[26] == "GE"@);
        assert("XK"@[0] != "GE"@[0]);
    } else if j == 27 {
        reveal_strlit("GF");
        assert(available_symbol_names()[27] == "GF"@);
        assert("XK"@[0] != "GF"@[0]);
    } else if j == 28 {
        reveal_strlit("HE");
        assert(available_symbol_names()[28] == "HE"@);
        assert("XK"@[0] != "HE"@[0]);
    } else if j == 29 {
        reveal_strlit("J7");
        assert(available_symbol_names()[29] == "J7"@);
        assert("XK"@[0] != "J7"@[0]);
    } else if j == 30 {
        reveal_strlit("LE");
        assert(available_symbol_names()[30] == "LE"@);
        assert("XK"@[0] != "LE"@[0]);
    } else if j == 31 {
        reveal_strlit("NQ");
        assert(available_symbol_names()[31] == "NQ"@);
        assert("XK"@[0] != "NQ"@[0]);
    } else if j == 32 {
        reveal_strlit("RF");
        assert(available_symbol_names()[32] == "RF"@);
        assert("XK"@[0] != "RF"@[0]);
    } else if j == 33 {
        reveal_strlit("SP");
        assert(available_symbol_names()[33] == "SP"@);
        assert("XK"@[0] != "SP"@[0]);
    } else if j == 34 {
        reveal_strlit("GC");
        assert(available_symbol_names()[34] == "GC"@);
        assert("XK"@[0] != "GC"@[0]);
    } else if j == 35 {
        reveal_strlit("HG");
        assert(available_symbol_names()[35] == "HG"@);
        assert("XK"@[0] != "HG"@[0]);
    } else if j == 36 {
        reveal_strlit("QI");
        assert(available_symbol_names()[36] == "QI"@);
        assert("XK"@[0] != "QI"@[0]);
    } else if j == 37 {
        reveal_strlit("SI");
        assert(available_symbol_names()[37] == "SI"@);
        assert("XK"@[0] != "SI"@[0]);
    } else if j == 38 {
        reveal_strlit("CL");
        assert(available_symbol_names()[38] == "CL"@);
        assert("XK"@[0] != "CL"@[0]);
    } else if j == 39 {
        reveal_strlit("HO");
        assert(available_symbol_names()[39] == "HO"@);
        assert("XK"@[0] != "HO"@[0]);
    } else if j == 40 {
        reveal_strlit("NG");
        assert(available_symbol_names()[40] == "NG"@);
        assert("XK"@[0] != "NG"@[0]);
    } else if j == 41 {
        reveal_strlit("PA");
        assert(available_symbol_names()[41] == "PA"@);
        assert("XK"@[0] != "PA"@[0]);
    } else if j == 42 {
        reveal_strlit("PL");
        assert(available_symbol_names()[42] == "PL"@);
        assert("XK"@[0] != "PL"@[0]);
    } else if j == 43 {
        reveal_strlit("QM");
        assert(available_symbol_names()[43] == "QM"@);
        assert("XK"@[0] != "QM"@[0]);
    } else if j == 44 {
        reveal_strlit("RB");
        assert(available_symbol_names()[44] == "RB"@);
        assert("XK"@[0] != "RB"@[0]);
    } else if j == 45 {
        reveal_strlit("MES");
        assert(available_symbol_names()[45] == "MES"@);
        assert("XK"@.len() != "MES"@.len());
    } else if j == 46 {
        reveal_strlit("MNQ");
        assert(available_symbol_names()[46] == "MNQ"@);
        assert("XK"@.len() != "MNQ"@.len());
    } else if j == 47 {
        reveal_strlit("M2K");
        assert(available_symbol_names()[47] == "M2K"@);
        assert("XK"@.len() != "M2K"@.len());
    } else if j == 48 {
        reveal_strlit("MYM");
        assert(available_symbol_names()[48] == "MYM"@);
        assert("XK"@.len() != "MYM"@.len());
    } else if j == 49 {
        reveal_strlit("MGC");
        assert(available_symbol_names()[49] == "MGC"@);
        assert("XK"@.len() != "MGC"@.len());
    } else if j == 50 {
        reveal_strlit("SIL");
        assert(available_symbol_names()[50] == "SIL"@);
        assert("XK"@.len() != "SIL"@.len());
    } else if j == 51 {
        reveal_strlit("MCL");
        assert(available_symbol_names()[51] == "MCL"@);
        assert("XK"@.len() != "MCL"@.len());
    } else if j == 52 {
        reveal_strlit("MBT");
        assert(available_symbol_names()[52] == "MBT"@);
        assert("XK"@.len() != "MBT"@.len());
    } else if j == 53 {
        reveal_strlit("M6A");
        assert(available_symbol_names()[53] == "M6A"@);
        assert("XK"@.len() != "M6A"@.len());
    } else if j == 54 {
        reveal_strlit("M6B");
        assert(available_symbol_names()[54] == "M6B"@);
        assert("XK"@.len() != "M6B"@.len());
    } else if j == 55 {
        reveal_strlit("M6E");
        assert(available_symbol_names()[55] == "M6E"@);
        assert("XK"@.len() != "M6E"@.len());
    } else if j == 56 {
        reveal_strlit("MJY");
        assert(available_symbol_names()[56] == "MJY"@);
        assert("XK"@.len() != "MJY"@.len());
    }
}

/// The offered name at 2 differs from every later one.
proof fn lemma_name_2_differs(j: int)
    requires
        2 < j < 57,
    ensures
        available_symbol_names()[2] != available_symbol_names()[j],
{
    reveal_strlit("XW");
    assert(available_symbol_names()[2] == "XW"@);
    if j == 3 {
        reveal_strlit("YM");
        assert(available_symbol_names()[3] == "YM"@);
        assert("XW"@[0] != "YM"@[0]);
    } else if j == 4 {
        reveal_strlit("ZB");
        assert(available_symbol_names()[4] == "ZB"@);
        assert("XW"@[0] != "ZB"@[0]);
    } else if j == 5 {
        reveal_strlit("ZC");
        assert(available_symbol_names()[5] == "ZC"@);
        assert("XW"@[0] != "ZC"@[0]);
    } else if j == 6 {
        reveal_strlit("ZF");
        assert(available_symbol_names()[6] == "ZF"@);
        assert("XW"@[0] != "ZF"@[0]);
    } else if j == 7 {
        reveal_strlit("ZL");
        assert(available_symbol_names()[7] == "ZL"@);
        assert("XW"@[0] != "ZL"@[0]);
    } else if j == 8 {
        reveal_strlit("ZM");
        assert(available_symbol_names()[8] == "ZM"@);
        assert("XW"@[0] != "ZM"@[0]);
    } else if j == 9 {
        reveal_strlit("ZN");
        assert(available_symbol_names()[9] == "ZN"@);
        assert("XW"@[0] != "ZN"@[0]);
    } else if j == 10 {
        reveal_strlit("ZO");
        assert(available_symbol_names()[10] == "ZO"@);
        assert("XW"@[0] != "ZO"@[0]);
    } else if j == 11 {
        reveal_strlit("ZR");
        assert(available_symbol_names()[11] == "ZR"@);
        assert("XW"@[0] != "ZR"@[0]);
    } else if j == 12 {
        reveal_strlit("ZS");
        assert(available_symbol_names()[12] == "ZS"@);
        assert("XW"@[0] != "ZS"@[0]);
    } else if j == 13 {
        reveal_strlit("ZT");
        assert(available_symbol_names()[13] == "ZT"@);
        assert("XW"@[0] != "ZT"@[0]);
    } else if j == 14 {
        reveal_strlit("ZW");
        assert(available_symbol_names()[14] == "ZW"@);
        assert("XW"@[0] != "ZW"@[0]);
    } else if j == 15 {
        reveal_strlit("6A");
        assert(available_symbol_names()[15] == "6A"@);
        assert("XW"@[0] != "6A"@[0]);
    } else if j == 16 {
        reveal_strlit("6B");
        assert(available_symbol_names()[16] == "6B"@);
        assert("XW"@[0] != "6B"@[0]);
    } else if j == 17 {
        reveal_strlit("6C");
        assert(available_symbol_names()[17] == "6C"@);
        assert("XW"@[0] != "6C"@[0]);
    } else if j == 18 {
        reveal_strlit("6E");
        assert(available_symbol_names()[18] == "6E"@);
        assert("XW"@[0] != "6E"@[0]);
    } else if j == 19 {
        reveal_strlit("6J");
        assert(available_symbol_names()[19] == "6J"@);
        assert("XW"@[0] != "6J"@[0]);
    } else if j == 20 {
        reveal_strlit("6M");
        assert(available_symbol_names()[20] == "6M"@);
        assert("XW"@[0] != "6M"@[0]);
    } else if j == 21 {
        reveal_strlit("6N");
        assert(available_symbol_names()[21] == "6N"@);
        assert("XW"@[0] != "6N"@[0]);
    } else if j == 22 {
        reveal_strlit("6S");
        assert(available_symbol_names()[22] == "6S"@);
        assert("XW"@[0] != "6S"@[0]);
    } else if j == 23 {
        reveal_strlit("E7");
        assert(available_symbol_names()[23] == "E7"@);
        assert("XW"@[0] != "E7"@[0]);
    } else if j == 24 {
        reveal_strlit("EMD");
        assert(available_symbol_names()[24] == "EMD"@);
        assert("XW"@.len() != "EMD"@.len());
    } else if j == 25 {
        reveal_strlit("ES");
        assert(available_symbol_names()[25] == "ES"@);
        assert("XW"@[0] != "ES"@[0]);
    } else if j == 26 {
        reveal_strlit("GE");
        assert(available_symbol_names()[26] == "GE"@);
        assert("XW"@[0] != "GE"@[0]);
    } else if j == 27 {
        reveal_strlit("GF");
        assert(available_symbol_names()[27] == "GF"@);
        assert("XW"@[0] != "GF"@[0]);
    } else if j == 28 {
        reveal_strlit("HE");
        assert(available_symbol_names()[28] == "HE"@);
        assert("XW"@[0] != "HE"@[0]);
    } else if j == 29 {
        reveal_strlit("J7");
        assert(available_symbol_names()[29] == "J7"@);
        assert("XW"@[0] != "J7"@[0]);
    } else if j == 30 {
        reveal_strlit("LE");
        assert(available_symbol_names()[30] == "LE"@);
        assert("XW"@[0] != "LE"@[0]);
    } else if j == 31 {
        reveal_strlit("NQ");
        assert(available_symbol_names()[31] == "NQ"@);
        assert("XW"@[0] != "NQ"@[0]);
    } else if j == 32 {
        reveal_strlit("RF");
        assert(available_symbol_names()[32] == "RF"@);
        assert("XW"@[0] != "RF"@[0]);
    } else if j == 33 {
        reveal_strlit("SP");
        assert(available_symbol_names()[33] == "SP"@);
        assert("XW"@[0] != "SP"@[0]);
    } else if j == 34 {
        reveal_strlit("GC");
        assert(available_symbol_names()[34] == "GC"@);
        assert("XW"@[0] != "GC"@[0]);
    } else if j == 35 {
        reveal_strlit("HG");
        assert(available_symbol_names()[35] == "HG"@);
        assert("XW"@[0] != "HG"@[0]);
    } else if j == 36 {
        reveal_strlit("QI");
        assert(available_symbol_names()[36] == "QI"@);
        assert("XW"@[0] != "QI"@[0]);
    } else if j == 37 {
        reveal_strlit("SI");
        assert(available_symbol_names()[37] == "SI"@);
        assert("XW"@[0] != "SI"@[0]);
    } else if j == 38 {
        reveal_strlit("CL");
        assert(available_symbol_names()[38] == "CL"@);
        assert("XW"@[0] != "CL"@[0]);
    } else if j == 39 {
        reveal_strlit("HO");
        assert(available_symbol_names()[39] == "HO"@);
        assert("XW"@[0] != "HO"@[0]);
    } else if j == 40 {
        reveal_strlit("NG");
        assert(available_symbol_names()[40] == "NG"@);
        assert("XW"@[0] != "NG"@[0]);
    } else if j == 41 {
        reveal_strlit("PA");
        assert(available_symbol_names()[41] == "PA"@);
        assert("XW"@[0] != "PA"@[0]);
    } else if j == 42 {
        reveal_strlit("PL");
        assert(available_symbol_names()[42] == "PL"@);
        assert("XW"@[0] != "PL"@[0]);
    } else if j == 43 {
        reveal_strlit("QM");
        assert(available_symbol_names()[43] == "QM"@);
        assert("XW"@[0] != "QM"@[0]);
    } else if j == 44 {
        reveal_strlit("RB");
        assert(available_symbol_names()[44] == "RB"@);
        assert("XW"@[0] != "RB"@[0]);
    } else if j == 45 {
        reveal_strlit("MES");
        assert(available_symbol_names()[45] == "MES"@);
        assert("XW"@.len() != "MES"@.len());
    } else if j == 46 {
        reveal_strlit("MNQ");
        assert(available_symbol_names()[46] == "MNQ"@);
        assert("XW"@.len() != "MNQ"@.len());
    } else if j == 47 {
        reveal_strlit("M2K");
        assert(available_symbol_names()[47] == "M2K"@);
        assert("XW"@.len() != "M2K"@.len());
    } else if j == 48 {
        reveal_strlit("MYM");
        assert(available_symbol_names()[48] == "MYM"@);
        assert("XW"@.len() != "MYM"@.len());
    } else if j == 49 {
        reveal_strlit("MGC");
        assert(available_symbol_names()[49] == "MGC"@);
        assert("XW"@.len() != "MGC"@.len());
    } else if j == 50 {
        reveal_strlit("SIL");
        assert(available_symbol_names()[50] == "SIL"@);
        assert("XW"@.len() != "SIL"@.len());
    } else if j == 51 {
        reveal_strlit("MCL");
        assert(available_symbol_names()[51] == "MCL"@);
        assert("XW"@.len() != "MCL"@.len());
    } else if j == 52 {
        reveal_strlit("MBT");
        assert(available_symbol_names()[52] == "MBT"@);
        assert("XW"@.len() != "MBT"@.len());
    } else if j == 53 {
        reveal_strlit("M6A");
        assert(available_symbol_names()[53] == "M6A"@);
        assert("XW"@.len() != "M6A"@.len());
    } else if j == 54 {
        reveal_strlit("M6B");
        assert(available_symbol_names()[54] == "M6B"@);
        assert("XW"@.len() != "M6B"@.len());
    } else if j == 55 {
        reveal_strlit("M6E");
        assert(available_symbol_names()[55] == "M6E"@);
        assert("XW"@.len() != "M6E"@.len());
    } else if j == 56 {
        reveal_strlit("MJY");
        assert(available_symbol_names()[56] == "MJY"@);
        assert("XW"@.len() != "MJY"@.len());
    }
}

/// The offered name at 3 differs from every later one.
proof fn lemma_name_3_differs(j: int)
    requires
        3 < j < 57,
    ensures
        available_symbol_names()[3] != available_symbol_names()[j],
{
    reveal_strlit("YM");
    assert(available_symbol_names()[3] == "YM"@);
    if j == 4 {
        reveal_strlit("ZB");
        assert(available_symbol_names()[4] == "ZB"@);
        assert("YM"@[0] != "ZB"@[0]);
    } else if j == 5 {
        reveal_strlit("ZC");
        assert(available_symbol_names()[5] == "ZC"@);
        assert("YM"@[0] != "ZC"@[0]);
    } else if j == 6 {
        reveal_strlit("ZF");
        assert(available_symbol_names()[6] == "ZF"@);
        assert("YM"@[0] != "ZF"@[0]);
    } else if j == 7 {
        reveal_strlit("ZL");
        assert(available_symbol_names()[7] == "ZL"@);
        assert("YM"@[0] != "ZL"@[0]);
    } else if j == 8 {
        reveal_strlit("ZM");
        assert(available_symbol_names()[8] == "ZM"@);
        assert("YM"@[0] != "ZM"@[0]);
    } else if j == 9 {
        reveal_strlit("ZN");
        assert(available_symbol_names()[9] == "ZN"@);
        assert("YM"@[0] != "ZN"@[0]);
    } else if j == 10 {
        reveal_strlit("ZO");
        assert(available_symbol_names()[10] == "ZO"@);
        assert("YM"@[0] != "ZO"@[0]);
    } else if j == 11 {
        reveal_strlit("ZR");
        assert(available_symbol_names()[11] == "ZR"@);
        assert("YM"@[0] != "ZR"@[0]);
    } else if j == 12 {
        reveal_strlit("ZS");
        assert(available_symbol_names()[12] == "ZS"@);
        assert("YM"@[0] != "ZS"@[0]);
    } else if j == 13 {
        reveal_strlit("ZT");
        assert(available_symbol_names()[13] == "ZT"@);
        assert("YM"@[0] != "ZT"@[0]);
    } else if j == 14 {
        reveal_strlit("ZW");
        assert(available_symbol_names()[14] == "ZW"@);
        assert("YM"@[0] != "ZW"@[0]);
    } else if j == 15 {
        reveal_strlit("6A");
        assert(available_symbol_names()[15] == "6A"@);
        assert("YM"@[0] != "6A"@[0]);
    } else if j == 16 {
        reveal_strlit("6B");
        assert(available_symbol_names()[16] == "6B"@);
        assert("YM"@[0] != "6B"@[0]);
    } else if j == 17 {
        reveal_strlit("6C");
        assert(available_symbol_names()[17] == "6C"@);
        assert("YM"@[0] != "6C"@[0]);
    } else if j == 18 {
        reveal_strlit("6E");
        assert(available_symbol_names()[18] == "6E"@);
        assert("YM"@[0] != "6E"@[0]);
    } else if j == 19 {
        reveal_strlit("6J");
        assert(available_symbol_names()[19] == "6J"@);
        assert("YM"@[0] != "6J"@[0]);
    } else if j == 20 {
        reveal_strlit("6M");
        assert(available_symbol_names()[20] == "6M"@);
        assert("YM"@[0] != "6M"@[0]);
    } else if j == 21 {
        reveal_strlit("6N");
        assert(available_symbol_names()[21] == "6N"@);
        assert("YM"@[0] != "6N"@[0]);
    } else if j == 22 {
        reveal_strlit("6S");
        assert(available_symbol_names()[22] == "6S"@);
        assert("YM"@[0] != "6S"@[0]);
    } else if j == 23 {
        reveal_strlit("E7");
        assert(available_symbol_names()[23] == "E7"@);
        assert("YM"@[0] != "E7"@[0]);
    } else if j == 24 {
        reveal_strlit("EMD");
        assert(available_symbol_names()[24] == "EMD"@);
        assert("YM"@.len() != "EMD"@.len());
    } else if j == 25 {
        reveal_strlit("ES");
        assert(available_symbol_names()[25] == "ES"@);
        assert("YM"@[0] != "ES"@[0]);
    } else if j == 26 {
        reveal_strlit("GE");
        assert(available_symbol_names()[26] == "GE"@);
        assert("YM"@[0] != "GE"@[0]);
    } else if j == 27 {
        reveal_strlit("GF");
        assert(available_symbol_names()[27] == "GF"@);
        assert("YM"@[0] != "GF"@[0]);
    } else if j == 28 {
        reveal_strlit("HE");
        assert(available_symbol_names()[28] == "HE"@);
        assert("YM"@[0] != "HE"@[0]);
    } else if j == 29 {
        reveal_strlit("J7");
        assert(available_symbol_names()[29] == "J7"@);
        assert("YM"@[0] != "J7"@[0]);
    } else if j == 30 {
        reveal_strlit("LE");
        assert(available_symbol_names()[30] == "LE"@);
        assert("YM"@[0] != "LE"@[0]);
    } else if j == 31 {
        reveal_strlit("NQ");
        assert(available_symbol_names()[31] == "NQ"@);
        assert("YM"@[0] != "NQ"@[0]);
    } else if j == 32 {
        reveal_strlit("RF");
        assert(available_symbol_names()[32] == "RF"@);
        assert("YM"@[0] != "RF"@[0]);
    } else if j == 33 {
        reveal_strlit("SP");
        assert(available_symbol_names()[33] == "SP"@);
        assert("YM"@[0] != "SP"@[0]);
    } else if j == 34 {
        reveal_strlit("GC");
        assert(available_symbol_names()[34] == "GC"@);
        assert("YM"@[0] != "GC"@[0]);
    } else if j == 35 {
        reveal_strlit("HG");
        assert(available_symbol_names()[35] == "HG"@);
        assert("YM"@[0] != "HG"@[0]);
    } else if j == 36 {
        reveal_strlit("QI");
        assert(available_symbol_names()[36] == "QI"@);
        assert("YM"@[0] != "QI"@[0]);
    } else if j == 37 {
        reveal_strlit("SI");
        assert(available_symbol_names()[37] == "SI"@);
        assert("YM"@[0] != "SI"@[0]);
    } else if j == 38 {
        reveal_strlit("CL");
        assert(available_symbol_names()[38] == "CL"@);
        assert("YM"@[0] != "CL"@[0]);
    } else if j == 39 {
        reveal_strlit("HO");
        assert(available_symbol_names()[39] == "HO"@);
        assert("YM"@[0] != "HO"@[0]);
    } else if j == 40 {
        reveal_strlit("NG");
        assert(available_symbol_names()[40] == "NG"@);
        assert("YM"@[0] != "NG"@[0]);
    } else if j == 41 {
        reveal_strlit("PA");
        assert(available_symbol_names()[41] == "PA"@);
        assert("YM"@[0] != "PA"@[0]);
    } else if j == 42 {
        reveal_strlit("PL");
        assert(available_symbol_names()[42] == "PL"@);
        assert("YM"@[0] != "PL"@[0]);
    } else if j == 43 {
        reveal_strlit("QM");
        assert(available_symbol_names()[43] == "QM"@);
        assert("YM"@[0] != "QM"@[0]);
    } else if j == 44 {
        reveal_strlit("RB");
        assert(available_symbol_names()[44] == "RB"@);
        assert("YM"@[0] != "RB"@[0]);
    } else if j == 45 {
        reveal_strlit("MES");
        assert(available_symbol_names()[45] == "MES"@);
        assert("YM"@.len() != "MES"@.len());
    } else if j == 46 {
        reveal_strlit("MNQ");
        assert(available_symbol_names()[46] == "MNQ"@);
        assert("YM"@.len() != "MNQ"@.len());
    } else if j == 47 {
        reveal_strlit("M2K");
        assert(available_symbol_names()[47] == "M2K"@);
        assert("YM"@.len() != "M2K"@.len());
    } else if j == 48 {
        reveal_strlit("MYM");
        assert(available_symbol_names()[48] == "MYM"@);
        assert("YM"@.len() != "MYM"@.len());
    } else if j == 49 {
        reveal_strlit("MGC");
        assert(available_symbol_names()[49] == "MGC"@);
        assert("YM"@.len() != "MGC"@.len());
    } else if j == 50 {
        reveal_strlit("SIL");
        assert(available_symbol_names()[50] == "SIL"@);
        assert("YM"@.len() != "SIL"@.len());
    } else if j == 51 {
        reveal_strlit("MCL");
        assert(available_symbol_names()[51] == "MCL"@);
        assert("YM"@.len() != "MCL"@.len());
    } else if j == 52 {
        reveal_strlit("MBT");
        assert(available_symbol_names()[52] == "MBT"@);
        assert("YM"@.len() != "MBT"@.len());
    } else if j == 53 {
        reveal_strlit("M6A");
        assert(available_symbol_names()[53] == "M6A"@);
        assert("YM"@.len() != "M6A"@.len());
    } else if j == 54 {
        reveal_strlit("M6B");
        assert(available_symbol_names()[54] == "M6B"@);
        assert("YM"@.len() != "M6B"@.len());
    } else if j == 55 {
        reveal_strlit("M6E");
        assert(available_symbol_names()[55] == "M6E"@);
        assert("YM"@.len() != "M6E"@.len());
    } else if j == 56 {
        reveal_strlit("MJY");
        assert(available_symbol_names()[56] == "MJY"@);
        assert("YM"@.len() != "MJY"@.len());
    }
}

/// The offered name at 4 differs from every later one.
proof fn lemma_name_4_differs(j: int)
    requires
        4 < j < 57,
    ensures
        available_symbol_names()[4] != available_symbol_names()[j],
{
    reveal_strlit("ZB");
    assert(available_symbol_names()[4] == "ZB"@);
    if j == 5 {
        reveal_strlit("ZC");
        assert(available_symbol_names()[5] == "ZC"@);
        assert("ZB"@[1] != "ZC"@[1]);
    } else if j == 6 {
        reveal_strlit("ZF");
        assert(available_symbol_names()[6] == "ZF"@);
        assert("ZB"@[1] != "ZF"@[1]);
    } else if j == 7 {
        reveal_strlit("ZL");
        assert(available_symbol_names()[7] == "ZL"@);
        assert("ZB"@[1] != "ZL"@[1]);
    } else if j == 8 {
        reveal_strlit("ZM");
        assert(available_symbol_names()[8] == "ZM"@);
        assert("ZB"@[1] != "ZM"@[1]);
    } else if j == 9 {
        reveal_strlit("ZN");
        assert(available_symbol_names()[9] == "ZN"@);
        assert("ZB"@[1] != "ZN"@[1]);
    } else if j == 10 {
        reveal_strlit("ZO");
        assert(available_symbol_names()[10] == "ZO"@);
        assert("ZB"@[1] != "ZO"@[1]);
    } else if j == 11 {
        reveal_strlit("ZR");
        assert(available_symbol_names()[11] == "ZR"@);
        assert("ZB"@[1] != "ZR"@[1]);
    } else if j == 12 {
        reveal_strlit("ZS");
        assert(available_symbol_names()[12] == "ZS"@);
        assert("ZB"@[1] != "ZS"@[1]);
    } else if j == 13 {
        reveal_strlit("ZT");
        assert(available_symbol_names()[13] == "ZT"@);
        assert("ZB"@[1] != "ZT"@[1]);
    } else if j == 14 {
        reveal_strlit("ZW");
        assert(available_symbol_names()[14] == "ZW"@);
        assert("ZB"@[1] != "ZW"@[1]);
    } else if j == 15 {
        reveal_strlit("6A");
        assert(available_symbol_names()[15] == "6A"@);
        assert("ZB"@[0] != "6A"@[0]);
    } else if j == 16 {
        reveal_strlit("6B");
        assert(available_symbol_names()[16] == "6B"@);
        assert("ZB"@[0] != "6B"@[0]);
    } else if j == 17 {
        reveal_strlit("6C");
        assert(available_symbol_names()[17] == "6C"@);
        assert("ZB"@[0] != "6C"@[0]);
    } else if j == 18 {
        reveal_strlit("6E");
        assert(available_symbol_names()[18] == "6E"@);
        assert("ZB"@[0] != "6E"@[0]);
    } else if j == 19 {
        reveal_strlit("6J");
        assert(available_symbol_names()[19] == "6J"@);
        assert("ZB"@[0] != "6J"@[0]);
    } else if j == 20 {
        reveal_strlit("6M");
        assert(available_symbol_names()[20] == "6M"@);
        assert("ZB"@[0] != "6M"@[0]);
    } else if j == 21 {
        reveal_strlit("6N");
        assert(available_symbol_names()[21] == "6N"@);
        assert("ZB"@[0] != "6N"@[0]);
    } else if j == 22 {
        reveal_strlit("6S");
        assert(available_symbol_names()[22] == "6S"@);
        assert("ZB"@[0] != "6S"@[0]);
    } else if j == 23 {
        reveal_strlit("E7");
        assert(available_symbol_names()[23] == "E7"@);
        assert("ZB"@[0] != "E7"@[0]);
    } else if j == 24 {
        reveal_strlit("EMD");
        assert(available_symbol_names()[24] == "EMD"@);
        assert("ZB"@.len() != "EMD"@.len());
    } else if j == 25 {
        reveal_strlit("ES");
        assert(available_symbol_names()[25] == "ES"@);
        assert("ZB"@[0] != "ES"@[0]);
    } else if j == 26 {
        reveal_strlit("GE");
        assert(available_symbol_names()[26] == "GE"@);
        assert("ZB"@[0] != "GE"@[0]);
    } else if j == 27 {
        reveal_strlit("GF");
        assert(available_symbol_names()[27] == "GF"@);
        assert("ZB"@[0] != "GF"@[0]);
    } else if j == 28 {
        reveal_strlit("HE");
        assert(available_symbol_names()[28] == "HE"@);
        assert("ZB"@[0] != "HE"@[0]);
    } else if j == 29 {
        reveal_strlit("J7");
        assert(available_symbol_names()[29] == "J7"@);
        assert("ZB"@[0] != "J7"@[0]);
    } else if j == 30 {
        reveal_strlit("LE");
        assert(available_symbol_names()[30] == "LE"@);
        assert("ZB"@[0] != "LE"@[0]);
    } else if j == 31 {
        reveal_strlit("NQ");
        assert(available_symbol_names()[31] == "NQ"@);
        assert("ZB"@[0] != "NQ"@[0]);
    } else if j == 32 {
        reveal_strlit("RF");
        assert(available_symbol_names()[32] == "RF"@);
        assert("ZB"@[0] != "RF"@[0]);
    } else if j == 33 {
        reveal_strlit("SP");
        assert(available_symbol_names()[33] == "SP"@);
        assert("ZB"@[0] != "SP"@[0]);
    } else if j == 34 {
        reveal_strlit("GC");
        assert(available_symbol_names()[34] == "GC"@);
        assert("ZB"@[0] != "GC"@[0]);
    } else if j == 35 {
        reveal_strlit("HG");
        assert(available_symbol_names()[35] == "HG"@);
        assert("ZB"@[0] != "HG"@[0]);
    } else if j == 36 {
        reveal_strlit("QI");
        assert(available_symbol_names()[36] == "QI"@);
        assert("ZB"@[0] != "QI"@[0]);
    } else if j == 37 {
        reveal_strlit("SI");
        assert(available_symbol_names()[37] == "SI"@);
        assert("ZB"@[0] != "SI"@[0]);
    } else if j == 38 {
        reveal_strlit("CL");
        assert(available_symbol_names()[38] == "CL"@);
        assert("ZB"@[0] != "CL"@[0]);
    } else if j == 39 {
        reveal_strlit("HO");
        assert(available_symbol_names()[39] == "HO"@);
        assert("ZB"@[0] != "HO"@[0]);
    } else if j == 40 {
        reveal_strlit("NG");
        assert(available_symbol_names()[40] == "NG"@);
        assert("ZB"@[0] != "NG"@[0]);
    } else if j == 41 {
        reveal_strlit("PA");
        assert(available_symbol_names()[41] == "PA"@);
        assert("ZB"@[0] != "PA"@[0]);
    } else if j == 42 {
        reveal_strlit("PL");
        assert(available_symbol_names()[42] == "PL"@);
        assert("ZB"@[0] != "PL"@[0]);
    } else if j == 43 {
        reveal_strlit("QM");
        assert(available_symbol_names()[43] == "QM"@);
        assert("ZB"@[0] != "QM"@[0]);
    } else if j == 44 {
        reveal_strlit("RB");
        assert(available_symbol_names()[44] == "RB"@);
        assert("ZB"@[0] != "RB"@[0]);
    } else if j == 45 {
        reveal_strlit("MES");
        assert(available_symbol_names()[45] == "MES"@);
        assert("ZB"@.len() != "MES"@.len());
    } else if j == 46 {
        reveal_strlit("MNQ");
        assert(available_symbol_names()[46] == "MNQ"@);
        assert("ZB"@.len() != "MNQ"@.len());
    } else if j == 47 {
        reveal_strlit("M2K");
        assert(available_symbol_names()[47] == "M2K"@);
        assert("ZB"@.len() != "M2K"@.len());
    } else if j == 48 {
        reveal_strlit("MYM");
        assert(available_symbol_names()[48] == "MYM"@);
        assert("ZB"@.len() != "MYM"@.len());
    } else if j == 49 {
        reveal_strlit("MGC");
        assert(available_symbol_names()[49] == "MGC"@);
        assert("ZB"@.len() != "MGC"@.len());
    } else if j == 50 {
        reveal_strlit("SIL");
        assert(available_symbol_names()[50] == "SIL"@);
        assert("ZB"@.len() != "SIL"@.len());
    } else if j == 51 {
        reveal_strlit("MCL");
        assert(available_symbol_names()[51] == "MCL"@);
        assert("ZB"@.len() != "MCL"@.len());
    } else if j == 52 {
        reveal_strlit("MBT");
        assert(available_symbol_names()[52] == "MBT"@);
        assert("ZB"@.len() != "MBT"@.len());
    } else if j == 53 {
        reveal_strlit("M6A");
        assert(available_symbol_names()[53] == "M6A"@);
        assert("ZB"@.len() != "M6A"@.len());
    } else if j == 54 {
        reveal_strlit("M6B");
        assert(available_symbol_names()[54] == "M6B"@);
        assert("ZB"@.len() != "M6B"@.len());
    } else if j == 55 {
        reveal_strlit("M6E");
        assert(available_symbol_names()[55] == "M6E"@);
        assert("ZB"@.len() != "M6E"@.len());
    } else if j == 56 {
        reveal_strlit("MJY");
        assert(available_symbol_names()[56] == "MJY"@);
        assert("ZB"@.len() != "MJY"@.len());
    }
}

/// The offered name at 5 differs from every later one.
proof fn lemma_name_5_differs(j: int)
    requires
        5 < j < 57,
    ensures
        available_symbol_names()[5] != available_symbol_names()[j],
{
    reveal_strlit("ZC");
    assert(available_symbol_names()[5] == "ZC"@);
    if j == 6 {
        reveal_strlit("ZF");
        assert(available_symbol_names()[6] == "ZF"@);
        assert("ZC"@[1] != "ZF"@[1]);
    } else if j == 7 {
        reveal_strlit("ZL");
        assert(available_symbol_names()[7] == "ZL"@);
        assert("ZC"@[1] != "ZL"@[1]);
    } else if j == 8 {
        reveal_strlit("ZM");
        assert(available_symbol_names()[8] == "ZM"@);
        assert("ZC"@[1] != "ZM"@[1]);
    } else if j == 9 {
        reveal_strlit("ZN");
        assert(available_symbol_names()[9] == "ZN"@);
        assert("ZC"@[1] != "ZN"@[1]);
    } else if j == 10 {
        reveal_strlit("ZO");
        assert(available_symbol_names()[10] == "ZO"@);
        assert("ZC"@[1] != "ZO"@[1]);
    } else if j == 11 {
        reveal_strlit("ZR");
        assert(available_symbol_names()[11] == "ZR"@);
        assert("ZC"@[1] != "ZR"@[1]);
    } else if j == 12 {
        reveal_strlit("ZS");
        assert(available_symbol_names()[12] == "ZS"@);
        assert("ZC"@[1] != "ZS"@[1]);
    } else if j == 13 {
        reveal_strlit("ZT");
        assert(available_symbol_names()[13] == "ZT"@);
        assert("ZC"@[1] != "ZT"@[1]);
    } else if j == 14 {
        reveal_strlit("ZW");
        assert(available_symbol_names()[14] == "ZW"@);
        assert("ZC"@[1] != "ZW"@[1]);
    } else if j == 15 {
        reveal_strlit("6A");
        assert(available_symbol_names()[15] == "6A"@);
        assert("ZC"@[0] != "6A"@[0]);
    } else if j == 16 {
        reveal_strlit("6B");
        assert(available_symbol_names()[16] == "6B"@);
        assert("ZC"@[0] != "6B"@[0]);
    } else if j == 17 {
        reveal_strlit("6C");
        assert(available_symbol_names()[17] == "6C"@);
        assert("ZC"@[0] != "6C"@[0]);
    } else if j == 18 {
        reveal_strlit("6E");
        assert(available_symbol_names()[18] == "6E"@);
        assert("ZC"@[0] != "6E"@[0]);
    } else if j == 19 {
        reveal_strlit("6J");
        assert(available_symbol_names()[19] == "6J"@);
        assert("ZC"@[0] != "6J"@[0]);
    } else if j == 20 {
        reveal_strlit("6M");
        assert(available_symbol_names()[20] == "6M"@);
        assert("ZC"@[0] != "6M"@[0]);
    } else if j == 21 {
        reveal_strlit("6N");
        assert(available_symbol_names()[21] == "6N"@);
        assert("ZC"@[0] != "6N"@[0]);
    } else if j == 22 {
        reveal_strlit("6S");
        assert(available_symbol_names()[22] == "6S"@);
        assert("ZC"@[0] != "6S"@[0]);
    } else if j == 23 {
        reveal_strlit("E7");
        assert(available_symbol_names()[23] == "E7"@);
        assert("ZC"@[0] != "E7"@[0]);
    } else if j == 24 {
        reveal_strlit("EMD");
        assert(available_symbol_names()[24] == "EMD"@);
        assert("ZC"@.len() != "EMD"@.len());
    } else if j == 25 {
        reveal_strlit("ES");
        assert(available_symbol_names()[25] == "ES"@);
        assert("ZC"@[0] != "ES"@[0]);
    } else if j == 26 {
        reveal_strlit("GE");
        assert(available_symbol_names()[26] == "GE"@);
        assert("ZC"@[0] != "GE"@[0]);
    } else if j == 27 {
        reveal_strlit("GF");
        assert(available_symbol_names()[27] == "GF"@);
        assert("ZC"@[0] != "GF"@[0]);
    } else if j == 28 {
        reveal_strlit("HE");
        assert(available_symbol_names()[28] == "HE"@);
        assert("ZC"@[0] != "HE"@[0]);
    } else if j == 29 {
        reveal_strlit("J7");
        assert(available_symbol_names()[29] == "J7"@);
        assert("ZC"@[0] != "J7"@[0]);
    } else if j == 30 {
        reveal_strlit("LE");
        assert(available_symbol_names()[30] == "LE"@);
        assert("ZC"@[0] != "LE"@[0]);
    } else if j == 31 {
        reveal_strlit("NQ");
        assert(available_symbol_names()[31] == "NQ"@);
        assert("ZC"@[0] != "NQ"@[0]);
    } else if j == 32 {
        reveal_strlit("RF");
        assert(available_symbol_names()[32] == "RF"@);
        assert("ZC"@[0] != "RF"@[0]);
    } else if j == 33 {
        reveal_strlit("SP");
        assert(available_symbol_names()[33] == "SP"@);
        assert("ZC"@[0] != "SP"@[0]);
    } else if j == 34 {
        reveal_strlit("GC");
        assert(available_symbol_names()[34] == "GC"@);
        assert("ZC"@[0] != "GC"@[0]);
    } else if j == 35 {
        reveal_strlit("HG");
        assert(available_symbol_names()[35] == "HG"@);
        assert("ZC"@[0] != "HG"@[0]);
    } else if j == 36 {
        reveal_strlit("QI");
        assert(available_symbol_names()[36] == "QI"@);
        assert("ZC"@[0] != "QI"@[0]);
    } else if j == 37 {
        reveal_strlit("SI");
        assert(available_symbol_names()[37] == "SI"@);
        assert("ZC"@[0] != "SI"@[0]);
    } else if j == 38 {
        reveal_strlit("CL");
        assert(available_symbol_names()[38] == "CL"@);
        assert("ZC"@[0] != "CL"@[0]);
    } else if j == 39 {
        reveal_strlit("HO");
        assert(available_symbol_names()[39] == "HO"@);
        assert("ZC"@[0] != "HO"@[0]);
    } else if j == 40 {
        reveal_strlit("NG");
        assert(available_symbol_names()[40] == "NG"@);
        assert("ZC"@[0] != "NG"@[0]);
    } else if j == 41 {
        reveal_strlit("PA");
        assert(available_symbol_names()[41] == "PA"@);
        assert("ZC"@[0] != "PA"@[0]);
    } else if j == 42 {
        reveal_strlit("PL");
        assert(available_symbol_names()[42] == "PL"@);
        assert("ZC"@[0] != "PL"@[0]);
    } else if j == 43 {
        reveal_strlit("QM");
        assert(available_symbol_names()[43] == "QM"@);
        assert("ZC"@[0] != "QM"@[0]);
    } else if j == 44 {
        reveal_strlit("RB");
        assert(available_symbol_names()[44] == "RB"@);
        assert("ZC"@[0] != "RB"@[0]);
    } else if j == 45 {
        reveal_strlit("MES");
        assert(available_symbol_names()[45] == "MES"@);
        assert("ZC"@.len() != "MES"@.len());
    } else if j == 46 {
        reveal_strlit("MNQ");
        assert(available_symbol_names()[46] == "MNQ"@);
        assert("ZC"@.len() != "MNQ"@.len());
    } else if j == 47 {
        reveal_strlit("M2K");
        assert(available_symbol_names()[47] == "M2K"@);
        assert("ZC"@.len() != "M2K"@.len());
    } else if j == 48 {
        reveal_strlit("MYM");
        assert(available_symbol_names()[48] == "MYM"@);
        assert("ZC"@.len() != "MYM"@.len());
    } else if j == 49 {
        reveal_strlit("MGC");
        assert(available_symbol_names()[49] == "MGC"@);
        assert("ZC"@.len() != "MGC"@.len());
    } else if j == 50 {
        reveal_strlit("SIL");
        assert(available_symbol_names()[50] == "SIL"@);
        assert("ZC"@.len() != "SIL"@.len());
    } else if j == 51 {
        reveal_strlit("MCL");
        assert(available_symbol_names()[51] == "MCL"@);
        assert("ZC"@.len() != "MCL"@.len());
    } else if j == 52 {
        reveal_strlit("MBT");
        assert(available_symbol_names()[52] == "MBT"@);
        assert("ZC"@.len() != "MBT"@.len());
    } else if j == 53 {
        reveal_strlit("M6A");
        assert(available_symbol_names()[53] == "M6A"@);
        assert("ZC"@.len() != "M6A"@.len());
    } else if j == 54 {
        reveal_strlit("M6B");
        assert(available_symbol_names()[54] == "M6B"@);
        assert("ZC"@.len() != "M6B"@.len());
    } else if j == 55 {
        reveal_strlit("M6E");
        assert(available_symbol_names()[55] == "M6E"@);
        assert("ZC"@.len() != "M6E"@.len());
    } else if j == 56 {
        reveal_strlit("MJY");
        assert(available_symbol_names()[56] == "MJY"@);
        assert("ZC"@.len() != "MJY"@.len());
    }
}

/// The offered name at 6 differs from every later one.
proof fn lemma_name_6_differs(j: int)
    requires
        6 < j < 57,
    ensures
        available_symbol_names()[6] != available_symbol_names()[j],
{
    reveal_strlit("ZF");
    assert(available_symbol_names()[6] == "ZF"@);
    if j == 7 {
        reveal_strlit("ZL");
        assert(available_symbol_names()[7] == "ZL"@);
        assert("ZF"@[1] != "ZL"@[1]);
    } else if j == 8 {
        reveal_strlit("ZM");
        assert(available_symbol_names()[8] == "ZM"@);
        assert("ZF"@[1] != "ZM"@[1]);
    } else if j == 9 {
        reveal_strlit("ZN");
        assert(available_symbol_names()[9] == "ZN"@);
        assert("ZF"@[1] != "ZN"@[1]);
    } else if j == 10 {
        reveal_strlit("ZO");
        assert(available_symbol_names()[10] == "ZO"@);
        assert("ZF"@[1] != "ZO"@[1]);
    } else if j == 11 {
        reveal_strlit("ZR");
        assert(available_symbol_names()[11] == "ZR"@);
        assert("ZF"@[1] != "ZR"@[1]);
    } else if j == 12 {
        reveal_strlit("ZS");
        assert(available_symbol_names()[12] == "ZS"@);
        assert("ZF"@[1] != "ZS"@[1]);
    } else if j == 13 {
        reveal_strlit("ZT");
        assert(available_symbol_names()[13] == "ZT"@);
        assert("ZF"@[1] != "ZT"@[1]);
    } else if j == 14 {
        reveal_strlit("ZW");
        assert(available_symbol_names()[14] == "ZW"@);
        assert("ZF"@[1] != "ZW"@[1]);
    } else if j == 15 {
        reveal_strlit("6A");
        assert(available_symbol_names()[15] == "6A"@);
        assert("ZF"@[0] != "6A"@[0]);
    } else if j == 16 {
        reveal_strlit("6B");
        assert(available_symbol_names()[16] == "6B"@);
        assert("ZF"@[0] != "6B"@[0]);
    } else if j == 17 {
        reveal_strlit("6C");
        assert(available_symbol_names()[17] == "6C"@);
        assert("ZF"@[0] != "6C"@[0]);
    } else if j == 18 {
        reveal_strlit("6E");
        assert(available_symbol_names()[18] == "6E"@);
        assert("ZF"@[0] != "6E"@[0]);
    } else if j == 19 {
        reveal_strlit("6J");
        assert(available_symbol_names()[19] == "6J"@);
        assert("ZF"@[0] != "6J"@[0]);
    } else if j == 20 {
        reveal_strlit("6M");
        assert(available_symbol_names()[20] == "6M"@);
        assert("ZF"@[0] != "6M"@[0]);
    } else if j == 21 {
        reveal_strlit("6N");
        assert(available_symbol_names()[21] == "6N"@);
        assert("ZF"@[0] != "6N"@[0]);
    } else if j == 22 {
        reveal_strlit("6S");
        assert(available_symbol_names()[22] == "6S"@);
        assert("ZF"@[0] != "6S"@[0]);
    } else if j == 23 {
        reveal_strlit("E7");
        assert(available_symbol_names()[23] == "E7"@);
        assert("ZF"@[0] != "E7"@[0]);
    } else if j == 24 {
        reveal_strlit("EMD");
        assert(available_symbol_names()[24] == "EMD"@);
        assert("ZF"@.len() != "EMD"@.len());
    } else if j == 25 {
        reveal_strlit("ES");
        assert(available_symbol_names()[25] == "ES"@);
        assert("ZF"@[0] != "ES"@[0]);
    } else if j == 26 {
        reveal_strlit("GE");
        assert(available_symbol_names()[26] == "GE"@);
        assert("ZF"@[0] != "GE"@[0]);
    } else if j == 27 {
        reveal_strlit("GF");
        assert(available_symbol_names()[27] == "GF"@);
        assert("ZF"@[0] != "GF"@[0]);
    } else if j == 28 {
        reveal_strlit("HE");
        assert(available_symbol_names()[28] == "HE"@);
        assert("ZF"@[0] != "HE"@[0]);
    } else if j == 29 {
        reveal_strlit("J7");
        assert(available_symbol_names()[29] == "J7"@);
        assert("ZF"@[0] != "J7"@[0]);
    } else if j == 30 {
        reveal_strlit("LE");
        assert(available_symbol_names()[30] == "LE"@);
        assert("ZF"@[0] != "LE"@[0]);
    } else if j == 31 {
        reveal_strlit("NQ");
        assert(available_symbol_names()[31] == "NQ"@);
        assert("ZF"@[0] != "NQ"@[0]);
    } else if j == 32 {
        reveal_strlit("RF");
        assert(available_symbol_names()[32] == "RF"@);
        assert("ZF"@[0] != "RF"@[0]);
    } else if j == 33 {
        reveal_strlit("SP");
        assert(available_symbol_names()[33] == "SP"@);
        assert("ZF"@[0] != "SP"@[0]);
    } else if j == 34 {
        reveal_strlit("GC");
        assert(available_symbol_names()[34] == "GC"@);
        assert("ZF"@[0] != "GC"@[0]);
    } else if j == 35 {
        reveal_strlit("HG");
        assert(available_symbol_names()[35] == "HG"@);
        assert("ZF"@[0] != "HG"@[0]);
    } else if j == 36 {
        reveal_strlit("QI");
        assert(available_symbol_names()[36] == "QI"@);
        assert("ZF"@[0] != "QI"@[0]);
    } else if j == 37 {
        reveal_strlit("SI");
        assert(available_symbol_names()[37] == "SI"@);
        assert("ZF"@[0] != "SI"@[0]);
    } else if j == 38 {
        reveal_strlit("CL");
        assert(available_symbol_names()[38] == "CL"@);
        assert("ZF"@[0] != "CL"@[0]);
    } else if j == 39 {
        reveal_strlit("HO");
        assert(available_symbol_names()[39] == "HO"@);
        assert("ZF"@[0] != "HO"@[0]);
    } else if j == 40 {
        reveal_strlit("NG");
        assert(available_symbol_names()[40] == "NG"@);
        assert("ZF"@[0] != "NG"@[0]);
    } else if j == 41 {
        reveal_strlit("PA");
        assert(available_symbol_names()[41] == "PA"@);
        assert("ZF"@[0] != "PA"@[0]);
    } else if j == 42 {
        reveal_strlit("PL");
        assert(available_symbol_names()[42] == "PL"@);
        assert("ZF"@[0] != "PL"@[0]);
    } else if j == 43 {
        reveal_strlit("QM");
        assert(available_symbol_names()[43] == "QM"@);
        assert("ZF"@[0] != "QM"@[0]);
    } else if j == 44 {
        reveal_strlit("RB");
        assert(available_symbol_names()[44] == "RB"@);
        assert("ZF"@[0] != "RB"@[0]);
    } else if j == 45 {
        reveal_strlit("MES");
        assert(available_symbol_names()[45] == "MES"@);
        assert("ZF"@.len() != "MES"@.len());
    } else if j == 46 {
        reveal_strlit("MNQ");
        assert(available_symbol_names()[46] == "MNQ"@);
        assert("ZF"@.len() != "MNQ"@.len());
    } else if j == 47 {
        reveal_strlit("M2K");
        assert(available_symbol_names()[47] == "M2K"@);
        assert("ZF"@.len() != "M2K"@.len());
    } else if j == 48 {
        reveal_strlit("MYM");
        assert(available_symbol_names()[48] == "MYM"@);
        assert("ZF"@.len() != "MYM"@.len());
    } else if j == 49 {
        reveal_strlit("MGC");
        assert(available_symbol_names()[49] == "MGC"@);
        assert("ZF"@.len() != "MGC"@.len());
    } else if j == 50 {
        reveal_strlit("SIL");
        assert(available_symbol_names()[50] == "SIL"@);
        assert("ZF"@.len() != "SIL"@.len());
    } else if j == 51 {
        reveal_strlit("MCL");
        assert(available_symbol_names()[51] == "MCL"@);
        assert("ZF"@.len() != "MCL"@.len());
    } else if j == 52 {
        reveal_strlit("MBT");
        assert(available_symbol_names()[52] == "MBT"@);
        assert("ZF"@.len() != "MBT"@.len());
    } else if j == 53 {
        reveal_strlit("M6A");
        assert(available_symbol_names()[53] == "M6A"@);
        assert("ZF"@.len() != "M6A"@.len());
    } else if j == 54 {
        reveal_strlit("M6B");
        assert(available_symbol_names()[54] == "M6B"@);
        assert("ZF"@.len() != "M6B"@.len());
    } else if j == 55 {
        reveal_strlit("M6E");
        assert(available_symbol_names()[55] == "M6E"@);
        assert("ZF"@.len() != "M6E"@.len());
    } else if j == 56 {
        reveal_strlit("MJY");
        assert(available_symbol_names()[56] == "MJY"@);
        assert("ZF"@.len() != "MJY"@.len());
    }
}

/// The offered name at 7 differs from every later one.
proof fn lemma_name_7_differs(j: int)
    requires
        7 < j < 57,
    ensures
        available_symbol_names()[7] != available_symbol_names()[j],
{
    reveal_strlit("ZL");
    assert(available_symbol_names()[7] == "ZL"@);
    if j == 8 {
        reveal_strlit("ZM");
        assert(available_symbol_names()[8] == "ZM"@);
        assert("ZL"@[1] != "ZM"@[1]);
    } else if j == 9 {
        reveal_strlit("ZN");
        assert(available_symbol_names()[9] == "ZN"@);
        assert("ZL"@[1] != "ZN"@[1]);
    } else if j == 10 {
        reveal_strlit("ZO");
        assert(available_symbol_names()[10] == "ZO"@);
        assert("ZL"@[1] != "ZO"@[1]);
    } else if j == 11 {
        reveal_strlit("ZR");
        assert(available_symbol_names()[11] == "ZR"@);
        assert("ZL"@[1] != "ZR"@[1]);
    } else if j == 12 {
        reveal_strlit("ZS");
        assert(available_symbol_names()[12] == "ZS"@);
        assert("ZL"@[1] != "ZS"@[1]);
    } else if j == 13 {
        reveal_strlit("ZT");
        assert(available_symbol_names()[13] == "ZT"@);
        assert("ZL"@[1] != "ZT"@[1]);
    } else if j == 14 {
        reveal_strlit("ZW");
        assert(available_symbol_names()[14] == "ZW"@);
        assert("ZL"@[1] != "ZW"@[1]);
    } else if j == 15 {
        reveal_strlit("6A");
        assert(available_symbol_names()[15] == "6A"@);
        assert("ZL"@[0] != "6A"@[0]);
    } else if j == 16 {
        reveal_strlit("6B");
        assert(available_symbol_names()[16] == "6B"@);
        assert("ZL"@[0] != "6B"@[0]);
    } else if j == 17 {
        reveal_strlit("6C");
        assert(available_symbol_names()[17] == "6C"@);
        assert("ZL"@[0] != "6C"@[0]);
    } else if j == 18 {
        reveal_strlit("6E");
        assert(available_symbol_names()[18] == "6E"@);
        assert("ZL"@[0] != "6E"@[0]);
    } else if j == 19 {
        reveal_strlit("6J");
        assert(available_symbol_names()[19] == "6J"@);
        assert("ZL"@[0] != "6J"@[0]);
    } else if j == 20 {
        reveal_strlit("6M");
        assert(available_symbol_names()[20] == "6M"@);
        assert("ZL"@[0] != "6M"@[0]);
    } else if j == 21 {
        reveal_strlit("6N");
        assert(available_symbol_names()[21] == "6N"@);
        assert("ZL"@[0] != "6N"@[0]);
    } else if j == 22 {
        reveal_strlit("6S");
        assert(available_symbol_names()[22] == "6S"@);
        assert("ZL"@[0] != "6S"@[0]);
    } else if j == 23 {
        reveal_strlit("E7");
        assert(available_symbol_names()[23] == "E7"@);
        assert("ZL"@[0] != "E7"@[0]);
    } else if j == 24 {
        reveal_strlit("EMD");
        assert(available_symbol_names()[24] == "EMD"@);
        assert("ZL"@.len() != "EMD"@.len());
    } else if j == 25 {
        reveal_strlit("ES");
        assert(available_symbol_names()[25] == "ES"@);
        assert("ZL"@[0] != "ES"@[0]);
    } else if j == 26 {
        reveal_strlit("GE");
        assert(available_symbol_names()[26] == "GE"@);
        assert("ZL"@[0] != "GE"@[0]);
    } else if j == 27 {
        reveal_strlit("GF");
        assert(available_symbol_names()[27] == "GF"@);
        assert("ZL"@[0] != "GF"@[0]);
    } else if j == 28 {
        reveal_strlit("HE");
        assert(available_symbol_names()[28] == "HE"@);
        assert("ZL"@[0] != "HE"@[0]);
    } else if j == 29 {
        reveal_strlit("J7");
        assert(available_symbol_names()[29] == "J7"@);
        assert("ZL"@[0] != "J7"@[0]);
    } else if j == 30 {
        reveal_strlit("LE");
        assert(available_symbol_names()[30] == "LE"@);
        assert("ZL"@[0] != "LE"@[0]);
    } else if j == 31 {
        reveal_strlit("NQ");
        assert(available_symbol_names()[31] == "NQ"@);
        assert("ZL"@[0] != "NQ"@[0]);
    } else if j == 32 {
        reveal_strlit("RF");
        assert(available_symbol_names()[32] == "RF"@);
        assert("ZL"@[0] != "RF"@[0]);
    } else if j == 33 {
        reveal_strlit("SP");
        assert(available_symbol_names()[33] == "SP"@);
        assert("ZL"@[0] != "SP"@[0]);
    } else if j == 34 {
        reveal_strlit("GC");
        assert(available_symbol_names()[34] == "GC"@);
        assert("ZL"@[0] != "GC"@[0]);
    } else if j == 35 {
        reveal_strlit("HG");
        assert(available_symbol_names()[35] == "HG"@);
        assert("ZL"@[0] != "HG"@[0]);
    } else if j == 36 {
        reveal_strlit("QI");
        assert(available_symbol_names()[36] == "QI"@);
        assert("ZL"@[0] != "QI"@[0]);
    } else if j == 37 {
        reveal_strlit("SI");
        assert(available_symbol_names()[37] == "SI"@);
        assert("ZL"@[0] != "SI"@[0]);
    } else if j == 38 {
        reveal_strlit("CL");
        assert(available_symbol_names()[38] == "CL"@);
        assert("ZL"@[0] != "CL"@[0]);
    } else if j == 39 {
        reveal_strlit("HO");
        assert(available_symbol_names()[39] == "HO"@);
        assert("ZL"@[0] != "HO"@[0]);
    } else if j == 40 {
        reveal_strlit("NG");
        assert(available_symbol_names()[40] == "NG"@);
        assert("ZL"@[0] != "NG"@[0]);
    } else if j == 41 {
        reveal_strlit("PA");
        assert(available_symbol_names()[41] == "PA"@);
        assert("ZL"@[0] != "PA"@[0]);
    } else if j == 42 {
        reveal_strlit("PL");
        assert(available_symbol_names()[42] == "PL"@);
        assert("ZL"@[0] != "PL"@[0]);
    } else if j == 43 {
        reveal_strlit("QM");
        assert(available_symbol_names()[43] == "QM"@);
        assert("ZL"@[0] != "QM"@[0]);
    } else if j == 44 {
        reveal_strlit("RB");
        assert(available_symbol_names()[44] == "RB"@);
        assert("ZL"@[0] != "RB"@[0]);
    } else if j == 45 {
        reveal_strlit("MES");
        assert(available_symbol_names()[45] == "MES"@);
        assert("ZL"@.len() != "MES"@.len());
    } else if j == 46 {
        reveal_strlit("MNQ");
        assert(available_symbol_names()[46] == "MNQ"@);
        assert("ZL"@.len() != "MNQ"@.len());
    } else if j == 47 {
        reveal_strlit("M2K");
        assert(available_symbol_names()[47] == "M2K"@);
        assert("ZL"@.len() != "M2K"@.len());
    } else if j == 48 {
        reveal_strlit("MYM");
        assert(available_symbol_names()[48] == "MYM"@);
        assert("ZL"@.len() != "MYM"@.len());
    } else if j == 49 {
        reveal_strlit("MGC");
        assert(available_symbol_names()[49] == "MGC"@);
        assert("ZL"@.len() != "MGC"@.len());
    } else if j == 50 {
        reveal_strlit("SIL");
        assert(available_symbol_names()[50] == "SIL"@);
        assert("ZL"@.len() != "SIL"@.len());
    } else if j == 51 {
        reveal_strlit("MCL");
        assert(available_symbol_names()[51] == "MCL"@);
        assert("ZL"@.len() != "MCL"@.len());
    } else if j == 52 {
        reveal_strlit("MBT");
        assert(available_symbol_names()[52] == "MBT"@);
        assert("ZL"@.len() != "MBT"@.len());
    } else if j == 53 {
        reveal_strlit("M6A");
        assert(available_symbol_names()[53] == "M6A"@);
        assert("ZL"@.len() != "M6A"@.len());
    } else if j == 54 {
        reveal_strlit("M6B");
        assert(available_symbol_names()[54] == "M6B"@);
        assert("ZL"@.len() != "M6B"@.len());
    } else if j == 55 {
        reveal_strlit("M6E");
        assert(available_symbol_names()[55] == "M6E"@);
        assert("ZL"@.len() != "M6E"@.len());
    } else if j == 56 {
        reveal_strlit("MJY");
        assert(available_symbol_names()[56] == "MJY"@);
        assert("ZL"@.len() != "MJY"@.len());
    }
}

/// The offered name at 8 differs from every later one.
proof fn lemma_name_8_differs(j: int)
    requires
        8 < j < 57,
    ensures
        available_symbol_names()[8] != available_symbol_names()[j],
{
    reveal_strlit("ZM");
    assert(available_symbol_names()[8] == "ZM"@);
    if j == 9 {
        reveal_strlit("ZN");
        assert(available_symbol_names()[9] == "ZN"@);
        assert("ZM"@[1] != "ZN"@[1]);
    } else if j == 10 {
        reveal_strlit("ZO");
        assert(available_symbol_names()[10] == "ZO"@);
        assert("ZM"@[1] != "ZO"@[1]);
    } else if j == 11 {
        reveal_strlit("ZR");
        assert(available_symbol_names()[11] == "ZR"@);
        assert("ZM"@[1] != "ZR"@[1]);
    } else if j == 12 {
        reveal_strlit("ZS");
        assert(available_symbol_names()[12] == "ZS"@);
        assert("ZM"@[1] != "ZS"@[1]);
    } else if j == 13 {
        reveal_strlit("ZT");
        assert(available_symbol_names()[13] == "ZT"@);
        assert("ZM"@[1] != "ZT"@[1]);
    } else if j == 14 {
        reveal_strlit("ZW");
        assert(available_symbol_names()[14] == "ZW"@);
        assert("ZM"@[1] != "ZW"@[1]);
    } else if j == 15 {
        reveal_strlit("6A");
        assert(available_symbol_names()[15] == "6A"@);
        assert("ZM"@[0] != "6A"@[0]);
    } else if j == 16 {
        reveal_strlit("6B");
        assert(available_symbol_names()[16] == "6B"@);
        assert("ZM"@[0] != "6B"@[0]);
    } else if j == 17 {
        reveal_strlit("6C");
        assert(available_symbol_names()[17] == "6C"@);
        assert("ZM"@[0] != "6C"@[0]);
    } else if j == 18 {
        reveal_strlit("6E");
        assert(available_symbol_names()[18] == "6E"@);
        assert("ZM"@[0] != "6E"@[0]);
    } else if j == 19 {
        reveal_strlit("6J");
        assert(available_symbol_names()[19] == "6J"@);
        assert("ZM"@[0] != "6J"@[0]);
    } else if j == 20 {
        reveal_strlit("6M");
        assert(available_symbol_names()[20] == "6M"@);
        assert("ZM"@[0] != "6M"@[0]);
    } else if j == 21 {
        reveal_strlit("6N");
        assert(available_symbol_names()[21] == "6N"@);
        assert("ZM"@[0] != "6N"@[0]);
    } else if j == 22 {
        reveal_strlit("6S");
        assert(available_symbol_names()[22] == "6S"@);
        assert("ZM"@[0] != "6S"@[0]);
    } else if j == 23 {
        reveal_strlit("E7");
        assert(available_symbol_names()[23] == "E7"@);
        assert("ZM"@[0] != "E7"@[0]);
    } else if j == 24 {
        reveal_strlit("EMD");
        assert(available_symbol_names()[24] == "EMD"@);
        assert("ZM"@.len() != "EMD"@.len());
    } else if j == 25 {
        reveal_strlit("ES");
        assert(available_symbol_names()[25] == "ES"@);
        assert("ZM"@[0] != "ES"@[0]);
    } else if j == 26 {
        reveal_strlit("GE");
        assert(available_symbol_names()[26] == "GE"@);
        assert("ZM"@[0] != "GE"@[0]);
    } else if j == 27 {
        reveal_strlit("GF");
        assert(available_symbol_names()[27] == "GF"@);
        assert("ZM"@[0] != "GF"@[0]);
    } else if j == 28 {
        reveal_strlit("HE");
        assert(available_symbol_names()[28] == "HE"@);
        assert("ZM"@[0] != "HE"@[0]);
    } else if j == 29 {
        reveal_strlit("J7");
        assert(available_symbol_names()[29] == "J7"@);
        assert("ZM"@[0] != "J7"@[0]);
    } else if j == 30 {
        reveal_strlit("LE");
        assert(available_symbol_names()[30] == "LE"@);
        assert("ZM"@[0] != "LE"@[0]);
    } else if j == 31 {
        reveal_strlit("NQ");
        assert(available_symbol_names()[31] == "NQ"@);
        assert("ZM"@[0] != "NQ"@[0]);
    } else if j == 32 {
        reveal_strlit("RF");
        assert(available_symbol_names()[32] == "RF"@);
        assert("ZM"@[0] != "RF"@[0]);
    } else if j == 33 {
        reveal_strlit("SP");
        assert(available_symbol_names()[33] == "SP"@);
        assert("ZM"@[0] != "SP"@[0]);
    } else if j == 34 {
        reveal_strlit("GC");
        assert(available_symbol_names()[34] == "GC"@);
        assert("ZM"@[0] != "GC"@[0]);
    } else if j == 35 {
        reveal_strlit("HG");
        assert(available_symbol_names()[35] == "HG"@);
        assert("ZM"@[0] != "HG"@[0]);
    } else if j == 36 {
        reveal_strlit("QI");
        assert(available_symbol_names()[36] == "QI"@);
        assert("ZM"@[0] != "QI"@[0]);
    } else if j == 37 {
        reveal_strlit("SI");
        assert(available_symbol_names()[37] == "SI"@);
        assert("ZM"@[0] != "SI"@[0]);
    } else if j == 38 {
        reveal_strlit("CL");
        assert(available_symbol_names()[38] == "CL"@);
        assert("ZM"@[0] != "CL"@[0]);
    } else if j == 39 {
        reveal_strlit("HO");
        assert(available_symbol_names()[39] == "HO"@);
        assert("ZM"@[0] != "HO"@[0]);
    } else if j == 40 {
        reveal_strlit("NG");
        assert(available_symbol_names()[40] == "NG"@);
        assert("ZM"@[0] != "NG"@[0]);
    } else if j == 41 {
        reveal_strlit("PA");
        assert(available_symbol_names()[41] == "PA"@);
        assert("ZM"@[0] != "PA"@[0]);
    } else if j == 42 {
        reveal_strlit("PL");
        assert(available_symbol_names()[42] == "PL"@);
        assert("ZM"@[0] != "PL"@[0]);
    } else if j == 43 {
        reveal_strlit("QM");
        assert(available_symbol_names()[43] == "QM"@);
        assert("ZM"@[0] != "QM"@[0]);
    } else if j == 44 {
        reveal_strlit("RB");
        assert(available_symbol_names()[44] == "RB"@);
        assert("ZM"@[0] != "RB"@[0]);
    } else if j == 45 {
        reveal_strlit("MES");
        assert(available_symbol_names()[45] == "MES"@);
        assert("ZM"@.len() != "MES"@.len());
    } else if j == 46 {
        reveal_strlit("MNQ");
        assert(available_symbol_names()[46] == "MNQ"@);
        assert("ZM"@.len() != "MNQ"@.len());
    } else if j == 47 {
        reveal_strlit("M2K");
        assert(available_symbol_names()[47] == "M2K"@);
        assert("ZM"@.len() != "M2K"@.len());
    } else if j == 48 {
        reveal_strlit("MYM");
        assert(available_symbol_names()[48] == "MYM"@);
        assert("ZM"@.len() != "MYM"@.len());
    } else if j == 49 {
        reveal_strlit("MGC");
        assert(available_symbol_names()[49] == "MGC"@);
        assert("ZM"@.len() != "MGC"@.len());
    } else if j == 50 {
        reveal_strlit("SIL");
        assert(available_symbol_names()[50] == "SIL"@);
        assert("ZM"@.len() != "SIL"@.len());
    } else if j == 51 {
        reveal_strlit("MCL");
        assert(available_symbol_names()[51] == "MCL"@);
        assert("ZM"@.len() != "MCL"@.len());
    } else if j == 52 {
        reveal_strlit("MBT");
        assert(available_symbol_names()[52] == "MBT"@);
        assert("ZM"@.len() != "MBT"@.len());
    } else if j == 53 {
        reveal_strlit("M6A");
        assert(available_symbol_names()[53] == "M6A"@);
        assert("ZM"@.len() != "M6A"@.len());
    } else if j == 54 {
        reveal_strlit("M6B");
        assert(available_symbol_names()[54] == "M6B"@);
        assert("ZM"@.len() != "M6B"@.len());
    } else if j == 55 {
        reveal_strlit("M6E");
        assert(available_symbol_names()[55] == "M6E"@);
        assert("ZM"@.len() != "M6E"@.len());
    } else if j == 56 {
        reveal_strlit("MJY");
        assert(available_symbol_names()[56] == "MJY"@);
        assert("ZM"@.len() != "MJY"@.len());
    }
}

/// The offered name at 9 differs from every later one.
proof fn lemma_name_9_differs(j: int)
    requires
        9 < j < 57,
    ensures
        available_symbol_names()[9] != available_symbol_names()[j],
{
    reveal_strlit("ZN");
    assert(available_symbol_names()[9] == "ZN"@);
    if j == 10 {
        reveal_strlit("ZO");
        assert(available_symbol_names()[10] == "ZO"@);
        assert("ZN"@[1] != "ZO"@[1]);
    } else if j == 11 {
        reveal_strlit("ZR");
        assert(available_symbol_names()[11] == "ZR"@);
        assert("ZN"@[1] != "ZR"@[1]);
    } else if j == 12 {
        reveal_strlit("ZS");
        assert(available_symbol_names()[12] == "ZS"@);
        assert("ZN"@[1] != "ZS"@[1]);
    } else if j == 13 {
        reveal_strlit("ZT");
        assert(available_symbol_names()[13] == "ZT"@);
        assert("ZN"@[1] != "ZT"@[1]);
    } else if j == 14 {
        reveal_strlit("ZW");
        assert(available_symbol_names()[14] == "ZW"@);
        assert("ZN"@[1] != "ZW"@[1]);
    } else if j == 15 {
        reveal_strlit("6A");
        assert(available_symbol_names()[15] == "6A"@);
        assert("ZN"@[0] != "6A"@[0]);
    } else if j == 16 {
        reveal_strlit("6B");
        assert(available_symbol_names()[16] == "6B"@);
        assert("ZN"@[0] != "6B"@[0]);
    } else if j == 17 {
        reveal_strlit("6C");
        assert(available_symbol_names()[17] == "6C"@);
        assert("ZN"@[0] != "6C"@[0]);
    } else if j == 18 {
        reveal_strlit("6E");
        assert(available_symbol_names()[18] == "6E"@);
        assert("ZN"@[0] != "6E"@[0]);
    } else if j == 19 {
        reveal_strlit("6J");
        assert(available_symbol_names()[19] == "6J"@);
        assert("ZN"@[0] != "6J"@[0]);
    } else if j == 20 {
        reveal_strlit("6M");
        assert(available_symbol_names()[20] == "6M"@);
        assert("ZN"@[0] != "6M"@[0]);
    } else if j == 21 {
        reveal_strlit("6N");
        assert(available_symbol_names()[21] == "6N"@);
        assert("ZN"@[0] != "6N"@[0]);
    } else if j == 22 {
        reveal_strlit("6S");
        assert(available_symbol_names()[22] == "6S"@);
        assert("ZN"@[0] != "6S"@[0]);
    } else if j == 23 {
        reveal_strlit("E7");
        assert(available_symbol_names()[23] == "E7"@);
        assert("ZN"@[0] != "E7"@[0]);
    } else if j == 24 {
        reveal_strlit("EMD");
        assert(available_symbol_names()[24] == "EMD"@);
        assert("ZN"@.len() != "EMD"@.len());
    } else if j == 25 {
        reveal_strlit("ES");
        assert(available_symbol_names()[25] == "ES"@);
        assert("ZN"@[0] != "ES"@[0]);
    } else if j == 26 {
        reveal_strlit("GE");
        assert(available_symbol_names()[26] == "GE"@);
        assert("ZN"@[0] != "GE"@[0]);
    } else if j == 27 {
        reveal_strlit("GF");
        assert(available_symbol_names()[27] == "GF"@);
        assert("ZN"@[0] != "GF"@[0]);
    } else if j == 28 {
        reveal_strlit("HE");
        assert(available_symbol_names()[28] == "HE"@);
        assert("ZN"@[0] != "HE"@[0]);
    } else if j == 29 {
        reveal_strlit("J7");
        assert(available_symbol_names()[29] == "J7"@);
        assert("ZN"@[0] != "J7"@[0]);
    } else if j == 30 {
        reveal_strlit("LE");
        assert(available_symbol_names()[30] == "LE"@);
        assert("ZN"@[0] != "LE"@[0]);
    } else if j == 31 {
        reveal_strlit("NQ");
        assert(available_symbol_names()[31] == "NQ"@);
        assert("ZN"@[0] != "NQ"@[0]);
    } else if j == 32 {
        reveal_strlit("RF");
        assert(available_symbol_names()[32] == "RF"@);
        assert("ZN"@[0] != "RF"@[0]);
    } else if j == 33 {
        reveal_strlit("SP");
        assert(available_symbol_names()[33] == "SP"@);
        assert("ZN"@[0] != "SP"@[0]);
    } else if j == 34 {
        reveal_strlit("GC");
        assert(available_symbol_names()[34] == "GC"@);
        assert("ZN"@[0] != "GC"@[0]);
    } else if j == 35 {
        reveal_strlit("HG");
        assert(available_symbol_names()[35] == "HG"@);
        assert("ZN"@[0] != "HG"@[0]);
    } else if j == 36 {
        reveal_strlit("QI");
        assert(available_symbol_names()[36] == "QI"@);
        assert("ZN"@[0] != "QI"@[0]);
    } else if j == 37 {
        reveal_strlit("SI");
        assert(available_symbol_names()[37] == "SI"@);
        assert("ZN"@[0] != "SI"@[0]);
    } else if j == 38 {
        reveal_strlit("CL");
        assert(available_symbol_names()[38] == "CL"@);
        assert("ZN"@[0] != "CL"@[0]);
    } else if j == 39 {
        reveal_strlit("HO");
        assert(available_symbol_names()[39] == "HO"@);
        assert("ZN"@[0] != "HO"@[0]);
    } else if j == 40 {
        reveal_strlit("NG");
        assert(available_symbol_names()[40] == "NG"@);
        assert("ZN"@[0] != "NG"@[0]);
    } else if j == 41 {
        reveal_strlit("PA");
        assert(available_symbol_names()[41] == "PA"@);
        assert("ZN"@[0] != "PA"@[0]);
    } else if j == 42 {
        reveal_strlit("PL");
        assert(available_symbol_names()[42] == "PL"@);
        assert("ZN"@[0] != "PL"@[0]);
    } else if j == 43 {
        reveal_strlit("QM");
        assert(available_symbol_names()[43] == "QM"@);
        assert("ZN"@[0] != "QM"@[0]);
    } else if j == 44 {
        reveal_strlit("RB");
        assert(available_symbol_names()[44] == "RB"@);
        assert("ZN"@[0] != "RB"@[0]);
    } else if j == 45 {
        reveal_strlit("MES");
        assert(available_symbol_names()[45] == "MES"@);
        assert("ZN"@.len() != "MES"@.len());
    } else if j == 46 {
        reveal_strlit("MNQ");
        assert(available_symbol_names()[46] == "MNQ"@);
        assert("ZN"@.len() != "MNQ"@.len());
    } else if j == 47 {
        reveal_strlit("M2K");
        assert(available_symbol_names()[47] == "M2K"@);
        assert("ZN"@.len() != "M2K"@.len());
    } else if j == 48 {
        reveal_strlit("MYM");
        assert(available_symbol_names()[48] == "MYM"@);
        assert("ZN"@.len() != "MYM"@.len());
    } else if j == 49 {
        reveal_strlit("MGC");
        assert(available_symbol_names()[49] == "MGC"@);
        assert("ZN"@.len() != "MGC"@.len());
    } else if j == 50 {
        reveal_strlit("SIL");
        assert(available_symbol_names()[50] == "SIL"@);
        assert("ZN"@.len() != "SIL"@.len());
    } else if j == 51 {
        reveal_strlit("MCL");
        assert(available_symbol_names()[51] == "MCL"@);
        assert("ZN"@.len() != "MCL"@.len());
    } else if j == 52 {
        reveal_strlit("MBT");
        assert(available_symbol_names()[52] == "MBT"@);
        assert("ZN"@.len() != "MBT"@.len());
    } else if j == 53 {
        reveal_strlit("M6A");
        assert(available_symbol_names()[53] == "M6A"@);
        assert("ZN"@.len() != "M6A"@.len());
    } else if j == 54 {
        reveal_strlit("M6B");
        assert(available_symbol_names()[54] == "M6B"@);
        assert("ZN"@.len() != "M6B"@.len());
    } else if j == 55 {
        reveal_strlit("M6E");
        assert(available_symbol_names()[55] == "M6E"@);
        assert("ZN"@.len() != "M6E"@.len());
    } else if j == 56 {
        reveal_strlit("MJY");
        assert(available_symbol_names()[56] == "MJY"@);
        assert("ZN"@.len() != "MJY"@.len());
    }
}

/// The offered name at 10 differs from every later one.
proof fn lemma_name_10_differs(j: int)
    requires
        10 < j < 57,
    ensures
        available_symbol_names()[10] != available_symbol_names()[j],
{
    reveal_strlit("ZO");
    assert(available_symbol_names()[10] == "ZO"@);
    if j == 11 {
        reveal_strlit("ZR");
        assert(available_symbol_names()[11] == "ZR"@);
        assert("ZO"@[1] != "ZR"@[1]);
    } else if j == 12 {
        reveal_strlit("ZS");
        assert(available_symbol_names()[12] == "ZS"@);
        assert("ZO"@[1] != "ZS"@[1]);
    } else if j == 13 {
        reveal_strlit("ZT");
        assert(available_symbol_names()[13] == "ZT"@);
        assert("ZO"@[1] != "ZT"@[1]);
    } else if j == 14 {
        reveal_strlit("ZW");
        assert(available_symbol_names()[14] == "ZW"@);
        assert("ZO"@[1] != "ZW"@[1]);
    } else if j == 15 {
        reveal_strlit("6A");
        assert(available_symbol_names()[15] == "6A"@);
        assert("ZO"@[0] != "6A"@[0]);
    } else if j == 16 {
        reveal_strlit("6B");
        assert(available_symbol_names()[16] == "6B"@);
        assert("ZO"@[0] != "6B"@[0]);
    } else if j == 17 {
        reveal_strlit("6C");
        assert(available_symbol_names()[17] == "6C"@);
        assert("ZO"@[0] != "6C"@[0]);
    } else if j == 18 {
        reveal_strlit("6E");
        assert(available_symbol_names()[18] == "6E"@);
        assert("ZO"@[0] != "6E"@[0]);
    } else if j == 19 {
        reveal_strlit("6J");
        assert(available_symbol_names()[19] == "6J"@);
        assert("ZO"@[0] != "6J"@[0]);
    } else if j == 20 {
        reveal_strlit("6M");
        assert(available_symbol_names()[20] == "6M"@);
        assert("ZO"@[0] != "6M"@[0]);
    } else if j == 21 {
        reveal_strlit("6N");
        assert(available_symbol_names()[21] == "6N"@);
        assert("ZO"@[0] != "6N"@[0]);
    } else if j == 22 {
        reveal_strlit("6S");
        assert(available_symbol_names()[22] == "6S"@);
        assert("ZO"@[0] != "6S"@[0]);
    } else if j == 23 {
        reveal_strlit("E7");
        assert(available_symbol_names()[23] == "E7"@);
        assert("ZO"@[0] != "E7"@[0]);
    } else if j == 24 {
        reveal_strlit("EMD");
        assert(available_symbol_names()[24] == "EMD"@);
        assert("ZO"@.len() != "EMD"@.len());
    } else if j == 25 {
        reveal_strlit("ES");
        assert(available_symbol_names()[25] == "ES"@);
        assert("ZO"@[0] != "ES"@[0]);
    } else if j == 26 {
        reveal_strlit("GE");
        assert(available_symbol_names()[26] == "GE"@);
        assert("ZO"@[0] != "GE"@[0]);
    } else if j == 27 {
        reveal_strlit("GF");
        assert(available_symbol_names()[27] == "GF"@);
        assert("ZO"@[0] != "GF"@[0]);
    } else if j == 28 {
        reveal_strlit("HE");
        assert(available_symbol_names()[28] == "HE"@);
        assert("ZO"@[0] != "HE"@[0]);
    } else if j == 29 {
        reveal_strlit("J7");
        assert(available_symbol_names()[29] == "J7"@);
        assert("ZO"@[0] != "J7"@[0]);
    } else if j == 30 {
        reveal_strlit("LE");
        assert(available_symbol_names()[30] == "LE"@);
        assert("ZO"@[0] != "LE"@[0]);
    } else if j == 31 {
        reveal_strlit("NQ");
        assert(available_symbol_names()[31] == "NQ"@);
        assert("ZO"@[0] != "NQ"@[0]);
    } else if j == 32 {
        reveal_strlit("RF");
        assert(available_symbol_names()[32] == "RF"@);
        assert("ZO"@[0] != "RF"@[0]);
    } else if j == 33 {
        reveal_strlit("SP");
        assert(available_symbol_names()[33] == "SP"@);
        assert("ZO"@[0] != "SP"@[0]);
    } else if j == 34 {
        reveal_strlit("GC");
        assert(available_symbol_names()[34] == "GC"@);
        assert("ZO"@[0] != "GC"@[0]);
    } else if j == 35 {
        reveal_strlit("HG");
        assert(available_symbol_names()[35] == "HG"@);
        assert("ZO"@[0] != "HG"@[0]);
    } else if j == 36 {
        reveal_strlit("QI");
        assert(available_symbol_names()[36] == "QI"@);
        assert("ZO"@[0] != "QI"@[0]);
    } else if j == 37 {
        reveal_strlit("SI");
        assert(available_symbol_names()[37] == "SI"@);
        assert("ZO"@[0] != "SI"@[0]);
    } else if j == 38 {
        reveal_strlit("CL");
        assert(available_symbol_names()[38] == "CL"@);
        assert("ZO"@[0] != "CL"@[0]);
    } else if j == 39 {
        reveal_strlit("HO");
        assert(available_symbol_names()[39] == "HO"@);
        assert("ZO"@[0] != "HO"@[0]);
    } else if j == 40 {
        reveal_strlit("NG");
        assert(available_symbol_names()[40] == "NG"@);
        assert("ZO"@[0] != "NG"@[0]);
    } else if j == 41 {
        reveal_strlit("PA");
        assert(available_symbol_names()[41] == "PA"@);
        assert("ZO"@[0] != "PA"@[0]);
    } else if j == 42 {
        reveal_strlit("PL");
        assert(available_symbol_names()[42] == "PL"@);
        assert("ZO"@[0] != "PL"@[0]);
    } else if j == 43 {
        reveal_strlit("QM");
        assert(available_symbol_names()[43] == "QM"@);
        assert("ZO"@[0] != "QM"@[0]);
    } else if j == 44 {
        reveal_strlit("RB");
        assert(available_symbol_names()[44] == "RB"@);
        assert("ZO"@[0] != "RB"@[0]);
    } else if j == 45 {
        reveal_strlit("MES");
        assert(available_symbol_names()[45] == "MES"@);
        assert("ZO"@.len() != "MES"@.len());
    } else if j == 46 {
        reveal_strlit("MNQ");
        assert(available_symbol_names()[46] == "MNQ"@);
        assert("ZO"@.len() != "MNQ"@.len());
    } else if j == 47 {
        reveal_strlit("M2K");
        assert(available_symbol_names()[47] == "M2K"@);
        assert("ZO"@.len() != "M2K"@.len());
    } else if j == 48 {
        reveal_strlit("MYM");
        assert(available_symbol_names()[48] == "MYM"@);
        assert("ZO"@.len() != "MYM"@.len());
    } else if j == 49 {
        reveal_strlit("MGC");
        assert(available_symbol_names()[49] == "MGC"@);
        assert("ZO"@.len() != "MGC"@.len());
    } else if j == 50 {
        reveal_strlit("SIL");
        assert(available_symbol_names()[50] == "SIL"@);
        assert("ZO"@.len() != "SIL"@.len());
    } else if j == 51 {
        reveal_strlit("MCL");
        assert(available_symbol_names()[51] == "MCL"@);
        assert("ZO"@.len() != "MCL"@.len());
    } else if j == 52 {
        reveal_strlit("MBT");
        assert(available_symbol_names()[52] == "MBT"@);
        assert("ZO"@.len() != "MBT"@.len());
    } else if j == 53 {
        reveal_strlit("M6A");
        assert(available_symbol_names()[53] == "M6A"@);
        assert("ZO"@.len() != "M6A"@.len());
    } else if j == 54 {
        reveal_strlit("M6B");
        assert(available_symbol_names()[54] == "M6B"@);
        assert("ZO"@.len() != "M6B"@.len());
    } else if j == 55 {
        reveal_strlit("M6E");
        assert(available_symbol_names()[55] == "M6E"@);
        assert("ZO"@.len() != "M6E"@.len());
    } else if j == 56 {
        reveal_strlit("MJY");
        assert(available_symbol_names()[56] == "MJY"@);
        assert("ZO"@.len() != "MJY"@.len());
    }
}

/// The offered name at 11 differs from every later one.
proof fn lemma_name_11_differs(j: int)
    requires
        11 < j < 57,
    ensures
        available_symbol_names()[11] != available_symbol_names()[j],
{
    reveal_strlit("ZR");
    assert(available_symbol_names()[11] == "ZR"@);
    if j == 12 {
        reveal_strlit("ZS");
        assert(available_symbol_names()[12] == "ZS"@);
        assert("ZR"@[1] != "ZS"@[1]);
    } else if j == 13 {
        reveal_strlit("ZT");
        assert(available_symbol_names()[13] == "ZT"@);
        assert("ZR"@[1] != "ZT"@[1]);
    } else if j == 14 {
        reveal_strlit("ZW");
        assert(available_symbol_names()[14] == "ZW"@);
        assert("ZR"@[1] != "ZW"@[1]);
    } else if j == 15 {
        reveal_strlit("6A");
        assert(available_symbol_names()[15] == "6A"@);
        assert("ZR"@[0] != "6A"@[0]);
    } else if j == 16 {
        reveal_strlit("6B");
        assert(available_symbol_names()[16] == "6B"@);
        assert("ZR"@[0] != "6B"@[0]);
    } else if j == 17 {
        reveal_strlit("6C");
        assert(available_symbol_names()[17] == "6C"@);
        assert("ZR"@[0] != "6C"@[0]);
    } else if j == 18 {
        reveal_strlit("6E");
        assert(available_symbol_names()[18] == "6E"@);
        assert("ZR"@[0] != "6E"@[0]);
    } else if j == 19 {
        reveal_strlit("6J");
        assert(available_symbol_names()[19] == "6J"@);
        assert("ZR"@[0] != "6J"@[0]);
    } else if j == 20 {
        reveal_strlit("6M");
        assert(available_symbol_names()[20] == "6M"@);
        assert("ZR"@[0] != "6M"@[0]);
    } else if j == 21 {
        reveal_strlit("6N");
        assert(available_symbol_names()[21] == "6N"@);
        assert("ZR"@[0] != "6N"@[0]);
    } else if j == 22 {
        reveal_strlit("6S");
        assert(available_symbol_names()[22] == "6S"@);
        assert("ZR"@[0] != "6S"@[0]);
    } else if j == 23 {
        reveal_strlit("E7");
        assert(available_symbol_names()[23] == "E7"@);
        assert("ZR"@[0] != "E7"@[0]);
    } else if j == 24 {
        reveal_strlit("EMD");
        assert(available_symbol_names()[24] == "EMD"@);
        assert("ZR"@.len() != "EMD"@.len());
    } else if j == 25 {
        reveal_strlit("ES");
        assert(available_symbol_names()[25] == "ES"@);
        assert("ZR"@[0] != "ES"@[0]);
    } else if j == 26 {
        reveal_strlit("GE");
        assert(available_symbol_names()[26] == "GE"@);
        assert("ZR"@[0] != "GE"@[0]);
    } else if j == 27 {
        reveal_strlit("GF");
        assert(available_symbol_names()[27] == "GF"@);
        assert("ZR"@[0] != "GF"@[0]);
    } else if j == 28 {
        reveal_strlit("HE");
        assert(available_symbol_names()[28] == "HE"@);
        assert("ZR"@[0] != "HE"@[0]);
    } else if j == 29 {
        reveal_strlit("J7");
        assert(available_symbol_names()[29] == "J7"@);
        assert("ZR"@[0] != "J7"@[0]);
    } else if j == 30 {
        reveal_strlit("LE");
        assert(available_symbol_names()[30] == "LE"@);
        assert("ZR"@[0] != "LE"@[0]);
    } else if j == 31 {
        reveal_strlit("NQ");
        assert(available_symbol_names()[31] == "NQ"@);
        assert("ZR"@[0] != "NQ"@[0]);
    } else if j == 32 {
        reveal_strlit("RF");
        assert(available_symbol_names()[32] == "RF"@);
        assert("ZR"@[0] != "RF"@[0]);
    } else if j == 33 {
        reveal_strlit("SP");
        assert(available_symbol_names()[33] == "SP"@);
        assert("ZR"@[0] != "SP"@[0]);
    } else if j == 34 {
        reveal_strlit("GC");
        assert(available_symbol_names()[34] == "GC"@);
        assert("ZR"@[0] != "GC"@[0]);
    } else if j == 35 {
        reveal_strlit("HG");
        assert(available_symbol_names()[35] == "HG"@);
        assert("ZR"@[0] != "HG"@[0]);
    } else if j == 36 {
        reveal_strlit("QI");
        assert(available_symbol_names()[36] == "QI"@);
        assert("ZR"@[0] != "QI"@[0]);
    } else if j == 37 {
        reveal_strlit("SI");
        assert(available_symbol_names()[37] == "SI"@);
        assert("ZR"@[0] != "SI"@[0]);
    } else if j == 38 {
        reveal_strlit("CL");
        assert(available_symbol_names()[38] == "CL"@);
        assert("ZR"@[0] != "CL"@[0]);
    } else if j == 39 {
        reveal_strlit("HO");
        assert(available_symbol_names()[39] == "HO"@);
        assert("ZR"@[0] != "HO"@[0]);
    } else if j == 40 {
        reveal_strlit("NG");
        assert(available_symbol_names()[40] == "NG"@);
        assert("ZR"@[0] != "NG"@[0]);
    } else if j == 41 {
        reveal_strlit("PA");
        assert(available_symbol_names()[41] == "PA"@);
        assert("ZR"@[0] != "PA"@[0]);
    } else if j == 42 {
        reveal_strlit("PL");
        assert(available_symbol_names()[42] == "PL"@);
        assert("ZR"@[0] != "PL"@[0]);
    } else if j == 43 {
        reveal_strlit("QM");
        assert(available_symbol_names()[43] == "QM"@);
        assert("ZR"@[0] != "QM"@[0]);
    } else if j == 44 {
        reveal_strlit("RB");
        assert(available_symbol_names()[44] == "RB"@);
        assert("ZR"@[0] != "RB"@[0]);
    } else if j == 45 {
        reveal_strlit("MES");
        assert(available_symbol_names()[45] == "MES"@);
        assert("ZR"@.len() != "MES"@.len());
    } else if j == 46 {
        reveal_strlit("MNQ");
        assert(available_symbol_names()[46] == "MNQ"@);
        assert("ZR"@.len() != "MNQ"@.len());
    } else if j == 47 {
        reveal_strlit("M2K");
        assert(available_symbol_names()[47] == "M2K"@);
        assert("ZR"@.len() != "M2K"@.len());
    } else if j == 48 {
        reveal_strlit("MYM");
        assert(available_symbol_names()[48] == "MYM"@);
        assert("ZR"@.len() != "MYM"@.len());
    } else if j == 49 {
        reveal_strlit("MGC");
        assert(available_symbol_names()[49] == "MGC"@);
        assert("ZR"@.len() != "MGC"@.len());
    } else if j == 50 {
        reveal_strlit("SIL");
        assert(available_symbol_names()[50] == "SIL"@);
        assert("ZR"@.len() != "SIL"@.len());
    } else if j == 51 {
        reveal_strlit("MCL");
        assert(available_symbol_names()[51] == "MCL"@);
        assert("ZR"@.len() != "MCL"@.len());
    } else if j == 52 {
        reveal_strlit("MBT");
        assert(available_symbol_names()[52] == "MBT"@);
        assert("ZR"@.len() != "MBT"@.len());
    } else if j == 53 {
        reveal_strlit("M6A");
        assert(available_symbol_names()[53] == "M6A"@);
        assert("ZR"@.len() != "M6A"@.len());
    } else if j == 54 {
        reveal_strlit("M6B");
        assert(available_symbol_names()[54] == "M6B"@);
        assert("ZR"@.len() != "M6B"@.len());
    } else if j == 55 {
        reveal_strlit("M6E");
        assert(available_symbol_names()[55] == "M6E"@);
        assert("ZR"@.len() != "M6E"@.len());
    } else if j == 56 {
        reveal_strlit("MJY");
        assert(available_symbol_names()[56] == "MJY"@);
        assert("ZR"@.len() != "MJY"@.len());
    }
}

/// The offered name at 12 differs from every later one.
proof fn lemma_name_12_differs(j: int)
    requires
        12 < j < 57,
    ensures
        available_symbol_names()[12] != available_symbol_names()[j],
{
    reveal_strlit("ZS");
    assert(available_symbol_names()[12] == "ZS"@);
    if j == 13 {
        reveal_strlit("ZT");
        assert(available_symbol_names()[13] == "ZT"@);
        assert("ZS"@[1] != "ZT"@[1]);
    } else if j == 14 {
        reveal_strlit("ZW");
        assert(available_symbol_names()[14] == "ZW"@);
        assert("ZS"@[1] != "ZW"@[1]);
    } else if j == 15 {
        reveal_strlit("6A");
        assert(available_symbol_names()[15] == "6A"@);
        assert("ZS"@[0] != "6A"@[0]);
    } else if j == 16 {
        reveal_strlit("6B");
        assert(available_symbol_names()[16] == "6B"@);
        assert("ZS"@[0] != "6B"@[0]);
    } else if j == 17 {
        reveal_strlit("6C");
        assert(available_symbol_names()[17] == "6C"@);
        assert("ZS"@[0] != "6C"@[0]);
    } else if j == 18 {
        reveal_strlit("6E");
        assert(available_symbol_names()[18] == "6E"@);
        assert("ZS"@[0] != "6E"@[0]);
    } else if j == 19 {
        reveal_strlit("6J");
        assert(available_symbol_names()[19] == "6J"@);
        assert("ZS"@[0] != "6J"@[0]);
    } else if j == 20 {
        reveal_strlit("6M");
        assert(available_symbol_names()[20] == "6M"@);
        assert("ZS"@[0] != "6M"@[0]);
    } else if j == 21 {
        reveal_strlit("6N");
        assert(available_symbol_names()[21] == "6N"@);
        assert("ZS"@[0] != "6N"@[0]);
    } else if j == 22 {
        reveal_strlit("6S");
        assert(available_symbol_names()[22] == "6S"@);
        assert("ZS"@[0] != "6S"@[0]);
    } else if j == 23 {
        reveal_strlit("E7");
        assert(available_symbol_names()[23] == "E7"@);
        assert("ZS"@[0] != "E7"@[0]);
    } else if j == 24 {
        reveal_strlit("EMD");
        assert(available_symbol_names()[24] == "EMD"@);
        assert("ZS"@.len() != "EMD"@.len());
    } else if j == 25 {
        reveal_strlit("ES");
        assert(available_symbol_names()[25] == "ES"@);
        assert("ZS"@[0] != "ES"@[0]);
    } else if j == 26 {
        reveal_strlit("GE");
        assert(available_symbol_names()[26] == "GE"@);
        assert("ZS"@[0] != "GE"@[0]);
    } else if j == 27 {
        reveal_strlit("GF");
        assert(available_symbol_names()[27] == "GF"@);
        assert("ZS"@[0] != "GF"@[0]);
    } else if j == 28 {
        reveal_strlit("HE");
        assert(available_symbol_names()[28] == "HE"@);
        assert("ZS"@[0] != "HE"@[0]);
    } else if j == 29 {
        reveal_strlit("J7");
        assert(available_symbol_names()[29] == "J7"@);
        assert("ZS"@[0] != "J7"@[0]);
    } else if j == 30 {
        reveal_strlit("LE");
        assert(available_symbol_names()[30] == "LE"@);
        assert("ZS"@[0] != "LE"@[0]);
    } else if j == 31 {
        reveal_strlit("NQ");
        assert(available_symbol_names()[31] == "NQ"@);
        assert("ZS"@[0] != "NQ"@[0]);
    } else if j == 32 {
        reveal_strlit("RF");
        assert(available_symbol_names()[32] == "RF"@);
        assert("ZS"@[0] != "RF"@[0]);
    } else if j == 33 {
        reveal_strlit("SP");
        assert(available_symbol_names()[33] == "SP"@);
        assert("ZS"@[0] != "SP"@[0]);
    } else if j == 34 {
        reveal_strlit("GC");
        assert(available_symbol_names()[34] == "GC"@);
        assert("ZS"@[0] != "GC"@[0]);
    } else if j == 35 {
        reveal_strlit("HG");
        assert(available_symbol_names()[35] == "HG"@);
        assert("ZS"@[0] != "HG"@[0]);
    } else if j == 36 {
        reveal_strlit("QI");
        assert(available_symbol_names()[36] == "QI"@);
        assert("ZS"@[0] != "QI"@[0]);
    } else if j == 37 {
        reveal_strlit("SI");
        assert(available_symbol_names()[37] == "SI"@);
        assert("ZS"@[0] != "SI"@[0]);
    } else if j == 38 {
        reveal_strlit("CL");
        assert(available_symbol_names()[38] == "CL"@);
        assert("ZS"@[0] != "CL"@[0]);
    } else if j == 39 {
        reveal_strlit("HO");
        assert(available_symbol_names()[39] == "HO"@);
        assert("ZS"@[0] != "HO"@[0]);
    } else if j == 40 {
        reveal_strlit("NG");
        assert(available_symbol_names()[40] == "NG"@);
        assert("ZS"@[0] != "NG"@[0]);
    } else if j == 41 {
        reveal_strlit("PA");
        assert(available_symbol_names()[41] == "PA"@);
        assert("ZS"@[0] != "PA"@[0]);
    } else if j == 42 {
        reveal_strlit("PL");
        assert(available_symbol_names()[42] == "PL"@);
        assert("ZS"@[0] != "PL"@[0]);
    } else if j == 43 {
        reveal_strlit("QM");
        assert(available_symbol_names()[43] == "QM"@);
        assert("ZS"@[0] != "QM"@[0]);
    } else if j == 44 {
        reveal_strlit("RB");
        assert(available_symbol_names()[44] == "RB"@);
        assert("ZS"@[0] != "RB"@[0]);
    } else if j == 45 {
        reveal_strlit("MES");
        assert(available_symbol_names()[45] == "MES"@);
        assert("ZS"@.len() != "MES"@.len());
    } else if j == 46 {
        reveal_strlit("MNQ");
        assert(available_symbol_names()[46] == "MNQ"@);
        assert("ZS"@.len() != "MNQ"@.len());
    } else if j == 47 {
        reveal_strlit("M2K");
        assert(available_symbol_names()[47] == "M2K"@);
        assert("ZS"@.len() != "M2K"@.len());
    } else if j == 48 {
        reveal_strlit("MYM");
        assert(available_symbol_names()[48] == "MYM"@);
        assert("ZS"@.len() != "MYM"@.len());
    } else if j == 49 {
        reveal_strlit("MGC");
        assert(available_symbol_names()[49] == "MGC"@);
        assert("ZS"@.len() != "MGC"@.len());
    } else if j == 50 {
        reveal_strlit("SIL");
        assert(available_symbol_names()[50] == "SIL"@);
        assert("ZS"@.len() != "SIL"@.len());
    } else if j == 51 {
        reveal_strlit("MCL");
        assert(available_symbol_names()[51] == "MCL"@);
        assert("ZS"@.len() != "MCL"@.len());
    } else if j == 52 {
        reveal_strlit("MBT");
        assert(available_symbol_names()[52] == "MBT"@);
        assert("ZS"@.len() != "MBT"@.len());
    } else if j == 53 {
        reveal_strlit("M6A");
        assert(available_symbol_names()[53] == "M6A"@);
        assert("ZS"@.len() != "M6A"@.len());
    } else if j == 54 {
        reveal_strlit("M6B");
        assert(available_symbol_names()[54] == "M6B"@);
        assert("ZS"@.len() != "M6B"@.len());
    } else if j == 55 {
        reveal_strlit("M6E");
        assert(available_symbol_names()[55] == "M6E"@);
        assert("ZS"@.len() != "M6E"@.len());
    } else if j == 56 {
        reveal_strlit("MJY");
        assert(available_symbol_names()[56] == "MJY"@);
        assert("ZS"@.len() != "MJY"@.len());
    }
}

/// The offered name at 13 differs from every later one.
proof fn lemma_name_13_differs(j: int)
    requires
        13 < j < 57,
    ensures
        available_symbol_names()[13] != available_symbol_names()[j],
{
    reveal_strlit("ZT");
    assert(available_symbol_names()[13] == "ZT"@);
    if j == 14 {
        reveal_strlit("ZW");
        assert(available_symbol_names()[14] == "ZW"@);
        assert("ZT"@[1] != "ZW"@[1]);
    } else if j == 15 {
        reveal_strlit("6A");
        assert(available_symbol_names()[15] == "6A"@);
        assert("ZT"@[0] != "6A"@[0]);
    } else if j == 16 {
        reveal_strlit("6B");
        assert(available_symbol_names()[16] == "6B"@);
        assert("ZT"@[0] != "6B"@[0]);
    } else if j == 17 {
        reveal_strlit("6C");
        assert(available_symbol_names()[17] == "6C"@);
        assert("ZT"@[0] != "6C"@[0]);
    } else if j == 18 {
        reveal_strlit("6E");
        assert(available_symbol_names()[18] == "6E"@);
        assert("ZT"@[0] != "6E"@[0]);
    } else if j == 19 {
        reveal_strlit("6J");
        assert(available_symbol_names()[19] == "6J"@);
        assert("ZT"@[0] != "6J"@[0]);
    } else if j == 20 {
        reveal_strlit("6M");
        assert(available_symbol_names()[20] == "6M"@);
        assert("ZT"@[0] != "6M"@[0]);
    } else if j == 21 {
        reveal_strlit("6N");
        assert(available_symbol_names()[21] == "6N"@);
        assert("ZT"@[0] != "6N"@[0]);
    } else if j == 22 {
        reveal_strlit("6S");
        assert(available_symbol_names()[22] == "6S"@);
        assert("ZT"@[0] != "6S"@[0]);
    } else if j == 23 {
        reveal_strlit("E7");
        assert(available_symbol_names()[23] == "E7"@);
        assert("ZT"@[0] != "E7"@[0]);
    } else if j == 24 {
        reveal_strlit("EMD");
        assert(available_symbol_names()[24] == "EMD"@);
        assert("ZT"@.len() != "EMD"@.len());
    } else if j == 25 {
        reveal_strlit("ES");
        assert(available_symbol_names()[25] == "ES"@);
        assert("ZT"@[0] != "ES"@[0]);
    } else if j == 26 {
        reveal_strlit("GE");
        assert(available_symbol_names()[26] == "GE"@);
        assert("ZT"@[0] != "GE"@[0]);
    } else if j == 27 {
        reveal_strlit("GF");
        assert(available_symbol_names()[27] == "GF"@);
        assert("ZT"@[0] != "GF"@[0]);
    } else if j == 28 {
        reveal_strlit("HE");
        assert(available_symbol_names()[28] == "HE"@);
        assert("ZT"@[0] != "HE"@[0]);
    } else if j == 29 {
        reveal_strlit("J7");
        assert(available_symbol_names()[29] == "J7"@);
        assert("ZT"@[0] != "J7"@[0]);
    } else if j == 30 {
        reveal_strlit("LE");
        assert(available_symbol_names()[30] == "LE"@);
        assert("ZT"@[0] != "LE"@[0]);
    } else if j == 31 {
        reveal_strlit("NQ");
        assert(available_symbol_names()[31] == "NQ"@);
        assert("ZT"@[0] != "NQ"@[0]);
    } else if j == 32 {
        reveal_strlit("RF");
        assert(available_symbol_names()[32] == "RF"@);
        assert("ZT"@[0] != "RF"@[0]);
    } else if j == 33 {
        reveal_strlit("SP");
        assert(available_symbol_names()[33] == "SP"@);
        assert("ZT"@[0] != "SP"@[0]);
    } else if j == 34 {
        reveal_strlit("GC");
        assert(available_symbol_names()[34] == "GC"@);
        assert("ZT"@[0] != "GC"@[0]);
    } else if j == 35 {
        reveal_strlit("HG");
        assert(available_symbol_names()[35] == "HG"@);
        assert("ZT"@[0] != "HG"@[0]);
    } else if j == 36 {
        reveal_strlit("QI");
        assert(available_symbol_names()[36] == "QI"@);
        assert("ZT"@[0] != "QI"@[0]);
    } else if j == 37 {
        reveal_strlit("SI");
        assert(available_symbol_names()[37] == "SI"@);
        assert("ZT"@[0] != "SI"@[0]);
    } else if j == 38 {
        reveal_strlit("CL");
        assert(available_symbol_names()[38] == "CL"@);
        assert("ZT"@[0] != "CL"@[0]);
    } else if j == 39 {
        reveal_strlit("HO");
        assert(available_symbol_names()[39] == "HO"@);
        assert("ZT"@[0] != "HO"@[0]);
    } else if j == 40 {
        reveal_strlit("NG");
        assert(available_symbol_names()[40] == "NG"@);
        assert("ZT"@[0] != "NG"@[0]);
    } else if j == 41 {
        reveal_strlit("PA");
        assert(available_symbol_names()[41] == "PA"@);
        assert("ZT"@[0] != "PA"@[0]);
    } else if j == 42 {
        reveal_strlit("PL");
        assert(available_symbol_names()[42] == "PL"@);
        assert("ZT"@[0] != "PL"@[0]);
    } else if j == 43 {
        reveal_strlit("QM");
        assert(available_symbol_names()[43] == "QM"@);
        assert("ZT"@[0] != "QM"@[0]);
    } else if j == 44 {
        reveal_strlit("RB");
        assert(available_symbol_names()[44] == "RB"@);
        assert("ZT"@[0] != "RB"@[0]);
    } else if j == 45 {
        reveal_strlit("MES");
        assert(available_symbol_names()[45] == "MES"@);
        assert("ZT"@.len() != "MES"@.len());
    } else if j == 46 {
        reveal_strlit("MNQ");
        assert(available_symbol_names()[46] == "MNQ"@);
        assert("ZT"@.len() != "MNQ"@.len());
    } else if j == 47 {
        reveal_strlit("M2K");
        assert(available_symbol_names()[47] == "M2K"@);
        assert("ZT"@.len() != "M2K"@.len());
    } else if j == 48 {
        reveal_strlit("MYM");
        assert(available_symbol_names()[48] == "MYM"@);
        assert("ZT"@.len() != "MYM"@.len());
    } else if j == 49 {
        reveal_strlit("MGC");
        assert(available_symbol_names()[49] == "MGC"@);
        assert("ZT"@.len() != "MGC"@.len());
    } else if j == 50 {
        reveal_strlit("SIL");
        assert(available_symbol_names()[50] == "SIL"@);
        assert("ZT"@.len() != "SIL"@.len());
    } else if j == 51 {
        reveal_strlit("MCL");
        assert(available_symbol_names()[51] == "MCL"@);
        assert("ZT"@.len() != "MCL"@.len());
    } else if j == 52 {
        reveal_strlit("MBT");
        assert(available_symbol_names()[52] == "MBT"@);
        assert("ZT"@.len() != "MBT"@.len());
    } else if j == 53 {
        reveal_strlit("M6A");
        assert(available_symbol_names()[53] == "M6A"@);
        assert("ZT"@.len() != "M6A"@.len());
    } else if j == 54 {
        reveal_strlit("M6B");
        assert(available_symbol_names()[54] == "M6B"@);
        assert("ZT"@.len() != "M6B"@.len());
    } else if j == 55 {
        reveal_strlit("M6E");
        assert(available_symbol_names()[55] == "M6E"@);
        assert("ZT"@.len() != "M6E"@.len());
    } else if j == 56 {
        reveal_strlit("MJY");
        assert(available_symbol_names()[56] == "MJY"@);
        assert("ZT"@.len() != "MJY"@.len());
    }
}

/// The offered name at 14 differs from every later one.
proof fn lemma_name_14_differs(j: int)
    requires
        14 < j < 57,
    ensures
        available_symbol_names()[14] != available_symbol_names()[j],
{
    reveal_strlit("ZW");
    assert(available_symbol_names()[14] == "ZW"@);
    if j == 15 {
        reveal_strlit("6A");
        assert(available_symbol_names()[15] == "6A"@);
        assert("ZW"@[0] != "6A"@[0]);
    } else if j == 16 {
        reveal_strlit("6B");
        assert(available_symbol_names()[16] == "6B"@);
        assert("ZW"@[0] != "6B"@[0]);
    } else if j == 17 {
        reveal_strlit("6C");
        assert(available_symbol_names()[17] == "6C"@);
        assert("ZW"@[0] != "6C"@[0]);
    } else if j == 18 {
        reveal_strlit("6E");
        assert(available_symbol_names()[18] == "6E"@);
        assert("ZW"@[0] != "6E"@[0]);
    } else if j == 19 {
        reveal_strlit("6J");
        assert(available_symbol_names()[19] == "6J"@);
        assert("ZW"@[0] != "6J"@[0]);
    } else if j == 20 {
        reveal_strlit("6M");
        assert(available_symbol_names()[20] == "6M"@);
        assert("ZW"@[0] != "6M"@[0]);
    } else if j == 21 {
        reveal_strlit("6N");
        assert(available_symbol_names()[21] == "6N"@);
        assert("ZW"@[0] != "6N"@[0]);
    } else if j == 22 {
        reveal_strlit("6S");
        assert(available_symbol_names()[22] == "6S"@);
        assert("ZW"@[0] != "6S"@[0]);
    } else if j == 23 {
        reveal_strlit("E7");
        assert(available_symbol_names()[23] == "E7"@);
        assert("ZW"@[0] != "E7"@[0]);
    } else if j == 24 {
        reveal_strlit("EMD");
        assert(available_symbol_names()[24] == "EMD"@);
        assert("ZW"@.len() != "EMD"@.len());
    } else if j == 25 {
        reveal_strlit("ES");
        assert(available_symbol_names()[25] == "ES"@);
        assert("ZW"@[0] != "ES"@[0]);
    } else if j == 26 {
        reveal_strlit("GE");
        assert(available_symbol_names()[26] == "GE"@);
        assert("ZW"@[0] != "GE"@[0]);
    } else if j == 27 {
        reveal_strlit("GF");
        assert(available_symbol_names()[27] == "GF"@);
        assert("ZW"@[0] != "GF"@[0]);
    } else if j == 28 {
        reveal_strlit("HE");
        assert(available_symbol_names()[28] == "HE"@);
        assert("ZW"@[0] != "HE"@[0]);
    } else if j == 29 {
        reveal_strlit("J7");
        assert(available_symbol_names()[29] == "J7"@);
        assert("ZW"@[0] != "J7"@[0]);
    } else if j == 30 {
        reveal_strlit("LE");
        assert(available_symbol_names()[30] == "LE"@);
        assert("ZW"@[0] != "LE"@[0]);
    } else if j == 31 {
        reveal_strlit("NQ");
        assert(available_symbol_names()[31] == "NQ"@);
        assert("ZW"@[0] != "NQ"@[0]);
    } else if j == 32 {
        reveal_strlit("RF");
        assert(available_symbol_names()[32] == "RF"@);
        assert("ZW"@[0] != "RF"@[0]);
    } else if j == 33 {
        reveal_strlit("SP");
        assert(available_symbol_names()[33] == "SP"@);
        assert("ZW"@[0] != "SP"@[0]);
    } else if j == 34 {
        reveal_strlit("GC");
        assert(available_symbol_names()[34] == "GC"@);
        assert("ZW"@[0] != "GC"@[0]);
    } else if j == 35 {
        reveal_strlit("HG");
        assert(available_symbol_names()[35] == "HG"@);
        assert("ZW"@[0] != "HG"@[0]);
    } else if j == 36 {
        reveal_strlit("QI");
        assert(available_symbol_names()[36] == "QI"@);
        assert("ZW"@[0] != "QI"@[0]);
    } else if j == 37 {
        reveal_strlit("SI");
        assert(available_symbol_names()[37] == "SI"@);
        assert("ZW"@[0] != "SI"@[0]);
    } else if j == 38 {
        reveal_strlit("CL");
        assert(available_symbol_names()[38] == "CL"@);
        assert("ZW"@[0] != "CL"@[0]);
    } else if j == 39 {
        reveal_strlit("HO");
        assert(available_symbol_names()[39] == "HO"@);
        assert("ZW"@[0] != "HO"@[0]);
    } else if j == 40 {
        reveal_strlit("NG");
        assert(available_symbol_names()[40] == "NG"@);
        assert("ZW"@[0] != "NG"@[0]);
    } else if j == 41 {
        reveal_strlit("PA");
        assert(available_symbol_names()[41] == "PA"@);
        assert("ZW"@[0] != "PA"@[0]);
    } else if j == 42 {
        reveal_strlit("PL");
        assert(available_symbol_names()[42] == "PL"@);
        assert("ZW"@[0] != "PL"@[0]);
    } else if j == 43 {
        reveal_strlit("QM");
        assert(available_symbol_names()[43] == "QM"@);
        assert("ZW"@[0] != "QM"@[0]);
    } else if j == 44 {
        reveal_strlit("RB");
        assert(available_symbol_names()[44] == "RB"@);
        assert("ZW"@[0] != "RB"@[0]);
    } else if j == 45 {
        reveal_strlit("MES");
        assert(available_symbol_names()[45] == "MES"@);
        assert("ZW"@.len() != "MES"@.len());
    } else if j == 46 {
        reveal_strlit("MNQ");
        assert(available_symbol_names()[46] == "MNQ"@);
        assert("ZW"@.len() != "MNQ"@.len());
    } else if j == 47 {
        reveal_strlit("M2K");
        assert(available_symbol_names()[47] == "M2K"@);
        assert("ZW"@.len() != "M2K"@.len());
    } else if j == 48 {
        reveal_strlit("MYM");
        assert(available_symbol_names()[48] == "MYM"@);
        assert("ZW"@.len() != "MYM"@.len());
    } else if j == 49 {
        reveal_strlit("MGC");
        assert(available_symbol_names()[49] == "MGC"@);
        assert("ZW"@.len() != "MGC"@.len());
    } else if j == 50 {
        reveal_strlit("SIL");
        assert(available_symbol_names()[50] == "SIL"@);
        assert("ZW"@.len() != "SIL"@.len());
    } else if j == 51 {
        reveal_strlit("MCL");
        assert(available_symbol_names()[51] == "MCL"@);
        assert("ZW"@.len() != "MCL"@.len());
    } else if j == 52 {
        reveal_strlit("MBT");
        assert(available_symbol_names()[52] == "MBT"@);
        assert("ZW"@.len() != "MBT"@.len());
    } else if j == 53 {
        reveal_strlit("M6A");
        assert(available_symbol_names()[53] == "M6A"@);
        assert("ZW"@.len() != "M6A"@.len());
    } else if j == 54 {
        reveal_strlit("M6B");
        assert(available_symbol_names()[54] == "M6B"@);
        assert("ZW"@.len() != "M6B"@.len());
    } else if j == 55 {
        reveal_strlit("M6E");
        assert(available_symbol_names()[55] == "M6E"@);
        assert("ZW"@.len() != "M6E"@.len());
    } else if j == 56 {
        reveal_strlit("MJY");
        assert(available_symbol_names()[56] == "MJY"@);
        assert("ZW"@.len() != "MJY"@.len());
    }
}

/// The offered name at 15 differs from every later one.
proof fn lemma_name_15_differs(j: int)
    requires
        15 < j < 57,
    ensures
        available_symbol_names()[15] != available_symbol_names()[j],
{
    reveal_strlit("6A");
    assert(available_symbol_names()[15] == "6A"@);
    if j == 16 {
        reveal_strlit("6B");
        assert(available_symbol_names()[16] == "6B"@);
        assert("6A"@[1] != "6B"@[1]);
    } else if j == 17 {
        reveal_strlit("6C");
        assert(available_symbol_names()[17] == "6C"@);
        assert("6A"@[1] != "6C"@[1]);
    } else if j == 18 {
        reveal_strlit("6E");
        assert(available_symbol_names()[18] == "6E"@);
        assert("6A"@[1] != "6E"@[1]);
    } else if j == 19 {
        reveal_strlit("6J");
        assert(available_symbol_names()[19] == "6J"@);
        assert("6A"@[1] != "6J"@[1]);
    } else if j == 20 {
        reveal_strlit("6M");
        assert(available_symbol_names()[20] == "6M"@);
        assert("6A"@[1] != "6M"@[1]);
    } else if j == 21 {
        reveal_strlit("6N");
        assert(available_symbol_names()[21] == "6N"@);
        assert("6A"@[1] != "6N"@[1]);
    } else if j == 22 {
        reveal_strlit("6S");
        assert(available_symbol_names()[22] == "6S"@);
        assert("6A"@[1] != "6S"@[1]);
    } else if j == 23 {
        reveal_strlit("E7");
        assert(available_symbol_names()[23] == "E7"@);
        assert("6A"@[0] != "E7"@[0]);
    } else if j == 24 {
        reveal_strlit("EMD");
        assert(available_symbol_names()[24] == "EMD"@);
        assert("6A"@.len() != "EMD"@.len());
    } else if j == 25 {
        reveal_strlit("ES");
        assert(available_symbol_names()[25] == "ES"@);
        assert("6A"@[0] != "ES"@[0]);
    } else if j == 26 {
        reveal_strlit("GE");
        assert(available_symbol_names()[26] == "GE"@);
        assert("6A"@[0] != "GE"@[0]);
    } else if j == 27 {
        reveal_strlit("GF");
        assert(available_symbol_names()[27] == "GF"@);
        assert("6A"@[0] != "GF"@[0]);
    } else if j == 28 {
        reveal_strlit("HE");
        assert(available_symbol_names()[28] == "HE"@);
        assert("6A"@[0] != "HE"@[0]);
    } else if j == 29 {
        reveal_strlit("J7");
        assert(available_symbol_names()[29] == "J7"@);
        assert("6A"@[0] != "J7"@[0]);
    } else if j == 30 {
        reveal_strlit("LE");
        assert(available_symbol_names()[30] == "LE"@);
        assert("6A"@[0] != "LE"@[0]);
    } else if j == 31 {
        reveal_strlit("NQ");
        assert(available_symbol_names()[31] == "NQ"@);
        assert("6A"@[0] != "NQ"@[0]);
    } else if j == 32 {
        reveal_strlit("RF");
        assert(available_symbol_names()[32] == "RF"@);
        assert("6A"@[0] != "RF"@[0]);
    } else if j == 33 {
        reveal_strlit("SP");
        assert(available_symbol_names()[33] == "SP"@);
        assert("6A"@[0] != "SP"@[0]);
    } else if j == 34 {
        reveal_strlit("GC");
        assert(available_symbol_names()[34] == "GC"@);
        assert("6A"@[0] != "GC"@[0]);
    } else if j == 35 {
        reveal_strlit("HG");
        assert(available_symbol_names()[35] == "HG"@);
        assert("6A"@[0] != "HG"@[0]);
    } else if j == 36 {
        reveal_strlit("QI");
        assert(available_symbol_names()[36] == "QI"@);
        assert("6A"@[0] != "QI"@[0]);
    } else if j == 37 {
        reveal_strlit("SI");
        assert(available_symbol_names()[37] == "SI"@);
        assert("6A"@[0] != "SI"@[0]);
    } else if j == 38 {
        reveal_strlit("CL");
        assert(available_symbol_names()[38] == "CL"@);
        assert("6A"@[0] != "CL"@[0]);
    } else if j == 39 {
        reveal_strlit("HO");
        assert(available_symbol_names()[39] == "HO"@);
        assert("6A"@[0] != "HO"@[0]);
    } else if j == 40 {
        reveal_strlit("NG");
        assert(available_symbol_names()[40] == "NG"@);
        assert("6A"@[0] != "NG"@[0]);
    } else if j == 41 {
        reveal_strlit("PA");
        assert(available_symbol_names()[41] == "PA"@);
        assert("6A"@[0] != "PA"@[0]);
    } else if j == 42 {
        reveal_strlit("PL");
        assert(available_symbol_names()[42] == "PL"@);
        assert("6A"@[0] != "PL"@[0]);
    } else if j == 43 {
        reveal_strlit("QM");
        assert(available_symbol_names()[43] == "QM"@);
        assert("6A"@[0] != "QM"@[0]);
    } else if j == 44 {
        reveal_strlit("RB");
        assert(available_symbol_names()[44] == "RB"@);
        assert("6A"@[0] != "RB"@[0]);
    } else if j == 45 {
        reveal_strlit("MES");
        assert(available_symbol_names()[45] == "MES"@);
        assert("6A"@.len() != "MES"@.len());
    } else if j == 46 {
        reveal_strlit("MNQ");
        assert(available_symbol_names()[46] == "MNQ"@);
        assert("6A"@.len() != "MNQ"@.len());
    } else if j == 47 {
        reveal_strlit("M2K");
        assert(available_symbol_names()[47] == "M2K"@);
        assert("6A"@.len() != "M2K"@.len());
    } else if j == 48 {
        reveal_strlit("MYM");
        assert(available_symbol_names()[48] == "MYM"@);
        assert("6A"@.len() != "MYM"@.len());
    } else if j == 49 {
        reveal_strlit("MGC");
        assert(available_symbol_names()[49] == "MGC"@);
        assert("6A"@.len() != "MGC"@.len());
    } else if j == 50 {
        reveal_strlit("SIL");
        assert(available_symbol_names()[50] == "SIL"@);
        assert("6A"@.len() != "SIL"@.len());
    } else if j == 51 {
        reveal_strlit("MCL");
        assert(available_symbol_names()[51] == "MCL"@);
        assert("6A"@.len() != "MCL"@.len());
    } else if j == 52 {
        reveal_strlit("MBT");
        assert(available_symbol_names()[52] == "MBT"@);
        assert("6A"@.len() != "MBT"@.len());
    } else if j == 53 {
        reveal_strlit("M6A");
        assert(available_symbol_names()[53] == "M6A"@);
        assert("6A"@.len() != "M6A"@.len());
    } else if j == 54 {
        reveal_strlit("M6B");
        assert(available_symbol_names()[54] == "M6B"@);
        assert("6A"@.len() != "M6B"@.len());
    } else if j == 55 {
        reveal_strlit("M6E");
        assert(available_symbol_names()[55] == "M6E"@);
        assert("6A"@.len() != "M6E"@.len());
    } else if j == 56 {
        reveal_strlit("MJY");
        assert(available_symbol_names()[56] == "MJY"@);
        assert("6A"@.len() != "MJY"@.len());
    }
}

/// The offered name at 16 differs from every later one.
proof fn lemma_name_16_differs(j: int)
    requires
        16 < j < 57,
    ensures
        available_symbol_names()[16] != available_symbol_names()[j],
{
    reveal_strlit("6B");
    assert(available_symbol_names()[16] == "6B"@);
    if j == 17 {
        reveal_strlit("6C");
        assert(available_symbol_names()[17] == "6C"@);
        assert("6B"@[1] != "6C"@[1]);
    } else if j == 18 {
        reveal_strlit("6E");
        assert(available_symbol_names()[18] == "6E"@);
        assert("6B"@[1] != "6E"@[1]);
    } else if j == 19 {
        reveal_strlit("6J");
        assert(available_symbol_names()[19] == "6J"@);
        assert("6B"@[1] != "6J"@[1]);
    } else if j == 20 {
        reveal_strlit("6M");
        assert(available_symbol_names()[20] == "6M"@);
        assert("6B"@[1] != "6M"@[1]);
    } else if j == 21 {
        reveal_strlit("6N");
        assert(available_symbol_names()[21] == "6N"@);
        assert("6B"@[1] != "6N"@[1]);
    } else if j == 22 {
        reveal_strlit("6S");
        assert(available_symbol_names()[22] == "6S"@);
        assert("6B"@[1] != "6S"@[1]);
    } else if j == 23 {
        reveal_strlit("E7");
        assert(available_symbol_names()[23] == "E7"@);
        assert("6B"@[0] != "E7"@[0]);
    } else if j == 24 {
        reveal_strlit("EMD");
        assert(available_symbol_names()[24] == "EMD"@);
        assert("6B"@.len() != "EMD"@.len());
    } else if j == 25 {
        reveal_strlit("ES");
        assert(available_symbol_names()[25] == "ES"@);
        assert("6B"@[0] != "ES"@[0]);
    } else if j == 26 {
        reveal_strlit("GE");
        assert(available_symbol_names()[26] == "GE"@);
        assert("6B"@[0] != "GE"@[0]);
    } else if j == 27 {
        reveal_strlit("GF");
        assert(available_symbol_names()[27] == "GF"@);
        assert("6B"@[0] != "GF"@[0]);
    } else if j == 28 {
        reveal_strlit("HE");
        assert(available_symbol_names()[28] == "HE"@);
        assert("6B"@[0] != "HE"@[0]);
    } else if j == 29 {
        reveal_strlit("J7");
        assert(available_symbol_names()[29] == "J7"@);
        assert("6B"@[0] != "J7"@[0]);
    } else if j == 30 {
        reveal_strlit("LE");
        assert(available_symbol_names()[30] == "LE"@);
        assert("6B"@[0] != "LE"@[0]);
    } else if j == 31 {
        reveal_strlit("NQ");
        assert(available_symbol_names()[31] == "NQ"@);
        assert("6B"@[0] != "NQ"@[0]);
    } else if j == 32 {
        reveal_strlit("RF");
        assert(available_symbol_names()[32] == "RF"@);
        assert("6B"@[0] != "RF"@[0]);
    } else if j == 33 {
        reveal_strlit("SP");
        assert(available_symbol_names()[33] == "SP"@);
        assert("6B"@[0] != "SP"@[0]);
    } else if j == 34 {
        reveal_strlit("GC");
        assert(available_symbol_names()[34] == "GC"@);
        assert("6B"@[0] != "GC"@[0]);
    } else if j == 35 {
        reveal_strlit("HG");
        assert(available_symbol_names()[35] == "HG"@);
        assert("6B"@[0] != "HG"@[0]);
    } else if j == 36 {
        reveal_strlit("QI");
        assert(available_symbol_names()[36] == "QI"@);
        assert("6B"@[0] != "QI"@[0]);
    } else if j == 37 {
        reveal_strlit("SI");
        assert(available_symbol_names()[37] == "SI"@);
        assert("6B"@[0] != "SI"@[0]);
    } else if j == 38 {
        reveal_strlit("CL");
        assert(available_symbol_names()[38] == "CL"@);
        assert("6B"@[0] != "CL"@[0]);
    } else if j == 39 {
        reveal_strlit("HO");
        assert(available_symbol_names()[39] == "HO"@);
        assert("6B"@[0] != "HO"@[0]);
    } else if j == 40 {
        reveal_strlit("NG");
        assert(available_symbol_names()[40] == "NG"@);
        assert("6B"@[0] != "NG"@[0]);
    } else if j == 41 {
        reveal_strlit("PA");
        assert(available_symbol_names()[41] == "PA"@);
        assert("6B"@[0] != "PA"@[0]);
    } else if j == 42 {
        reveal_strlit("PL");
        assert(available_symbol_names()[42] == "PL"@);
        assert("6B"@[0] != "PL"@[0]);
    } else if j == 43 {
        reveal_strlit("QM");
        assert(available_symbol_names()[43] == "QM"@);
        assert("6B"@[0] != "QM"@[0]);
    } else if j == 44 {
        reveal_strlit("RB");
        assert(available_symbol_names()[44] == "RB"@);
        assert("6B"@[0] != "RB"@[0]);
    } else if j == 45 {
        reveal_strlit("MES");
        assert(available_symbol_names()[45] == "MES"@);
        assert("6B"@.len() != "MES"@.len());
    } else if j == 46 {
        reveal_strlit("MNQ");
        assert(available_symbol_names()[46] == "MNQ"@);
        assert("6B"@.len() != "MNQ"@.len());
    } else if j == 47 {
        reveal_strlit("M2K");
        assert(available_symbol_names()[47] == "M2K"@);
        assert("6B"@.len() != "M2K"@.len());
    } else if j == 48 {
        reveal_strlit("MYM");
        assert(available_symbol_names()[48] == "MYM"@);
        assert("6B"@.len() != "MYM"@.len());
    } else if j == 49 {
        reveal_strlit("MGC");
        assert(available_symbol_names()[49] == "MGC"@);
        assert("6B"@.len() != "MGC"@.len());
    } else if j == 50 {
        reveal_strlit("SIL");
        assert(available_symbol_names()[50] == "SIL"@);
        assert("6B"@.len() != "SIL"@.len());
    } else if j == 51 {
        reveal_strlit("MCL");
        assert(available_symbol_names()[51] == "MCL"@);
        assert("6B"@.len() != "MCL"@.len());
    } else if j == 52 {
        reveal_strlit("MBT");
        assert(available_symbol_names()[52] == "MBT"@);
        assert("6B"@.len() != "MBT"@.len());
    } else if j == 53 {
        reveal_strlit("M6A");
        assert(available_symbol_names()[53] == "M6A"@);
        assert("6B"@.len() != "M6A"@.len());
    } else if j == 54 {
        reveal_strlit("M6B");
        assert(available_symbol_names()[54] == "M6B"@);
        assert("6B"@.len() != "M6B"@.len());
    } else if j == 55 {
        reveal_strlit("M6E");
        assert(available_symbol_names()[55] == "M6E"@);
        assert("6B"@.len() != "M6E"@.len());
    } else if j == 56 {
        reveal_strlit("MJY");
        assert(available_symbol_names()[56] == "MJY"@);
        assert("6B"@.len() != "MJY"@.len());
    }
}

/// The offered name at 17 differs from every later one.
proof fn lemma_name_17_differs(j: int)
    requires
        17 < j < 57,
    ensures
        available_symbol_names()[17] != available_symbol_names()[j],
{
    reveal_strlit("6C");
    assert(available_symbol_names()[17] == "6C"@);
    if j == 18 {
        reveal_strlit("6E");
        assert(available_symbol_names()[18] == "6E"@);
        assert("6C"@[1] != "6E"@[1]);
    } else if j == 19 {
        reveal_strlit("6J");
        assert(available_symbol_names()[19] == "6J"@);
        assert("6C"@[1] != "6J"@[1]);
    } else if j == 20 {
        reveal_strlit("6M");
        assert(available_symbol_names()[20] == "6M"@);
        assert("6C"@[1] != "6M"@[1]);
    } else if j == 21 {
        reveal_strlit("6N");
        assert(available_symbol_names()[21] == "6N"@);
        assert("6C"@[1] != "6N"@[1]);
    } else if j == 22 {
        reveal_strlit("6S");
        assert(available_symbol_names()[22] == "6S"@);
        assert("6C"@[1] != "6S"@[1]);
    } else if j == 23 {
        reveal_strlit("E7");
        assert(available_symbol_names()[23] == "E7"@);
        assert("6C"@[0] != "E7"@[0]);
    } else if j == 24 {
        reveal_strlit("EMD");
        assert(available_symbol_names()[24] == "EMD"@);
        assert("6C"@.len() != "EMD"@.len());
    } else if j == 25 {
        reveal_strlit("ES");
        assert(available_symbol_names()[25] == "ES"@);
        assert("6C"@[0] != "ES"@[0]);
    } else if j == 26 {
        reveal_strlit("GE");
        assert(available_symbol_names()[26] == "GE"@);
        assert("6C"@[0] != "GE"@[0]);
    } else if j == 27 {
        reveal_strlit("GF");
        assert(available_symbol_names()[27] == "GF"@);
        assert("6C"@[0] != "GF"@[0]);
    } else if j == 28 {
        reveal_strlit("HE");
        assert(available_symbol_names()[28] == "HE"@);
        assert("6C"@[0] != "HE"@[0]);
    } else if j == 29 {
        reveal_strlit("J7");
        assert(available_symbol_names()[29] == "J7"@);
        assert("6C"@[0] != "J7"@[0]);
    } else if j == 30 {
        reveal_strlit("LE");
        assert(available_symbol_names()[30] == "LE"@);
        assert("6C"@[0] != "LE"@[0]);
    } else if j == 31 {
        reveal_strlit("NQ");
        assert(available_symbol_names()[31] == "NQ"@);
        assert("6C"@[0] != "NQ"@[0]);
    } else if j == 32 {
        reveal_strlit("RF");
        assert(available_symbol_names()[32] == "RF"@);
        assert("6C"@[0] != "RF"@[0]);
    } else if j == 33 {
        reveal_strlit("SP");
        assert(available_symbol_names()[33] == "SP"@);
        assert("6C"@[0] != "SP"@[0]);
    } else if j == 34 {
        reveal_strlit("GC");
        assert(available_symbol_names()[34] == "GC"@);
        assert("6C"@[0] != "GC"@[0]);
    } else if j == 35 {
        reveal_strlit("HG");
        assert(available_symbol_names()[35] == "HG"@);
        assert("6C"@[0] != "HG"@[0]);
    } else if j == 36 {
        reveal_strlit("QI");
        assert(available_symbol_names()[36] == "QI"@);
        assert("6C"@[0] != "QI"@[0]);
    } else if j == 37 {
        reveal_strlit("SI");
        assert(available_symbol_names()[37] == "SI"@);
        assert("6C"@[0] != "SI"@[0]);
    } else if j == 38 {
        reveal_strlit("CL");
        assert(available_symbol_names()[38] == "CL"@);
        assert("6C"@[0] != "CL"@[0]);
    } else if j == 39 {
        reveal_strlit("HO");
        assert(available_symbol_names()[39] == "HO"@);
        assert("6C"@[0] != "HO"@[0]);
    } else if j == 40 {
        reveal_strlit("NG");
        assert(available_symbol_names()[40] == "NG"@);
        assert("6C"@[0] != "NG"@[0]);
    } else if j == 41 {
        reveal_strlit("PA");
        assert(available_symbol_names()[41] == "PA"@);
        assert("6C"@[0] != "PA"@[0]);
    } else if j == 42 {
        reveal_strlit("PL");
        assert(available_symbol_names()[42] == "PL"@);
        assert("6C"@[0] != "PL"@[0]);
    } else if j == 43 {
        reveal_strlit("QM");
        assert(available_symbol_names()[43] == "QM"@);
        assert("6C"@[0] != "QM"@[0]);
    } else if j == 44 {
        reveal_strlit("RB");
        assert(available_symbol_names()[44] == "RB"@);
        assert("6C"@[0] != "RB"@[0]);
    } else if j == 45 {
        reveal_strlit("MES");
        assert(available_symbol_names()[45] == "MES"@);
        assert("6C"@.len() != "MES"@.len());
    } else if j == 46 {
        reveal_strlit("MNQ");
        assert(available_symbol_names()[46] == "MNQ"@);
        assert("6C"@.len() != "MNQ"@.len());
    } else if j == 47 {
        reveal_strlit("M2K");
        assert(available_symbol_names()[47] == "M2K"@);
        assert("6C"@.len() != "M2K"@.len());
    } else if j == 48 {
        reveal_strlit("MYM");
        assert(available_symbol_names()[48] == "MYM"@);
        assert("6C"@.len() != "MYM"@.len());
    } else if j == 49 {
        reveal_strlit("MGC");
        assert(available_symbol_names()[49] == "MGC"@);
        assert("6C"@.len() != "MGC"@.len());
    } else if j == 50 {
        reveal_strlit("SIL");
        assert(available_symbol_names()[50] == "SIL"@);
        assert("6C"@.len() != "SIL"@.len());
    } else if j == 51 {
        reveal_strlit("MCL");
        assert(available_symbol_names()[51] == "MCL"@);
        assert("6C"@.len() != "MCL"@.len());
    } else if j == 52 {
        reveal_strlit("MBT");
        assert(available_symbol_names()[52] == "MBT"@);
        assert("6C"@.len() != "MBT"@.len());
    } else if j == 53 {
        reveal_strlit("M6A");
        assert(available_symbol_names()[53] == "M6A"@);
        assert("6C"@.len() != "M6A"@.len());
    } else if j == 54 {
        reveal_strlit("M6B");
        assert(available_symbol_names()[54] == "M6B"@);
        assert("6C"@.len() != "M6B"@.len());
    } else if j == 55 {
        reveal_strlit("M6E");
        assert(available_symbol_names()[55] == "M6E"@);
        assert("6C"@.len() != "M6E"@.len());
    } else if j == 56 {
        reveal_strlit("MJY");
        assert(available_symbol_names()[56] == "MJY"@);
        assert("6C"@.len() != "MJY"@.len());
    }
}

/// The offered name at 18 differs from every later one.
proof fn lemma_name_18_differs(j: int)
    requires
        18 < j < 57,
    ensures
        available_symbol_names()[18] != available_symbol_names()[j],
{
    reveal_strlit("6E");
    assert(available_symbol_names()[18] == "6E"@);
    if j == 19 {
        reveal_strlit("6J");
        assert(available_symbol_names()[19] == "6J"@);
        assert("6E"@[1] != "6J"@[1]);
    } else if j == 20 {
        reveal_strlit("6M");
        assert(available_symbol_names()[20] == "6M"@);
        assert("6E"@[1] != "6M"@[1]);
    } else if j == 21 {
        reveal_strlit("6N");
        assert(available_symbol_names()[21] == "6N"@);
        assert("6E"@[1] != "6N"@[1]);
    } else if j == 22 {
        reveal_strlit("6S");
        assert(available_symbol_names()[22] == "6S"@);
        assert("6E"@[1] != "6S"@[1]);
    } else if j == 23 {
        reveal_strlit("E7");
        assert(available_symbol_names()[23] == "E7"@);
        assert("6E"@[0] != "E7"@[0]);
    } else if j == 24 {
        reveal_strlit("EMD");
        assert(available_symbol_names()[24] == "EMD"@);
        assert("6E"@.len() != "EMD"@.len());
    } else if j == 25 {
        reveal_strlit("ES");
        assert(available_symbol_names()[25] == "ES"@);
        assert("6E"@[0] != "ES"@[0]);
    } else if j == 26 {
        reveal_strlit("GE");
        assert(available_symbol_names()[26] == "GE"@);
        assert("6E"@[0] != "GE"@[0]);
    } else if j == 27 {
        reveal_strlit("GF");
        assert(available_symbol_names()[27] == "GF"@);
        assert("6E"@[0] != "GF"@[0]);
    } else if j == 28 {
        reveal_strlit("HE");
        assert(available_symbol_names()[28] == "HE"@);
        assert("6E"@[0] != "HE"@[0]);
    } else if j == 29 {
        reveal_strlit("J7");
        assert(available_symbol_names()[29] == "J7"@);
        assert("6E"@[0] != "J7"@[0]);
    } else if j == 30 {
        reveal_strlit("LE");
        assert(available_symbol_names()[30] == "LE"@);
        assert("6E"@[0] != "LE"@[0]);
    } else if j == 31 {
        reveal_strlit("NQ");
        assert(available_symbol_names()[31] == "NQ"@);
        assert("6E"@[0] != "NQ"@[0]);
    } else if j == 32 {
        reveal_strlit("RF");
        assert(available_symbol_names()[32] == "RF"@);
        assert("6E"@[0] != "RF"@[0]);
    } else if j == 33 {
        reveal_strlit("SP");
        assert(available_symbol_names()[33] == "SP"@);
        assert("6E"@[0] != "SP"@[0]);
    } else if j == 34 {
        reveal_strlit("GC");
        assert(available_symbol_names()[34] == "GC"@);
        assert("6E"@[0] != "GC"@[0]);
    } else if j == 35 {
        reveal_strlit("HG");
        assert(available_symbol_names()[35] == "HG"@);
        assert("6E"@[0] != "HG"@[0]);
    } else if j == 36 {
        reveal_strlit("QI");
        assert(available_symbol_names()[36] == "QI"@);
        assert("6E"@[0] != "QI"@[0]);
    } else if j == 37 {
        reveal_strlit("SI");
        assert(available_symbol_names()[37] == "SI"@);
        assert("6E"@[0] != "SI"@[0]);
    } else if j == 38 {
        reveal_strlit("CL");
        assert(available_symbol_names()[38] == "CL"@);
        assert("6E"@[0] != "CL"@[0]);
    } else if j == 39 {
        reveal_strlit("HO");
        assert(available_symbol_names()[39] == "HO"@);
        assert("6E"@[0] != "HO"@[0]);
    } else if j == 40 {
        reveal_strlit("NG");
        assert(available_symbol_names()[40] == "NG"@);
        assert("6E"@[0] != "NG"@[0]);
    } else if j == 41 {
        reveal_strlit("PA");
        assert(available_symbol_names()[41] == "PA"@);
        assert("6E"@[0] != "PA"@[0]);
    } else if j == 42 {
        reveal_strlit("PL");
        assert(available_symbol_names()[42] == "PL"@);
        assert("6E"@[0] != "PL"@[0]);
    } else if j == 43 {
        reveal_strlit("QM");
        assert(available_symbol_names()[43] == "QM"@);
        assert("6E"@[0] != "QM"@[0]);
    } else if j == 44 {
        reveal_strlit("RB");
        assert(available_symbol_names()[44] == "RB"@);
        assert("6E"@[0] != "RB"@[0]);
    } else if j == 45 {
        reveal_strlit("MES");
        assert(available_symbol_names()[45] == "MES"@);
        assert("6E"@.len() != "MES"@.len());
    } else if j == 46 {
        reveal_strlit("MNQ");
        assert(available_symbol_names()[46] == "MNQ"@);
        assert("6E"@.len() != "MNQ"@.len());
    } else if j == 47 {
        reveal_strlit("M2K");
        assert(available_symbol_names()[47] == "M2K"@);
        assert("6E"@.len() != "M2K"@.len());
    } else if j == 48 {
        reveal_strlit("MYM");
        assert(available_symbol_names()[48] == "MYM"@);
        assert("6E"@.len() != "MYM"@.len());
    } else if j == 49 {
        reveal_strlit("MGC");
        assert(available_symbol_names()[49] == "MGC"@);
        assert("6E"@.len() != "MGC"@.len());
    } else if j == 50 {
        reveal_strlit("SIL");
        assert(available_symbol_names()[50] == "SIL"@);
        assert("6E"@.len() != "SIL"@.len());
    } else if j == 51 {
        reveal_strlit("MCL");
        assert(available_symbol_names()[51] == "MCL"@);
        assert("6E"@.len() != "MCL"@.len());
    } else if j == 52 {
        reveal_strlit("MBT");
        assert(available_symbol_names()[52] == "MBT"@);
        assert("6E"@.len() != "MBT"@.len());
    } else if j == 53 {
        reveal_strlit("M6A");
        assert(available_symbol_names()[53] == "M6A"@);
        assert("6E"@.len() != "M6A"@.len());
    } else if j == 54 {
        reveal_strlit("M6B");
        assert(available_symbol_names()[54] == "M6B"@);
        assert("6E"@.len() != "M6B"@.len());
    } else if j == 55 {
        reveal_strlit("M6E");
        assert(available_symbol_names()[55] == "M6E"@);
        assert("6E"@.len() != "M6E"@.len());
    } else if j == 56 {
        reveal_strlit("MJY");
        assert(available_symbol_names()[56] == "MJY"@);
        assert("6E"@.len() != "MJY"@.len());
    }
}

/// The offered name at 19 differs from every later one.
proof fn lemma_name_19_differs(j: int)
    requires
        19 < j < 57,
    ensures
        available_symbol_names()[19] != available_symbol_names()[j],
{
    reveal_strlit("6J");
    assert(available_symbol_names()[19] == "6J"@);
    if j == 20 {
        reveal_strlit("6M");
        assert(available_symbol_names()[20] == "6M"@);
        assert("6J"@[1] != "6M"@[1]);
    } else if j == 21 {
        reveal_strlit("6N");
        assert(available_symbol_names()[21] == "6N"@);
        assert("6J"@[1] != "6N"@[1]);
    } else if j == 22 {
        reveal_strlit("6S");
        assert(available_symbol_names()[22] == "6S"@);
        assert("6J"@[1] != "6S"@[1]);
    } else if j == 23 {
        reveal_strlit("E7");
        assert(available_symbol_names()[23] == "E7"@);
        assert("6J"@[0] != "E7"@[0]);
    } else if j == 24 {
        reveal_strlit("EMD");
        assert(available_symbol_names()[24] == "EMD"@);
        assert("6J"@.len() != "EMD"@.len());
    } else if j == 25 {
        reveal_strlit("ES");
        assert(available_symbol_names()[25] == "ES"@);
        assert("6J"@[0] != "ES"@[0]);
    } else if j == 26 {
        reveal_strlit("GE");
        assert(available_symbol_names()[26] == "GE"@);
        assert("6J"@[0] != "GE"@[0]);
    } else if j == 27 {
        reveal_strlit("GF");
        assert(available_symbol_names()[27] == "GF"@);
        assert("6J"@[0] != "GF"@[0]);
    } else if j == 28 {
        reveal_strlit("HE");
        assert(available_symbol_names()[28] == "HE"@);
        assert("6J"@[0] != "HE"@[0]);
    } else if j == 29 {
        reveal_strlit("J7");
        assert(available_symbol_names()[29] == "J7"@);
        assert("6J"@[0] != "J7"@[0]);
    } else if j == 30 {
        reveal_strlit("LE");
        assert(available_symbol_names()[30] == "LE"@);
        assert("6J"@[0] != "LE"@[0]);
    } else if j == 31 {
        reveal_strlit("NQ");
        assert(available_symbol_names()[31] == "NQ"@);
        assert("6J"@[0] != "NQ"@[0]);
    } else if j == 32 {
        reveal_strlit("RF");
        assert(available_symbol_names()[32] == "RF"@);
        assert("6J"@[0] != "RF"@[0]);
    } else if j == 33 {
        reveal_strlit("SP");
        assert(available_symbol_names()[33] == "SP"@);
        assert("6J"@[0] != "SP"@[0]);
    } else if j == 34 {
        reveal_strlit("GC");
        assert(available_symbol_names()[34] == "GC"@);
        assert("6J"@[0] != "GC"@[0]);
    } else if j == 35 {
        reveal_strlit("HG");
        assert(available_symbol_names()[35] == "HG"@);
        assert("6J"@[0] != "HG"@[0]);
    } else if j == 36 {
        reveal_strlit("QI");
        assert(available_symbol_names()[36] == "QI"@);
        assert("6J"@[0] != "QI"@[0]);
    } else if j == 37 {
        reveal_strlit("SI");
        assert(available_symbol_names()[37] == "SI"@);
        assert("6J"@[0] != "SI"@[0]);
    } else if j == 38 {
        reveal_strlit("CL");
        assert(available_symbol_names()[38] == "CL"@);
        assert("6J"@[0] != "CL"@[0]);
    } else if j == 39 {
        reveal_strlit("HO");
        assert(available_symbol_names()[39] == "HO"@);
        assert("6J"@[0] != "HO"@[0]);
    } else if j == 40 {
        reveal_strlit("NG");
        assert(available_symbol_names()[40] == "NG"@);
        assert("6J"@[0] != "NG"@[0]);
    } else if j == 41 {
        reveal_strlit("PA");
        assert(available_symbol_names()[41] == "PA"@);
        assert("6J"@[0] != "PA"@[0]);
    } else if j == 42 {
        reveal_strlit("PL");
        assert(available_symbol_names()[42] == "PL"@);
        assert("6J"@[0] != "PL"@[0]);
    } else if j == 43 {
        reveal_strlit("QM");
        assert(available_symbol_names()[43] == "QM"@);
        assert("6J"@[0] != "QM"@[0]);
    } else if j == 44 {
        reveal_strlit("RB");
        assert(available_symbol_names()[44] == "RB"@);
        assert("6J"@[0] != "RB"@[0]);
    } else if j == 45 {
        reveal_strlit("MES");
        assert(available_symbol_names()[45] == "MES"@);
        assert("6J"@.len() != "MES"@.len());
    } else if j == 46 {
        reveal_strlit("MNQ");
        assert(available_symbol_names()[46] == "MNQ"@);
        assert("6J"@.len() != "MNQ"@.len());
    } else if j == 47 {
        reveal_strlit("M2K");
        assert(available_symbol_names()[47] == "M2K"@);
        assert("6J"@.len() != "M2K"@.len());
    } else if j == 48 {
        reveal_strlit("MYM");
        assert(available_symbol_names()[48] == "MYM"@);
        assert("6J"@.len() != "MYM"@.len());
    } else if j == 49 {
        reveal_strlit("MGC");
        assert(available_symbol_names()[49] == "MGC"@);
        assert("6J"@.len() != "MGC"@.len());
    } else if j == 50 {
        reveal_strlit("SIL");
        assert(available_symbol_names()[50] == "SIL"@);
        assert("6J"@.len() != "SIL"@.len());
    } else if j == 51 {
        reveal_strlit("MCL");
        assert(available_symbol_names()[51] == "MCL"@);
        assert("6J"@.len() != "MCL"@.len());
    } else if j == 52 {
        reveal_strlit("MBT");
        assert(available_symbol_names()[52] == "MBT"@);
        assert("6J"@.len() != "MBT"@.len());
    } else if j == 53 {
        reveal_strlit("M6A");
        assert(available_symbol_names()[53] == "M6A"@);
        assert("6J"@.len() != "M6A"@.len());
    } else if j == 54 {
        reveal_strlit("M6B");
        assert(available_symbol_names()[54] == "M6B"@);
        assert("6J"@.len() != "M6B"@.len());
    } else if j == 55 {
        reveal_strlit("M6E");
        assert(available_symbol_names()[55] == "M6E"@);
        assert("6J"@.len() != "M6E"@.len());
    } else if j == 56 {
        reveal_strlit("MJY");
        assert(available_symbol_names()[56] == "MJY"@);
        assert("6J"@.len() != "MJY"@.len());
    }
}

/// The offered name at 20 differs from every later one.
proof fn lemma_name_20_differs(j: int)
    requires
        20 < j < 57,
    ensures
        available_symbol_names()[20] != available_symbol_names()[j],
{
    reveal_strlit("6M");
    assert(available_symbol_names()[20] == "6M"@);
    if j == 21 {
        reveal_strlit("6N");
        assert(available_symbol_names()[21] == "6N"@);
        assert("6M"@[1] != "6N"@[1]);
    } else if j == 22 {
        reveal_strlit("6S");
        assert(available_symbol_names()[22] == "6S"@);
        assert("6M"@[1] != "6S"@[1]);
    } else if j == 23 {
        reveal_strlit("E7");
        assert(available_symbol_names()[23] == "E7"@);
        assert("6M"@[0] != "E7"@[0]);
    } else if j == 24 {
        reveal_strlit("EMD");
        assert(available_symbol_names()[24] == "EMD"@);
        assert("6M"@.len() != "EMD"@.len());
    } else if j == 25 {
        reveal_strlit("ES");
        assert(available_symbol_names()[25] == "ES"@);
        assert("6M"@[0] != "ES"@[0]);
    } else if j == 26 {
        reveal_strlit("GE");
        assert(available_symbol_names()[26] == "GE"@);
        assert("6M"@[0] != "GE"@[0]);
    } else if j == 27 {
        reveal_strlit("GF");
        assert(available_symbol_names()[27] == "GF"@);
        assert("6M"@[0] != "GF"@[0]);
    } else if j == 28 {
        reveal_strlit("HE");
        assert(available_symbol_names()[28] == "HE"@);
        assert("6M"@[0] != "HE"@[0]);
    } else if j == 29 {
        reveal_strlit("J7");
        assert(available_symbol_names()[29] == "J7"@);
        assert("6M"@[0] != "J7"@[0]);
    } else if j == 30 {
        reveal_strlit("LE");
        assert(available_symbol_names()[30] == "LE"@);
        assert("6M"@[0] != "LE"@[0]);
    } else if j == 31 {
        reveal_strlit("NQ");
        assert(available_symbol_names()[31] == "NQ"@);
        assert("6M"@[0] != "NQ"@[0]);
    } else if j == 32 {
        reveal_strlit("RF");
        assert(available_symbol_names()[32] == "RF"@);
        assert("6M"@[0] != "RF"@[0]);
    } else if j == 33 {
        reveal_strlit("SP");
        assert(available_symbol_names()[33] == "SP"@);
        assert("6M"@[0] != "SP"@[0]);
    } else if j == 34 {
        reveal_strlit("GC");
        assert(available_symbol_names()[34] == "GC"@);
        assert("6M"@[0] != "GC"@[0]);
    } else if j == 35 {
        reveal_strlit("HG");
        assert(available_symbol_names()[35] == "HG"@);
        assert("6M"@[0] != "HG"@[0]);
    } else if j == 36 {
        reveal_strlit("QI");
        assert(available_symbol_names()[36] == "QI"@);
        assert("6M"@[0] != "QI"@[0]);
    } else if j == 37 {
        reveal_strlit("SI");
        assert(available_symbol_names()[37] == "SI"@);
        assert("6M"@[0] != "SI"@[0]);
    } else if j == 38 {
        reveal_strlit("CL");
        assert(available_symbol_names()[38] == "CL"@);
        assert("6M"@[0] != "CL"@[0]);
    } else if j == 39 {
        reveal_strlit("HO");
        assert(available_symbol_names()[39] == "HO"@);
        assert("6M"@[0] != "HO"@[0]);
    } else if j == 40 {
        reveal_strlit("NG");
        assert(available_symbol_names()[40] == "NG"@);
        assert("6M"@[0] != "NG"@[0]);
    } else if j == 41 {
        reveal_strlit("PA");
        assert(available_symbol_names()[41] == "PA"@);
        assert("6M"@[0] != "PA"@[0]);
    } else if j == 42 {
        reveal_strlit("PL");
        assert(available_symbol_names()[42] == "PL"@);
        assert("6M"@[0] != "PL"@[0]);
    } else if j == 43 {
        reveal_strlit("QM");
        assert(available_symbol_names()[43] == "QM"@);
        assert("6M"@[0] != "QM"@[0]);
    } else if j == 44 {
        reveal_strlit("RB");
        assert(available_symbol_names()[44] == "RB"@);
        assert("6M"@[0] != "RB"@[0]);
    } else if j == 45 {
        reveal_strlit("MES");
        assert(available_symbol_names()[45] == "MES"@);
        assert("6M"@.len() != "MES"@.len());
    } else if j == 46 {
        reveal_strlit("MNQ");
        assert(available_symbol_names()[46] == "MNQ"@);
        assert("6M"@.len() != "MNQ"@.len());
    } else if j == 47 {
        reveal_strlit("M2K");
        assert(available_symbol_names()[47] == "M2K"@);
        assert("6M"@.len() != "M2K"@.len());
    } else if j == 48 {
        reveal_strlit("MYM");
        assert(available_symbol_names()[48] == "MYM"@);
        assert("6M"@.len() != "MYM"@.len());
    } else if j == 49 {
        reveal_strlit("MGC");
        assert(available_symbol_names()[49] == "MGC"@);
        assert("6M"@.len() != "MGC"@.len());
    } else if j == 50 {
        reveal_strlit("SIL");
        assert(available_symbol_names()[50] == "SIL"@);
        assert("6M"@.len() != "SIL"@.len());
    } else if j == 51 {
        reveal_strlit("MCL");
        assert(available_symbol_names()[51] == "MCL"@);
        assert("6M"@.len() != "MCL"@.len());
    } else if j == 52 {
        reveal_strlit("MBT");
        assert(available_symbol_names()[52] == "MBT"@);
        assert("6M"@.len() != "MBT"@.len());
    } else if j == 53 {
        reveal_strlit("M6A");
        assert(available_symbol_names()[53] == "M6A"@);
        assert("6M"@.len() != "M6A"@.len());
    } else if j == 54 {
        reveal_strlit("M6B");
        assert(available_symbol_names()[54] == "M6B"@);
        assert("6M"@.len() != "M6B"@.len());
    } else if j == 55 {
        reveal_strlit("M6E");
        assert(available_symbol_names()[55] == "M6E"@);
        assert("6M"@.len() != "M6E"@.len());
    } else if j == 56 {
        reveal_strlit("MJY");
        assert(available_symbol_names()[56] == "MJY"@);
        assert("6M"@.len() != "MJY"@.len());
    }
}

/// The offered name at 21 differs from every later one.
proof fn lemma_name_21_differs(j: int)
    requires
        21 < j < 57,
    ensures
        available_symbol_names()[21] != available_symbol_names()[j],
{
    reveal_strlit("6N");
    assert(available_symbol_names()[21] == "6N"@);
    if j == 22 {
        reveal_strlit("6S");
        assert(available_symbol_names()[22] == "6S"@);
        assert("6N"@[1] != "6S"@[1]);
    } else if j == 23 {
        reveal_strlit("E7");
        assert(available_symbol_names()[23] == "E7"@);
        assert("6N"@[0] != "E7"@[0]);
    } else if j == 24 {
        reveal_strlit("EMD");
        assert(available_symbol_names()[24] == "EMD"@);
        assert("6N"@.len() != "EMD"@.len());
    } else if j == 25 {
        reveal_strlit("ES");
        assert(available_symbol_names()[25] == "ES"@);
        assert("6N"@[0] != "ES"@[0]);
    } else if j == 26 {
        reveal_strlit("GE");
        assert(available_symbol_names()[26] == "GE"@);
        assert("6N"@[0] != "GE"@[0]);
    } else if j == 27 {
        reveal_strlit("GF");
        assert(available_symbol_names()[27] == "GF"@);
        assert("6N"@[0] != "GF"@[0]);
    } else if j == 28 {
        reveal_strlit("HE");
        assert(available_symbol_names()[28] == "HE"@);
        assert("6N"@[0] != "HE"@[0]);
    } else if j == 29 {
        reveal_strlit("J7");
        assert(available_symbol_names()[29] == "J7"@);
        assert("6N"@[0] != "J7"@[0]);
    } else if j == 30 {
        reveal_strlit("LE");
        assert(available_symbol_names()[30] == "LE"@);
        assert("6N"@[0] != "LE"@[0]);
    } else if j == 31 {
        reveal_strlit("NQ");
        assert(available_symbol_names()[31] == "NQ"@);
        assert("6N"@[0] != "NQ"@[0]);
    } else if j == 32 {
        reveal_strlit("RF");
        assert(available_symbol_names()[32] == "RF"@);
        assert("6N"@[0] != "RF"@[0]);
    } else if j == 33 {
        reveal_strlit("SP");
        assert(available_symbol_names()[33] == "SP"@);
        assert("6N"@[0] != "SP"@[0]);
    } else if j == 34 {
        reveal_strlit("GC");
        assert(available_symbol_names()[34] == "GC"@);
        assert("6N"@[0] != "GC"@[0]);
    } else if j == 35 {
        reveal_strlit("HG");
        assert(available_symbol_names()[35] == "HG"@);
        assert("6N"@[0] != "HG"@[0]);
    } else if j == 36 {
        reveal_strlit("QI");
        assert(available_symbol_names()[36] == "QI"@);
        assert("6N"@[0] != "QI"@[0]);
    } else if j == 37 {
        reveal_strlit("SI");
        assert(available_symbol_names()[37] == "SI"@);
        assert("6N"@[0] != "SI"@[0]);
    } else if j == 38 {
        reveal_strlit("CL");
        assert(available_symbol_names()[38] == "CL"@);
        assert("6N"@[0] != "CL"@[0]);
    } else if j == 39 {
        reveal_strlit("HO");
        assert(available_symbol_names()[39] == "HO"@);
        assert("6N"@[0] != "HO"@[0]);
    } else if j == 40 {
        reveal_strlit("NG");
        assert(available_symbol_names()[40] == "NG"@);
        assert("6N"@[0] != "NG"@[0]);
    } else if j == 41 {
        reveal_strlit("PA");
        assert(available_symbol_names()[41] == "PA"@);
        assert("6N"@[0] != "PA"@[0]);
    } else if j == 42 {
        reveal_strlit("PL");
        assert(available_symbol_names()[42] == "PL"@);
        assert("6N"@[0] != "PL"@[0]);
    } else if j == 43 {
        reveal_strlit("QM");
        assert(available_symbol_names()[43] == "QM"@);
        assert("6N"@[0] != "QM"@[0]);
    } else if j == 44 {
        reveal_strlit("RB");
        assert(available_symbol_names()[44] == "RB"@);
        assert("6N"@[0] != "RB"@[0]);
    } else if j == 45 {
        reveal_strlit("MES");
        assert(available_symbol_names()[45] == "MES"@);
        assert("6N"@.len() != "MES"@.len());
    } else if j == 46 {
        reveal_strlit("MNQ");
        assert(available_symbol_names()[46] == "MNQ"@);
        assert("6N"@.len() != "MNQ"@.len());
    } else if j == 47 {
        reveal_strlit("M2K");
        assert(available_symbol_names()[47] == "M2K"@);
        assert("6N"@.len() != "M2K"@.len());
    } else if j == 48 {
        reveal_strlit("MYM");
        assert(available_symbol_names()[48] == "MYM"@);
        assert("6N"@.len() != "MYM"@.len());
    } else if j == 49 {
        reveal_strlit("MGC");
        assert(available_symbol_names()[49] == "MGC"@);
        assert("6N"@.len() != "MGC"@.len());
    } else if j == 50 {
        reveal_strlit("SIL");
        assert(available_symbol_names()[50] == "SIL"@);
        assert("6N"@.len() != "SIL"@.len());
    } else if j == 51 {
        reveal_strlit("MCL");
        assert(available_symbol_names()[51] == "MCL"@);
        assert("6N"@.len() != "MCL"@.len());
    } else if j == 52 {
        reveal_strlit("MBT");
        assert(available_symbol_names()[52] == "MBT"@);
        assert("6N"@.len() != "MBT"@.len());
    } else if j == 53 {
        reveal_strlit("M6A");
        assert(available_symbol_names()[53] == "M6A"@);
        assert("6N"@.len() != "M6A"@.len());
    } else if j == 54 {
        reveal_strlit("M6B");
        assert(available_symbol_names()[54] == "M6B"@);
        assert("6N"@.len() != "M6B"@.len());
    } else if j == 55 {
        reveal_strlit("M6E");
        assert(available_symbol_names()[55] == "M6E"@);
        assert("6N"@.len() != "M6E"@.len());
    } else if j == 56 {
        reveal_strlit("MJY");
        assert(available_symbol_names()[56] == "MJY"@);
        assert("6N"@.len() != "MJY"@.len());
    }
}

/// The offered name at 22 differs from every later one.
proof fn lemma_name_22_differs(j: int)
    requires
        22 < j < 57,
    ensures
        available_symbol_names()[22] != available_symbol_names()[j],
{
    reveal_strlit("6S");
    assert(available_symbol_names()[22] == "6S"@);
    if j == 23 {
        reveal_strlit("E7");
        assert(available_symbol_names()[23] == "E7"@);
        assert("6S"@[0] != "E7"@[0]);
    } else if j == 24 {
        reveal_strlit("EMD");
        assert(available_symbol_names()[24] == "EMD"@);
        assert("6S"@.len() != "EMD"@.len());
    } else if j == 25 {
        reveal_strlit("ES");
        assert(available_symbol_names()[25] == "ES"@);
        assert("6S"@[0] != "ES"@[0]);
    } else if j == 26 {
        reveal_strlit("GE");
        assert(available_symbol_names()[26] == "GE"@);
        assert("6S"@[0] != "GE"@[0]);
    } else if j == 27 {
        reveal_strlit("GF");
        assert(available_symbol_names()[27] == "GF"@);
        assert("6S"@[0] != "GF"@[0]);
    } else if j == 28 {
        reveal_strlit("HE");
        assert(available_symbol_names()[28] == "HE"@);
        assert("6S"@[0] != "HE"@[0]);
    } else if j == 29 {
        reveal_strlit("J7");
        assert(available_symbol_names()[29] == "J7"@);
        assert("6S"@[0] != "J7"@[0]);
    } else if j == 30 {
        reveal_strlit("LE");
        assert(available_symbol_names()[30] == "LE"@);
        assert("6S"@[0] != "LE"@[0]);
    } else if j == 31 {
        reveal_strlit("NQ");
        assert(available_symbol_names()[31] == "NQ"@);
        assert("6S"@[0] != "NQ"@[0]);
    } else if j == 32 {
        reveal_strlit("RF");
        assert(available_symbol_names()[32] == "RF"@);
        assert("6S"@[0] != "RF"@[0]);
    } else if j == 33 {
        reveal_strlit("SP");
        assert(available_symbol_names()[33] == "SP"@);
        assert("6S"@[0] != "SP"@[0]);
    } else if j == 34 {
        reveal_strlit("GC");
        assert(available_symbol_names()[34] == "GC"@);
        assert("6S"@[0] != "GC"@[0]);
    } else if j == 35 {
        reveal_strlit("HG");
        assert(available_symbol_names()[35] == "HG"@);
        assert("6S"@[0] != "HG"@[0]);
    } else if j == 36 {
        reveal_strlit("QI");
        assert(available_symbol_names()[36] == "QI"@);
        assert("6S"@[0] != "QI"@[0]);
    } else if j == 37 {
        reveal_strlit("SI");
        assert(available_symbol_names()[37] == "SI"@);
        assert("6S"@[0] != "SI"@[0]);
    } else if j == 38 {
        reveal_strlit("CL");
        assert(available_symbol_names()[38] == "CL"@);
        assert("6S"@[0] != "CL"@[0]);
    } else if j == 39 {
        reveal_strlit("HO");
        assert(available_symbol_names()[39] == "HO"@);
        assert("6S"@[0] != "HO"@[0]);
    } else if j == 40 {
        reveal_strlit("NG");
        assert(available_symbol_names()[40] == "NG"@);
        assert("6S"@[0] != "NG"@[0]);
    } else if j == 41 {
        reveal_strlit("PA");
        assert(available_symbol_names()[41] == "PA"@);
        assert("6S"@[0] != "PA"@[0]);
    } else if j == 42 {
        reveal_strlit("PL");
        assert(available_symbol_names()[42] == "PL"@);
        assert("6S"@[0] != "PL"@[0]);
    } else if j == 43 {
        reveal_strlit("QM");
        assert(available_symbol_names()[43] == "QM"@);
        assert("6S"@[0] != "QM"@[0]);
    } else if j == 44 {
        reveal_strlit("RB");
        assert(available_symbol_names()[44] == "RB"@);
        assert("6S"@[0] != "RB"@[0]);
    } else if j == 45 {
        reveal_strlit("MES");
        assert(available_symbol_names()[45] == "MES"@);
        assert("6S"@.len() != "MES"@.len());
    } else if j == 46 {
        reveal_strlit("MNQ");
        assert(available_symbol_names()[46] == "MNQ"@);
        assert("6S"@.len() != "MNQ"@.len());
    } else if j == 47 {
        reveal_strlit("M2K");
        assert(available_symbol_names()[47] == "M2K"@);
        assert("6S"@.len() != "M2K"@.len());
    } else if j == 48 {
        reveal_strlit("MYM");
        assert(available_symbol_names()[48] == "MYM"@);
        assert("6S"@.len() != "MYM"@.len());
    } else if j == 49 {
        reveal_strlit("MGC");
        assert(available_symbol_names()[49] == "MGC"@);
        assert("6S"@.len() != "MGC"@.len());
    } else if j == 50 {
        reveal_strlit("SIL");
        assert(available_symbol_names()[50] == "SIL"@);
        assert("6S"@.len() != "SIL"@.len());
    } else if j == 51 {
        reveal_strlit("MCL");
        assert(available_symbol_names()[51] == "MCL"@);
        assert("6S"@.len() != "MCL"@.len());
    } else if j == 52 {
        reveal_strlit("MBT");
        assert(available_symbol_names()[52] == "MBT"@);
        assert("6S"@.len() != "MBT"@.len());
    } else if j == 53 {
        reveal_strlit("M6A");
        assert(available_symbol_names()[53] == "M6A"@);
        assert("6S"@.len() != "M6A"@.len());
    } else if j == 54 {
        reveal_strlit("M6B");
        assert(available_symbol_names()[54] == "M6B"@);
        assert("6S"@.len() != "M6B"@.len());
    } else if j == 55 {
        reveal_strlit("M6E");
        assert(available_symbol_names()[55] == "M6E"@);
        assert("6S"@.len() != "M6E"@.len());
    } else if j == 56 {
        reveal_strlit("MJY");
        assert(available_symbol_names()[56] == "MJY"@);
        assert("6S"@.len() != "MJY"@.len());
    }
}

/// The offered name at 23 differs from every later one.
proof fn lemma_name_23_differs(j: int)
    requires
        23 < j < 57,
    ensures
        available_symbol_names()[23] != available_symbol_names()[j],
{
    reveal_strlit("E7");
    assert(available_symbol_names()[23] == "E7"@);
    if j == 24 {
        reveal_strlit("EMD");
        assert(available_symbol_names()[24] == "EMD"@);
        assert("E7"@.len() != "EMD"@.len());
    } else if j == 25 {
        reveal_strlit("ES");
        assert(available_symbol_names()[25] == "ES"@);
        assert("E7"@[1] != "ES"@[1]);
    } else if j == 26 {
        reveal_strlit("GE");
        assert(available_symbol_names()[26] == "GE"@);
        assert("E7"@[0] != "GE"@[0]);
    } else if j == 27 {
        reveal_strlit("GF");
        assert(available_symbol_names()[27] == "GF"@);
        assert("E7"@[0] != "GF"@[0]);
    } else if j == 28 {
        reveal_strlit("HE");
        assert(available_symbol_names()[28] == "HE"@);
        assert("E7"@[0] != "HE"@[0]);
    } else if j == 29 {
        reveal_strlit("J7");
        assert(available_symbol_names()[29] == "J7"@);
        assert("E7"@[0] != "J7"@[0]);
    } else if j == 30 {
        reveal_strlit("LE");
        assert(available_symbol_names()[30] == "LE"@);
        assert("E7"@[0] != "LE"@[0]);
    } else if j == 31 {
        reveal_strlit("NQ");
        assert(available_symbol_names()[31] == "NQ"@);
        assert("E7"@[0] != "NQ"@[0]);
    } else if j == 32 {
        reveal_strlit("RF");
        assert(available_symbol_names()[32] == "RF"@);
        assert("E7"@[0] != "RF"@[0]);
    } else if j == 33 {
        reveal_strlit("SP");
        assert(available_symbol_names()[33] == "SP"@);
        assert("E7"@[0] != "SP"@[0]);
    } else if j == 34 {
        reveal_strlit("GC");
        assert(available_symbol_names()[34] == "GC"@);
        assert("E7"@[0] != "GC"@[0]);
    } else if j == 35 {
        reveal_strlit("HG");
        assert(available_symbol_names()[35] == "HG"@);
        assert("E7"@[0] != "HG"@[0]);
    } else if j == 36 {
        reveal_strlit("QI");
        assert(available_symbol_names()[36] == "QI"@);
        assert("E7"@[0] != "QI"@[0]);
    } else if j == 37 {
        reveal_strlit("SI");
        assert(available_symbol_names()[37] == "SI"@);
        assert("E7"@[0] != "SI"@[0]);
    } else if j == 38 {
        reveal_strlit("CL");
        assert(available_symbol_names()[38] == "CL"@);
        assert("E7"@[0] != "CL"@[0]);
    } else if j == 39 {
        reveal_strlit("HO");
        assert(available_symbol_names()[39] == "HO"@);
        assert("E7"@[0] != "HO"@[0]);
    } else if j == 40 {
        reveal_strlit("NG");
        assert(available_symbol_names()[40] == "NG"@);
        assert("E7"@[0] != "NG"@[0]);
    } else if j == 41 {
        reveal_strlit("PA");
        assert(available_symbol_names()[41] == "PA"@);
        assert("E7"@[0] != "PA"@[0]);
    } else if j == 42 {
        reveal_strlit("PL");
        assert(available_symbol_names()[42] == "PL"@);
        assert("E7"@[0] != "PL"@[0]);
    } else if j == 43 {
        reveal_strlit("QM");
        assert(available_symbol_names()[43] == "QM"@);
        assert("E7"@[0] != "QM"@[0]);
    } else if j == 44 {
        reveal_strlit("RB");
        assert(available_symbol_names()[44] == "RB"@);
        assert("E7"@[0] != "RB"@[0]);
    } else if j == 45 {
        reveal_strlit("MES");
        assert(available_symbol_names()[45] == "MES"@);
        assert("E7"@.len() != "MES"@.len());
    } else if j == 46 {
        reveal_strlit("MNQ");
        assert(available_symbol_names()[46] == "MNQ"@);
        assert("E7"@.len() != "MNQ"@.len());
    } else if j == 47 {
        reveal_strlit("M2K");
        assert(available_symbol_names()[47] == "M2K"@);
        assert("E7"@.len() != "M2K"@.len());
    } else if j == 48 {
        reveal_strlit("MYM");
        assert(available_symbol_names()[48] == "MYM"@);
        assert("E7"@.len() != "MYM"@.len());
    } else if j == 49 {
        reveal_strlit("MGC");
        assert(available_symbol_names()[49] == "MGC"@);
        assert("E7"@.len() != "MGC"@.len());
    } else if j == 50 {
        reveal_strlit("SIL");
        assert(available_symbol_names()[50] == "SIL"@);
        assert("E7"@.len() != "SIL"@.len());
    } else if j == 51 {
        reveal_strlit("MCL");
        assert(available_symbol_names()[51] == "MCL"@);
        assert("E7"@.len() != "MCL"@.len());
    } else if j == 52 {
        reveal_strlit("MBT");
        assert(available_symbol_names()[52] == "MBT"@);
        assert("E7"@.len() != "MBT"@.len());
    } else if j == 53 {
        reveal_strlit("M6A");
        assert(available_symbol_names()[53] == "M6A"@);
        assert("E7"@.len() != "M6A"@.len());
    } else if j == 54 {
        reveal_strlit("M6B");
        assert(available_symbol_names()[54] == "M6B"@);
        assert("E7"@.len() != "M6B"@.len());
    } else if j == 55 {
        reveal_strlit("M6E");
        assert(available_symbol_names()[55] == "M6E"@);
        assert("E7"@.len() != "M6E"@.len());
    } else if j == 56 {
        reveal_strlit("MJY");
        assert(available_symbol_names()[56] == "MJY"@);
        assert("E7"@.len() != "MJY"@.len());
    }
}

/// The offered name at 24 differs from every later one.
proof fn lemma_name_24_differs(j: int)
    requires
        24 < j < 57,
    ensures
        available_symbol_names()[24] != available_symbol_names()[j],
{
    reveal_strlit("EMD");
    assert(available_symbol_names()[24] == "EMD"@);
    if j == 25 {
        reveal_strlit("ES");
        assert(available_symbol_names()[25] == "ES"@);
        assert("EMD"@.len() != "ES"@.len());
    } else if j == 26 {
        reveal_strlit("GE");
        assert(available_symbol_names()[26] == "GE"@);
        assert("EMD"@.len() != "GE"@.len());
    } else if j == 27 {
        reveal_strlit("GF");
        assert(available_symbol_names()[27] == "GF"@);
        assert("EMD"@.len() != "GF"@.len());
    } else if j == 28 {
        reveal_strlit("HE");
        assert(available_symbol_names()[28] == "HE"@);
        assert("EMD"@.len() != "HE"@.len());
    } else if j == 29 {
        reveal_strlit("J7");
        assert(available_symbol_names()[29] == "J7"@);
        assert("EMD"@.len() != "J7"@.len());
    } else if j == 30 {
        reveal_strlit("LE");
        assert(available_symbol_names()[30] == "LE"@);
        assert("EMD"@.len() != "LE"@.len());
    } else if j == 31 {
        reveal_strlit("NQ");
        assert(available_symbol_names()[31] == "NQ"@);
        assert("EMD"@.len() != "NQ"@.len());
    } else if j == 32 {
        reveal_strlit("RF");
        assert(available_symbol_names()[32] == "RF"@);
        assert("EMD"@.len() != "RF"@.len());
    } else if j == 33 {
        reveal_strlit("SP");
        assert(available_symbol_names()[33] == "SP"@);
        assert("EMD"@.len() != "SP"@.len());
    } else if j == 34 {
        reveal_strlit("GC");
        assert(available_symbol_names()[34] == "GC"@);
        assert("EMD"@.len() != "GC"@.len());
    } else if j == 35 {
        reveal_strlit("HG");
        assert(available_symbol_names()[35] == "HG"@);
        assert("EMD"@.len() != "HG"@.len());
    } else if j == 36 {
        reveal_strlit("QI");
        assert(available_symbol_names()[36] == "QI"@);
        assert("EMD"@.len() != "QI"@.len());
    } else if j == 37 {
        reveal_strlit("SI");
        assert(available_symbol_names()[37] == "SI"@);
        assert("EMD"@.len() != "SI"@.len());
    } else if j == 38 {
        reveal_strlit("CL");
        assert(available_symbol_names()[38] == "CL"@);
        assert("EMD"@.len() != "CL"@.len());
    } else if j == 39 {
        reveal_strlit("HO");
        assert(available_symbol_names()[39] == "HO"@);
        assert("EMD"@.len() != "HO"@.len());
    } else if j == 40 {
        reveal_strlit("NG");
        assert(available_symbol_names()[40] == "NG"@);
        assert("EMD"@.len() != "NG"@.len());
    } else if j == 41 {
        reveal_strlit("PA");
        assert(available_symbol_names()[41] == "PA"@);
        assert("EMD"@.len() != "PA"@.len());
    } else if j == 42 {
        reveal_strlit("PL");
        assert(available_symbol_names()[42] == "PL"@);
        assert("EMD"@.len() != "PL"@.len());
    } else if j == 43 {
        reveal_strlit("QM");
        assert(available_symbol_names()[43] == "QM"@);
        assert("EMD"@.len() != "QM"@.len());
    } else if j == 44 {
        reveal_strlit("RB");
        assert(available_symbol_names()[44] == "RB"@);
        assert("EMD"@.len() != "RB"@.len());
    } else if j == 45 {
        reveal_strlit("MES");
        assert(available_symbol_names()[45] == "MES"@);
        assert("EMD"@[0] != "MES"@[0]);
    } else if j == 46 {
        reveal_strlit("MNQ");
        assert(available_symbol_names()[46] == "MNQ"@);
        assert("EMD"@[0] != "MNQ"@[0]);
    } else if j == 47 {
        reveal_strlit("M2K");
        assert(available_symbol_names()[47] == "M2K"@);
        assert("EMD"@[0] != "M2K"@[0]);
    } else if j == 48 {
        reveal_strlit("MYM");
        assert(available_symbol_names()[48] == "MYM"@);
        assert("EMD"@[0] != "MYM"@[0]);
    } else if j == 49 {
        reveal_strlit("MGC");
        assert(available_symbol_names()[49] == "MGC"@);
        assert("EMD"@[0] != "MGC"@[0]);
    } else if j == 50 {
        reveal_strlit("SIL");
        assert(available_symbol_names()[50] == "SIL"@);
        assert("EMD"@[0] != "SIL"@[0]);
    } else if j == 51 {
        reveal_strlit("MCL");
        assert(available_symbol_names()[51] == "MCL"@);
        assert("EMD"@[0] != "MCL"@[0]);
    } else if j == 52 {
        reveal_strlit("MBT");
        assert(available_symbol_names()[52] == "MBT"@);
        assert("EMD"@[0] != "MBT"@[0]);
    } else if j == 53 {
        reveal_strlit("M6A");
        assert(available_symbol_names()[53] == "M6A"@);
        assert("EMD"@[0] != "M6A"@[0]);
    } else if j == 54 {
        reveal_strlit("M6B");
        assert(available_symbol_names()[54] == "M6B"@);
        assert("EMD"@[0] != "M6B"@[0]);
    } else if j == 55 {
        reveal_strlit("M6E");
        assert(available_symbol_names()[55] == "M6E"@);
        assert("EMD"@[0] != "M6E"@[0]);
    } else if j == 56 {
        reveal_strlit("MJY");
        assert(available_symbol_names()[56] == "MJY"@);
        assert("EMD"@[0] != "MJY"@[0]);
    }
}

/// The offered name at 25 differs from every later one.
proof fn lemma_name_25_differs(j: int)
    requires
        25 < j < 57,
    ensures
        available_symbol_names()[25] != available_symbol_names()[j],
{
    reveal_strlit("ES");
    assert(available_symbol_names()[25] == "ES"@);
    if j == 26 {
        reveal_strlit("GE");
        assert(available_symbol_names()[26] == "GE"@);
        assert("ES"@[0] != "GE"@[0]);
    } else if j == 27 {
        reveal_strlit("GF");
        assert(available_symbol_names()[27] == "GF"@);
        assert("ES"@[0] != "GF"@[0]);
    } else if j == 28 {
        reveal_strlit("HE");
        assert(available_symbol_names()[28] == "HE"@);
        assert("ES"@[0] != "HE"@[0]);
    } else if j == 29 {
        reveal_strlit("J7");
        assert(available_symbol_names()[29] == "J7"@);
        assert("ES"@[0] != "J7"@[0]);
    } else if j == 30 {
        reveal_strlit("LE");
        assert(available_symbol_names()[30] == "LE"@);
        assert("ES"@[0] != "LE"@[0]);
    } else if j == 31 {
        reveal_strlit("NQ");
        assert(available_symbol_names()[31] == "NQ"@);
        assert("ES"@[0] != "NQ"@[0]);
    } else if j == 32 {
        reveal_strlit("RF");
        assert(available_symbol_names()[32] == "RF"@);
        assert("ES"@[0] != "RF"@[0]);
    } else if j == 33 {
        reveal_strlit("SP");
        assert(available_symbol_names()[33] == "SP"@);
        assert("ES"@[0] != "SP"@[0]);
    } else if j == 34 {
        reveal_strlit("GC");
        assert(available_symbol_names()[34] == "GC"@);
        assert("ES"@[0] != "GC"@[0]);
    } else if j == 35 {
        reveal_strlit("HG");
        assert(available_symbol_names()[35] == "HG"@);
        assert("ES"@[0] != "HG"@[0]);
    } else if j == 36 {
        reveal_strlit("QI");
        assert(available_symbol_names()[36] == "QI"@);
        assert("ES"@[0] != "QI"@[0]);
    } else if j == 37 {
        reveal_strlit("SI");
        assert(available_symbol_names()[37] == "SI"@);
        assert("ES"@[0] != "SI"@[0]);
    } else if j == 38 {
        reveal_strlit("CL");
        assert(available_symbol_names()[38] == "CL"@);
        assert("ES"@[0] != "CL"@[0]);
    } else if j == 39 {
        reveal_strlit("HO");
        assert(available_symbol_names()[39] == "HO"@);
        assert("ES"@[0] != "HO"@[0]);
    } else if j == 40 {
        reveal_strlit("NG");
        assert(available_symbol_names()[40] == "NG"@);
        assert("ES"@[0] != "NG"@[0]);
    } else if j == 41 {
        reveal_strlit("PA");
        assert(available_symbol_names()[41] == "PA"@);
        assert("ES"@[0] != "PA"@[0]);
    } else if j == 42 {
        reveal_strlit("PL");
        assert(available_symbol_names()[42] == "PL"@);
        assert("ES"@[0] != "PL"@[0]);
    } else if j == 43 {
        reveal_strlit("QM");
        assert(available_symbol_names()[43] == "QM"@);
        assert("ES"@[0] != "QM"@[0]);
    } else if j == 44 {
        reveal_strlit("RB");
        assert(available_symbol_names()[44] == "RB"@);
        assert("ES"@[0] != "RB"@[0]);
    } else if j == 45 {
        reveal_strlit("MES");
        assert(available_symbol_names()[45] == "MES"@);
        assert("ES"@.len() != "MES"@.len());
    } else if j == 46 {
        reveal_strlit("MNQ");
        assert(available_symbol_names()[46] == "MNQ"@);
        assert("ES"@.len() != "MNQ"@.len());
    } else if j == 47 {
        reveal_strlit("M2K");
        assert(available_symbol_names()[47] == "M2K"@);
        assert("ES"@.len() != "M2K"@.len());
    } else if j == 48 {
        reveal_strlit("MYM");
        assert(available_symbol_names()[48] == "MYM"@);
        assert("ES"@.len() != "MYM"@.len());
    } else if j == 49 {
        reveal_strlit("MGC");
        assert(available_symbol_names()[49] == "MGC"@);
        assert("ES"@.len() != "MGC"@.len());
    } else if j == 50 {
        reveal_strlit("SIL");
        assert(available_symbol_names()[50] == "SIL"@);
        assert("ES"@.len() != "SIL"@.len());
    } else if j == 51 {
        reveal_strlit("MCL");
        assert(available_symbol_names()[51] == "MCL"@);
        assert("ES"@.len() != "MCL"@.len());
    } else if j == 52 {
        reveal_strlit("MBT");
        assert(available_symbol_names()[52] == "MBT"@);
        assert("ES"@.len() != "MBT"@.len());
    } else if j == 53 {
        reveal_strlit("M6A");
        assert(available_symbol_names()[53] == "M6A"@);
        assert("ES"@.len() != "M6A"@.len());
    } else if j == 54 {
        reveal_strlit("M6B");
        assert(available_symbol_names()[54] == "M6B"@);
        assert("ES"@.len() != "M6B"@.len());
    } else if j == 55 {
        reveal_strlit("M6E");
        assert(available_symbol_names()[55] == "M6E"@);
        assert("ES"@.len() != "M6E"@.len());
    } else if j == 56 {
        reveal_strlit("MJY");
        assert(available_symbol_names()[56] == "MJY"@);
        assert("ES"@.len() != "MJY"@.len());
    }
}

/// The offered name at 26 differs from every later one.
proof fn lemma_name_26_differs(j: int)
    requires
        26 < j < 57,
    ensures
        available_symbol_names()[26] != available_symbol_names()[j],
{
    reveal_strlit("GE");
    assert(available_symbol_names()[26] == "GE"@);
    if j == 27 {
        reveal_strlit("GF");
        assert(available_symbol_names()[27] == "GF"@);
        assert("GE"@[1] != "GF"@[1]);
    } else if j == 28 {
        reveal_strlit("HE");
        assert(available_symbol_names()[28] == "HE"@);
        assert("GE"@[0] != "HE"@[0]);
    } else if j == 29 {
        reveal_strlit("J7");
        assert(available_symbol_names()[29] == "J7"@);
        assert("GE"@[0] != "J7"@[0]);
    } else if j == 30 {
        reveal_strlit("LE");
        assert(available_symbol_names()[30] == "LE"@);
        assert("GE"@[0] != "LE"@[0]);
    } else if j == 31 {
        reveal_strlit("NQ");
        assert(available_symbol_names()[31] == "NQ"@);
        assert("GE"@[0] != "NQ"@[0]);
    } else if j == 32 {
        reveal_strlit("RF");
        assert(available_symbol_names()[32] == "RF"@);
        assert("GE"@[0] != "RF"@[0]);
    } else if j == 33 {
        reveal_strlit("SP");
        assert(available_symbol_names()[33] == "SP"@);
        assert("GE"@[0] != "SP"@[0]);
    } else if j == 34 {
        reveal_strlit("GC");
        assert(available_symbol_names()[34] == "GC"@);
        assert("GE"@[1] != "GC"@[1]);
    } else if j == 35 {
        reveal_strlit("HG");
        assert(available_symbol_names()[35] == "HG"@);
        assert("GE"@[0] != "HG"@[0]);
    } else if j == 36 {
        reveal_strlit("QI");
        assert(available_symbol_names()[36] == "QI"@);
        assert("GE"@[0] != "QI"@[0]);
    } else if j == 37 {
        reveal_strlit("SI");
        assert(available_symbol_names()[37] == "SI"@);
        assert("GE"@[0] != "SI"@[0]);
    } else if j == 38 {
        reveal_strlit("CL");
        assert(available_symbol_names()[38] == "CL"@);
        assert("GE"@[0] != "CL"@[0]);
    } else if j == 39 {
        reveal_strlit("HO");
        assert(available_symbol_names()[39] == "HO"@);
        assert("GE"@[0] != "HO"@[0]);
    } else if j == 40 {
        reveal_strlit("NG");
        assert(available_symbol_names()[40] == "NG"@);
        assert("GE"@[0] != "NG"@[0]);
    } else if j == 41 {
        reveal_strlit("PA");
        assert(available_symbol_names()[41] == "PA"@);
        assert("GE"@[0] != "PA"@[0]);
    } else if j == 42 {
        reveal_strlit("PL");
        assert(available_symbol_names()[42] == "PL"@);
        assert("GE"@[0] != "PL"@[0]);
    } else if j == 43 {
        reveal_strlit("QM");
        assert(available_symbol_names()[43] == "QM"@);
        assert("GE"@[0] != "QM"@[0]);
    } else if j == 44 {
        reveal_strlit("RB");
        assert(available_symbol_names()[44] == "RB"@);
        assert("GE"@[0] != "RB"@[0]);
    } else if j == 45 {
        reveal_strlit("MES");
        assert(available_symbol_names()[45] == "MES"@);
        assert("GE"@.len() != "MES"@.len());
    } else if j == 46 {
        reveal_strlit("MNQ");
        assert(available_symbol_names()[46] == "MNQ"@);
        assert("GE"@.len() != "MNQ"@.len());
    } else if j == 47 {
        reveal_strlit("M2K");
        assert(available_symbol_names()[47] == "M2K"@);
        assert("GE"@.len() != "M2K"@.len());
    } else if j == 48 {
        reveal_strlit("MYM");
        assert(available_symbol_names()[48] == "MYM"@);
        assert("GE"@.len() != "MYM"@.len());
    } else if j == 49 {
        reveal_strlit("MGC");
        assert(available_symbol_names()[49] == "MGC"@);
        assert("GE"@.len() != "MGC"@.len());
    } else if j == 50 {
        reveal_strlit("SIL");
        assert(available_symbol_names()[50] == "SIL"@);
        assert("GE"@.len() != "SIL"@.len());
    } else if j == 51 {
        reveal_strlit("MCL");
        assert(available_symbol_names()[51] == "MCL"@);
        assert("GE"@.len() != "MCL"@.len());
    } else if j == 52 {
        reveal_strlit("MBT");
        assert(available_symbol_names()[52] == "MBT"@);
        assert("GE"@.len() != "MBT"@.len());
    } else if j == 53 {
        reveal_strlit("M6A");
        assert(available_symbol_names()[53] == "M6A"@);
        assert("GE"@.len() != "M6A"@.len());
    } else if j == 54 {
        reveal_strlit("M6B");
        assert(available_symbol_names()[54] == "M6B"@);
        assert("GE"@.len() != "M6B"@.len());
    } else if j == 55 {
        reveal_strlit("M6E");
        assert(available_symbol_names()[55] == "M6E"@);
        assert("GE"@.len() != "M6E"@.len());
    } else if j == 56 {
        reveal_strlit("MJY");
        assert(available_symbol_names()[56] == "MJY"@);
        assert("GE"@.len() != "MJY"@.len());
    }
}

/// The offered name at 27 differs from every later one.
proof fn lemma_name_27_differs(j: int)
    requires
        27 < j < 57,
    ensures
        available_symbol_names()[27] != available_symbol_names()[j],
{
    reveal_strlit("GF");
    assert(available_symbol_names()[27] == "GF"@);
    if j == 28 {
        reveal_strlit("HE");
        assert(available_symbol_names()[28] == "HE"@);
        assert("GF"@[0] != "HE"@[0]);
    } else if j == 29 {
        reveal_strlit("J7");
        assert(available_symbol_names()[29] == "J7"@);
        assert("GF"@[0] != "J7"@[0]);
    } else if j == 30 {
        reveal_strlit("LE");
        assert(available_symbol_names()[30] == "LE"@);
        assert("GF"@[0] != "LE"@[0]);
    } else if j == 31 {
        reveal_strlit("NQ");
        assert(available_symbol_names()[31] == "NQ"@);
        assert("GF"@[0] != "NQ"@[0]);
    } else if j == 32 {
        reveal_strlit("RF");
        assert(available_symbol_names()[32] == "RF"@);
        assert("GF"@[0] != "RF"@[0]);
    } else if j == 33 {
        reveal_strlit("SP");
        assert(available_symbol_names()[33] == "SP"@);
        assert("GF"@[0] != "SP"@[0]);
    } else if j == 34 {
        reveal_strlit("GC");
        assert(available_symbol_names()[34] == "GC"@);
        assert("GF"@[1] != "GC"@[1]);
    } else if j == 35 {
        reveal_strlit("HG");
        assert(available_symbol_names()[35] == "HG"@);
        assert("GF"@[0] != "HG"@[0]);
    } else if j == 36 {
        reveal_strlit("QI");
        assert(available_symbol_names()[36] == "QI"@);
        assert("GF"@[0] != "QI"@[0]);
    } else if j == 37 {
        reveal_strlit("SI");
        assert(available_symbol_names()[37] == "SI"@);
        assert("GF"@[0] != "SI"@[0]);
    } else if j == 38 {
        reveal_strlit("CL");
        assert(available_symbol_names()[38] == "CL"@);
        assert("GF"@[0] != "CL"@[0]);
    } else if j == 39 {
        reveal_strlit("HO");
        assert(available_symbol_names()[39] == "HO"@);
        assert("GF"@[0] != "HO"@[0]);
    } else if j == 40 {
        reveal_strlit("NG");
        assert(available_symbol_names()[40] == "NG"@);
        assert("GF"@[0] != "NG"@[0]);
    } else if j == 41 {
        reveal_strlit("PA");
        assert(available_symbol_names()[41] == "PA"@);
        assert("GF"@[0] != "PA"@[0]);
    } else if j == 42 {
        reveal_strlit("PL");
        assert(available_symbol_names()[42] == "PL"@);
        assert("GF"@[0] != "PL"@[0]);
    } else if j == 43 {
        reveal_strlit("QM");
        assert(available_symbol_names()[43] == "QM"@);
        assert("GF"@[0] != "QM"@[0]);
    } else if j == 44 {
        reveal_strlit("RB");
        assert(available_symbol_names()[44] == "RB"@);
        assert("GF"@[0] != "RB"@[0]);
    } else if j == 45 {
        reveal_strlit("MES");
        assert(available_symbol_names()[45] == "MES"@);
        assert("GF"@.len() != "MES"@.len());
    } else if j == 46 {
        reveal_strlit("MNQ");
        assert(available_symbol_names()[46] == "MNQ"@);
        assert("GF"@.len() != "MNQ"@.len());
    } else if j == 47 {
        reveal_strlit("M2K");
        assert(available_symbol_names()[47] == "M2K"@);
        assert("GF"@.len() != "M2K"@.len());
    } else if j == 48 {
        reveal_strlit("MYM");
        assert(available_symbol_names()[48] == "MYM"@);
        assert("GF"@.len() != "MYM"@.len());
    } else if j == 49 {
        reveal_strlit("MGC");
        assert(available_symbol_names()[49] == "MGC"@);
        assert("GF"@.len() != "MGC"@.len());
    } else if j == 50 {
        reveal_strlit("SIL");
        assert(available_symbol_names()[50] == "SIL"@);
        assert("GF"@.len() != "SIL"@.len());
    } else if j == 51 {
        reveal_strlit("MCL");
        assert(available_symbol_names()[51] == "MCL"@);
        assert("GF"@.len() != "MCL"@.len());
    } else if j == 52 {
        reveal_strlit("MBT");
        assert(available_symbol_names()[52] == "MBT"@);
        assert("GF"@.len() != "MBT"@.len());
    } else if j == 53 {
        reveal_strlit("M6A");
        assert(available_symbol_names()[53] == "M6A"@);
        assert("GF"@.len() != "M6A"@.len());
    } else if j == 54 {
        reveal_strlit("M6B");
        assert(available_symbol_names()[54] == "M6B"@);
        assert("GF"@.len() != "M6B"@.len());
    } else if j == 55 {
        reveal_strlit("M6E");
        assert(available_symbol_names()[55] == "M6E"@);
        assert("GF"@.len() != "M6E"@.len());
    } else if j == 56 {
        reveal_strlit("MJY");
        assert(available_symbol_names()[56] == "MJY"@);
        assert("GF"@.len() != "MJY"@.len());
    }
}

/// The offered name at 28 differs from every later one.
proof fn lemma_name_28_differs(j: int)
    requires
        28 < j < 57,
    ensures
        available_symbol_names()[28] != available_symbol_names()[j],
{
    reveal_strlit("HE");
    assert(available_symbol_names()[28] == "HE"@);
    if j == 29 {
        reveal_strlit("J7");
        assert(available_symbol_names()[29] == "J7"@);
        assert("HE"@[0] != "J7"@[0]);
    } else if j == 30 {
        reveal_strlit("LE");
        assert(available_symbol_names()[30] == "LE"@);
        assert("HE"@[0] != "LE"@[0]);
    } else if j == 31 {
        reveal_strlit("NQ");
        assert(available_symbol_names()[31] == "NQ"@);
        assert("HE"@[0] != "NQ"@[0]);
    } else if j == 32 {
        reveal_strlit("RF");
        assert(available_symbol_names()[32] == "RF"@);
        assert("HE"@[0] != "RF"@[0]);
    } else if j == 33 {
        reveal_strlit("SP");
        assert(available_symbol_names()[33] == "SP"@);
        assert("HE"@[0] != "SP"@[0]);
    } else if j == 34 {
        reveal_strlit("GC");
        assert(available_symbol_names()[34] == "GC"@);
        assert("HE"@[0] != "GC"@[0]);
    } else if j == 35 {
        reveal_strlit("HG");
        assert(available_symbol_names()[35] == "HG"@);
        assert("HE"@[1] != "HG"@[1]);
    } else if j == 36 {
        reveal_strlit("QI");
        assert(available_symbol_names()[36] == "QI"@);
        assert("HE"@[0] != "QI"@[0]);
    } else if j == 37 {
        reveal_strlit("SI");
        assert(available_symbol_names()[37] == "SI"@);
        assert("HE"@[0] != "SI"@[0]);
    } else if j == 38 {
        reveal_strlit("CL");
        assert(available_symbol_names()[38] == "CL"@);
        assert("HE"@[0] != "CL"@[0]);
    } else if j == 39 {
        reveal_strlit("HO");
        assert(available_symbol_names()[39] == "HO"@);
        assert("HE"@[1] != "HO"@[1]);
    } else if j == 40 {
        reveal_strlit("NG");
        assert(available_symbol_names()[40] == "NG"@);
        assert("HE"@[0] != "NG"@[0]);
    } else if j == 41 {
        reveal_strlit("PA");
        assert(available_symbol_names()[41] == "PA"@);
        assert("HE"@[0] != "PA"@[0]);
    } else if j == 42 {
        reveal_strlit("PL");
        assert(available_symbol_names()[42] == "PL"@);
        assert("HE"@[0] != "PL"@[0]);
    } else if j == 43 {
        reveal_strlit("QM");
        assert(available_symbol_names()[43] == "QM"@);
        assert("HE"@[0] != "QM"@[0]);
    } else if j == 44 {
        reveal_strlit("RB");
        assert(available_symbol_names()[44] == "RB"@);
        assert("HE"@[0] != "RB"@[0]);
    } else if j == 45 {
        reveal_strlit("MES");
        assert(available_symbol_names()[45] == "MES"@);
        assert("HE"@.len() != "MES"@.len());
    } else if j == 46 {
        reveal_strlit("MNQ");
        assert(available_symbol_names()[46] == "MNQ"@);
        assert("HE"@.len() != "MNQ"@.len());
    } else if j == 47 {
        reveal_strlit("M2K");
        assert(available_symbol_names()[47] == "M2K"@);
        assert("HE"@.len() != "M2K"@.len());
    } else if j == 48 {
        reveal_strlit("MYM");
        assert(available_symbol_names()[48] == "MYM"@);
        assert("HE"@.len() != "MYM"@.len());
    } else if j == 49 {
        reveal_strlit("MGC");
        assert(available_symbol_names()[49] == "MGC"@);
        assert("HE"@.len() != "MGC"@.len());
    } else if j == 50 {
        reveal_strlit("SIL");
        assert(available_symbol_names()[50] == "SIL"@);
        assert("HE"@.len() != "SIL"@.len());
    } else if j == 51 {
        reveal_strlit("MCL");
        assert(available_symbol_names()[51] == "MCL"@);
        assert("HE"@.len() != "MCL"@.len());
    } else if j == 52 {
        reveal_strlit("MBT");
        assert(available_symbol_names()[52] == "MBT"@);
        assert("HE"@.len() != "MBT"@.len());
    } else if j == 53 {
        reveal_strlit("M6A");
        assert(available_symbol_names()[53] == "M6A"@);
        assert("HE"@.len() != "M6A"@.len());
    } else if j == 54 {
        reveal_strlit("M6B");
        assert(available_symbol_names()[54] == "M6B"@);
        assert("HE"@.len() != "M6B"@.len());
    } else if j == 55 {
        reveal_strlit("M6E");
        assert(available_symbol_names()[55] == "M6E"@);
        assert("HE"@.len() != "M6E"@.len());
    } else if j == 56 {
        reveal_strlit("MJY");
        assert(available_symbol_names()[56] == "MJY"@);
        assert("HE"@.len() != "MJY"@.len());
    }
}

/// The offered name at 29 differs from every later one.
proof fn lemma_name_29_differs(j: int)
    requires
        29 < j < 57,
    ensures
        available_symbol_names()[29] != available_symbol_names()[j],
{
    reveal_strlit("J7");
    assert(available_symbol_names()[29] == "J7"@);
    if j == 30 {
        reveal_strlit("LE");
        assert(available_symbol_names()[30] == "LE"@);
        assert("J7"@[0] != "LE"@[0]);
    } else if j == 31 {
        reveal_strlit("NQ");
        assert(available_symbol_names()[31] == "NQ"@);
        assert("J7"@[0] != "NQ"@[0]);
    } else if j == 32 {
        reveal_strlit("RF");
        assert(available_symbol_names()[32] == "RF"@);
        assert("J7"@[0] != "RF"@[0]);
    } else if j == 33 {
        reveal_strlit("SP");
        assert(available_symbol_names()[33] == "SP"@);
        assert("J7"@[0] != "SP"@[0]);
    } else if j == 34 {
        reveal_strlit("GC");
        assert(available_symbol_names()[34] == "GC"@);
        assert("J7"@[0] != "GC"@[0]);
    } else if j == 35 {
        reveal_strlit("HG");
        assert(available_symbol_names()[35] == "HG"@);
        assert("J7"@[0] != "HG"@[0]);
    } else if j == 36 {
        reveal_strlit("QI");
        assert(available_symbol_names()[36] == "QI"@);
        assert("J7"@[0] != "QI"@[0]);
    } else if j == 37 {
        reveal_strlit("SI");
        assert(available_symbol_names()[37] == "SI"@);
        assert("J7"@[0] != "SI"@[0]);
    } else if j == 38 {
        reveal_strlit("CL");
        assert(available_symbol_names()[38] == "CL"@);
        assert("J7"@[0] != "CL"@[0]);
    } else if j == 39 {
        reveal_strlit("HO");
        assert(available_symbol_names()[39] == "HO"@);
        assert("J7"@[0] != "HO"@[0]);
    } else if j == 40 {
        reveal_strlit("NG");
        assert(available_symbol_names()[40] == "NG"@);
        assert("J7"@[0] != "NG"@[0]);
    } else if j == 41 {
        reveal_strlit("PA");
        assert(available_symbol_names()[41] == "PA"@);
        assert("J7"@[0] != "PA"@[0]);
    } else if j == 42 {
        reveal_strlit("PL");
        assert(available_symbol_names()[42] == "PL"@);
        assert("J7"@[0] != "PL"@[0]);
    } else if j == 43 {
        reveal_strlit("QM");
        assert(available_symbol_names()[43] == "QM"@);
        assert("J7"@[0] != "QM"@[0]);
    } else if j == 44 {
        reveal_strlit("RB");
        assert(available_symbol_names()[44] == "RB"@);
        assert("J7"@[0] != "RB"@[0]);
    } else if j == 45 {
        reveal_strlit("MES");
        assert(available_symbol_names()[45] == "MES"@);
        assert("J7"@.len() != "MES"@.len());
    } else if j == 46 {
        reveal_strlit("MNQ");
        assert(available_symbol_names()[46] == "MNQ"@);
        assert("J7"@.len() != "MNQ"@.len());
    } else if j == 47 {
        reveal_strlit("M2K");
        assert(available_symbol_names()[47] == "M2K"@);
        assert("J7"@.len() != "M2K"@.len());
    } else if j == 48 {
        reveal_strlit("MYM");
        assert(available_symbol_names()[48] == "MYM"@);
        assert("J7"@.len() != "MYM"@.len());
    } else if j == 49 {
        reveal_strlit("MGC");
        assert(available_symbol_names()[49] == "MGC"@);
        assert("J7"@.len() != "MGC"@.len());
    } else if j == 50 {
        reveal_strlit("SIL");
        assert(available_symbol_names()[50] == "SIL"@);
        assert("J7"@.len() != "SIL"@.len());
    } else if j == 51 {
        reveal_strlit("MCL");
        assert(available_symbol_names()[51] == "MCL"@);
        assert("J7"@.len() != "MCL"@.len());
    } else if j == 52 {
        reveal_strlit("MBT");
        assert(available_symbol_names()[52] == "MBT"@);
        assert("J7"@.len() != "MBT"@.len());
    } else if j == 53 {
        reveal_strlit("M6A");
        assert(available_symbol_names()[53] == "M6A"@);
        assert("J7"@.len() != "M6A"@.len());
    } else if j == 54 {
        reveal_strlit("M6B");
        assert(available_symbol_names()[54] == "M6B"@);
        assert("J7"@.len() != "M6B"@.len());
    } else if j == 55 {
        reveal_strlit("M6E");
        assert(available_symbol_names()[55] == "M6E"@);
        assert("J7"@.len() != "M6E"@.len());
    } else if j == 56 {
        reveal_strlit("MJY");
        assert(available_symbol_names()[56] == "MJY"@);
        assert("J7"@.len() != "MJY"@.len());
    }
}

/// The offered name at 30 differs from every later one.
proof fn lemma_name_30_differs(j: int)
    requires
        30 < j < 57,
    ensures
        available_symbol_names()[30] != available_symbol_names()[j],
{
    reveal_strlit("LE");
    assert(available_symbol_names()[30] == "LE"@);
    if j == 31 {
        reveal_strlit("NQ");
        assert(available_symbol_names()[31] == "NQ"@);
        assert("LE"@[0] != "NQ"@[0]);
    } else if j == 32 {
        reveal_strlit("RF");
        assert(available_symbol_names()[32] == "RF"@);
        assert("LE"@[0] != "RF"@[0]);
    } else if j == 33 {
        reveal_strlit("SP");
        assert(available_symbol_names()[33] == "SP"@);
        assert("LE"@[0] != "SP"@[0]);
    } else if j == 34 {
        reveal_strlit("GC");
        assert(available_symbol_names()[34] == "GC"@);
        assert("LE"@[0] != "GC"@[0]);
    } else if j == 35 {
        reveal_strlit("HG");
        assert(available_symbol_names()[35] == "HG"@);
        assert("LE"@[0] != "HG"@[0]);
    } else if j == 36 {
        reveal_strlit("QI");
        assert(available_symbol_names()[36] == "QI"@);
        assert("LE"@[0] != "QI"@[0]);
    } else if j == 37 {
        reveal_strlit("SI");
        assert(available_symbol_names()[37] == "SI"@);
        assert("LE"@[0] != "SI"@[0]);
    } else if j == 38 {
        reveal_strlit("CL");
        assert(available_symbol_names()[38] == "CL"@);
        assert("LE"@[0] != "CL"@[0]);
    } else if j == 39 {
        reveal_strlit("HO");
        assert(available_symbol_names()[39] == "HO"@);
        assert("LE"@[0] != "HO"@[0]);
    } else if j == 40 {
        reveal_strlit("NG");
        assert(available_symbol_names()[40] == "NG"@);
        assert("LE"@[0] != "NG"@[0]);
    } else if j == 41 {
        reveal_strlit("PA");
        assert(available_symbol_names()[41] == "PA"@);
        assert("LE"@[0] != "PA"@[0]);
    } else if j == 42 {
        reveal_strlit("PL");
        assert(available_symbol_names()[42] == "PL"@);
        assert("LE"@[0] != "PL"@[0]);
    } else if j == 43 {
        reveal_strlit("QM");
        assert(available_symbol_names()[43] == "QM"@);
        assert("LE"@[0] != "QM"@[0]);
    } else if j == 44 {
        reveal_strlit("RB");
        assert(available_symbol_names()[44] == "RB"@);
        assert("LE"@[0] != "RB"@[0]);
    } else if j == 45 {
        reveal_strlit("MES");
        assert(available_symbol_names()[45] == "MES"@);
        assert("LE"@.len() != "MES"@.len());
    } else if j == 46 {
        reveal_strlit("MNQ");
        assert(available_symbol_names()[46] == "MNQ"@);
        assert("LE"@.len() != "MNQ"@.len());
    } else if j == 47 {
        reveal_strlit("M2K");
        assert(available_symbol_names()[47] == "M2K"@);
        assert("LE"@.len() != "M2K"@.len());
    } else if j == 48 {
        reveal_strlit("MYM");
        assert(available_symbol_names()[48] == "MYM"@);
        assert("LE"@.len() != "MYM"@.len());
    } else if j == 49 {
        reveal_strlit("MGC");
        assert(available_symbol_names()[49] == "MGC"@);
        assert("LE"@.len() != "MGC"@.len());
    } else if j == 50 {
        reveal_strlit("SIL");
        assert(available_symbol_names()[50] == "SIL"@);
        assert("LE"@.len() != "SIL"@.len());
    } else if j == 51 {
        reveal_strlit("MCL");
        assert(available_symbol_names()[51] == "MCL"@);
        assert("LE"@.len() != "MCL"@.len());
    } else if j == 52 {
        reveal_strlit("MBT");
        assert(available_symbol_names()[52] == "MBT"@);
        assert("LE"@.len() != "MBT"@.len());
    } else if j == 53 {
        reveal_strlit("M6A");
        assert(available_symbol_names()[53] == "M6A"@);
        assert("LE"@.len() != "M6A"@.len());
    } else if j == 54 {
        reveal_strlit("M6B");
        assert(available_symbol_names()[54] == "M6B"@);
        assert("LE"@.len() != "M6B"@.len());
    } else if j == 55 {
        reveal_strlit("M6E");
        assert(available_symbol_names()[55] == "M6E"@);
        assert("LE"@.len() != "M6E"@.len());
    } else if j == 56 {
        reveal_strlit("MJY");
        assert(available_symbol_names()[56] == "MJY"@);
        assert("LE"@.len() != "MJY"@.len());
    }
}

/// The offered name at 31 differs from every later one.
proof fn lemma_name_31_differs(j: int)
    requires
        31 < j < 57,
    ensures
        available_symbol_names()[31] != available_symbol_names()[j],
{
    reveal_strlit("NQ");
    assert(available_symbol_names()[31] == "NQ"@);
    if j == 32 {
        reveal_strlit("RF");
        assert(available_symbol_names()[32] == "RF"@);
        assert("NQ"@[0] != "RF"@[0]);
    } else if j == 33 {
        reveal_strlit("SP");
        assert(available_symbol_names()[33] == "SP"@);
        assert("NQ"@[0] != "SP"@[0]);
    } else if j == 34 {
        reveal_strlit("GC");
        assert(available_symbol_names()[34] == "GC"@);
        assert("NQ"@[0] != "GC"@[0]);
    } else if j == 35 {
        reveal_strlit("HG");
        assert(available_symbol_names()[35] == "HG"@);
        assert("NQ"@[0] != "HG"@[0]);
    } else if j == 36 {
        reveal_strlit("QI");
        assert(available_symbol_names()[36] == "QI"@);
        assert("NQ"@[0] != "QI"@[0]);
    } else if j == 37 {
        reveal_strlit("SI");
        assert(available_symbol_names()[37] == "SI"@);
        assert("NQ"@[0] != "SI"@[0]);
    } else if j == 38 {
        reveal_strlit("CL");
        assert(available_symbol_names()[38] == "CL"@);
        assert("NQ"@[0] != "CL"@[0]);
    } else if j == 39 {
        reveal_strlit("HO");
        assert(available_symbol_names()[39] == "HO"@);
        assert("NQ"@[0] != "HO"@[0]);
    } else if j == 40 {
        reveal_strlit("NG");
        assert(available_symbol_names()[40] == "NG"@);
        assert("NQ"@[1] != "NG"@[1]);
    } else if j == 41 {
        reveal_strlit("PA");
        assert(available_symbol_names()[41] == "PA"@);
        assert("NQ"@[0] != "PA"@[0]);
    } else if j == 42 {
        reveal_strlit("PL");
        assert(available_symbol_names()[42] == "PL"@);
        assert("NQ"@[0] != "PL"@[0]);
    } else if j == 43 {
        reveal_strlit("QM");
        assert(available_symbol_names()[43] == "QM"@);
        assert("NQ"@[0] != "QM"@[0]);
    } else if j == 44 {
        reveal_strlit("RB");
        assert(available_symbol_names()[44] == "RB"@);
        assert("NQ"@[0] != "RB"@[0]);
    } else if j == 45 {
        reveal_strlit("MES");
        assert(available_symbol_names()[45] == "MES"@);
        assert("NQ"@.len() != "MES"@.len());
    } else if j == 46 {
        reveal_strlit("MNQ");
        assert(available_symbol_names()[46] == "MNQ"@);
        assert("NQ"@.len() != "MNQ"@.len());
    } else if j == 47 {
        reveal_strlit("M2K");
        assert(available_symbol_names()[47] == "M2K"@);
        assert("NQ"@.len() != "M2K"@.len());
    } else if j == 48 {
        reveal_strlit("MYM");
        assert(available_symbol_names()[48] == "MYM"@);
        assert("NQ"@.len() != "MYM"@.len());
    } else if j == 49 {
        reveal_strlit("MGC");
        assert(available_symbol_names()[49] == "MGC"@);
        assert("NQ"@.len() != "MGC"@.len());
    } else if j == 50 {
        reveal_strlit("SIL");
        assert(available_symbol_names()[50] == "SIL"@);
        assert("NQ"@.len() != "SIL"@.len());
    } else if j == 51 {
        reveal_strlit("MCL");
        assert(available_symbol_names()[51] == "MCL"@);
        assert("NQ"@.len() != "MCL"@.len());
    } else if j == 52 {
        reveal_strlit("MBT");
        assert(available_symbol_names()[52] == "MBT"@);
        assert("NQ"@.len() != "MBT"@.len());
    } else if j == 53 {
        reveal_strlit("M6A");
        assert(available_symbol_names()[53] == "M6A"@);
        assert("NQ"@.len() != "M6A"@.len());
    } else if j == 54 {
        reveal_strlit("M6B");
        assert(available_symbol_names()[54] == "M6B"@);
        assert("NQ"@.len() != "M6B"@.len());
    } else if j == 55 {
        reveal_strlit("M6E");
        assert(available_symbol_names()[55] == "M6E"@);
        assert("NQ"@.len() != "M6E"@.len());
    } else if j == 56 {
        reveal_strlit("MJY");
        assert(available_symbol_names()[56] == "MJY"@);
        assert("NQ"@.len() != "MJY"@.len());
    }
}

/// The offered name at 32 differs from every later one.
proof fn lemma_name_32_differs(j: int)
    requires
        32 < j < 57,
    ensures
        available_symbol_names()[32] != available_symbol_names()[j],
{
    reveal_strlit("RF");
    assert(available_symbol_names()[32] == "RF"@);
    if j == 33 {
        reveal_strlit("SP");
        assert(available_symbol_names()[33] == "SP"@);
        assert("RF"@[0] != "SP"@[0]);
    } else if j == 34 {
        reveal_strlit("GC");
        assert(available_symbol_names()[34] == "GC"@);
        assert("RF"@[0] != "GC"@[0]);
    } else if j == 35 {
        reveal_strlit("HG");
        assert(available_symbol_names()[35] == "HG"@);
        assert("RF"@[0] != "HG"@[0]);
    } else if j == 36 {
        reveal_strlit("QI");
        assert(available_symbol_names()[36] == "QI"@);
        assert("RF"@[0] != "QI"@[0]);
    } else if j == 37 {
        reveal_strlit("SI");
        assert(available_symbol_names()[37] == "SI"@);
        assert("RF"@[0] != "SI"@[0]);
    } else if j == 38 {
        reveal_strlit("CL");
        assert(available_symbol_names()[38] == "CL"@);
        assert("RF"@[0] != "CL"@[0]);
    } else if j == 39 {
        reveal_strlit("HO");
        assert(available_symbol_names()[39] == "HO"@);
        assert("RF"@[0] != "HO"@[0]);
    } else if j == 40 {
        reveal_strlit("NG");
        assert(available_symbol_names()[40] == "NG"@);
        assert("RF"@[0] != "NG"@[0]);
    } else if j == 41 {
        reveal_strlit("PA");
        assert(available_symbol_names()[41] == "PA"@);
        assert("RF"@[0] != "PA"@[0]);
    } else if j == 42 {
        reveal_strlit("PL");
        assert(available_symbol_names()[42] == "PL"@);
        assert("RF"@[0] != "PL"@[0]);
    } else if j == 43 {
        reveal_strlit("QM");
        assert(available_symbol_names()[43] == "QM"@);
        assert("RF"@[0] != "QM"@[0]);
    } else if j == 44 {
        reveal_strlit("RB");
        assert(available_symbol_names()[44] == "RB"@);
        assert("RF"@[1] != "RB"@[1]);
    } else if j == 45 {
        reveal_strlit("MES");
        assert(available_symbol_names()[45] == "MES"@);
        assert("RF"@.len() != "MES"@.len());
    } else if j == 46 {
        reveal_strlit("MNQ");
        assert(available_symbol_names()[46] == "MNQ"@);
        assert("RF"@.len() != "MNQ"@.len());
    } else if j == 47 {
        reveal_strlit("M2K");
        assert(available_symbol_names()[47] == "M2K"@);
        assert("RF"@.len() != "M2K"@.len());
    } else if j == 48 {
        reveal_strlit("MYM");
        assert(available_symbol_names()[48] == "MYM"@);
        assert("RF"@.len() != "MYM"@.len());
    } else if j == 49 {
        reveal_strlit("MGC");
        assert(available_symbol_names()[49] == "MGC"@);
        assert("RF"@.len() != "MGC"@.len());
    } else if j == 50 {
        reveal_strlit("SIL");
        assert(available_symbol_names()[50] == "SIL"@);
        assert("RF"@.len() != "SIL"@.len());
    } else if j == 51 {
        reveal_strlit("MCL");
        assert(available_symbol_names()[51] == "MCL"@);
        assert("RF"@.len() != "MCL"@.len());
    } else if j == 52 {
        reveal_strlit("MBT");
        assert(available_symbol_names()[52] == "MBT"@);
        assert("RF"@.len() != "MBT"@.len());
    } else if j == 53 {
        reveal_strlit("M6A");
        assert(available_symbol_names()[53] == "M6A"@);
        assert("RF"@.len() != "M6A"@.len());
    } else if j == 54 {
        reveal_strlit("M6B");
        assert(available_symbol_names()[54] == "M6B"@);
        assert("RF"@.len() != "M6B"@.len());
    } else if j == 55 {
        reveal_strlit("M6E");
        assert(available_symbol_names()[55] == "M6E"@);
        assert("RF"@.len() != "M6E"@.len());
    } else if j == 56 {
        reveal_strlit("MJY");
        assert(available_symbol_names()[56] == "MJY"@);
        assert("RF"@.len() != "MJY"@.len());
    }
}

/// The offered name at 33 differs from every later one.
proof fn lemma_name_33_differs(j: int)
    requires
        33 < j < 57,
    ensures
        available_symbol_names()[33] != available_symbol_names()[j],
{
    reveal_strlit("SP");
    assert(available_symbol_names()[33] == "SP"@);
    if j == 34 {
        reveal_strlit("GC");
        assert(available_symbol_names()[34] == "GC"@);
        assert("SP"@[0] != "GC"@[0]);
    } else if j == 35 {
        reveal_strlit("HG");
        assert(available_symbol_names()[35] == "HG"@);
        assert("SP"@[0] != "HG"@[0]);
    } else if j == 36 {
        reveal_strlit("QI");
        assert(available_symbol_names()[36] == "QI"@);
        assert("SP"@[0] != "QI"@[0]);
    } else if j == 37 {
        reveal_strlit("SI");
        assert(available_symbol_names()[37] == "SI"@);
        assert("SP"@[1] != "SI"@[1]);
    } else if j == 38 {
        reveal_strlit("CL");
        assert(available_symbol_names()[38] == "CL"@);
        assert("SP"@[0] != "CL"@[0]);
    } else if j == 39 {
        reveal_strlit("HO");
        assert(available_symbol_names()[39] == "HO"@);
        assert("SP"@[0] != "HO"@[0]);
    } else if j == 40 {
        reveal_strlit("NG");
        assert(available_symbol_names()[40] == "NG"@);
        assert("SP"@[0] != "NG"@[0]);
    } else if j == 41 {
        reveal_strlit("PA");
        assert(available_symbol_names()[41] == "PA"@);
        assert("SP"@[0] != "PA"@[0]);
    } else if j == 42 {
        reveal_strlit("PL");
        assert(available_symbol_names()[42] == "PL"@);
        assert("SP"@[0] != "PL"@[0]);
    } else if j == 43 {
        reveal_strlit("QM");
        assert(available_symbol_names()[43] == "QM"@);
        assert("SP"@[0] != "QM"@[0]);
    } else if j == 44 {
        reveal_strlit("RB");
        assert(available_symbol_names()[44] == "RB"@);
        assert("SP"@[0] != "RB"@[0]);
    } else if j == 45 {
        reveal_strlit("MES");
        assert(available_symbol_names()[45] == "MES"@);
        assert("SP"@.len() != "MES"@.len());
    } else if j == 46 {
        reveal_strlit("MNQ");
        assert(available_symbol_names()[46] == "MNQ"@);
        assert("SP"@.len() != "MNQ"@.len());
    } else if j == 47 {
        reveal_strlit("M2K");
        assert(available_symbol_names()[47] == "M2K"@);
        assert("SP"@.len() != "M2K"@.len());
    } else if j == 48 {
        reveal_strlit("MYM");
        assert(available_symbol_names()[48] == "MYM"@);
        assert("SP"@.len() != "MYM"@.len());
    } else if j == 49 {
        reveal_strlit("MGC");
        assert(available_symbol_names()[49] == "MGC"@);
        assert("SP"@.len() != "MGC"@.len());
    } else if j == 50 {
        reveal_strlit("SIL");
        assert(available_symbol_names()[50] == "SIL"@);
        assert("SP"@.len() != "SIL"@.len());
    } else if j == 51 {
        reveal_strlit("MCL");
        assert(available_symbol_names()[51] == "MCL"@);
        assert("SP"@.len() != "MCL"@.len());
    } else if j == 52 {
        reveal_strlit("MBT");
        assert(available_symbol_names()[52] == "MBT"@);
        assert("SP"@.len() != "MBT"@.len());
    } else if j == 53 {
        reveal_strlit("M6A");
        assert(available_symbol_names()[53] == "M6A"@);
        assert("SP"@.len() != "M6A"@.len());
    } else if j == 54 {
        reveal_strlit("M6B");
        assert(available_symbol_names()[54] == "M6B"@);
        assert("SP"@.len() != "M6B"@.len());
    } else if j == 55 {
        reveal_strlit("M6E");
        assert(available_symbol_names()[55] == "M6E"@);
        assert("SP"@.len() != "M6E"@.len());
    } else if j == 56 {
        reveal_strlit("MJY");
        assert(available_symbol_names()[56] == "MJY"@);
        assert("SP"@.len() != "MJY"@.len());
    }
}

/// The offered name at 34 differs from every later one.
proof fn lemma_name_34_differs(j: int)
    requires
        34 < j < 57,
    ensures
        available_symbol_names()[34] != available_symbol_names()[j],
{
    reveal_strlit("GC");
    assert(available_symbol_names()[34] == "GC"@);
    if j == 35 {
        reveal_strlit("HG");
        assert(available_symbol_names()[35] == "HG"@);
        assert("GC"@[0] != "HG"@[0]);
    } else if j == 36 {
        reveal_strlit("QI");
        assert(available_symbol_names()[36] == "QI"@);
        assert("GC"@[0] != "QI"@[0]);
    } else if j == 37 {
        reveal_strlit("SI");
        assert(available_symbol_names()[37] == "SI"@);
        assert("GC"@[0] != "SI"@[0]);
    } else if j == 38 {
        reveal_strlit("CL");
        assert(available_symbol_names()[38] == "CL"@);
        assert("GC"@[0] != "CL"@[0]);
    } else if j == 39 {
        reveal_strlit("HO");
        assert(available_symbol_names()[39] == "HO"@);
        assert("GC"@[0] != "HO"@[0]);
    } else if j == 40 {
        reveal_strlit("NG");
        assert(available_symbol_names()[40] == "NG"@);
        assert("GC"@[0] != "NG"@[0]);
    } else if j == 41 {
        reveal_strlit("PA");
        assert(available_symbol_names()[41] == "PA"@);
        assert("GC"@[0] != "PA"@[0]);
    } else if j == 42 {
        reveal_strlit("PL");
        assert(available_symbol_names()[42] == "PL"@);
        assert("GC"@[0] != "PL"@[0]);
    } else if j == 43 {
        reveal_strlit("QM");
        assert(available_symbol_names()[43] == "QM"@);
        assert("GC"@[0] != "QM"@[0]);
    } else if j == 44 {
        reveal_strlit("RB");
        assert(available_symbol_names()[44] == "RB"@);
        assert("GC"@[0] != "RB"@[0]);
    } else if j == 45 {
        reveal_strlit("MES");
        assert(available_symbol_names()[45] == "MES"@);
        assert("GC"@.len() != "MES"@.len());
    } else if j == 46 {
        reveal_strlit("MNQ");
        assert(available_symbol_names()[46] == "MNQ"@);
        assert("GC"@.len() != "MNQ"@.len());
    } else if j == 47 {
        reveal_strlit("M2K");
        assert(available_symbol_names()[47] == "M2K"@);
        assert("GC"@.len() != "M2K"@.len());
    } else if j == 48 {
        reveal_strlit("MYM");
        assert(available_symbol_names()[48] == "MYM"@);
        assert("GC"@.len() != "MYM"@.len());
    } else if j == 49 {
        reveal_strlit("MGC");
        assert(available_symbol_names()[49] == "MGC"@);
        assert("GC"@.len() != "MGC"@.len());
    } else if j == 50 {
        reveal_strlit("SIL");
        assert(available_symbol_names()[50] == "SIL"@);
        assert("GC"@.len() != "SIL"@.len());
    } else if j == 51 {
        reveal_strlit("MCL");
        assert(available_symbol_names()[51] == "MCL"@);
        assert("GC"@.len() != "MCL"@.len());
    } else if j == 52 {
        reveal_strlit("MBT");
        assert(available_symbol_names()[52] == "MBT"@);
        assert("GC"@.len() != "MBT"@.len());
    } else if j == 53 {
        reveal_strlit("M6A");
        assert(available_symbol_names()[53] == "M6A"@);
        assert("GC"@.len() != "M6A"@.len());
    } else if j == 54 {
        reveal_strlit("M6B");
        assert(available_symbol_names()[54] == "M6B"@);
        assert("GC"@.len() != "M6B"@.len());
    } else if j == 55 {
        reveal_strlit("M6E");
        assert(available_symbol_names()[55] == "M6E"@);
        assert("GC"@.len() != "M6E"@.len());
    } else if j == 56 {
        reveal_strlit("MJY");
        assert(available_symbol_names()[56] == "MJY"@);
        assert("GC"@.len() != "MJY"@.len());
    }
}

/// The offered name at 35 differs from every later one.
proof fn lemma_name_35_differs(j: int)
    requires
        35 < j < 57,
    ensures
        available_symbol_names()[35] != available_symbol_names()[j],
{
    reveal_strlit("HG");
    assert(available_symbol_names()[35] == "HG"@);
    if j == 36 {
        reveal_strlit("QI");
        assert(available_symbol_names()[36] == "QI"@);
        assert("HG"@[0] != "QI"@[0]);
    } else if j == 37 {
        reveal_strlit("SI");
        assert(available_symbol_names()[37] == "SI"@);
        assert("HG"@[0] != "SI"@[0]);
    } else if j == 38 {
        reveal_strlit("CL");
        assert(available_symbol_names()[38] == "CL"@);
        assert("HG"@[0] != "CL"@[0]);
    } else if j == 39 {
        reveal_strlit("HO");
        assert(available_symbol_names()[39] == "HO"@);
        assert("HG"@[1] != "HO"@[1]);
    } else if j == 40 {
        reveal_strlit("NG");
        assert(available_symbol_names()[40] == "NG"@);
        assert("HG"@[0] != "NG"@[0]);
    } else if j == 41 {
        reveal_strlit("PA");
        assert(available_symbol_names()[41] == "PA"@);
        assert("HG"@[0] != "PA"@[0]);
    } else if j == 42 {
        reveal_strlit("PL");
        assert(available_symbol_names()[42] == "PL"@);
        assert("HG"@[0] != "PL"@[0]);
    } else if j == 43 {
        reveal_strlit("QM");
        assert(available_symbol_names()[43] == "QM"@);
        assert("HG"@[0] != "QM"@[0]);
    } else if j == 44 {
        reveal_strlit("RB");
        assert(available_symbol_names()[44] == "RB"@);
        assert("HG"@[0] != "RB"@[0]);
    } else if j == 45 {
        reveal_strlit("MES");
        assert(available_symbol_names()[45] == "MES"@);
        assert("HG"@.len() != "MES"@.len());
    } else if j == 46 {
        reveal_strlit("MNQ");
        assert(available_symbol_names()[46] == "MNQ"@);
        assert("HG"@.len() != "MNQ"@.len());
    } else if j == 47 {
        reveal_strlit("M2K");
        assert(available_symbol_names()[47] == "M2K"@);
        assert("HG"@.len() != "M2K"@.len());
    } else if j == 48 {
        reveal_strlit("MYM");
        assert(available_symbol_names()[48] == "MYM"@);
        assert("HG"@.len() != "MYM"@.len());
    } else if j == 49 {
        reveal_strlit("MGC");
        assert(available_symbol_names()[49] == "MGC"@);
        assert("HG"@.len() != "MGC"@.len());
    } else if j == 50 {
        reveal_strlit("SIL");
        assert(available_symbol_names()[50] == "SIL"@);
        assert("HG"@.len() != "SIL"@.len());
    } else if j == 51 {
        reveal_strlit("MCL");
        assert(available_symbol_names()[51] == "MCL"@);
        assert("HG"@.len() != "MCL"@.len());
    } else if j == 52 {
        reveal_strlit("MBT");
        assert(available_symbol_names()[52] == "MBT"@);
        assert("HG"@.len() != "MBT"@.len());
    } else if j == 53 {
        reveal_strlit("M6A");
        assert(available_symbol_names()[53] == "M6A"@);
        assert("HG"@.len() != "M6A"@.len());
    } else if j == 54 {
        reveal_strlit("M6B");
        assert(available_symbol_names()[54] == "M6B"@);
        assert("HG"@.len() != "M6B"@.len());
    } else if j == 55 {
        reveal_strlit("M6E");
        assert(available_symbol_names()[55] == "M6E"@);
        assert("HG"@.len() != "M6E"@.len());
    } else if j == 56 {
        reveal_strlit("MJY");
        assert(available_symbol_names()[56] == "MJY"@);
        assert("HG"@.len() != "MJY"@.len());
    }
}

/// The offered name at 36 differs from every later one.
proof fn lemma_name_36_differs(j: int)
    requires
        36 < j < 57,
    ensures
        available_symbol_names()[36] != available_symbol_names()[j],
{
    reveal_strlit("QI");
    assert(available_symbol_names()[36] == "QI"@);
    if j == 37 {
        reveal_strlit("SI");
        assert(available_symbol_names()[37] == "SI"@);
        assert("QI"@[0] != "SI"@[0]);
    } else if j == 38 {
        reveal_strlit("CL");
        assert(available_symbol_names()[38] == "CL"@);
        assert("QI"@[0] != "CL"@[0]);
    } else if j == 39 {
        reveal_strlit("HO");
        assert(available_symbol_names()[39] == "HO"@);
        assert("QI"@[0] != "HO"@[0]);
    } else if j == 40 {
        reveal_strlit("NG");
        assert(available_symbol_names()[40] == "NG"@);
        assert("QI"@[0] != "NG"@[0]);
    } else if j == 41 {
        reveal_strlit("PA");
        assert(available_symbol_names()[41] == "PA"@);
        assert("QI"@[0] != "PA"@[0]);
    } else if j == 42 {
        reveal_strlit("PL");
        assert(available_symbol_names()[42] == "PL"@);
        assert("QI"@[0] != "PL"@[0]);
    } else if j == 43 {
        reveal_strlit("QM");
        assert(available_symbol_names()[43] == "QM"@);
        assert("QI"@[1] != "QM"@[1]);
    } else if j == 44 {
        reveal_strlit("RB");
        assert(available_symbol_names()[44] == "RB"@);
        assert("QI"@[0] != "RB"@[0]);
    } else if j == 45 {
        reveal_strlit("MES");
        assert(available_symbol_names()[45] == "MES"@);
        assert("QI"@.len() != "MES"@.len());
    } else if j == 46 {
        reveal_strlit("MNQ");
        assert(available_symbol_names()[46] == "MNQ"@);
        assert("QI"@.len() != "MNQ"@.len());
    } else if j == 47 {
        reveal_strlit("M2K");
        assert(available_symbol_names()[47] == "M2K"@);
        assert("QI"@.len() != "M2K"@.len());
    } else if j == 48 {
        reveal_strlit("MYM");
        assert(available_symbol_names()[48] == "MYM"@);
        assert("QI"@.len() != "MYM"@.len());
    } else if j == 49 {
        reveal_strlit("MGC");
        assert(available_symbol_names()[49] == "MGC"@);
        assert("QI"@.len() != "MGC"@.len());
    } else if j == 50 {
        reveal_strlit("SIL");
        assert(available_symbol_names()[50] == "SIL"@);
        assert("QI"@.len() != "SIL"@.len());
    } else if j == 51 {
        reveal_strlit("MCL");
        assert(available_symbol_names()[51] == "MCL"@);
        assert("QI"@.len() != "MCL"@.len());
    } else if j == 52 {
        reveal_strlit("MBT");
        assert(available_symbol_names()[52] == "MBT"@);
        assert("QI"@.len() != "MBT"@.len());
    } else if j == 53 {
        reveal_strlit("M6A");
        assert(available_symbol_names()[53] == "M6A"@);
        assert("QI"@.len() != "M6A"@.len());
    } else if j == 54 {
        reveal_strlit("M6B");
        assert(available_symbol_names()[54] == "M6B"@);
        assert("QI"@.len() != "M6B"@.len());
    } else if j == 55 {
        reveal_strlit("M6E");
        assert(available_symbol_names()[55] == "M6E"@);
        assert("QI"@.len() != "M6E"@.len());
    } else if j == 56 {
        reveal_strlit("MJY");
        assert(available_symbol_names()[56] == "MJY"@);
        assert("QI"@.len() != "MJY"@.len());
    }
}

/// The offered name at 37 differs from every later one.
proof fn lemma_name_37_differs(j: int)
    requires
        37 < j < 57,
    ensures
        available_symbol_names()[37] != available_symbol_names()[j],
{
    reveal_strlit("SI");
    assert(available_symbol_names()[37] == "SI"@);
    if j == 38 {
        reveal_strlit("CL");
        assert(available_symbol_names()[38] == "CL"@);
        assert("SI"@[0] != "CL"@[0]);
    } else if j == 39 {
        reveal_strlit("HO");
        assert(available_symbol_names()[39] == "HO"@);
        assert("SI"@[0] != "HO"@[0]);
    } else if j == 40 {
        reveal_strlit("NG");
        assert(available_symbol_names()[40] == "NG"@);
        assert("SI"@[0] != "NG"@[0]);
    } else if j == 41 {
        reveal_strlit("PA");
        assert(available_symbol_names()[41] == "PA"@);
        assert("SI"@[0] != "PA"@[0]);
    } else if j == 42 {
        reveal_strlit("PL");
        assert(available_symbol_names()[42] == "PL"@);
        assert("SI"@[0] != "PL"@[0]);
    } else if j == 43 {
        reveal_strlit("QM");
        assert(available_symbol_names()[43] == "QM"@);
        assert("SI"@[0] != "QM"@[0]);
    } else if j == 44 {
        reveal_strlit("RB");
        assert(available_symbol_names()[44] == "RB"@);
        assert("SI"@[0] != "RB"@[0]);
    } else if j == 45 {
        reveal_strlit("MES");
        assert(available_symbol_names()[45] == "MES"@);
        assert("SI"@.len() != "MES"@.len());
    } else if j == 46 {
        reveal_strlit("MNQ");
        assert(available_symbol_names()[46] == "MNQ"@);
        assert("SI"@.len() != "MNQ"@.len());
    } else if j == 47 {
        reveal_strlit("M2K");
        assert(available_symbol_names()[47] == "M2K"@);
        assert("SI"@.len() != "M2K"@.len());
    } else if j == 48 {
        reveal_strlit("MYM");
        assert(available_symbol_names()[48] == "MYM"@);
        assert("SI"@.len() != "MYM"@.len());
    } else if j == 49 {
        reveal_strlit("MGC");
        assert(available_symbol_names()[49] == "MGC"@);
        assert("SI"@.len() != "MGC"@.len());
    } else if j == 50 {
        reveal_strlit("SIL");
        assert(available_symbol_names()[50] == "SIL"@);
        assert("SI"@.len() != "SIL"@.len());
    } else if j == 51 {
        reveal_strlit("MCL");
        assert(available_symbol_names()[51] == "MCL"@);
        assert("SI"@.len() != "MCL"@.len());
    } else if j == 52 {
        reveal_strlit("MBT");
        assert(available_symbol_names()[52] == "MBT"@);
        assert("SI"@.len() != "MBT"@.len());
    } else if j == 53 {
        reveal_strlit("M6A");
        assert(available_symbol_names()[53] == "M6A"@);
        assert("SI"@.len() != "M6A"@.len());
    } else if j == 54 {
        reveal_strlit("M6B");
        assert(available_symbol_names()[54] == "M6B"@);
        assert("SI"@.len() != "M6B"@.len());
    } else if j == 55 {
        reveal_strlit("M6E");
        assert(available_symbol_names()[55] == "M6E"@);
        assert("SI"@.len() != "M6E"@.len());
    } else if j == 56 {
        reveal_strlit("MJY");
        assert(available_symbol_names()[56] == "MJY"@);
        assert("SI"@.len() != "MJY"@.len());
    }
}

/// The offered name at 38 differs from every later one.
proof fn lemma_name_38_differs(j: int)
    requires
        38 < j < 57,
    ensures
        available_symbol_names()[38] != available_symbol_names()[j],
{
    reveal_strlit("CL");
    assert(available_symbol_names()[38] == "CL"@);
    if j == 39 {
        reveal_strlit("HO");
        assert(available_symbol_names()[39] == "HO"@);
        assert("CL"@[0] != "HO"@[0]);
    } else if j == 40 {
        reveal_strlit("NG");
        assert(available_symbol_names()[40] == "NG"@);
        assert("CL"@[0] != "NG"@[0]);
    } else if j == 41 {
        reveal_strlit("PA");
        assert(available_symbol_names()[41] == "PA"@);
        assert("CL"@[0] != "PA"@[0]);
    } else if j == 42 {
        reveal_strlit("PL");
        assert(available_symbol_names()[42] == "PL"@);
        assert("CL"@[0] != "PL"@[0]);
    } else if j == 43 {
        reveal_strlit("QM");
        assert(available_symbol_names()[43] == "QM"@);
        assert("CL"@[0] != "QM"@[0]);
    } else if j == 44 {
        reveal_strlit("RB");
        assert(available_symbol_names()[44] == "RB"@);
        assert("CL"@[0] != "RB"@[0]);
    } else if j == 45 {
        reveal_strlit("MES");
        assert(available_symbol_names()[45] == "MES"@);
        assert("CL"@.len() != "MES"@.len());
    } else if j == 46 {
        reveal_strlit("MNQ");
        assert(available_symbol_names()[46] == "MNQ"@);
        assert("CL"@.len() != "MNQ"@.len());
    } else if j == 47 {
        reveal_strlit("M2K");
        assert(available_symbol_names()[47] == "M2K"@);
        assert("CL"@.len() != "M2K"@.len());
    } else if j == 48 {
        reveal_strlit("MYM");
        assert(available_symbol_names()[48] == "MYM"@);
        assert("CL"@.len() != "MYM"@.len());
    } else if j == 49 {
        reveal_strlit("MGC");
        assert(available_symbol_names()[49] == "MGC"@);
        assert("CL"@.len() != "MGC"@.len());
    } else if j == 50 {
        reveal_strlit("SIL");
        assert(available_symbol_names()[50] == "SIL"@);
        assert("CL"@.len() != "SIL"@.len());
    } else if j == 51 {
        reveal_strlit("MCL");
        assert(available_symbol_names()[51] == "MCL"@);
        assert("CL"@.len() != "MCL"@.len());
    } else if j == 52 {
        reveal_strlit("MBT");
        assert(available_symbol_names()[52] == "MBT"@);
        assert("CL"@.len() != "MBT"@.len());
    } else if j == 53 {
        reveal_strlit("M6A");
        assert(available_symbol_names()[53] == "M6A"@);
        assert("CL"@.len() != "M6A"@.len());
    } else if j == 54 {
        reveal_strlit("M6B");
        assert(available_symbol_names()[54] == "M6B"@);
        assert("CL"@.len() != "M6B"@.len());
    } else if j == 55 {
        reveal_strlit("M6E");
        assert(available_symbol_names()[55] == "M6E"@);
        assert("CL"@.len() != "M6E"@.len());
    } else if j == 56 {
        reveal_strlit("MJY");
        assert(available_symbol_names()[56] == "MJY"@);
        assert("CL"@.len() != "MJY"@.len());
    }
}

/// The offered name at 39 differs from every later one.
proof fn lemma_name_39_differs(j: int)
    requires
        39 < j < 57,
    ensures
        available_symbol_names()[39] != available_symbol_names()[j],
{
    reveal_strlit("HO");
    assert(available_symbol_names()[39] == "HO"@);
    if j == 40 {
        reveal_strlit("NG");
        assert(available_symbol_names()[40] == "NG"@);
        assert("HO"@[0] != "NG"@[0]);
    } else if j == 41 {
        reveal_strlit("PA");
        assert(available_symbol_names()[41] == "PA"@);
        assert("HO"@[0] != "PA"@[0]);
    } else if j == 42 {
        reveal_strlit("PL");
        assert(available_symbol_names()[42] == "PL"@);
        assert("HO"@[0] != "PL"@[0]);
    } else if j == 43 {
        reveal_strlit("QM");
        assert(available_symbol_names()[43] == "QM"@);
        assert("HO"@[0] != "QM"@[0]);
    } else if j == 44 {
        reveal_strlit("RB");
        assert(available_symbol_names()[44] == "RB"@);
        assert("HO"@[0] != "RB"@[0]);
    } else if j == 45 {
        reveal_strlit("MES");
        assert(available_symbol_names()[45] == "MES"@);
        assert("HO"@.len() != "MES"@.len());
    } else if j == 46 {
        reveal_strlit("MNQ");
        assert(available_symbol_names()[46] == "MNQ"@);
        assert("HO"@.len() != "MNQ"@.len());
    } else if j == 47 {
        reveal_strlit("M2K");
        assert(available_symbol_names()[47] == "M2K"@);
        assert("HO"@.len() != "M2K"@.len());
    } else if j == 48 {
        reveal_strlit("MYM");
        assert(available_symbol_names()[48] == "MYM"@);
        assert("HO"@.len() != "MYM"@.len());
    } else if j == 49 {
        reveal_strlit("MGC");
        assert(available_symbol_names()[49] == "MGC"@);
        assert("HO"@.len() != "MGC"@.len());
    } else if j == 50 {
        reveal_strlit("SIL");
        assert(available_symbol_names()[50] == "SIL"@);
        assert("HO"@.len() != "SIL"@.len());
    } else if j == 51 {
        reveal_strlit("MCL");
        assert(available_symbol_names()[51] == "MCL"@);
        assert("HO"@.len() != "MCL"@.len());
    } else if j == 52 {
        reveal_strlit("MBT");
        assert(available_symbol_names()[52] == "MBT"@);
        assert("HO"@.len() != "MBT"@.len());
    } else if j == 53 {
        reveal_strlit("M6A");
        assert(available_symbol_names()[53] == "M6A"@);
        assert("HO"@.len() != "M6A"@.len());
    } else if j == 54 {
        reveal_strlit("M6B");
        assert(available_symbol_names()[54] == "M6B"@);
        assert("HO"@.len() != "M6B"@.len());
    } else if j == 55 {
        reveal_strlit("M6E");
        assert(available_symbol_names()[55] == "M6E"@);
        assert("HO"@.len() != "M6E"@.len());
    } else if j == 56 {
        reveal_strlit("MJY");
        assert(available_symbol_names()[56] == "MJY"@);
        assert("HO"@.len() != "MJY"@.len());
    }
}

/// The offered name at 40 differs from every later one.
proof fn lemma_name_40_differs(j: int)
    requires
        40 < j < 57,
    ensures
        available_symbol_names()[40] != available_symbol_names()[j],
{
    reveal_strlit("NG");
    assert(available_symbol_names()[40] == "NG"@);
    if j == 41 {
        reveal_strlit("PA");
        assert(available_symbol_names()[41] == "PA"@);
        assert("NG"@[0] != "PA"@[0]);
    } else if j == 42 {
        reveal_strlit("PL");
        assert(available_symbol_names()[42] == "PL"@);
        assert("NG"@[0] != "PL"@[0]);
    } else if j == 43 {
        reveal_strlit("QM");
        assert(available_symbol_names()[43] == "QM"@);
        assert("NG"@[0] != "QM"@[0]);
    } else if j == 44 {
        reveal_strlit("RB");
        assert(available_symbol_names()[44] == "RB"@);
        assert("NG"@[0] != "RB"@[0]);
    } else if j == 45 {
        reveal_strlit("MES");
        assert(available_symbol_names()[45] == "MES"@);
        assert("NG"@.len() != "MES"@.len());
    } else if j == 46 {
        reveal_strlit("MNQ");
        assert(available_symbol_names()[46] == "MNQ"@);
        assert("NG"@.len() != "MNQ"@.len());
    } else if j == 47 {
        reveal_strlit("M2K");
        assert(available_symbol_names()[47] == "M2K"@);
        assert("NG"@.len() != "M2K"@.len());
    } else if j == 48 {
        reveal_strlit("MYM");
        assert(available_symbol_names()[48] == "MYM"@);
        assert("NG"@.len() != "MYM"@.len());
    } else if j == 49 {
        reveal_strlit("MGC");
        assert(available_symbol_names()[49] == "MGC"@);
        assert("NG"@.len() != "MGC"@.len());
    } else if j == 50 {
        reveal_strlit("SIL");
        assert(available_symbol_names()[50] == "SIL"@);
        assert("NG"@.len() != "SIL"@.len());
    } else if j == 51 {
        reveal_strlit("MCL");
        assert(available_symbol_names()[51] == "MCL"@);
        assert("NG"@.len() != "MCL"@.len());
    } else if j == 52 {
        reveal_strlit("MBT");
        assert(available_symbol_names()[52] == "MBT"@);
        assert("NG"@.len() != "MBT"@.len());
    } else if j == 53 {
        reveal_strlit("M6A");
        assert(available_symbol_names()[53] == "M6A"@);
        assert("NG"@.len() != "M6A"@.len());
    } else if j == 54 {
        reveal_strlit("M6B");
        assert(available_symbol_names()[54] == "M6B"@);
        assert("NG"@.len() != "M6B"@.len());
    } else if j == 55 {
        reveal_strlit("M6E");
        assert(available_symbol_names()[55] == "M6E"@);
        assert("NG"@.len() != "M6E"@.len());
    } else if j == 56 {
        reveal_strlit("MJY");
        assert(available_symbol_names()[56] == "MJY"@);
        assert("NG"@.len() != "MJY"@.len());
    }
}

/// The offered name at 41 differs from every later one.
proof fn lemma_name_41_differs(j: int)
    requires
        41 < j < 57,
    ensures
        available_symbol_names()[41] != available_symbol_names()[j],
{
    reveal_strlit("PA");
    assert(available_symbol_names()[41] == "PA"@);
    if j == 42 {
        reveal_strlit("PL");
        assert(available_symbol_names()[42] == "PL"@);
        assert("PA"@[1] != "PL"@[1]);
    } else if j == 43 {
        reveal_strlit("QM");
        assert(available_symbol_names()[43] == "QM"@);
        assert("PA"@[0] != "QM"@[0]);
    } else if j == 44 {
        reveal_strlit("RB");
        assert(available_symbol_names()[44] == "RB"@);
        assert("PA"@[0] != "RB"@[0]);
    } else if j == 45 {
        reveal_strlit("MES");
        assert(available_symbol_names()[45] == "MES"@);
        assert("PA"@.len() != "MES"@.len());
    } else if j == 46 {
        reveal_strlit("MNQ");
        assert(available_symbol_names()[46] == "MNQ"@);
        assert("PA"@.len() != "MNQ"@.len());
    } else if j == 47 {
        reveal_strlit("M2K");
        assert(available_symbol_names()[47] == "M2K"@);
        assert("PA"@.len() != "M2K"@.len());
    } else if j == 48 {
        reveal_strlit("MYM");
        assert(available_symbol_names()[48] == "MYM"@);
        assert("PA"@.len() != "MYM"@.len());
    } else if j == 49 {
        reveal_strlit("MGC");
        assert(available_symbol_names()[49] == "MGC"@);
        assert("PA"@.len() != "MGC"@.len());
    } else if j == 50 {
        reveal_strlit("SIL");
        assert(available_symbol_names()[50] == "SIL"@);
        assert("PA"@.len() != "SIL"@.len());
    } else if j == 51 {
        reveal_strlit("MCL");
        assert(available_symbol_names()[51] == "MCL"@);
        assert("PA"@.len() != "MCL"@.len());
    } else if j == 52 {
        reveal_strlit("MBT");
        assert(available_symbol_names()[52] == "MBT"@);
        assert("PA"@.len() != "MBT"@.len());
    } else if j == 53 {
        reveal_strlit("M6A");
        assert(available_symbol_names()[53] == "M6A"@);
        assert("PA"@.len() != "M6A"@.len());
    } else if j == 54 {
        reveal_strlit("M6B");
        assert(available_symbol_names()[54] == "M6B"@);
        assert("PA"@.len() != "M6B"@.len());
    } else if j == 55 {
        reveal_strlit("M6E");
        assert(available_symbol_names()[55] == "M6E"@);
        assert("PA"@.len() != "M6E"@.len());
    } else if j == 56 {
        reveal_strlit("MJY");
        assert(available_symbol_names()[56] == "MJY"@);
        assert("PA"@.len() != "MJY"@.len());
    }
}

/// The offered name at 42 differs from every later one.
proof fn lemma_name_42_differs(j: int)
    requires
        42 < j < 57,
    ensures
        available_symbol_names()[42] != available_symbol_names()[j],
{
    reveal_strlit("PL");
    assert(available_symbol_names()[42] == "PL"@);
    if j == 43 {
        reveal_strlit("QM");
        assert(available_symbol_names()[43] == "QM"@);
        assert("PL"@[0] != "QM"@[0]);
    } else if j == 44 {
        reveal_strlit("RB");
        assert(available_symbol_names()[44] == "RB"@);
        assert("PL"@[0] != "RB"@[0]);
    } else if j == 45 {
        reveal_strlit("MES");
        assert(available_symbol_names()[45] == "MES"@);
        assert("PL"@.len() != "MES"@.len());
    } else if j == 46 {
        reveal_strlit("MNQ");
        assert(available_symbol_names()[46] == "MNQ"@);
        assert("PL"@.len() != "MNQ"@.len());
    } else if j == 47 {
        reveal_strlit("M2K");
        assert(available_symbol_names()[47] == "M2K"@);
        assert("PL"@.len() != "M2K"@.len());
    } else if j == 48 {
        reveal_strlit("MYM");
        assert(available_symbol_names()[48] == "MYM"@);
        assert("PL"@.len() != "MYM"@.len());
    } else if j == 49 {
        reveal_strlit("MGC");
        assert(available_symbol_names()[49] == "MGC"@);
        assert("PL"@.len() != "MGC"@.len());
    } else if j == 50 {
        reveal_strlit("SIL");
        assert(available_symbol_names()[50] == "SIL"@);
        assert("PL"@.len() != "SIL"@.len());
    } else if j == 51 {
        reveal_strlit("MCL");
        assert(available_symbol_names()[51] == "MCL"@);
        assert("PL"@.len() != "MCL"@.len());
    } else if j == 52 {
        reveal_strlit("MBT");
        assert(available_symbol_names()[52] == "MBT"@);
        assert("PL"@.len() != "MBT"@.len());
    } else if j == 53 {
        reveal_strlit("M6A");
        assert(available_symbol_names()[53] == "M6A"@);
        assert("PL"@.len() != "M6A"@.len());
    } else if j == 54 {
        reveal_strlit("M6B");
        assert(available_symbol_names()[54] == "M6B"@);
        assert("PL"@.len() != "M6B"@.len());
    } else if j == 55 {
        reveal_strlit("M6E");
        assert(available_symbol_names()[55] == "M6E"@);
        assert("PL"@.len() != "M6E"@.len());
    } else if j == 56 {
        reveal_strlit("MJY");
        assert(available_symbol_names()[56] == "MJY"@);
        assert("PL"@.len() != "MJY"@.len());
    }
}

/// The offered name at 43 differs from every later one.
proof fn lemma_name_43_differs(j: int)
    requires
        43 < j < 57,
    ensures
        available_symbol_names()[43] != available_symbol_names()[j],
{
    reveal_strlit("QM");
    assert(available_symbol_names()[43] == "QM"@);
    if j == 44 {
        reveal_strlit("RB");
        assert(available_symbol_names()[44] == "RB"@);
        assert("QM"@[0] != "RB"@[0]);
    } else if j == 45 {
        reveal_strlit("MES");
        assert(available_symbol_names()[45] == "MES"@);
        assert("QM"@.len() != "MES"@.len());
    } else if j == 46 {
        reveal_strlit("MNQ");
        assert(available_symbol_names()[46] == "MNQ"@);
        assert("QM"@.len() != "MNQ"@.len());
    } else if j == 47 {
        reveal_strlit("M2K");
        assert(available_symbol_names()[47] == "M2K"@);
        assert("QM"@.len() != "M2K"@.len());
    } else if j == 48 {
        reveal_strlit("MYM");
        assert(available_symbol_names()[48] == "MYM"@);
        assert("QM"@.len() != "MYM"@.len());
    } else if j == 49 {
        reveal_strlit("MGC");
        assert(available_symbol_names()[49] == "MGC"@);
        assert("QM"@.len() != "MGC"@.len());
    } else if j == 50 {
        reveal_strlit("SIL");
        assert(available_symbol_names()[50] == "SIL"@);
        assert("QM"@.len() != "SIL"@.len());
    } else if j == 51 {
        reveal_strlit("MCL");
        assert(available_symbol_names()[51] == "MCL"@);
        assert("QM"@.len() != "MCL"@.len());
    } else if j == 52 {
        reveal_strlit("MBT");
        assert(available_symbol_names()[52] == "MBT"@);
        assert("QM"@.len() != "MBT"@.len());
    } else if j == 53 {
        reveal_strlit("M6A");
        assert(available_symbol_names()[53] == "M6A"@);
        assert("QM"@.len() != "M6A"@.len());
    } else if j == 54 {
        reveal_strlit("M6B");
        assert(available_symbol_names()[54] == "M6B"@);
        assert("QM"@.len() != "M6B"@.len());
    } else if j == 55 {
        reveal_strlit("M6E");
        assert(available_symbol_names()[55] == "M6E"@);
        assert("QM"@.len() != "M6E"@.len());
    } else if j == 56 {
        reveal_strlit("MJY");
        assert(available_symbol_names()[56] == "MJY"@);
        assert("QM"@.len() != "MJY"@.len());
    }
}

/// The offered name at 44 differs from every later one.
proof fn lemma_name_44_differs(j: int)
    requires
        44 < j < 57,
    ensures
        available_symbol_names()[44] != available_symbol_names()[j],
{
    reveal_strlit("RB");
    assert(available_symbol_names()[44] == "RB"@);
    if j == 45 {
        reveal_strlit("MES");
        assert(available_symbol_names()[45] == "MES"@);
        assert("RB"@.len() != "MES"@.len());
    } else if j == 46 {
        reveal_strlit("MNQ");
        assert(available_symbol_names()[46] == "MNQ"@);
        assert("RB"@.len() != "MNQ"@.len());
    } else if j == 47 {
        reveal_strlit("M2K");
        assert(available_symbol_names()[47] == "M2K"@);
        assert("RB"@.len() != "M2K"@.len());
    } else if j == 48 {
        reveal_strlit("MYM");
        assert(available_symbol_names()[48] == "MYM"@);
        assert("RB"@.len() != "MYM"@.len());
    } else if j == 49 {
        reveal_strlit("MGC");
        assert(available_symbol_names()[49] == "MGC"@);
        assert("RB"@.len() != "MGC"@.len());
    } else if j == 50 {
        reveal_strlit("SIL");
        assert(available_symbol_names()[50] == "SIL"@);
        assert("RB"@.len() != "SIL"@.len());
    } else if j == 51 {
        reveal_strlit("MCL");
        assert(available_symbol_names()[51] == "MCL"@);
        assert("RB"@.len() != "MCL"@.len());
    } else if j == 52 {
        reveal_strlit("MBT");
        assert(available_symbol_names()[52] == "MBT"@);
        assert("RB"@.len() != "MBT"@.len());
    } else if j == 53 {
        reveal_strlit("M6A");
        assert(available_symbol_names()[53] == "M6A"@);
        assert("RB"@.len() != "M6A"@.len());
    } else if j == 54 {
        reveal_strlit("M6B");
        assert(available_symbol_names()[54] == "M6B"@);
        assert("RB"@.len() != "M6B"@.len());
    } else if j == 55 {
        reveal_strlit("M6E");
        assert(available_symbol_names()[55] == "M6E"@);
        assert("RB"@.len() != "M6E"@.len());
    } else if j == 56 {
        reveal_strlit("MJY");
        assert(available_symbol_names()[56] == "MJY"@);
        assert("RB"@.len() != "MJY"@.len());
    }
}

/// The offered name at 45 differs from every later one.
proof fn lemma_name_45_differs(j: int)
    requires
        45 < j < 57,
    ensures
        available_symbol_names()[45] != available_symbol_names()[j],
{
    reveal_strlit("MES");
    assert(available_symbol_names()[45] == "MES"@);
    if j == 46 {
        reveal_strlit("MNQ");
        assert(available_symbol_names()[46] == "MNQ"@);
        assert("MES"@[1] != "MNQ"@[1]);
    } else if j == 47 {
        reveal_strlit("M2K");
        assert(available_symbol_names()[47] == "M2K"@);
        assert("MES"@[1] != "M2K"@[1]);
    } else if j == 48 {
        reveal_strlit("MYM");
        assert(available_symbol_names()[48] == "MYM"@);
        assert("MES"@[1] != "MYM"@[1]);
    } else if j == 49 {
        reveal_strlit("MGC");
        assert(available_symbol_names()[49] == "MGC"@);
        assert("MES"@[1] != "MGC"@[1]);
    } else if j == 50 {
        reveal_strlit("SIL");
        assert(available_symbol_names()[50] == "SIL"@);
        assert("MES"@[0] != "SIL"@[0]);
    } else if j == 51 {
        reveal_strlit("MCL");
        assert(available_symbol_names()[51] == "MCL"@);
        assert("MES"@[1] != "MCL"@[1]);
    } else if j == 52 {
        reveal_strlit("MBT");
        assert(available_symbol_names()[52] == "MBT"@);
        assert("MES"@[1] != "MBT"@[1]);
    } else if j == 53 {
        reveal_strlit("M6A");
        assert(available_symbol_names()[53] == "M6A"@);
        assert("MES"@[1] != "M6A"@[1]);
    } else if j == 54 {
        reveal_strlit("M6B");
        assert(available_symbol_names()[54] == "M6B"@);
        assert("MES"@[1] != "M6B"@[1]);
    } else if j == 55 {
        reveal_strlit("M6E");
        assert(available_symbol_names()[55] == "M6E"@);
        assert("MES"@[1] != "M6E"@[1]);
    } else if j == 56 {
        reveal_strlit("MJY");
        assert(available_symbol_names()[56] == "MJY"@);
        assert("MES"@[1] != "MJY"@[1]);
    }
}

/// The offered name at 46 differs from every later one.
proof fn lemma_name_46_differs(j: int)
    requires
        46 < j < 57,
    ensures
        available_symbol_names()[46] != available_symbol_names()[j],
{
    reveal_strlit("MNQ");
    assert(available_symbol_names()[46] == "MNQ"@);
    if j == 47 {
        reveal_strlit("M2K");
        assert(available_symbol_names()[47] == "M2K"@);
        assert("MNQ"@[1] != "M2K"@[1]);
    } else if j == 48 {
        reveal_strlit("MYM");
        assert(available_symbol_names()[48] == "MYM"@);
        assert("MNQ"@[1] != "MYM"@[1]);
    } else if j == 49 {
        reveal_strlit("MGC");
        assert(available_symbol_names()[49] == "MGC"@);
        assert("MNQ"@[1] != "MGC"@[1]);
    } else if j == 50 {
        reveal_strlit("SIL");
        assert(available_symbol_names()[50] == "SIL"@);
        assert("MNQ"@[0] != "SIL"@[0]);
    } else if j == 51 {
        reveal_strlit("MCL");
        assert(available_symbol_names()[51] == "MCL"@);
        assert("MNQ"@[1] != "MCL"@[1]);
    } else if j == 52 {
        reveal_strlit("MBT");
        assert(available_symbol_names()[52] == "MBT"@);
        assert("MNQ"@[1] != "MBT"@[1]);
    } else if j == 53 {
        reveal_strlit("M6A");
        assert(available_symbol_names()[53] == "M6A"@);
        assert("MNQ"@[1] != "M6A"@[1]);
    } else if j == 54 {
        reveal_strlit("M6B");
        assert(available_symbol_names()[54] == "M6B"@);
        assert("MNQ"@[1] != "M6B"@[1]);
    } else if j == 55 {
        reveal_strlit("M6E");
        assert(available_symbol_names()[55] == "M6E"@);
        assert("MNQ"@[1] != "M6E"@[1]);
    } else if j == 56 {
        reveal_strlit("MJY");
        assert(available_symbol_names()[56] == "MJY"@);
        assert("MNQ"@[1] != "MJY"@[1]);
    }
}

/// The offered name at 47 differs from every later one.
proof fn lemma_name_47_differs(j: int)
    requires
        47 < j < 57,
    ensures
        available_symbol_names()[47] != available_symbol_names()[j],
{
    reveal_strlit("M2K");
    assert(available_symbol_names()[47] == "M2K"@);
    if j == 48 {
        reveal_strlit("MYM");
        assert(available_symbol_names()[48] == "MYM"@);
        assert("M2K"@[1] != "MYM"@[1]);
    } else if j == 49 {
        reveal_strlit("MGC");
        assert(available_symbol_names()[49] == "MGC"@);
        assert("M2K"@[1] != "MGC"@[1]);
    } else if j == 50 {
        reveal_strlit("SIL");
        assert(available_symbol_names()[50] == "SIL"@);
        assert("M2K"@[0] != "SIL"@[0]);
    } else if j == 51 {
        reveal_strlit("MCL");
        assert(available_symbol_names()[51] == "MCL"@);
        assert("M2K"@[1] != "MCL"@[1]);
    } else if j == 52 {
        reveal_strlit("MBT");
        assert(available_symbol_names()[52] == "MBT"@);
        assert("M2K"@[1] != "MBT"@[1]);
    } else if j == 53 {
        reveal_strlit("M6A");
        assert(available_symbol_names()[53] == "M6A"@);
        assert("M2K"@[1] != "M6A"@[1]);
    } else if j == 54 {
        reveal_strlit("M6B");
        assert(available_symbol_names()[54] == "M6B"@);
        assert("M2K"@[1] != "M6B"@[1]);
    } else if j == 55 {
        reveal_strlit("M6E");
        assert(available_symbol_names()[55] == "M6E"@);
        assert("M2K"@[1] != "M6E"@[1]);
    } else if j == 56 {
        reveal_strlit("MJY");
        assert(available_symbol_names()[56] == "MJY"@);
        assert("M2K"@[1] != "MJY"@[1]);
    }
}

/// The offered name at 48 differs from every later one.
proof fn lemma_name_48_differs(j: int)
    requires
        48 < j < 57,
    ensures
        available_symbol_names()[48] != available_symbol_names()[j],
{
    reveal_strlit("MYM");
    assert(available_symbol_names()[48] == "MYM"@);
    if j == 49 {
        reveal_strlit("MGC");
        assert(available_symbol_names()[49] == "MGC"@);
        assert("MYM"@[1] != "MGC"@[1]);
    } else if j == 50 {
        reveal_strlit("SIL");
        assert(available_symbol_names()[50] == "SIL"@);
        assert("MYM"@[0] != "SIL"@[0]);
    } else if j == 51 {
        reveal_strlit("MCL");
        assert(available_symbol_names()[51] == "MCL"@);
        assert("MYM"@[1] != "MCL"@[1]);
    } else if j == 52 {
        reveal_strlit("MBT");
        assert(available_symbol_names()[52] == "MBT"@);
        assert("MYM"@[1] != "MBT"@[1]);
    } else if j == 53 {
        reveal_strlit("M6A");
        assert(available_symbol_names()[53] == "M6A"@);
        assert("MYM"@[1] != "M6A"@[1]);
    } else if j == 54 {
        reveal_strlit("M6B");
        assert(available_symbol_names()[54] == "M6B"@);
        assert("MYM"@[1] != "M6B"@[1]);
    } else if j == 55 {
        reveal_strlit("M6E");
        assert(available_symbol_names()[55] == "M6E"@);
        assert("MYM"@[1] != "M6E"@[1]);
    } else if j == 56 {
        reveal_strlit("MJY");
        assert(available_symbol_names()[56] == "MJY"@);
        assert("MYM"@[1] != "MJY"@[1]);
    }
}

/// The offered name at 49 differs from every later one.
proof fn lemma_name_49_differs(j: int)
    requires
        49 < j < 57,
    ensures
        available_symbol_names()[49] != available_symbol_names()[j],
{
    reveal_strlit("MGC");
    assert(available_symbol_names()[49] == "MGC"@);
    if j == 50 {
        reveal_strlit("SIL");
        assert(available_symbol_names()[50] == "SIL"@);
        assert("MGC"@[0] != "SIL"@[0]);
    } else if j == 51 {
        reveal_strlit("MCL");
        assert(available_symbol_names()[51] == "MCL"@);
        assert("MGC"@[1] != "MCL"@[1]);
    } else if j == 52 {
        reveal_strlit("MBT");
        assert(available_symbol_names()[52] == "MBT"@);
        assert("MGC"@[1] != "MBT"@[1]);
    } else if j == 53 {
        reveal_strlit("M6A");
        assert(available_symbol_names()[53] == "M6A"@);
        assert("MGC"@[1] != "M6A"@[1]);
    } else if j == 54 {
        reveal_strlit("M6B");
        assert(available_symbol_names()[54] == "M6B"@);
        assert("MGC"@[1] != "M6B"@[1]);
    } else if j == 55 {
        reveal_strlit("M6E");
        assert(available_symbol_names()[55] == "M6E"@);
        assert("MGC"@[1] != "M6E"@[1]);
    } else if j == 56 {
        reveal_strlit("MJY");
        assert(available_symbol_names()[56] == "MJY"@);
        assert("MGC"@[1] != "MJY"@[1]);
    }
}

/// The offered name at 50 differs from every later one.
proof fn lemma_name_50_differs(j: int)
    requires
        50 < j < 57,
    ensures
        available_symbol_names()[50] != available_symbol_names()[j],
{
    reveal_strlit("SIL");
    assert(available_symbol_names()[50] == "SIL"@);
    if j == 51 {
        reveal_strlit("MCL");
        assert(available_symbol_names()[51] == "MCL"@);
        assert("SIL"@[0] != "MCL"@[0]);
    } else if j == 52 {
        reveal_strlit("MBT");
        assert(available_symbol_names()[52] == "MBT"@);
        assert("SIL"@[0] != "MBT"@[0]);
    } else if j == 53 {
        reveal_strlit("M6A");
        assert(available_symbol_names()[53] == "M6A"@);
        assert("SIL"@[0] != "M6A"@[0]);
    } else if j == 54 {
        reveal_strlit("M6B");
        assert(available_symbol_names()[54] == "M6B"@);
        assert("SIL"@[0] != "M6B"@[0]);
    } else if j == 55 {
        reveal_strlit("M6E");
        assert(available_symbol_names()[55] == "M6E"@);
        assert("SIL"@[0] != "M6E"@[0]);
    } else if j == 56 {
        reveal_strlit("MJY");
        assert(available_symbol_names()[56] == "MJY"@);
        assert("SIL"@[0] != "MJY"@[0]);
    }
}

/// The offered name at 51 differs from every later one.
proof fn lemma_name_51_differs(j: int)
    requires
        51 < j < 57,
    ensures
        available_symbol_names()[51] != available_symbol_names()[j],
{
    reveal_strlit("MCL");
    assert(available_symbol_names()[51] == "MCL"@);
    if j == 52 {
        reveal_strlit("MBT");
        assert(available_symbol_names()[52] == "MBT"@);
        assert("MCL"@[1] != "MBT"@[1]);
    } else if j == 53 {
        reveal_strlit("M6A");
        assert(available_symbol_names()[53] == "M6A"@);
        assert("MCL"@[1] != "M6A"@[1]);
    } else if j == 54 {
        reveal_strlit("M6B");
        assert(available_symbol_names()[54] == "M6B"@);
        assert("MCL"@[1] != "M6B"@[1]);
    } else if j == 55 {
        reveal_strlit("M6E");
        assert(available_symbol_names()[55] == "M6E"@);
        assert("MCL"@[1] != "M6E"@[1]);
    } else if j == 56 {
        reveal_strlit("MJY");
        assert(available_symbol_names()[56] == "MJY"@);
        assert("MCL"@[1] != "MJY"@[1]);
    }
}

/// The offered name at 52 differs from every later one.
proof fn lemma_name_52_differs(j: int)
    requires
        52 < j < 57,
    ensures
        available_symbol_names()[52] != available_symbol_names()[j],
{
    reveal_strlit("MBT");
    assert(available_symbol_names()[52] == "MBT"@);
    if j == 53 {
        reveal_strlit("M6A");
        assert(available_symbol_names()[53] == "M6A"@);
        assert("MBT"@[1] != "M6A"@[1]);
    } else if j == 54 {
        reveal_strlit("M6B");
        assert(available_symbol_names()[54] == "M6B"@);
        assert("MBT"@[1] != "M6B"@[1]);
    } else if j == 55 {
        reveal_strlit("M6E");
        assert(available_symbol_names()[55] == "M6E"@);
        assert("MBT"@[1] != "M6E"@[1]);
    } else if j == 56 {
        reveal_strlit("MJY");
        assert(available_symbol_names()[56] == "MJY"@);
        assert("MBT"@[1] != "MJY"@[1]);
    }
}

/// The offered name at 53 differs from every later one.
proof fn lemma_name_53_differs(j: int)
    requires
        53 < j < 57,
    ensures
        available_symbol_names()[53] != available_symbol_names()[j],
{
    reveal_strlit("M6A");
    assert(available_symbol_names()[53] == "M6A"@);
    if j == 54 {
        reveal_strlit("M6B");
        assert(available_symbol_names()[54] == "M6B"@);
        assert("M6A"@[2] != "M6B"@[2]);
    } else if j == 55 {
        reveal_strlit("M6E");
        assert(available_symbol_names()[55] == "M6E"@);
        assert("M6A"@[2] != "M6E"@[2]);
    } else if j == 56 {
        reveal_strlit("MJY");
        assert(available_symbol_names()[56] == "MJY"@);
        assert("M6A"@[1] != "MJY"@[1]);
    }
}

/// The offered name at 54 differs from every later one.
proof fn lemma_name_54_differs(j: int)
    requires
        54 < j < 57,
    ensures
        available_symbol_names()[54] != available_symbol_names()[j],
{
    reveal_strlit("M6B");
    assert(available_symbol_names()[54] == "M6B"@);
    if j == 55 {
        reveal_strlit("M6E");
        assert(available_symbol_names()[55] == "M6E"@);
        assert("M6B"@[2] != "M6E"@[2]);
    } else if j == 56 {
        reveal_strlit("MJY");
        assert(available_symbol_names()[56] == "MJY"@);
        assert("M6B"@[1] != "MJY"@[1]);
    }
}

/// The offered name at 55 differs from every later one.
proof fn lemma_name_55_differs(j: int)
    requires
        55 < j < 57,
    ensures
        available_symbol_names()[55] != available_symbol_names()[j],
{
    reveal_strlit("M6E");
    assert(available_symbol_names()[55] == "M6E"@);
    if j == 56 {
        reveal_strlit("MJY");
        assert(available_symbol_names()[56] == "MJY"@);
        assert("M6E"@[1] != "MJY"@[1]);
    }
}

/// The offered names are fifty-seven distinct names, each known to the exchange table and
/// to the tick table.
pub proof fn law_available_names_distinct_and_known()
    ensures
        available_symbol_names().len() == 57,
        forall|i: int, j: int|
            0 <= i < j < 57 ==> available_symbol_names()[i] != available_symbol_names()[j],
        forall|i: int|
            0 <= i < 57 ==> spec_exchange_of(#[trigger] available_symbol_names()[i]) is Some
                && spec_symbol_info_entry(available_symbol_names()[i]) is Some,
{
    let names = available_symbol_names();
    assert forall|i: int, j: int| 0 <= i < j < 57 implies names[i] != names[j] by {
        if i == 0 {
            lemma_name_0_differs(j);
        } else if i == 1 {
            lemma_name_1_differs(j);
        } else if i == 2 {
            lemma_name_2_differs(j);
        } else if i == 3 {
            lemma_name_3_differs(j);
        } else if i == 4 {
            lemma_name_4_differs(j);
        } else if i == 5 {
            lemma_name_5_differs(j);
        } else if i == 6 {
            lemma_name_6_differs(j);
        } else if i == 7 {
            lemma_name_7_differs(j);
        } else if i == 8 {
            lemma_name_8_differs(j);
        } else if i == 9 {
            lemma_name_9_differs(j);
        } else if i == 10 {
            lemma_name_10_differs(j);
        } else if i == 11 {
            lemma_name_11_differs(j);
        } else if i == 12 {
            lemma_name_12_differs(j);
        } else if i == 13 {
            lemma_name_13_differs(j);
        } else if i == 14 {
            lemma_name_14_differs(j);
        } else if i == 15 {
            lemma_name_15_differs(j);
        } else if i == 16 {
            lemma_name_16_differs(j);
        } else if i == 17 {
            lemma_name_17_differs(j);
        } else if i == 18 {
            lemma_name_18_differs(j);
        } else if i == 19 {
            lemma_name_19_differs(j);
        } else if i == 20 {
            lemma_name_20_differs(j);
        } else if i == 21 {
            lemma_name_21_differs(j);
        } else if i == 22 {
            lemma_name_22_differs(j);
        } else if i == 23 {
            lemma_name_23_differs(j);
        } else if i == 24 {
            lemma_name_24_differs(j);
        } else if i == 25 {
            lemma_name_25_differs(j);
        } else if i == 26 {
            lemma_name_26_differs(j);
        } else if i == 27 {
            lemma_name_27_differs(j);
        } else if i == 28 {
            lemma_name_28_differs(j);
        } else if i == 29 {
            lemma_name_29_differs(j);
        } else if i == 30 {
            lemma_name_30_differs(j);
        } else if i == 31 {
            lemma_name_31_differs(j);
        } else if i == 32 {
            lemma_name_32_differs(j);
        } else if i == 33 {
            lemma_name_33_differs(j);
        } else if i == 34 {
            lemma_name_34_differs(j);
        } else if i == 35 {
            lemma_name_35_differs(j);
        } else if i == 36 {
            lemma_name_36_differs(j);
        } else if i == 37 {
            lemma_name_37_differs(j);
        } else if i == 38 {
            lemma_name_38_differs(j);
        } else if i == 39 {
            lemma_name_39_differs(j);
        } else if i == 40 {
            lemma_name_40_differs(j);
        } else if i == 41 {
            lemma_name_41_differs(j);
        } else if i == 42 {
            lemma_name_42_differs(j);
        } else if i == 43 {
            lemma_name_43_differs(j);
        } else if i == 44 {
            lemma_name_44_differs(j);
        } else if i == 45 {
            lemma_name_45_differs(j);
        } else if i == 46 {
            lemma_name_46_differs(j);
        } else if i == 47 {
            lemma_name_47_differs(j);
        } else if i == 48 {
            lemma_name_48_differs(j);
        } else if i == 49 {
            lemma_name_49_differs(j);
        } else if i == 50 {
            lemma_name_50_differs(j);
        } else if i == 51 {
            lemma_name_51_differs(j);
        } else if i == 52 {
            lemma_name_52_differs(j);
        } else if i == 53 {
            lemma_name_53_differs(j);
        } else if i == 54 {
            lemma_name_54_differs(j);
        } else if i == 55 {
            lemma_name_55_differs(j);
        }
    }
}

} // verus!
