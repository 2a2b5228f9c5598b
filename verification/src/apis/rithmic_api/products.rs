//! Exchange and name tables of futures product codes.
use crate::helpers::text::str_eq;
use crate::standardized_types::Exchange;
use vstd::prelude::*;

verus! {

/// The exchange of each product code, in the order the table lists them.
pub open spec fn code_exchange_table() -> Seq<(Seq<char>, Exchange)> {
    seq![("XC"@, Exchange::CBOT), ("XK"@, Exchange::CBOT), ("XW"@, Exchange::CBOT), ("YM"@, Exchange::CBOT), ("ZB"@, Exchange::CBOT), ("ZC"@, Exchange::CBOT), ("ZF"@, Exchange::CBOT), ("ZL"@, Exchange::CBOT), ("ZM"@, Exchange::CBOT), ("ZN"@, Exchange::CBOT), ("ZO"@, Exchange::CBOT), ("ZR"@, Exchange::CBOT), ("ZS"@, Exchange::CBOT), ("ZT"@, Exchange::CBOT), ("ZW"@, Exchange::CBOT), ("6A"@, Exchange::CME), ("6B"@, Exchange::CME), ("6C"@, Exchange::CME), ("6E"@, Exchange::CME), ("6J"@, Exchange::CME), ("6M"@, Exchange::CME), ("6N"@, Exchange::CME), ("6S"@, Exchange::CME), ("E7"@, Exchange::CME), ("EMD"@, Exchange::CME), ("ES"@, Exchange::CME), ("GE"@, Exchange::CME), ("GF"@, Exchange::CME), ("HE"@, Exchange::CME), ("J7"@, Exchange::CME), ("LE"@, Exchange::CME), ("NQ"@, Exchange::CME), ("RF"@, Exchange::CME), ("SP"@, Exchange::CME), ("GC"@, Exchange::COMEX), ("HG"@, Exchange::COMEX), ("QI"@, Exchange::COMEX), ("QQ"@, Exchange::COMEX), ("SI"@, Exchange::COMEX), ("CL"@, Exchange::NYMEX), ("HO"@, Exchange::NYMEX), ("NG"@, Exchange::NYMEX), ("PA"@, Exchange::NYMEX), ("PL"@, Exchange::NYMEX), ("QG"@, Exchange::NYMEX), ("QM"@, Exchange::NYMEX), ("RB"@, Exchange::NYMEX)]
}

/// The exchange the table gives `code`, from its first entry for it.
pub open spec fn table_exchange(table: Seq<(Seq<char>, Exchange)>, code: Seq<char>) -> Option<Exchange>
    decreases table.len(),
{
    if table.len() == 0 {
        None
    } else if table[0].0 == code {
        Some(table[0].1)
    } else {
        table_exchange(table.drop_first(), code)
    }
}

/// The table of product codes and their exchanges.
pub fn get_code_to_exchange_map() -> (r: Vec<(&'static str, Exchange)>)
    ensures
        r@.len() == code_exchange_table().len(),
        forall|i: int| 0 <= i < r@.len() ==> (#[trigger] r@[i].0@, r@[i].1) == code_exchange_table()[i],
{
    let mut map: Vec<(&'static str, Exchange)> = Vec::new();
    map.push(("XC", Exchange::CBOT));
    map.push(("XK", Exchange::CBOT));
    map.push(("XW", Exchange::CBOT));
    map.push(("YM", Exchange::CBOT));
    map.push(("ZB", Exchange::CBOT));
    map.push(("ZC", Exchange::CBOT));
    map.push(("ZF", Exchange::CBOT));
    map.push(("ZL", Exchange::CBOT));
    map.push(("ZM", Exchange::CBOT));
    map.push(("ZN", Exchange::CBOT));
    map.push(("ZO", Exchange::CBOT));
    map.push(("ZR", Exchange::CBOT));
    map.push(("ZS", Exchange::CBOT));
    map.push(("ZT", Exchange::CBOT));
    map.push(("ZW", Exchange::CBOT));
    map.push(("6A", Exchange::CME));
    map.push(("6B", Exchange::CME));
    map.push(("6C", Exchange::CME));
    map.push(("6E", Exchange::CME));
    map.push(("6J", Exchange::CME));
    map.push(("6M", Exchange::CME));
    map.push(("6N", Exchange::CME));
    map.push(("6S", Exchange::CME));
    map.push(("E7", Exchange::CME));
    map.push(("EMD", Exchange::CME));
    map.push(("ES", Exchange::CME));
    map.push(("GE", Exchange::CME));
    map.push(("GF", Exchange::CME));
    map.push(("HE", Exchange::CME));
    map.push(("J7", Exchange::CME));
    map.push(("LE", Exchange::CME));
    map.push(("NQ", Exchange::CME));
    map.push(("RF", Exchange::CME));
    map.push(("SP", Exchange::CME));
    map.push(("GC", Exchange::COMEX));
    map.push(("HG", Exchange::COMEX));
    map.push(("QI", Exchange::COMEX));
    map.push(("QQ", Exchange::COMEX));
    map.push(("SI", Exchange::COMEX));
    map.push(("CL", Exchange::NYMEX));
    map.push(("HO", Exchange::NYMEX));
    map.push(("NG", Exchange::NYMEX));
    map.push(("PA", Exchange::NYMEX));
    map.push(("PL", Exchange::NYMEX));
    map.push(("QG", Exchange::NYMEX));
    map.push(("QM", Exchange::NYMEX));
    map.push(("RB", Exchange::NYMEX));
    map
}

/// The exchange of the product with code `code`, if it is listed.
pub fn get_exchange_by_code(code: &str) -> (r: Option<Exchange>)
    ensures
        r == table_exchange(code_exchange_table(), code@),
{
    let map = get_code_to_exchange_map();
    let n = map.len();
    let mut i: usize = 0;
    proof {
        assert(code_exchange_table().subrange(0, n as int) =~= code_exchange_table());
    }
    while i < n
        invariant
            n == map@.len(),
            n == code_exchange_table().len(),
            i <= n,
            forall|j: int| 0 <= j < map@.len() ==> (#[trigger] map@[j].0@, map@[j].1) == code_exchange_table()[j],
            table_exchange(code_exchange_table(), code@) == table_exchange(
                code_exchange_table().subrange(i as int, n as int),
                code@,
            ),
        decreases n - i,
    {
        proof {
            assert(code_exchange_table().subrange(i as int, n as int).drop_first()
                =~= code_exchange_table().subrange(i + 1, n as int));
            assert((map@[i as int].0@, map@[i as int].1) == code_exchange_table()[i as int]);
        }
        if str_eq(map[i].0, code) {
            return Some(map[i].1);
        }
        i = i + 1;
    }
    None
}

/// The full names of product codes, in the order the table lists them.
pub open spec fn code_name_table() -> Seq<(Seq<char>, Seq<char>)> {
    seq![("XC"@, "CBOT Mini-sized Corn Futures"@), ("XK"@, "CBOT Mini-sized Soybean Futures"@), ("XW"@, "CBOT Mini-sized Wheat Futures"@), ("YM"@, "Mini-sized Dow Futures ($5)"@), ("ZB"@, "30 Year US Treasury Bond Futures"@), ("ZC"@, "Corn Futures"@), ("ZF"@, "5 Year US Treasury Note Futures"@), ("ZL"@, "Soybean Oil Futures"@), ("ZM"@, "Soybean Meal Futures"@), ("ZN"@, "10 Year US Treasury Note Futures"@), ("ZO"@, "Oat Futures"@), ("ZR"@, "Rough Rice Futures"@), ("ZS"@, "Soybean Futures"@), ("ZT"@, "2 Year US Treasury Note Futures"@), ("ZW"@, "Wheat Futures"@), ("6A"@, "Australian Dollar"@), ("6B"@, "British Pound"@), ("6C"@, "Canadian Dollar"@), ("6E"@, "Euro Fx"@), ("6J"@, "Japanese Yen"@), ("6M"@, "Mexican Peso"@), ("6N"@, "New Zealand Dollar"@), ("6S"@, "Swiss Franc"@), ("E7"@, "E-Mini Euro Fx"@), ("EMD"@, "E-Mini S&P Midcap 400"@), ("ES"@, "E-Mini S&P 500"@), ("GE"@, "Eurodollar"@), ("GF"@, "E-Livestock Feeder Cattle"@), ("HE"@, "Lean Hog"@), ("J7"@, "E-Mini Japanese Yen"@), ("LE"@, "E-Livestock Live Cattle"@), ("NQ"@, "E-Mini Nasdaq-100"@), ("RF"@, "Euro Fx/Swiss Franc"@), ("SP"@, "S&P 500"@), ("GC"@, "COMEX Gold Futures"@), ("HG"@, "COMEX Copper Futures"@), ("QG"@, "NYMEX miNY Natural Gas"@), ("QI"@, "COMEX miNY Silver Futures"@), ("QO"@, "COMEX miNY Gold Futures"@), ("SI"@, "COMEX Silver Futures"@), ("CL"@, "Light Sweet Crude Oil"@), ("HO"@, "Heating Oil"@), ("NG"@, "Natural Gas"@), ("PA"@, "NYMEX Palladium"@), ("PL"@, "NYMEX Platinum"@), ("QM"@, "NYMEX miNY Crude Oil"@), ("RB"@, "New York Harbor RBOB Gasoline"@)]
}

/// The table of product codes and their full names.
pub fn futures_code_to_name() -> (r: Vec<(&'static str, &'static str)>)
    ensures
        r@.len() == code_name_table().len(),
        forall|i: int| 0 <= i < r@.len() ==> (#[trigger] r@[i].0@, r@[i].1@) == code_name_table()[i],
{
    let mut names: Vec<(&'static str, &'static str)> = Vec::new();
    names.push(("XC", "CBOT Mini-sized Corn Futures"));
    names.push(("XK", "CBOT Mini-sized Soybean Futures"));
    names.push(("XW", "CBOT Mini-sized Wheat Futures"));
    names.push(("YM", "Mini-sized Dow Futures ($5)"));
    names.push(("ZB", "30 Year US Treasury Bond Futures"));
    names.push(("ZC", "Corn Futures"));
    names.push(("ZF", "5 Year US Treasury Note Futures"));
    names.push(("ZL", "Soybean Oil Futures"));
    names.push(("ZM", "Soybean Meal Futures"));
    names.push(("ZN", "10 Year US Treasury Note Futures"));
    names.push(("ZO", "Oat Futures"));
    names.push(("ZR", "Rough Rice Futures"));
    names.push(("ZS", "Soybean Futures"));
    names.push(("ZT", "2 Year US Treasury Note Futures"));
    names.push(("ZW", "Wheat Futures"));
    names.push(("6A", "Australian Dollar"));
    names.push(("6B", "British Pound"));
    names.push(("6C", "Canadian Dollar"));
    names.push(("6E", "Euro Fx"));
    names.push(("6J", "Japanese Yen"));
    names.push(("6M", "Mexican Peso"));
    names.push(("6N", "New Zealand Dollar"));
    names.push(("6S", "Swiss Franc"));
    names.push(("E7", "E-Mini Euro Fx"));
    names.push(("EMD", "E-Mini S&P Midcap 400"));
    names.push(("ES", "E-Mini S&P 500"));
    names.push(("GE", "Eurodollar"));
    names.push(("GF", "E-Livestock Feeder Cattle"));
    names.push(("HE", "Lean Hog"));
    names.push(("J7", "E-Mini Japanese Yen"));
    names.push(("LE", "E-Livestock Live Cattle"));
    names.push(("NQ", "E-Mini Nasdaq-100"));
    names.push(("RF", "Euro Fx/Swiss Franc"));
    names.push(("SP", "S&P 500"));
    names.push(("GC", "COMEX Gold Futures"));
    names.push(("HG", "COMEX Copper Futures"));
    names.push(("QG", "NYMEX miNY Natural Gas"));
    names.push(("QI", "COMEX miNY Silver Futures"));
    names.push(("QO", "COMEX miNY Gold Futures"));
    names.push(("SI", "COMEX Silver Futures"));
    names.push(("CL", "Light Sweet Crude Oil"));
    names.push(("HO", "Heating Oil"));
    names.push(("NG", "Natural Gas"));
    names.push(("PA", "NYMEX Palladium"));
    names.push(("PL", "NYMEX Platinum"));
    names.push(("QM", "NYMEX miNY Crude Oil"));
    names.push(("RB", "New York Harbor RBOB Gasoline"));
    names
}

} // verus!
