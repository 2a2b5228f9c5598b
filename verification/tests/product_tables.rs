use ff_standard_lib::apis::rithmic_api::products::{
    futures_code_to_name, get_code_to_exchange_map, get_exchange_by_code,
};
use ff_standard_lib::decimal::Decimal;
use ff_standard_lib::messages::data_server_messaging::FundForgeError;
use ff_standard_lib::product_maps::fred::models::{fred_data_resolutions, FredDataSet};
use ff_standard_lib::product_maps::rithmic::maps::{
    extract_symbol_from_contract, find_base_symbol, futures_code_to_name as code_name,
    get_available_rithmic_symbol_names, get_exchange_by_symbol_name, get_futures_commissions_info,
    get_futures_exchange, get_futures_symbol_info, get_futures_trading_hours, get_overnight_margin,
    get_rithmic_intraday_margin_in_usd, get_rithmic_symbol_info, is_available_rithmic_symbol,
    MarketTimeZone,
};
use ff_standard_lib::standardized_types::{Currency, FuturesExchange, Resolution};

fn d(m: i64, s: u32) -> Decimal {
    Decimal::new(m, s)
}

#[test]
fn exchanges_of_codes() {
    assert_eq!(get_futures_exchange("ES"), Ok(FuturesExchange::CME));
    assert_eq!(get_futures_exchange("ZN"), Ok(FuturesExchange::CBOT));
    assert_eq!(get_futures_exchange("GC"), Ok(FuturesExchange::COMEX));
    assert_eq!(get_futures_exchange("MCL"), Ok(FuturesExchange::NYMEX));
    assert_eq!(get_futures_exchange("MES"), Ok(FuturesExchange::CME));
    assert_eq!(
        get_futures_exchange("XX"),
        Err(FundForgeError::ClientSideErrorDebug("Unknown futures code: XX, please add mapping".to_string()))
    );
    assert_eq!(get_exchange_by_symbol_name("QQ"), Some(FuturesExchange::COMEX));
    assert_eq!(get_exchange_by_symbol_name("MGC"), Some(FuturesExchange::COMEX));
    assert_eq!(get_exchange_by_symbol_name("nope"), None);
}

#[test]
fn symbol_info_tables() {
    let es = get_futures_symbol_info("ES").unwrap();
    assert_eq!(es.symbol_name, "ES");
    assert_eq!(es.pnl_currency, Currency::USD);
    assert_eq!(es.value_per_tick, d(125, 1));
    assert_eq!(es.tick_size, d(25, 2));
    assert_eq!(es.decimal_accuracy, 2);
    assert!(es.base_currency.is_none());
    let zf = get_rithmic_symbol_info("ZF").unwrap();
    assert_eq!(zf.value_per_tick, d(244140625, 9));
    assert_eq!(zf.tick_size, d(78125, 7));
    assert_eq!(zf.decimal_accuracy, 6);
    assert_eq!(get_rithmic_symbol_info("XYZ").unwrap_err(), "XYZ not found");
    assert_eq!(
        get_futures_symbol_info("XYZ").unwrap_err(),
        FundForgeError::ClientSideErrorDebug("Unknown futures symbol: XYZ, please add mapping".to_string())
    );
}

#[test]
fn margins_and_commissions() {
    assert_eq!(get_rithmic_intraday_margin_in_usd("ES"), Some(d(40000, 2)));
    assert_eq!(get_overnight_margin("ES"), Some(d(1460000, 2)));
    assert_eq!(get_rithmic_intraday_margin_in_usd("ESX"), None);
    let c = get_futures_commissions_info(&"FDAX".to_string()).unwrap();
    assert_eq!(c.per_side, d(177, 2));
    assert_eq!(c.currency, Currency::EUR);
    let c = get_futures_commissions_info(&"JGB".to_string()).unwrap();
    assert_eq!(c.currency, Currency::JPY);
    assert_eq!(get_futures_commissions_info(&"ABC".to_string()).unwrap_err(), "No Symbol Found: ABC");
}

#[test]
fn trading_hours() {
    let cme = get_futures_trading_hours("ES").unwrap();
    assert_eq!(cme.timezone, MarketTimeZone::Chicago);
    assert_eq!(cme.sunday.open, Some(17 * 3600));
    assert_eq!(cme.monday.close, Some(16 * 3600));
    assert_eq!(cme.saturday.open, None);
    let grains = get_futures_trading_hours("ZC").unwrap();
    assert_eq!(grains.tuesday.close, Some(13 * 3600 + 20 * 60));
    let eurex = get_futures_trading_hours("FDAX").unwrap();
    assert_eq!(eurex.timezone, MarketTimeZone::Berlin);
    assert_eq!(eurex.friday.open, Some(8 * 3600));
    assert!(get_futures_trading_hours("XYZ").is_none());
}

#[test]
fn symbol_names() {
    let names = get_available_rithmic_symbol_names();
    assert_eq!(names.len(), 57);
    assert_eq!(names[0], "XC");
    assert_eq!(names[56], "MJY");
    assert!(is_available_rithmic_symbol("MNQ"));
    assert!(!is_available_rithmic_symbol("RTY"));
    assert_eq!(code_name("QG"), Some("NYMEX miNY Natural Gas"));
    assert_eq!(code_name("ES"), Some("E-Mini S&P 500"));
    assert_eq!(code_name("ZZ"), None);
}

#[test]
fn base_symbols_of_contracts() {
    assert_eq!(find_base_symbol(&"ES".to_string()), Some("ES".to_string()));
    assert_eq!(find_base_symbol(&"MESZ4".to_string()), Some("MES".to_string()));
    assert_eq!(find_base_symbol(&"ESZ4".to_string()), Some("ES".to_string()));
    assert_eq!(find_base_symbol(&"ESZ24".to_string()), None);
    assert_eq!(find_base_symbol(&"X".to_string()), None);
    assert_eq!(extract_symbol_from_contract("ESZ24"), "ES");
    assert_eq!(extract_symbol_from_contract("MNQH25"), "MNQ");
    assert_eq!(extract_symbol_from_contract("ES1"), "ES1");
}

#[test]
fn rithmic_api_product_codes() {
    let map = get_code_to_exchange_map();
    assert_eq!(map.len(), 47);
    assert_eq!(map[0], ("XC", FuturesExchange::CBOT));
    assert_eq!(get_exchange_by_code("RB"), Some(FuturesExchange::NYMEX));
    assert_eq!(get_exchange_by_code("MES"), None);
    let names = futures_code_to_name();
    assert!(names.contains(&("QG", "NYMEX miNY Natural Gas")));
    assert!(!names.contains(&("QG", "COMEX miNY Silver Futures")));
}

#[test]
fn fred_data_sets() {
    assert_eq!(fred_data_resolutions(FredDataSet::GrossDomesticProduct), vec![Resolution::Year]);
    assert_eq!(FredDataSet::from_str("GDP"), Ok(FredDataSet::GrossDomesticProduct));
    assert_eq!(FredDataSet::from_str("GNPCA"), Ok(FredDataSet::GrossNationalProductPerCapita));
    assert_eq!(FredDataSet::from_str("CPI"), Err("Unknown dataset: CPI".to_string()));
    assert_eq!(FredDataSet::GrossNationalProductPerCapita.to_string(), "GNPCA");
    assert_eq!(FredDataSet::GrossDomesticProduct.to_string(), "GDP");
}
