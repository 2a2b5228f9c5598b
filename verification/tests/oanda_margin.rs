use ff_standard_lib::decimal::Decimal;
use ff_standard_lib::product_maps::oanda::maps::calculate_oanda_margin;

fn d(m: i64, s: u32) -> Decimal {
    Decimal::new(m, s)
}

fn margin(symbol: &str, quantity: Decimal, value: Decimal) -> Option<Decimal> {
    calculate_oanda_margin(symbol, quantity, value)
}

#[test]
fn oanda_margin_by_tier() {
    // A position worth 1.5 falls in the first tier of EUR-USD: 0.50 percent.
    assert!(margin("EUR-USD", d(1, 0), d(15, 1)).unwrap().value_eq(&d(75, 4)));
    // A position worth exactly the first limit of XAU-USD stays in that tier.
    assert!(margin("XAU-USD", d(1, 0), d(1, 1)).unwrap().value_eq(&d(5, 4)));
    // A position worth 1100 passes every limit of EUR-USD: 20 percent.
    assert!(margin("EUR-USD", d(1000, 0), d(11, 1)).unwrap().value_eq(&d(220, 0)));
    // Past every limit of a table without an unlimited tier, the last tier applies.
    assert!(margin("BTC-USD", d(10, 0), d(1, 0)).unwrap().value_eq(&d(3, 0)));
    // Oil tiers are set in units of value: 50000 stays in the first tier, 1 percent.
    assert!(margin("USOIL-USD", d(500, 0), d(100, 0)).unwrap().value_eq(&d(500, 0)));
}

#[test]
fn oanda_margin_of_unlisted_instrument() {
    assert_eq!(margin("DOGE-USD", d(1, 0), d(1, 0)), None);
}
