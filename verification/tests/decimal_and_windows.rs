use ff_standard_lib::decimal::{checked_difference, checked_product, checked_quotient, checked_sum, Decimal};
use ff_standard_lib::helpers::decimal_calculators::{
    checked_round_to_decimals, checked_round_to_tick_size,
    calculate_theoretical_pnl, round_to_decimals, round_to_tick_size, ten_to_the,
};
use ff_standard_lib::rolling_window::RollingWindow;
use ff_standard_lib::standardized_types::{Currency, PositionSide, SymbolInfo};

fn d(m: i64, s: u32) -> Decimal {
    Decimal::new(m, s)
}

#[test]
fn decimal_parts_and_range() {
    let x = Decimal::from_parts(12345, 2).unwrap();
    assert_eq!(x.mantissa(), 12345);
    assert_eq!(x.scale(), 2);
    assert!(Decimal::from_parts(1, 29).is_none());
    assert!(Decimal::from_parts(79228162514264337593543950336, 0).is_none());
    assert!(Decimal::from_parts(-79228162514264337593543950335, 28).is_some());
    assert!(Decimal::zero().is_zero());
    assert!(d(0, 5).is_zero());
}

#[test]
fn decimal_compares_values_not_scales() {
    assert!(d(10, 1).value_eq(&d(1, 0)));
    assert!(d(15, 1).less_than(&d(2, 0)));
    assert!(!d(2, 0).less_than(&d(15, 1)));
    assert!(d(100, 2).at_most(&d(1, 0)));
    assert!(!d(101, 2).at_most(&d(1, 0)));
}

#[test]
fn decimal_max_min_keep_first_on_ties() {
    // Equal values: both keep the first.
    let a = d(10, 1);
    let b = d(1, 0);
    assert_eq!(a.max(b), a);
    assert_eq!(a.min(b), a);
    assert_eq!(d(3, 0).max(d(25, 1)), d(3, 0));
    assert_eq!(d(3, 0).min(d(25, 1)), d(25, 1));
}

#[test]
fn round_to_tick_size_examples() {
    assert!(round_to_tick_size(d(110, 2), d(25, 2)).value_eq(&d(1, 0)));
    assert!(round_to_tick_size(d(113, 2), d(25, 2)).value_eq(&d(125, 2)));
    assert!(round_to_tick_size(d(114, 2), d(25, 2)).value_eq(&d(125, 2)));
    // A midpoint goes to the even number of ticks: 1.125 is 4.5 ticks of 0.25, rounded to 4.
    assert!(round_to_tick_size(d(1125, 3), d(25, 2)).value_eq(&d(1, 0)));
    assert!(round_to_tick_size(d(-114, 2), d(25, 2)).value_eq(&d(-125, 2)));
}

#[test]
fn round_to_decimals_examples() {
    assert!(round_to_decimals(d(12345, 4), 2).value_eq(&d(123, 2)));
    assert!(round_to_decimals(d(12355, 4), 2).value_eq(&d(124, 2)));
    assert!(round_to_decimals(d(5, 1), 0).value_eq(&d(0, 0)));
    assert_eq!(ten_to_the(0), 1);
    assert_eq!(ten_to_the(18), 1_000_000_000_000_000_000);
}

fn es_info(base_currency: Option<Currency>) -> SymbolInfo {
    SymbolInfo {
        symbol_name: "ES".to_string(),
        pnl_currency: Currency::USD,
        value_per_tick: d(125, 1),
        tick_size: d(25, 2),
        decimal_accuracy: 2,
        base_currency,
    }
}

#[test]
fn theoretical_pnl_long_and_short() {
    let info = es_info(None);
    // 4 points = 16 ticks of 12.5 on 2 contracts, at an exchange rate of 1.
    let long = calculate_theoretical_pnl(
        PositionSide::Long, d(5000, 0), d(5004, 0), d(2, 0), &info, d(1, 0), Currency::USD,
    );
    assert!(long.value_eq(&d(400, 0)));
    let short = calculate_theoretical_pnl(
        PositionSide::Short, d(5000, 0), d(5004, 0), d(2, 0), &info, d(1, 0), Currency::USD,
    );
    assert!(short.value_eq(&d(-400, 0)));
    // Less than a whole tick rounds to zero ticks: the result is 0.0.
    let flat = calculate_theoretical_pnl(
        PositionSide::Long, d(5000, 0), d(5000001, 3), d(2, 0), &info, d(1, 0), Currency::USD,
    );
    assert_eq!(flat, d(0, 1));
}

#[test]
fn theoretical_pnl_currency_conversion() {
    let mut info = es_info(Some(Currency::AUD));
    info.pnl_currency = Currency::JPY;
    // Account in the base currency: divided by the entry price.
    let base = calculate_theoretical_pnl(
        PositionSide::Long, d(100, 0), d(101, 0), d(1, 0), &info, d(2, 0), Currency::AUD,
    );
    assert!(base.value_eq(&d(5, 1)));
    // Account in the profit currency: unchanged.
    let quote = calculate_theoretical_pnl(
        PositionSide::Long, d(100, 0), d(101, 0), d(1, 0), &info, d(2, 0), Currency::JPY,
    );
    assert!(quote.value_eq(&d(50, 0)));
    // Any other currency: divided by the exchange rate.
    let other = calculate_theoretical_pnl(
        PositionSide::Long, d(100, 0), d(101, 0), d(1, 0), &info, d(2, 0), Currency::EUR,
    );
    assert!(other.value_eq(&d(25, 0)));
}

#[test]
fn rolling_window_keeps_latest_first() {
    let mut w: RollingWindow<u32> = RollingWindow::new(3);
    assert_eq!(w.len(), 0);
    assert!(w.last().is_none());
    for x in 1..=5 {
        w.add(x);
    }
    assert_eq!(w.len(), 3);
    assert!(w.is_full());
    assert_eq!(w.last(), Some(&5));
    assert_eq!(w.get(0), Some(&5));
    assert_eq!(w.get(1), Some(&4));
    assert_eq!(w.get(2), Some(&3));
    assert_eq!(w.get(3), None);
    assert_eq!(w.history().iter().copied().collect::<Vec<_>>(), vec![5, 4, 3]);
    assert_eq!(w.number(), 3);
    w.clear();
    assert_eq!(w.len(), 0);
    assert!(!w.is_full());
    assert_eq!(w.number(), 3);
}

#[test]
fn rolling_window_add_then_last() {
    let mut w: RollingWindow<&str> = RollingWindow::new(2);
    w.add("a");
    assert_eq!(w.last(), Some(&"a"));
    w.add("b");
    assert_eq!(w.get(1), Some(&"a"));
}

#[test]
fn rolling_window_of_capacity_zero_grows() {
    // A window that keeps no data points never finds itself full, so nothing is dropped.
    let mut w: RollingWindow<u8> = RollingWindow::new(0);
    w.add(1);
    w.add(2);
    assert_eq!(w.len(), 2);
    assert!(!w.is_full());
}

#[test]
fn checked_rounding_refuses_what_leaves_the_range() {
    let max = Decimal::from_parts(79228162514264337593543950335, 0).unwrap();
    assert!(checked_round_to_tick_size(Decimal::new(126, 2), Decimal::new(25, 2)).unwrap().value_eq(&Decimal::new(125, 2)));
    assert_eq!(checked_round_to_tick_size(max, Decimal::new(1, 4)), None);
    assert_eq!(checked_round_to_tick_size(Decimal::new(1, 0), Decimal::new(0, 0)), None);
    assert!(checked_round_to_decimals(Decimal::new(1234, 3), 2).unwrap().value_eq(&Decimal::new(123, 2)));
    assert_eq!(checked_round_to_decimals(max, 2), None);
    assert!(checked_sum(Decimal::new(1, 0), Decimal::new(2, 1)).unwrap().value_eq(&Decimal::new(12, 1)));
    assert_eq!(checked_sum(max, max), None);
    assert_eq!(checked_difference(max, Decimal::new(-5, 0)), None);
    assert_eq!(checked_product(max, Decimal::new(2, 0)), None);
    assert_eq!(checked_quotient(max, Decimal::new(0, 0)), None);
    assert!(checked_quotient(Decimal::new(1, 0), Decimal::new(4, 0)).unwrap().value_eq(&Decimal::new(25, 2)));
}

#[test]
fn window_is_full_from_the_capacity_th_add_on() {
    let mut w: RollingWindow<u32> = RollingWindow::new(4);
    for k in 1..=10u32 {
        w.add(k);
        assert_eq!(w.is_full(), k >= 4);
        assert_eq!(w.len(), if k < 4 { k as usize } else { 4 });
        assert!(w.len() <= w.number());
    }
    w.clear();
    assert!(!w.is_full());
    assert_eq!(w.number(), 4);
}
