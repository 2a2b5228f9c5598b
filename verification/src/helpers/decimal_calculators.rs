//! Rounding of prices to tick sizes and to decimal places.
use crate::decimal::{
    checked_product, checked_quotient, decimal_difference, decimal_div, decimal_mul, decimal_product, decimal_quotient, decimal_round,
    decimal_round_dp, decimal_sub, difference_fits, pow10, product_fits, quotient_fits, Decimal,
    DecimalParts,
};
use crate::standardized_types::{Currency, PositionSide, Price, SymbolInfo, Volume};
use vstd::prelude::*;

verus! {

/// `value` rounded to a whole number of `tick_size`s: `(value / tick_size).round() * tick_size`,
/// each step as `rust_decimal` computes it.
pub open spec fn spec_round_to_tick_size(value: DecimalParts, tick_size: DecimalParts) -> DecimalParts {
    decimal_product(decimal_round_dp(decimal_quotient(value, tick_size), 0), tick_size)
}

/// Every step of [`spec_round_to_tick_size`] is defined: the tick size is not zero and
/// neither the quotient nor the final product leaves the decimal range.
pub open spec fn tick_rounding_fits(value: DecimalParts, tick_size: DecimalParts) -> bool {
    &&& quotient_fits(value, tick_size)
    &&& product_fits(decimal_round_dp(decimal_quotient(value, tick_size), 0), tick_size)
}

/// `10^decimals` as a decimal of scale 0.
pub open spec fn power_of_ten(decimals: nat) -> DecimalParts {
    DecimalParts { mantissa: pow10(decimals), scale: 0 }
}

/// `value` rounded to `decimals` places: `(value * 10^decimals).round() / 10^decimals`.
pub open spec fn spec_round_to_decimals(value: DecimalParts, decimals: nat) -> DecimalParts {
    decimal_quotient(
        decimal_round_dp(decimal_product(value, power_of_ten(decimals)), 0),
        power_of_ten(decimals),
    )
}

/// Every step of [`spec_round_to_decimals`] is defined.
pub open spec fn decimal_rounding_fits(value: DecimalParts, decimals: nat) -> bool {
    &&& product_fits(value, power_of_ten(decimals))
    &&& quotient_fits(
        decimal_round_dp(decimal_product(value, power_of_ten(decimals)), 0),
        power_of_ten(decimals),
    )
}

/// Rounds `value` to the nearest multiple of `tick_size` (midpoints to even).
pub fn round_to_tick_size(value: Decimal, tick_size: Decimal) -> (r: Decimal)
    requires
        tick_rounding_fits(value@, tick_size@),
    ensures
        r@ == spec_round_to_tick_size(value@, tick_size@),
{
    let ticks = decimal_round(decimal_div(value, tick_size), 0);
    decimal_mul(ticks, tick_size)
}

/// Rounds `value` to `decimals` decimal places (midpoints to even).
pub fn round_to_decimals(value: Decimal, decimals: u32) -> (r: Decimal)
    requires
        decimals <= 18,
        decimal_rounding_fits(value@, decimals as nat),
    ensures
        r@ == spec_round_to_decimals(value@, decimals as nat),
{
    let factor = Decimal::from_int(ten_to_the(decimals));
    decimal_div(decimal_round(decimal_mul(value, factor), 0), factor)
}

/// `value` rounded to a whole number of `tick_size`s as [`round_to_tick_size`] rounds it,
/// when every step can be computed; `None` otherwise.
pub fn checked_round_to_tick_size(value: Decimal, tick_size: Decimal) -> (r: Option<Decimal>)
    ensures
        (r is Some) == tick_rounding_fits(value@, tick_size@),
        r matches Some(x) ==> x@ == spec_round_to_tick_size(value@, tick_size@),
{
    let ticks = match checked_quotient(value, tick_size) {
        Some(q) => decimal_round(q, 0),
        None => return None,
    };
    checked_product(ticks, tick_size)
}

/// `value` rounded to `decimals` places as [`round_to_decimals`] rounds it, when every
/// step can be computed; `None` otherwise.
pub fn checked_round_to_decimals(value: Decimal, decimals: u32) -> (r: Option<Decimal>)
    requires
        decimals <= 18,
    ensures
        (r is Some) == decimal_rounding_fits(value@, decimals as nat),
        r matches Some(x) ==> x@ == spec_round_to_decimals(value@, decimals as nat),
{
    let factor = Decimal::from_int(ten_to_the(decimals));
    let scaled = match checked_product(value, factor) {
        Some(p) => decimal_round(p, 0),
        None => return None,
    };
    checked_quotient(scaled, factor)
}

/// The ticks a position has moved in its favour: the price move (market minus entry for
/// longs, entry minus market for shorts) over the tick size, rounded to the symbol's
/// decimal accuracy.
pub open spec fn pnl_ticks(side: PositionSide, entry_price: DecimalParts, market_price: DecimalParts, info: SymbolInfo) -> DecimalParts {
    let moved = match side {
        PositionSide::Long => decimal_difference(market_price, entry_price),
        PositionSide::Short => decimal_difference(entry_price, market_price),
    };
    decimal_round_dp(decimal_quotient(moved, info.tick_size@), info.decimal_accuracy as nat)
}

/// The profit of a position in the account's currency: zero (with one decimal place) when
/// it has not moved a whole tick, else ticks times the tick value times the quantity,
/// converted for currency pairs by dividing by the entry price (account in the base
/// currency), unchanged (account in the profit currency) or divided by the exchange rate,
/// and for other instruments multiplied by the exchange rate.
pub open spec fn spec_theoretical_pnl(
    side: PositionSide,
    entry_price: DecimalParts,
    market_price: DecimalParts,
    quantity: DecimalParts,
    info: SymbolInfo,
    exchange_rate_multiplier: DecimalParts,
    account_currency: Currency,
) -> DecimalParts {
    let ticks = pnl_ticks(side, entry_price, market_price, info);
    if ticks.mantissa == 0 {
        DecimalParts { mantissa: 0, scale: 1 }
    } else {
        let pnl = decimal_product(decimal_product(ticks, info.value_per_tick@), quantity);
        match info.base_currency {
            Some(base) => if account_currency == base {
                decimal_quotient(pnl, entry_price)
            } else if account_currency == info.pnl_currency {
                pnl
            } else {
                decimal_quotient(pnl, exchange_rate_multiplier)
            },
            None => decimal_product(pnl, exchange_rate_multiplier),
        }
    }
}

/// Every step of [`spec_theoretical_pnl`] stays within the decimal range.
pub open spec fn theoretical_pnl_fits(
    side: PositionSide,
    entry_price: DecimalParts,
    market_price: DecimalParts,
    quantity: DecimalParts,
    info: SymbolInfo,
    exchange_rate_multiplier: DecimalParts,
    account_currency: Currency,
) -> bool {
    let moved = match side {
        PositionSide::Long => decimal_difference(market_price, entry_price),
        PositionSide::Short => decimal_difference(entry_price, market_price),
    };
    let ticks = pnl_ticks(side, entry_price, market_price, info);
    let per_tick = decimal_product(ticks, info.value_per_tick@);
    let pnl = decimal_product(per_tick, quantity);
    &&& match side {
        PositionSide::Long => difference_fits(market_price, entry_price),
        PositionSide::Short => difference_fits(entry_price, market_price),
    }
    &&& quotient_fits(moved, info.tick_size@)
    &&& ticks.mantissa != 0 ==> {
        &&& product_fits(ticks, info.value_per_tick@)
        &&& product_fits(per_tick, quantity)
        &&& match info.base_currency {
            Some(base) => if account_currency == base {
                quotient_fits(pnl, entry_price)
            } else if account_currency == info.pnl_currency {
                true
            } else {
                quotient_fits(pnl, exchange_rate_multiplier)
            },
            None => product_fits(pnl, exchange_rate_multiplier),
        }
    }
}

/// The profit a position would show at `market_price`, in the account's currency.
pub fn calculate_theoretical_pnl(
    side: PositionSide,
    entry_price: Price,
    market_price: Price,
    quantity: Volume,
    symbol_info: &SymbolInfo,
    exchange_rate_multiplier: Decimal,
    account_currency: Currency,
) -> (r: Price)
    requires
        theoretical_pnl_fits(
            side,
            entry_price@,
            market_price@,
            quantity@,
            *symbol_info,
            exchange_rate_multiplier@,
            account_currency,
        ),
    ensures
        r@ == spec_theoretical_pnl(
            side,
            entry_price@,
            market_price@,
            quantity@,
            *symbol_info,
            exchange_rate_multiplier@,
            account_currency,
        ),
{
    let moved = match side {
        PositionSide::Long => decimal_sub(market_price, entry_price),
        PositionSide::Short => decimal_sub(entry_price, market_price),
    };
    let raw_ticks = decimal_round(decimal_div(moved, symbol_info.tick_size), symbol_info.decimal_accuracy);
    if raw_ticks.is_zero() {
        return Decimal::new(0, 1);
    }
    let pnl = decimal_mul(decimal_mul(raw_ticks, symbol_info.value_per_tick), quantity);
    match symbol_info.base_currency {
        Some(base_curr) => {
            if account_currency == base_curr {
                decimal_div(pnl, entry_price)
            } else if account_currency == symbol_info.pnl_currency {
                pnl
            } else {
                decimal_div(pnl, exchange_rate_multiplier)
            }
        },
        None => decimal_mul(pnl, exchange_rate_multiplier),
    }
}

/// `10^n` for `n <= 18`.
pub fn ten_to_the(n: u32) -> (r: i64)
    requires
        n <= 18,
    ensures
        r == pow10(n as nat),
{
    let mut r: i64 = 1;
    let mut i: u32 = 0;
    proof {
        lemma_pow10_monotone(0, 18);
    }
    while i < n
        invariant
            i <= n <= 18,
            r == pow10(i as nat),
            pow10(i as nat) <= pow10(18),
        decreases n - i,
    {
        proof {
            lemma_pow10_monotone((i + 1) as nat, 18);
            assert(pow10(18) == 1_000_000_000_000_000_000) by {
                reveal_with_fuel(pow10, 19);
            }
        }
        r = r * 10;
        i = i + 1;
    }
    r
}

/// `10^a <= 10^b` when `a <= b`.
pub proof fn lemma_pow10_monotone(a: nat, b: nat)
    requires
        a <= b,
    ensures
        1 <= pow10(a) <= pow10(b),
    decreases b,
{
    if b > a {
        lemma_pow10_monotone(a, (b - 1) as nat);
    } else if a > 0 {
        lemma_pow10_monotone((a - 1) as nat, (a - 1) as nat);
    }
}

} // verus!
