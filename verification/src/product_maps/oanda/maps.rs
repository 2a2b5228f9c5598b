//! Oanda margin: the margin a position needs, by the tier its size falls in.
use crate::decimal::{
    decimal_div, decimal_mul, decimal_product, decimal_quotient, lemma_quotient_fits_by_ten_or_more,
    pow10, product_fits, spec_le, Decimal, DecimalParts,
};
use crate::helpers::text::str_eq;
use vstd::prelude::*;

verus! {

/// A margin tier: positions worth up to `max_position` (without a limit for `None`) need
/// `margin_percent` percent of their value as margin.
#[derive(Clone, Copy, Debug, PartialEq, Eq, Structural)]
pub struct MarginTier {
    pub max_position: Option<Decimal>,
    pub margin_percent: Decimal,
}

/// A tier as plain decimal parts: the size limit, if any, and the percentage.
pub open spec fn tier_parts(t: MarginTier) -> (Option<DecimalParts>, DecimalParts) {
    (
        match t.max_position {
            Some(m) => Some(m@),
            None => None,
        },
        t.margin_percent@,
    )
}

/// The parts of a decimal literal.
pub open spec fn dp(mantissa: int, scale: nat) -> DecimalParts {
    DecimalParts { mantissa, scale }
}

/// The margin tiers of AUD-USD, EUR-USD, GBP-USD, NZD-USD, USD-CAD, USD-JPY.
pub open spec fn tiers_aud_usd() -> Seq<(Option<DecimalParts>, DecimalParts)> {
    seq![(Some(dp(20, 1)), dp(50, 2)), (Some(dp(50, 1)), dp(100, 2)), (Some(dp(500, 1)), dp(500, 2)), (None, dp(2000, 2))]
}

/// The margin tiers of USD-CHF.
pub open spec fn tiers_usd_chf() -> Seq<(Option<DecimalParts>, DecimalParts)> {
    seq![(Some(dp(20, 1)), dp(50, 2)), (Some(dp(50, 1)), dp(400, 2)), (Some(dp(500, 1)), dp(500, 2)), (None, dp(2000, 2))]
}

/// The margin tiers of EUR-GBP, EUR-JPY, AUD-CAD, AUD-JPY, AUD-NZD, CAD-JPY, EUR-AUD, EUR-CAD, EUR-NOK, EUR-NZD, EUR-SEK, GBP-AUD, GBP-CAD, GBP-JPY, GBP-NZD, NZD-CAD, NZD-JPY, USD-NOK, USD-SEK.
pub open spec fn tiers_eur_gbp() -> Seq<(Option<DecimalParts>, DecimalParts)> {
    seq![(Some(dp(10, 1)), dp(67, 2)), (Some(dp(50, 1)), dp(133, 2)), (Some(dp(200, 1)), dp(500, 2)), (None, dp(2000, 2))]
}

/// The margin tiers of EUR-CHF, AUD-CHF, CAD-CHF, CHF-JPY, GBP-CHF, NZD-CHF.
pub open spec fn tiers_eur_chf() -> Seq<(Option<DecimalParts>, DecimalParts)> {
    seq![(Some(dp(10, 1)), dp(67, 2)), (Some(dp(50, 1)), dp(400, 2)), (Some(dp(200, 1)), dp(500, 2)), (None, dp(2000, 2))]
}

/// The margin tiers of USD-CNH, USD-MXN, USD-ZAR, EUR-CZK, EUR-HUF, EUR-PLN, USD-CZK, USD-HUF, USD-PLN, ZAR-JPY.
pub open spec fn tiers_usd_cnh() -> Seq<(Option<DecimalParts>, DecimalParts)> {
    seq![(Some(dp(5, 1)), dp(133, 2)), (Some(dp(20, 1)), dp(200, 2)), (Some(dp(100, 1)), dp(500, 2)), (None, dp(2000, 2))]
}

/// The margin tiers of SGD-JPY, USD-SGD.
pub open spec fn tiers_sgd_jpy() -> Seq<(Option<DecimalParts>, DecimalParts)> {
    seq![(Some(dp(5, 1)), dp(400, 2)), (Some(dp(10, 1)), dp(667, 2)), (Some(dp(50, 1)), dp(1000, 2)), (None, dp(2000, 2))]
}

/// The margin tiers of USD-HKD.
pub open spec fn tiers_usd_hkd() -> Seq<(Option<DecimalParts>, DecimalParts)> {
    seq![(Some(dp(5, 1)), dp(400, 2)), (Some(dp(10, 1)), dp(1000, 2)), (Some(dp(50, 1)), dp(1000, 2)), (None, dp(2000, 2))]
}

/// The margin tiers of USD-TRY, EUR-TRY, TRY-JPY.
pub open spec fn tiers_usd_try() -> Seq<(Option<DecimalParts>, DecimalParts)> {
    seq![(Some(dp(20, 1)), dp(1000, 2)), (None, dp(1000, 2))]
}

/// The margin tiers of BTC-USD.
pub open spec fn tiers_btc_usd() -> Seq<(Option<DecimalParts>, DecimalParts)> {
    seq![(Some(dp(1, 1)), dp(1000, 2)), (Some(dp(5, 1)), dp(2000, 2)), (Some(dp(5, 1)), dp(3000, 2))]
}

/// The margin tiers of BCH-USD.
pub open spec fn tiers_bch_usd() -> Seq<(Option<DecimalParts>, DecimalParts)> {
    seq![(Some(dp(5, 2)), dp(2000, 2)), (Some(dp(2, 1)), dp(3000, 2)), (Some(dp(5, 1)), dp(5000, 2))]
}

/// The margin tiers of ETH-USD, LTC-USD.
pub open spec fn tiers_eth_usd() -> Seq<(Option<DecimalParts>, DecimalParts)> {
    seq![(Some(dp(5, 2)), dp(1500, 2)), (Some(dp(2, 1)), dp(2500, 2)), (Some(dp(5, 1)), dp(5000, 2))]
}

/// The margin tiers of AUS200-USD, EU50-USD, GER30-USD, US100-USD, NAS100-USD, US30-USD, US500-USD, US2000-USD, FRA40-USD, UK100-USD, JP225-USD, TWIX-USD, NL25-USD, SING30-USD, CH20-USD, ES35-USD.
pub open spec fn tiers_aus200_usd() -> Seq<(Option<DecimalParts>, DecimalParts)> {
    seq![(Some(dp(15, 1)), dp(50, 2)), (Some(dp(50, 1)), dp(100, 2)), (Some(dp(200, 1)), dp(500, 2)), (None, dp(2000, 2))]
}

/// The margin tiers of CHINA50-USD, HK50-USD, INDIA50-USD.
pub open spec fn tiers_china50_usd() -> Seq<(Option<DecimalParts>, DecimalParts)> {
    seq![(Some(dp(10, 1)), dp(67, 2)), (Some(dp(20, 1)), dp(133, 2)), (Some(dp(100, 1)), dp(500, 2)), (None, dp(2000, 2))]
}

/// The margin tiers of UKOIL-USD, USOIL-USD.
pub open spec fn tiers_ukoil_usd() -> Seq<(Option<DecimalParts>, DecimalParts)> {
    seq![(Some(dp(1000000, 1)), dp(100, 2)), (Some(dp(20000000, 1)), dp(200, 2)), (Some(dp(50000000, 1)), dp(500, 2)), (None, dp(2000, 2))]
}

/// The margin tiers of NATGAS-USD.
pub open spec fn tiers_natgas_usd() -> Seq<(Option<DecimalParts>, DecimalParts)> {
    seq![(Some(dp(1000000, 1)), dp(100, 2)), (Some(dp(20000000, 1)), dp(350, 2)), (Some(dp(50000000, 1)), dp(500, 2)), (None, dp(2000, 2))]
}

/// The margin tiers of COPPER-USD.
pub open spec fn tiers_copper_usd() -> Seq<(Option<DecimalParts>, DecimalParts)> {
    seq![(Some(dp(20000000, 1)), dp(100, 2)), (Some(dp(50000000, 1)), dp(200, 2)), (Some(dp(200000000, 1)), dp(500, 2)), (None, dp(2000, 2))]
}

/// The margin tiers of WHEAT-USD.
pub open spec fn tiers_wheat_usd() -> Seq<(Option<DecimalParts>, DecimalParts)> {
    seq![(Some(dp(1000000, 1)), dp(400, 2)), (Some(dp(5000000, 1)), dp(600, 2)), (Some(dp(15000000, 1)), dp(1000, 2)), (None, dp(2000, 2))]
}

/// The margin tiers of CORN-USD.
pub open spec fn tiers_corn_usd() -> Seq<(Option<DecimalParts>, DecimalParts)> {
    seq![(Some(dp(1000000, 1)), dp(500, 2)), (Some(dp(5000000, 1)), dp(800, 2)), (Some(dp(15000000, 1)), dp(1000, 2)), (None, dp(2000, 2))]
}

/// The margin tiers of SOYBEANS-USD.
pub open spec fn tiers_soybeans_usd() -> Seq<(Option<DecimalParts>, DecimalParts)> {
    seq![(Some(dp(1000000, 1)), dp(300, 2)), (Some(dp(5000000, 1)), dp(700, 2)), (Some(dp(15000000, 1)), dp(1000, 2)), (None, dp(2000, 2))]
}

/// The margin tiers of SUGAR-USD.
pub open spec fn tiers_sugar_usd() -> Seq<(Option<DecimalParts>, DecimalParts)> {
    seq![(Some(dp(5000000, 1)), dp(400, 2)), (Some(dp(7000000, 1)), dp(600, 2)), (None, dp(1000, 2))]
}

/// The margin tiers of XAG-USD.
pub open spec fn tiers_xag_usd() -> Seq<(Option<DecimalParts>, DecimalParts)> {
    seq![(Some(dp(20000000, 1)), dp(250, 2)), (Some(dp(50000000, 1)), dp(400, 2)), (Some(dp(200000000, 1)), dp(1000, 2)), (None, dp(2000, 2))]
}

/// The margin tiers of XAU-USD.
pub open spec fn tiers_xau_usd() -> Seq<(Option<DecimalParts>, DecimalParts)> {
    seq![(Some(dp(1, 1)), dp(50, 2)), (Some(dp(50, 1)), dp(100, 2)), (Some(dp(200, 1)), dp(500, 2)), (None, dp(2000, 2))]
}

/// The margin tiers of each Oanda instrument, smallest positions first.
pub open spec fn spec_margin_tiers(name: Seq<char>) -> Option<Seq<(Option<DecimalParts>, DecimalParts)>> {
    if name == "AUD-USD"@ || name == "EUR-USD"@ || name == "GBP-USD"@ || name == "NZD-USD"@ || name == "USD-CAD"@ || name == "USD-JPY"@ {
        Some(tiers_aud_usd())
    } else if name == "USD-CHF"@ {
        Some(tiers_usd_chf())
    } else if name == "EUR-GBP"@ || name == "EUR-JPY"@ || name == "AUD-CAD"@ || name == "AUD-JPY"@ || name == "AUD-NZD"@ || name == "CAD-JPY"@ || name == "EUR-AUD"@ || name == "EUR-CAD"@ || name == "EUR-NOK"@ || name == "EUR-NZD"@ || name == "EUR-SEK"@ || name == "GBP-AUD"@ || name == "GBP-CAD"@ || name == "GBP-JPY"@ || name == "GBP-NZD"@ || name == "NZD-CAD"@ || name == "NZD-JPY"@ || name == "USD-NOK"@ || name == "USD-SEK"@ {
        Some(tiers_eur_gbp())
    } else if name == "EUR-CHF"@ || name == "AUD-CHF"@ || name == "CAD-CHF"@ || name == "CHF-JPY"@ || name == "GBP-CHF"@ || name == "NZD-CHF"@ {
        Some(tiers_eur_chf())
    } else if name == "USD-CNH"@ || name == "USD-MXN"@ || name == "USD-ZAR"@ || name == "EUR-CZK"@ || name == "EUR-HUF"@ || name == "EUR-PLN"@ || name == "USD-CZK"@ || name == "USD-HUF"@ || name == "USD-PLN"@ || name == "ZAR-JPY"@ {
        Some(tiers_usd_cnh())
    } else if name == "SGD-JPY"@ || name == "USD-SGD"@ {
        Some(tiers_sgd_jpy())
    } else if name == "USD-HKD"@ {
        Some(tiers_usd_hkd())
    } else if name == "USD-TRY"@ || name == "EUR-TRY"@ || name == "TRY-JPY"@ {
        Some(tiers_usd_try())
    } else if name == "BTC-USD"@ {
        Some(tiers_btc_usd())
    } else if name == "BCH-USD"@ {
        Some(tiers_bch_usd())
    } else if name == "ETH-USD"@ || name == "LTC-USD"@ {
        Some(tiers_eth_usd())
    } else if name == "AUS200-USD"@ || name == "EU50-USD"@ || name == "GER30-USD"@ || name == "US100-USD"@ || name == "NAS100-USD"@ || name == "US30-USD"@ || name == "US500-USD"@ || name == "US2000-USD"@ || name == "FRA40-USD"@ || name == "UK100-USD"@ || name == "JP225-USD"@ || name == "TWIX-USD"@ || name == "NL25-USD"@ || name == "SING30-USD"@ || name == "CH20-USD"@ || name == "ES35-USD"@ {
        Some(tiers_aus200_usd())
    } else if name == "CHINA50-USD"@ || name == "HK50-USD"@ || name == "INDIA50-USD"@ {
        Some(tiers_china50_usd())
    } else if name == "UKOIL-USD"@ || name == "USOIL-USD"@ {
        Some(tiers_ukoil_usd())
    } else if name == "NATGAS-USD"@ {
        Some(tiers_natgas_usd())
    } else if name == "COPPER-USD"@ {
        Some(tiers_copper_usd())
    } else if name == "WHEAT-USD"@ {
        Some(tiers_wheat_usd())
    } else if name == "CORN-USD"@ {
        Some(tiers_corn_usd())
    } else if name == "SOYBEANS-USD"@ {
        Some(tiers_soybeans_usd())
    } else if name == "SUGAR-USD"@ {
        Some(tiers_sugar_usd())
    } else if name == "XAG-USD"@ {
        Some(tiers_xag_usd())
    } else if name == "XAU-USD"@ {
        Some(tiers_xau_usd())
    } else {
        None
    }
}

fn tiers_aud_usd_vec() -> (r: Vec<MarginTier>)
    ensures
        r@.map_values(|t: MarginTier| tier_parts(t)) == tiers_aud_usd(),
{
    let r = vec![
        MarginTier { max_position: Some(Decimal::new(20, 1)), margin_percent: Decimal::new(50, 2) },
        MarginTier { max_position: Some(Decimal::new(50, 1)), margin_percent: Decimal::new(100, 2) },
        MarginTier { max_position: Some(Decimal::new(500, 1)), margin_percent: Decimal::new(500, 2) },
        MarginTier { max_position: None, margin_percent: Decimal::new(2000, 2) },
    ];
    assert(r@.map_values(|t: MarginTier| tier_parts(t)) =~= tiers_aud_usd());
    r
}

fn tiers_usd_chf_vec() -> (r: Vec<MarginTier>)
    ensures
        r@.map_values(|t: MarginTier| tier_parts(t)) == tiers_usd_chf(),
{
    let r = vec![
        MarginTier { max_position: Some(Decimal::new(20, 1)), margin_percent: Decimal::new(50, 2) },
        MarginTier { max_position: Some(Decimal::new(50, 1)), margin_percent: Decimal::new(400, 2) },
        MarginTier { max_position: Some(Decimal::new(500, 1)), margin_percent: Decimal::new(500, 2) },
        MarginTier { max_position: None, margin_percent: Decimal::new(2000, 2) },
    ];
    assert(r@.map_values(|t: MarginTier| tier_parts(t)) =~= tiers_usd_chf());
    r
}

fn tiers_eur_gbp_vec() -> (r: Vec<MarginTier>)
    ensures
        r@.map_values(|t: MarginTier| tier_parts(t)) == tiers_eur_gbp(),
{
    let r = vec![
        MarginTier { max_position: Some(Decimal::new(10, 1)), margin_percent: Decimal::new(67, 2) },
        MarginTier { max_position: Some(Decimal::new(50, 1)), margin_percent: Decimal::new(133, 2) },
        MarginTier { max_position: Some(Decimal::new(200, 1)), margin_percent: Decimal::new(500, 2) },
        MarginTier { max_position: None, margin_percent: Decimal::new(2000, 2) },
    ];
    assert(r@.map_values(|t: MarginTier| tier_parts(t)) =~= tiers_eur_gbp());
    r
}

fn tiers_eur_chf_vec() -> (r: Vec<MarginTier>)
    ensures
        r@.map_values(|t: MarginTier| tier_parts(t)) == tiers_eur_chf(),
{
    let r = vec![
        MarginTier { max_position: Some(Decimal::new(10, 1)), margin_percent: Decimal::new(67, 2) },
        MarginTier { max_position: Some(Decimal::new(50, 1)), margin_percent: Decimal::new(400, 2) },
        MarginTier { max_position: Some(Decimal::new(200, 1)), margin_percent: Decimal::new(500, 2) },
        MarginTier { max_position: None, margin_percent: Decimal::new(2000, 2) },
    ];
    assert(r@.map_values(|t: MarginTier| tier_parts(t)) =~= tiers_eur_chf());
    r
}

fn tiers_usd_cnh_vec() -> (r: Vec<MarginTier>)
    ensures
        r@.map_values(|t: MarginTier| tier_parts(t)) == tiers_usd_cnh(),
{
    let r = vec![
        MarginTier { max_position: Some(Decimal::new(5, 1)), margin_percent: Decimal::new(133, 2) },
        MarginTier { max_position: Some(Decimal::new(20, 1)), margin_percent: Decimal::new(200, 2) },
        MarginTier { max_position: Some(Decimal::new(100, 1)), margin_percent: Decimal::new(500, 2) },
        MarginTier { max_position: None, margin_percent: Decimal::new(2000, 2) },
    ];
    assert(r@.map_values(|t: MarginTier| tier_parts(t)) =~= tiers_usd_cnh());
    r
}

fn tiers_sgd_jpy_vec() -> (r: Vec<MarginTier>)
    ensures
        r@.map_values(|t: MarginTier| tier_parts(t)) == tiers_sgd_jpy(),
{
    let r = vec![
        MarginTier { max_position: Some(Decimal::new(5, 1)), margin_percent: Decimal::new(400, 2) },
        MarginTier { max_position: Some(Decimal::new(10, 1)), margin_percent: Decimal::new(667, 2) },
        MarginTier { max_position: Some(Decimal::new(50, 1)), margin_percent: Decimal::new(1000, 2) },
        MarginTier { max_position: None, margin_percent: Decimal::new(2000, 2) },
    ];
    assert(r@.map_values(|t: MarginTier| tier_parts(t)) =~= tiers_sgd_jpy());
    r
}

fn tiers_usd_hkd_vec() -> (r: Vec<MarginTier>)
    ensures
        r@.map_values(|t: MarginTier| tier_parts(t)) == tiers_usd_hkd(),
{
    let r = vec![
        MarginTier { max_position: Some(Decimal::new(5, 1)), margin_percent: Decimal::new(400, 2) },
        MarginTier { max_position: Some(Decimal::new(10, 1)), margin_percent: Decimal::new(1000, 2) },
        MarginTier { max_position: Some(Decimal::new(50, 1)), margin_percent: Decimal::new(1000, 2) },
        MarginTier { max_position: None, margin_percent: Decimal::new(2000, 2) },
    ];
    assert(r@.map_values(|t: MarginTier| tier_parts(t)) =~= tiers_usd_hkd());
    r
}

fn tiers_usd_try_vec() -> (r: Vec<MarginTier>)
    ensures
        r@.map_values(|t: MarginTier| tier_parts(t)) == tiers_usd_try(),
{
    let r = vec![
        MarginTier { max_position: Some(Decimal::new(20, 1)), margin_percent: Decimal::new(1000, 2) },
        MarginTier { max_position: None, margin_percent: Decimal::new(1000, 2) },
    ];
    assert(r@.map_values(|t: MarginTier| tier_parts(t)) =~= tiers_usd_try());
    r
}

fn tiers_btc_usd_vec() -> (r: Vec<MarginTier>)
    ensures
        r@.map_values(|t: MarginTier| tier_parts(t)) == tiers_btc_usd(),
{
    let r = vec![
        MarginTier { max_position: Some(Decimal::new(1, 1)), margin_percent: Decimal::new(1000, 2) },
        MarginTier { max_position: Some(Decimal::new(5, 1)), margin_percent: Decimal::new(2000, 2) },
        MarginTier { max_position: Some(Decimal::new(5, 1)), margin_percent: Decimal::new(3000, 2) },
    ];
    assert(r@.map_values(|t: MarginTier| tier_parts(t)) =~= tiers_btc_usd());
    r
}

fn tiers_bch_usd_vec() -> (r: Vec<MarginTier>)
    ensures
        r@.map_values(|t: MarginTier| tier_parts(t)) == tiers_bch_usd(),
{
    let r = vec![
        MarginTier { max_position: Some(Decimal::new(5, 2)), margin_percent: Decimal::new(2000, 2) },
        MarginTier { max_position: Some(Decimal::new(2, 1)), margin_percent: Decimal::new(3000, 2) },
        MarginTier { max_position: Some(Decimal::new(5, 1)), margin_percent: Decimal::new(5000, 2) },
    ];
    assert(r@.map_values(|t: MarginTier| tier_parts(t)) =~= tiers_bch_usd());
    r
}

fn tiers_eth_usd_vec() -> (r: Vec<MarginTier>)
    ensures
        r@.map_values(|t: MarginTier| tier_parts(t)) == tiers_eth_usd(),
{
    let r = vec![
        MarginTier { max_position: Some(Decimal::new(5, 2)), margin_percent: Decimal::new(1500, 2) },
        MarginTier { max_position: Some(Decimal::new(2, 1)), margin_percent: Decimal::new(2500, 2) },
        MarginTier { max_position: Some(Decimal::new(5, 1)), margin_percent: Decimal::new(5000, 2) },
    ];
    assert(r@.map_values(|t: MarginTier| tier_parts(t)) =~= tiers_eth_usd());
    r
}

fn tiers_aus200_usd_vec() -> (r: Vec<MarginTier>)
    ensures
        r@.map_values(|t: MarginTier| tier_parts(t)) == tiers_aus200_usd(),
{
    let r = vec![
        MarginTier { max_position: Some(Decimal::new(15, 1)), margin_percent: Decimal::new(50, 2) },
        MarginTier { max_position: Some(Decimal::new(50, 1)), margin_percent: Decimal::new(100, 2) },
        MarginTier { max_position: Some(Decimal::new(200, 1)), margin_percent: Decimal::new(500, 2) },
        MarginTier { max_position: None, margin_percent: Decimal::new(2000, 2) },
    ];
    assert(r@.map_values(|t: MarginTier| tier_parts(t)) =~= tiers_aus200_usd());
    r
}

fn tiers_china50_usd_vec() -> (r: Vec<MarginTier>)
    ensures
        r@.map_values(|t: MarginTier| tier_parts(t)) == tiers_china50_usd(),
{
    let r = vec![
        MarginTier { max_position: Some(Decimal::new(10, 1)), margin_percent: Decimal::new(67, 2) },
        MarginTier { max_position: Some(Decimal::new(20, 1)), margin_percent: Decimal::new(133, 2) },
        MarginTier { max_position: Some(Decimal::new(100, 1)), margin_percent: Decimal::new(500, 2) },
        MarginTier { max_position: None, margin_percent: Decimal::new(2000, 2) },
    ];
    assert(r@.map_values(|t: MarginTier| tier_parts(t)) =~= tiers_china50_usd());
    r
}

fn tiers_ukoil_usd_vec() -> (r: Vec<MarginTier>)
    ensures
        r@.map_values(|t: MarginTier| tier_parts(t)) == tiers_ukoil_usd(),
{
    let r = vec![
        MarginTier { max_position: Some(Decimal::new(1000000, 1)), margin_percent: Decimal::new(100, 2) },
        MarginTier { max_position: Some(Decimal::new(20000000, 1)), margin_percent: Decimal::new(200, 2) },
        MarginTier { max_position: Some(Decimal::new(50000000, 1)), margin_percent: Decimal::new(500, 2) },
        MarginTier { max_position: None, margin_percent: Decimal::new(2000, 2) },
    ];
    assert(r@.map_values(|t: MarginTier| tier_parts(t)) =~= tiers_ukoil_usd());
    r
}

fn tiers_natgas_usd_vec() -> (r: Vec<MarginTier>)
    ensures
        r@.map_values(|t: MarginTier| tier_parts(t)) == tiers_natgas_usd(),
{
    let r = vec![
        MarginTier { max_position: Some(Decimal::new(1000000, 1)), margin_percent: Decimal::new(100, 2) },
        MarginTier { max_position: Some(Decimal::new(20000000, 1)), margin_percent: Decimal::new(350, 2) },
        MarginTier { max_position: Some(Decimal::new(50000000, 1)), margin_percent: Decimal::new(500, 2) },
        MarginTier { max_position: None, margin_percent: Decimal::new(2000, 2) },
    ];
    assert(r@.map_values(|t: MarginTier| tier_parts(t)) =~= tiers_natgas_usd());
    r
}

fn tiers_copper_usd_vec() -> (r: Vec<MarginTier>)
    ensures
        r@.map_values(|t: MarginTier| tier_parts(t)) == tiers_copper_usd(),
{
    let r = vec![
        MarginTier { max_position: Some(Decimal::new(20000000, 1)), margin_percent: Decimal::new(100, 2) },
        MarginTier { max_position: Some(Decimal::new(50000000, 1)), margin_percent: Decimal::new(200, 2) },
        MarginTier { max_position: Some(Decimal::new(200000000, 1)), margin_percent: Decimal::new(500, 2) },
        MarginTier { max_position: None, margin_percent: Decimal::new(2000, 2) },
    ];
    assert(r@.map_values(|t: MarginTier| tier_parts(t)) =~= tiers_copper_usd());
    r
}

fn tiers_wheat_usd_vec() -> (r: Vec<MarginTier>)
    ensures
        r@.map_values(|t: MarginTier| tier_parts(t)) == tiers_wheat_usd(),
{
    let r = vec![
        MarginTier { max_position: Some(Decimal::new(1000000, 1)), margin_percent: Decimal::new(400, 2) },
        MarginTier { max_position: Some(Decimal::new(5000000, 1)), margin_percent: Decimal::new(600, 2) },
        MarginTier { max_position: Some(Decimal::new(15000000, 1)), margin_percent: Decimal::new(1000, 2) },
        MarginTier { max_position: None, margin_percent: Decimal::new(2000, 2) },
    ];
    assert(r@.map_values(|t: MarginTier| tier_parts(t)) =~= tiers_wheat_usd());
    r
}

fn tiers_corn_usd_vec() -> (r: Vec<MarginTier>)
    ensures
        r@.map_values(|t: MarginTier| tier_parts(t)) == tiers_corn_usd(),
{
    let r = vec![
        MarginTier { max_position: Some(Decimal::new(1000000, 1)), margin_percent: Decimal::new(500, 2) },
        MarginTier { max_position: Some(Decimal::new(5000000, 1)), margin_percent: Decimal::new(800, 2) },
        MarginTier { max_position: Some(Decimal::new(15000000, 1)), margin_percent: Decimal::new(1000, 2) },
        MarginTier { max_position: None, margin_percent: Decimal::new(2000, 2) },
    ];
    assert(r@.map_values(|t: MarginTier| tier_parts(t)) =~= tiers_corn_usd());
    r
}

fn tiers_soybeans_usd_vec() -> (r: Vec<MarginTier>)
    ensures
        r@.map_values(|t: MarginTier| tier_parts(t)) == tiers_soybeans_usd(),
{
    let r = vec![
        MarginTier { max_position: Some(Decimal::new(1000000, 1)), margin_percent: Decimal::new(300, 2) },
        MarginTier { max_position: Some(Decimal::new(5000000, 1)), margin_percent: Decimal::new(700, 2) },
        MarginTier { max_position: Some(Decimal::new(15000000, 1)), margin_percent: Decimal::new(1000, 2) },
        MarginTier { max_position: None, margin_percent: Decimal::new(2000, 2) },
    ];
    assert(r@.map_values(|t: MarginTier| tier_parts(t)) =~= tiers_soybeans_usd());
    r
}

fn tiers_sugar_usd_vec() -> (r: Vec<MarginTier>)
    ensures
        r@.map_values(|t: MarginTier| tier_parts(t)) == tiers_sugar_usd(),
{
    let r = vec![
        MarginTier { max_position: Some(Decimal::new(5000000, 1)), margin_percent: Decimal::new(400, 2) },
        MarginTier { max_position: Some(Decimal::new(7000000, 1)), margin_percent: Decimal::new(600, 2) },
        MarginTier { max_position: None, margin_percent: Decimal::new(1000, 2) },
    ];
    assert(r@.map_values(|t: MarginTier| tier_parts(t)) =~= tiers_sugar_usd());
    r
}

fn tiers_xag_usd_vec() -> (r: Vec<MarginTier>)
    ensures
        r@.map_values(|t: MarginTier| tier_parts(t)) == tiers_xag_usd(),
{
    let r = vec![
        MarginTier { max_position: Some(Decimal::new(20000000, 1)), margin_percent: Decimal::new(250, 2) },
        MarginTier { max_position: Some(Decimal::new(50000000, 1)), margin_percent: Decimal::new(400, 2) },
        MarginTier { max_position: Some(Decimal::new(200000000, 1)), margin_percent: Decimal::new(1000, 2) },
        MarginTier { max_position: None, margin_percent: Decimal::new(2000, 2) },
    ];
    assert(r@.map_values(|t: MarginTier| tier_parts(t)) =~= tiers_xag_usd());
    r
}

fn tiers_xau_usd_vec() -> (r: Vec<MarginTier>)
    ensures
        r@.map_values(|t: MarginTier| tier_parts(t)) == tiers_xau_usd(),
{
    let r = vec![
        MarginTier { max_position: Some(Decimal::new(1, 1)), margin_percent: Decimal::new(50, 2) },
        MarginTier { max_position: Some(Decimal::new(50, 1)), margin_percent: Decimal::new(100, 2) },
        MarginTier { max_position: Some(Decimal::new(200, 1)), margin_percent: Decimal::new(500, 2) },
        MarginTier { max_position: None, margin_percent: Decimal::new(2000, 2) },
    ];
    assert(r@.map_values(|t: MarginTier| tier_parts(t)) =~= tiers_xau_usd());
    r
}

/// The margin tiers of the instrument `name`, if Oanda lists it.
fn margin_tiers(name: &str) -> (r: Option<Vec<MarginTier>>)
    ensures
        match spec_margin_tiers(name@) {
            Some(tiers) => r matches Some(v) && v@.map_values(|t: MarginTier| tier_parts(t)) == tiers,
            None => r is None,
        },
{
    if str_eq(name, "AUD-USD") || str_eq(name, "EUR-USD") || str_eq(name, "GBP-USD") || str_eq(name, "NZD-USD") || str_eq(name, "USD-CAD") || str_eq(name, "USD-JPY") {
        Some(tiers_aud_usd_vec())
    } else if str_eq(name, "USD-CHF") {
        Some(tiers_usd_chf_vec())
    } else if str_eq(name, "EUR-GBP") || str_eq(name, "EUR-JPY") || str_eq(name, "AUD-CAD") || str_eq(name, "AUD-JPY") || str_eq(name, "AUD-NZD") || str_eq(name, "CAD-JPY") || str_eq(name, "EUR-AUD") || str_eq(name, "EUR-CAD") || str_eq(name, "EUR-NOK") || str_eq(name, "EUR-NZD") || str_eq(name, "EUR-SEK") || str_eq(name, "GBP-AUD") || str_eq(name, "GBP-CAD") || str_eq(name, "GBP-JPY") || str_eq(name, "GBP-NZD") || str_eq(name, "NZD-CAD") || str_eq(name, "NZD-JPY") || str_eq(name, "USD-NOK") || str_eq(name, "USD-SEK") {
        Some(tiers_eur_gbp_vec())
    } else if str_eq(name, "EUR-CHF") || str_eq(name, "AUD-CHF") || str_eq(name, "CAD-CHF") || str_eq(name, "CHF-JPY") || str_eq(name, "GBP-CHF") || str_eq(name, "NZD-CHF") {
        Some(tiers_eur_chf_vec())
    } else if str_eq(name, "USD-CNH") || str_eq(name, "USD-MXN") || str_eq(name, "USD-ZAR") || str_eq(name, "EUR-CZK") || str_eq(name, "EUR-HUF") || str_eq(name, "EUR-PLN") || str_eq(name, "USD-CZK") || str_eq(name, "USD-HUF") || str_eq(name, "USD-PLN") || str_eq(name, "ZAR-JPY") {
        Some(tiers_usd_cnh_vec())
    } else if str_eq(name, "SGD-JPY") || str_eq(name, "USD-SGD") {
        Some(tiers_sgd_jpy_vec())
    } else if str_eq(name, "USD-HKD") {
        Some(tiers_usd_hkd_vec())
    } else if str_eq(name, "USD-TRY") || str_eq(name, "EUR-TRY") || str_eq(name, "TRY-JPY") {
        Some(tiers_usd_try_vec())
    } else if str_eq(name, "BTC-USD") {
        Some(tiers_btc_usd_vec())
    } else if str_eq(name, "BCH-USD") {
        Some(tiers_bch_usd_vec())
    } else if str_eq(name, "ETH-USD") || str_eq(name, "LTC-USD") {
        Some(tiers_eth_usd_vec())
    } else if str_eq(name, "AUS200-USD") || str_eq(name, "EU50-USD") || str_eq(name, "GER30-USD") || str_eq(name, "US100-USD") || str_eq(name, "NAS100-USD") || str_eq(name, "US30-USD") || str_eq(name, "US500-USD") || str_eq(name, "US2000-USD") || str_eq(name, "FRA40-USD") || str_eq(name, "UK100-USD") || str_eq(name, "JP225-USD") || str_eq(name, "TWIX-USD") || str_eq(name, "NL25-USD") || str_eq(name, "SING30-USD") || str_eq(name, "CH20-USD") || str_eq(name, "ES35-USD") {
        Some(tiers_aus200_usd_vec())
    } else if str_eq(name, "CHINA50-USD") || str_eq(name, "HK50-USD") || str_eq(name, "INDIA50-USD") {
        Some(tiers_china50_usd_vec())
    } else if str_eq(name, "UKOIL-USD") || str_eq(name, "USOIL-USD") {
        Some(tiers_ukoil_usd_vec())
    } else if str_eq(name, "NATGAS-USD") {
        Some(tiers_natgas_usd_vec())
    } else if str_eq(name, "COPPER-USD") {
        Some(tiers_copper_usd_vec())
    } else if str_eq(name, "WHEAT-USD") {
        Some(tiers_wheat_usd_vec())
    } else if str_eq(name, "CORN-USD") {
        Some(tiers_corn_usd_vec())
    } else if str_eq(name, "SOYBEANS-USD") {
        Some(tiers_soybeans_usd_vec())
    } else if str_eq(name, "SUGAR-USD") {
        Some(tiers_sugar_usd_vec())
    } else if str_eq(name, "XAG-USD") {
        Some(tiers_xag_usd_vec())
    } else if str_eq(name, "XAU-USD") {
        Some(tiers_xau_usd_vec())
    } else {
        None
    }
}

/// The index of the tier a position worth `position` falls in, looking from tier `i`:
/// the first without a limit or whose limit the position does not exceed; the last tier
/// when the position exceeds every limit.
pub open spec fn spec_find_tier(
    position: DecimalParts,
    tiers: Seq<(Option<DecimalParts>, DecimalParts)>,
    i: int,
) -> int
    decreases tiers.len() - i,
{
    if i >= tiers.len() - 1 {
        tiers.len() - 1
    } else {
        match tiers[i].0 {
            None => i,
            Some(limit) => if spec_le(position, limit) {
                i
            } else {
                spec_find_tier(position, tiers, i + 1)
            },
        }
    }
}

/// One hundred, as the percentage is divided by.
pub open spec fn percent_base() -> DecimalParts {
    dp(100, 0)
}

/// The margin of `quantity` units worth `contract_value` each under `tiers`: the position's
/// value times the percentage of the tier that value falls in, over one hundred.
pub open spec fn spec_tier_margin(
    tiers: Seq<(Option<DecimalParts>, DecimalParts)>,
    quantity: DecimalParts,
    contract_value: DecimalParts,
) -> DecimalParts {
    let position = decimal_product(quantity, contract_value);
    let tier = tiers[spec_find_tier(position, tiers, 0)];
    decimal_product(position, decimal_quotient(tier.1, percent_base()))
}

/// Every step of the margin of `quantity` units worth `contract_value` each stays within
/// the decimal range, for an instrument Oanda lists.
pub open spec fn oanda_margin_fits(name: Seq<char>, quantity: DecimalParts, contract_value: DecimalParts) -> bool {
    match spec_margin_tiers(name) {
        Some(tiers) => {
            let position = decimal_product(quantity, contract_value);
            let tier = tiers[spec_find_tier(position, tiers, 0)];
            &&& product_fits(quantity, contract_value)
            &&& product_fits(position, decimal_quotient(tier.1, percent_base()))
        },
        None => true,
    }
}

/// The tier a position worth `position` falls in.
fn find_margin_tier(position: Decimal, tiers: &Vec<MarginTier>) -> (r: usize)
    requires
        tiers@.len() > 0,
    ensures
        r == spec_find_tier(position@, tiers@.map_values(|t: MarginTier| tier_parts(t)), 0),
        r < tiers@.len(),
{
    let ghost view = tiers@.map_values(|t: MarginTier| tier_parts(t));
    let n = tiers.len();
    let mut i: usize = 0;
    while i < n - 1
        invariant
            n == tiers@.len(),
            n > 0,
            i <= n - 1,
            view == tiers@.map_values(|t: MarginTier| tier_parts(t)),
            spec_find_tier(position@, view, 0) == spec_find_tier(position@, view, i as int),
        decreases n - i,
    {
        let tier = tiers[i];
        assert(view[i as int] == tier_parts(tier));
        match tier.max_position {
            None => return i,
            Some(limit) => {
                if position.at_most(&limit) {
                    return i;
                }
            },
        }
        i = i + 1;
    }
    i
}

/// The margin Oanda asks for `quantity` units of the instrument `symbol_name` worth
/// `contract_value` each: the position's value times the percentage of its tier, over one
/// hundred. `None` for an instrument Oanda does not list.
pub fn calculate_oanda_margin(symbol_name: &str, quantity: Decimal, contract_value: Decimal) -> (r: Option<Decimal>)
    requires
        oanda_margin_fits(symbol_name@, quantity@, contract_value@),
    ensures
        match spec_margin_tiers(symbol_name@) {
            Some(tiers) => r matches Some(m) && m@ == spec_tier_margin(tiers, quantity@, contract_value@),
            None => r is None,
        },
{
    let tiers = match margin_tiers(symbol_name) {
        Some(tiers) => tiers,
        None => return None,
    };
    let ghost view = tiers@.map_values(|t: MarginTier| tier_parts(t));
    let position = decimal_mul(quantity, contract_value);
    let index = find_margin_tier(position, &tiers);
    let tier = tiers[index];
    assert(view[index as int] == tier_parts(tier));
    proof {
        assert(pow10(0) == 1);
        lemma_quotient_fits_by_ten_or_more(tier.margin_percent@, percent_base());
    }
    let share = decimal_div(tier.margin_percent, Decimal::new(100, 0));
    Some(decimal_mul(position, share))
}

} // verus!
