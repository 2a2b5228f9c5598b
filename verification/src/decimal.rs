//! Fixed-point decimal numbers as used for prices and volumes.
//!
//! A [`Decimal`] holds the same two numbers that `rust_decimal::Decimal` is made of:
//! a signed mantissa of at most 96 bits and a scale of at most 28, its value being
//! `mantissa / 10^scale`. Comparisons are specified on that exact value; the
//! arithmetic is carried out by `rust_decimal`, whose results are named below.
use vstd::prelude::*;

verus! {

/// Largest mantissa magnitude: 2^96 - 1.
pub const MAX_MANTISSA: i128 = 79228162514264337593543950335i128;

/// Largest number of fractional digits.
pub const MAX_SCALE: u32 = 28u32;

/// `10^n`.
pub open spec fn pow10(n: nat) -> int
    decreases n,
{
    if n == 0 {
        1
    } else {
        10 * pow10((n - 1) as nat)
    }
}

pub open spec fn abs(x: int) -> int {
    if x < 0 {
        -x
    } else {
        x
    }
}

/// The mathematical content of a decimal: its value is `mantissa / 10^scale`.
pub struct DecimalParts {
    pub mantissa: int,
    pub scale: nat,
}

/// A decimal number `mantissa / 10^scale`.
#[derive(Clone, Copy, Debug, PartialEq, Eq, Structural)]
pub struct Decimal {
    mantissa: i128,
    scale: u32,
}

impl View for Decimal {
    type V = DecimalParts;

    closed spec fn view(&self) -> DecimalParts {
        DecimalParts { mantissa: self.mantissa as int, scale: self.scale as nat }
    }
}

/// The decimal whose mantissa and scale are `parts`.
pub closed spec fn decimal_of(parts: DecimalParts) -> Decimal {
    Decimal { mantissa: parts.mantissa as i128, scale: parts.scale as u32 }
}

/// A decimal is determined by its mantissa and scale.
pub proof fn lemma_decimal_of_view(d: Decimal)
    ensures
        decimal_of(d@) == d,
{
}

/// The absolute value of a decimal: the same scale, the mantissa without its sign.
pub open spec fn abs_parts(x: DecimalParts) -> DecimalParts {
    DecimalParts { mantissa: abs(x.mantissa), scale: x.scale }
}

/// The value zero with scale 0.
pub open spec fn zero_parts() -> DecimalParts {
    DecimalParts { mantissa: 0, scale: 0 }
}

/// A mantissa and scale that a decimal can hold.
pub open spec fn parts_in_range(mantissa: int, scale: int) -> bool {
    -MAX_MANTISSA <= mantissa <= MAX_MANTISSA && 0 <= scale <= MAX_SCALE
}

/// `a < b` on exact values.
pub open spec fn spec_lt(a: DecimalParts, b: DecimalParts) -> bool {
    a.mantissa * pow10(b.scale) < b.mantissa * pow10(a.scale)
}

/// `a <= b` on exact values.
pub open spec fn spec_le(a: DecimalParts, b: DecimalParts) -> bool {
    a.mantissa * pow10(b.scale) <= b.mantissa * pow10(a.scale)
}

/// `a == b` on exact values (`1.0` equals `1.00`).
pub open spec fn spec_value_eq(a: DecimalParts, b: DecimalParts) -> bool {
    a.mantissa * pow10(b.scale) == b.mantissa * pow10(a.scale)
}

/// The larger of two decimals; the first one when they are equal in value.
pub open spec fn spec_max(a: DecimalParts, b: DecimalParts) -> DecimalParts {
    if spec_lt(a, b) {
        b
    } else {
        a
    }
}

/// The smaller of two decimals; the first one when they are equal in value.
pub open spec fn spec_min(a: DecimalParts, b: DecimalParts) -> DecimalParts {
    if spec_lt(b, a) {
        b
    } else {
        a
    }
}

/// The exact sum `a + b` lies strictly inside the decimal range.
pub open spec fn exact_sum_fits(a: DecimalParts, b: DecimalParts) -> bool {
    abs(a.mantissa * pow10(b.scale) + b.mantissa * pow10(a.scale)) < MAX_MANTISSA * pow10(
        a.scale + b.scale,
    )
}

/// The exact difference `a - b` lies strictly inside the decimal range.
pub open spec fn exact_difference_fits(a: DecimalParts, b: DecimalParts) -> bool {
    abs(a.mantissa * pow10(b.scale) - b.mantissa * pow10(a.scale)) < MAX_MANTISSA * pow10(
        a.scale + b.scale,
    )
}

/// The exact product `a * b` lies strictly inside the decimal range.
pub open spec fn exact_product_fits(a: DecimalParts, b: DecimalParts) -> bool {
    abs(a.mantissa * b.mantissa) < MAX_MANTISSA * pow10(a.scale + b.scale)
}

/// `b` is not zero and the exact quotient `a / b` lies strictly inside the decimal range.
pub open spec fn exact_quotient_fits(a: DecimalParts, b: DecimalParts) -> bool {
    &&& b.mantissa != 0
    &&& abs(a.mantissa * pow10(b.scale)) < MAX_MANTISSA * abs(b.mantissa) * pow10(a.scale)
}

/// `a + b` can be computed: the exact sum lies inside the decimal range, or
/// `rust_decimal`'s checked addition succeeds all the same.
pub open spec fn sum_fits(a: DecimalParts, b: DecimalParts) -> bool {
    exact_sum_fits(a, b) || sum_defined(a, b)
}

/// `a - b` can be computed: the exact difference lies inside the decimal range, or
/// `rust_decimal`'s checked subtraction succeeds all the same.
pub open spec fn difference_fits(a: DecimalParts, b: DecimalParts) -> bool {
    exact_difference_fits(a, b) || difference_defined(a, b)
}

/// `a * b` can be computed: the exact product lies inside the decimal range, or
/// `rust_decimal`'s checked multiplication succeeds all the same.
pub open spec fn product_fits(a: DecimalParts, b: DecimalParts) -> bool {
    exact_product_fits(a, b) || product_defined(a, b)
}

/// `a / b` can be computed: `b` is not zero and the exact quotient lies inside the
/// decimal range, or `rust_decimal`'s checked division succeeds all the same.
pub open spec fn quotient_fits(a: DecimalParts, b: DecimalParts) -> bool {
    exact_quotient_fits(a, b) || quotient_defined(a, b)
}

/// `10^n` is positive.
pub proof fn lemma_pow10_positive(n: nat)
    ensures
        pow10(n) > 0,
    decreases n,
{
    if n > 0 {
        lemma_pow10_positive((n - 1) as nat);
    }
}

/// `<=` on decimal values is transitive, whatever the scales.
pub proof fn lemma_le_transitive(a: DecimalParts, b: DecimalParts, c: DecimalParts)
    requires
        spec_le(a, b),
        spec_le(b, c),
    ensures
        spec_le(a, c),
{
    let pa = pow10(a.scale);
    let pb = pow10(b.scale);
    let pc = pow10(c.scale);
    lemma_pow10_positive(a.scale);
    lemma_pow10_positive(b.scale);
    lemma_pow10_positive(c.scale);
    assert(a.mantissa * pc <= c.mantissa * pa) by (nonlinear_arith)
        requires
            a.mantissa * pb <= b.mantissa * pa,
            b.mantissa * pc <= c.mantissa * pb,
            pa > 0,
            pb > 0,
            pc > 0,
    {
        assert(a.mantissa * pb * pc <= b.mantissa * pa * pc);
        assert(b.mantissa * pc * pa <= c.mantissa * pb * pa);
        assert(a.mantissa * pc * pb <= c.mantissa * pa * pb);
    }
}

/// Dividing a decimal by one worth ten or more stays within the decimal range.
pub proof fn lemma_quotient_fits_by_ten_or_more(a: DecimalParts, b: DecimalParts)
    requires
        -MAX_MANTISSA <= a.mantissa <= MAX_MANTISSA,
        b.mantissa >= 10 * pow10(b.scale),
    ensures
        quotient_fits(a, b),
{
    lemma_pow10_positive(a.scale);
    lemma_pow10_positive(b.scale);
    let pa = pow10(a.scale);
    let pb = pow10(b.scale);
    assert(abs(a.mantissa * pb) < MAX_MANTISSA * abs(b.mantissa) * pa) by (nonlinear_arith)
        requires
            -MAX_MANTISSA <= a.mantissa <= MAX_MANTISSA,
            b.mantissa >= 10 * pb,
            pa > 0,
            pb > 0,
            MAX_MANTISSA > 0,
    {
        assert(abs(a.mantissa * pb) <= MAX_MANTISSA * pb);
        assert(MAX_MANTISSA * pb < MAX_MANTISSA * b.mantissa);
        assert(MAX_MANTISSA * b.mantissa <= MAX_MANTISSA * b.mantissa * pa);
    }
}

/// The larger of two decimals is at least each of them, and the smaller at most each.
pub proof fn lemma_max_min_bounds(a: DecimalParts, b: DecimalParts)
    ensures
        spec_le(a, spec_max(a, b)),
        spec_le(b, spec_max(a, b)),
        spec_le(spec_min(a, b), a),
        spec_le(spec_min(a, b), b),
{
}

/// Whether `rust_decimal`'s `checked_add` succeeds on `a` and `b`.
pub uninterp spec fn sum_defined(a: DecimalParts, b: DecimalParts) -> bool;

/// Whether `rust_decimal`'s `checked_sub` succeeds on `a` and `b`.
pub uninterp spec fn difference_defined(a: DecimalParts, b: DecimalParts) -> bool;

/// Whether `rust_decimal`'s `checked_mul` succeeds on `a` and `b`.
pub uninterp spec fn product_defined(a: DecimalParts, b: DecimalParts) -> bool;

/// Whether `rust_decimal`'s `checked_div` succeeds on `a` and `b`.
pub uninterp spec fn quotient_defined(a: DecimalParts, b: DecimalParts) -> bool;

/// What `rust_decimal` returns for `a + b`.
pub uninterp spec fn decimal_sum(a: DecimalParts, b: DecimalParts) -> DecimalParts;

/// What `rust_decimal` returns for `a - b`.
pub uninterp spec fn decimal_difference(a: DecimalParts, b: DecimalParts) -> DecimalParts;

/// What `rust_decimal` returns for `a * b`.
pub uninterp spec fn decimal_product(a: DecimalParts, b: DecimalParts) -> DecimalParts;

/// What `rust_decimal` returns for `a / b`.
pub uninterp spec fn decimal_quotient(a: DecimalParts, b: DecimalParts) -> DecimalParts;

/// What `rust_decimal` returns for `a.round_dp(dp)` (round half to even).
pub uninterp spec fn decimal_round_dp(a: DecimalParts, dp: nat) -> DecimalParts;

impl Decimal {
    #[verifier::type_invariant]
    spec fn in_range(self) -> bool {
        parts_in_range(self.mantissa as int, self.scale as int)
    }

    /// The decimal `mantissa / 10^scale`, or `None` when the mantissa needs more than
    /// 96 bits or the scale exceeds 28.
    pub fn from_parts(mantissa: i128, scale: u32) -> (r: Option<Decimal>)
        ensures
            r is Some <==> parts_in_range(mantissa as int, scale as int),
            r matches Some(d) ==> d@ == (DecimalParts { mantissa: mantissa as int, scale: scale as nat }),
    {
        if -MAX_MANTISSA <= mantissa && mantissa <= MAX_MANTISSA && scale <= MAX_SCALE {
            Some(Decimal { mantissa, scale })
        } else {
            None
        }
    }

    /// The decimal `num / 10^scale`, as `rust_decimal::Decimal::new` builds it.
    pub fn new(num: i64, scale: u32) -> (r: Decimal)
        requires
            scale <= MAX_SCALE,
        ensures
            r@ == (DecimalParts { mantissa: num as int, scale: scale as nat }),
    {
        Decimal { mantissa: num as i128, scale }
    }

    /// The integer `n` as a decimal of scale 0.
    pub fn from_int(n: i64) -> (r: Decimal)
        ensures
            r@ == (DecimalParts { mantissa: n as int, scale: 0 }),
    {
        Decimal { mantissa: n as i128, scale: 0 }
    }

    /// Zero, with scale 0.
    pub fn zero() -> (r: Decimal)
        ensures
            r@ == zero_parts(),
    {
        Decimal { mantissa: 0, scale: 0 }
    }

    pub fn mantissa(&self) -> (r: i128)
        ensures
            r == self@.mantissa,
            parts_in_range(self@.mantissa, self@.scale as int),
    {
        proof {
            use_type_invariant(self);
        }
        self.mantissa
    }

    pub fn scale(&self) -> (r: u32)
        ensures
            r == self@.scale,
    {
        self.scale
    }

    /// Whether the value is zero.
    pub fn is_zero(&self) -> (r: bool)
        ensures
            r == (self@.mantissa == 0),
            parts_in_range(self@.mantissa, self@.scale as int),
    {
        proof {
            use_type_invariant(self);
        }
        self.mantissa == 0
    }

    /// Equality of values, whatever the scales: `1.0` equals `1.00`.
    pub fn value_eq(&self, other: &Decimal) -> (r: bool)
        ensures
            r == spec_value_eq(self@, other@),
    {
        !decimal_lt(*self, *other) && !decimal_lt(*other, *self)
    }

    /// Whether the value is below `other`'s.
    pub fn less_than(&self, other: &Decimal) -> (r: bool)
        ensures
            r == spec_lt(self@, other@),
    {
        decimal_lt(*self, *other)
    }

    /// Whether the value is at most `other`'s.
    pub fn at_most(&self, other: &Decimal) -> (r: bool)
        ensures
            r == spec_le(self@, other@),
    {
        !decimal_lt(*other, *self)
    }

    /// The larger value; `self` when both are equal in value, as `rust_decimal` gives it.
    pub fn max(self, other: Decimal) -> (r: Decimal)
        ensures
            r@ == spec_max(self@, other@),
    {
        if decimal_lt(self, other) {
            other
        } else {
            self
        }
    }

    /// The absolute value: the same scale with the mantissa's sign dropped, as
    /// `rust_decimal`'s `abs` clears the sign.
    pub fn abs(self) -> (r: Decimal)
        ensures
            r@ == abs_parts(self@),
    {
        proof {
            use_type_invariant(&self);
        }
        if self.mantissa < 0 {
            Decimal { mantissa: -self.mantissa, scale: self.scale }
        } else {
            self
        }
    }

    /// The smaller value; `self` when both are equal in value, as `rust_decimal` gives it.
    pub fn min(self, other: Decimal) -> (r: Decimal)
        ensures
            r@ == spec_min(self@, other@),
    {
        if decimal_lt(other, self) {
            other
        } else {
            self
        }
    }
}

/// `rust_decimal::Decimal`'s `<`, which compares exact values.
#[verifier::external_body]
pub(crate) fn decimal_lt(a: Decimal, b: Decimal) -> (r: bool)
    ensures
        r == spec_lt(a@, b@),
{
    rust_decimal::Decimal::from_i128_with_scale(a.mantissa, a.scale)
        < rust_decimal::Decimal::from_i128_with_scale(b.mantissa, b.scale)
}

/// `rust_decimal::Decimal`'s `+`, which panics only where `checked_add` fails, and not
/// when the exact sum lies inside the decimal range.
#[verifier::external_body]
pub(crate) fn decimal_add(a: Decimal, b: Decimal) -> (r: Decimal)
    requires
        sum_fits(a@, b@),
    ensures
        r@ == decimal_sum(a@, b@),
{
    let r = rust_decimal::Decimal::from_i128_with_scale(a.mantissa, a.scale)
        + rust_decimal::Decimal::from_i128_with_scale(b.mantissa, b.scale);
    Decimal { mantissa: r.mantissa(), scale: r.scale() }
}

/// `rust_decimal::Decimal`'s `-`, which panics only where `checked_sub` fails, and not
/// when the exact difference lies inside the decimal range.
#[verifier::external_body]
pub(crate) fn decimal_sub(a: Decimal, b: Decimal) -> (r: Decimal)
    requires
        difference_fits(a@, b@),
    ensures
        r@ == decimal_difference(a@, b@),
{
    let r = rust_decimal::Decimal::from_i128_with_scale(a.mantissa, a.scale)
        - rust_decimal::Decimal::from_i128_with_scale(b.mantissa, b.scale);
    Decimal { mantissa: r.mantissa(), scale: r.scale() }
}

/// `rust_decimal::Decimal`'s `*`, which panics only where `checked_mul` fails, and not
/// when the exact product lies inside the decimal range.
#[verifier::external_body]
pub(crate) fn decimal_mul(a: Decimal, b: Decimal) -> (r: Decimal)
    requires
        product_fits(a@, b@),
    ensures
        r@ == decimal_product(a@, b@),
{
    let r = rust_decimal::Decimal::from_i128_with_scale(a.mantissa, a.scale)
        * rust_decimal::Decimal::from_i128_with_scale(b.mantissa, b.scale);
    Decimal { mantissa: r.mantissa(), scale: r.scale() }
}

/// `rust_decimal::Decimal`'s `/`, which panics only where `checked_div` fails, and not
/// when the divisor is not zero and the exact quotient lies inside the decimal range.
#[verifier::external_body]
pub(crate) fn decimal_div(a: Decimal, b: Decimal) -> (r: Decimal)
    requires
        quotient_fits(a@, b@),
    ensures
        r@ == decimal_quotient(a@, b@),
{
    let r = rust_decimal::Decimal::from_i128_with_scale(a.mantissa, a.scale)
        / rust_decimal::Decimal::from_i128_with_scale(b.mantissa, b.scale);
    Decimal { mantissa: r.mantissa(), scale: r.scale() }
}

/// `rust_decimal::Decimal::round_dp` (midpoint to even); it never panics.
#[verifier::external_body]
pub(crate) fn decimal_round(a: Decimal, dp: u32) -> (r: Decimal)
    ensures
        r@ == decimal_round_dp(a@, dp as nat),
{
    let r = rust_decimal::Decimal::from_i128_with_scale(a.mantissa, a.scale).round_dp(dp);
    Decimal { mantissa: r.mantissa(), scale: r.scale() }
}


/// `rust_decimal::Decimal::checked_add`, which runs the same addition as `+` and gives
/// `None` exactly where `+` would panic, which it does not when the exact sum lies
/// inside the decimal range.
#[verifier::external_body]
pub(crate) fn decimal_checked_add(a: Decimal, b: Decimal) -> (r: Option<Decimal>)
    ensures
        (r is Some) == sum_defined(a@, b@),
        r matches Some(d) ==> d@ == decimal_sum(a@, b@),
        exact_sum_fits(a@, b@) ==> r is Some,
{
    match rust_decimal::Decimal::from_i128_with_scale(a.mantissa, a.scale).checked_add(
        rust_decimal::Decimal::from_i128_with_scale(b.mantissa, b.scale),
    ) {
        Some(r) => Some(Decimal { mantissa: r.mantissa(), scale: r.scale() }),
        None => None,
    }
}

/// `rust_decimal::Decimal::checked_sub`, which runs the same subtraction as `-` and gives
/// `None` exactly where `-` would panic, which it does not when the exact difference lies
/// inside the decimal range.
#[verifier::external_body]
pub(crate) fn decimal_checked_sub(a: Decimal, b: Decimal) -> (r: Option<Decimal>)
    ensures
        (r is Some) == difference_defined(a@, b@),
        r matches Some(d) ==> d@ == decimal_difference(a@, b@),
        exact_difference_fits(a@, b@) ==> r is Some,
{
    match rust_decimal::Decimal::from_i128_with_scale(a.mantissa, a.scale).checked_sub(
        rust_decimal::Decimal::from_i128_with_scale(b.mantissa, b.scale),
    ) {
        Some(r) => Some(Decimal { mantissa: r.mantissa(), scale: r.scale() }),
        None => None,
    }
}

/// `rust_decimal::Decimal::checked_mul`, which runs the same multiplication as `*` and
/// gives `None` exactly where `*` would panic, which it does not when the exact product
/// lies inside the decimal range.
#[verifier::external_body]
pub(crate) fn decimal_checked_mul(a: Decimal, b: Decimal) -> (r: Option<Decimal>)
    ensures
        (r is Some) == product_defined(a@, b@),
        r matches Some(d) ==> d@ == decimal_product(a@, b@),
        exact_product_fits(a@, b@) ==> r is Some,
{
    match rust_decimal::Decimal::from_i128_with_scale(a.mantissa, a.scale).checked_mul(
        rust_decimal::Decimal::from_i128_with_scale(b.mantissa, b.scale),
    ) {
        Some(r) => Some(Decimal { mantissa: r.mantissa(), scale: r.scale() }),
        None => None,
    }
}

/// `rust_decimal::Decimal::checked_div`, which runs the same division as `/` and gives
/// `None` exactly where `/` would panic, which it does not when the divisor is not zero
/// and the exact quotient lies inside the decimal range.
#[verifier::external_body]
pub(crate) fn decimal_checked_div(a: Decimal, b: Decimal) -> (r: Option<Decimal>)
    ensures
        (r is Some) == quotient_defined(a@, b@),
        r matches Some(d) ==> d@ == decimal_quotient(a@, b@),
        exact_quotient_fits(a@, b@) ==> r is Some,
{
    match rust_decimal::Decimal::from_i128_with_scale(a.mantissa, a.scale).checked_div(
        rust_decimal::Decimal::from_i128_with_scale(b.mantissa, b.scale),
    ) {
        Some(r) => Some(Decimal { mantissa: r.mantissa(), scale: r.scale() }),
        None => None,
    }
}

/// `a + b`, when it can be computed.
pub fn checked_sum(a: Decimal, b: Decimal) -> (r: Option<Decimal>)
    ensures
        (r is Some) == sum_fits(a@, b@),
        r matches Some(d) ==> d@ == decimal_sum(a@, b@),
{
    decimal_checked_add(a, b)
}

/// `a - b`, when it can be computed.
pub fn checked_difference(a: Decimal, b: Decimal) -> (r: Option<Decimal>)
    ensures
        (r is Some) == difference_fits(a@, b@),
        r matches Some(d) ==> d@ == decimal_difference(a@, b@),
{
    decimal_checked_sub(a, b)
}

/// `a * b`, when it can be computed.
pub fn checked_product(a: Decimal, b: Decimal) -> (r: Option<Decimal>)
    ensures
        (r is Some) == product_fits(a@, b@),
        r matches Some(d) ==> d@ == decimal_product(a@, b@),
{
    decimal_checked_mul(a, b)
}

/// `a / b`, when it can be computed.
pub fn checked_quotient(a: Decimal, b: Decimal) -> (r: Option<Decimal>)
    ensures
        (r is Some) == quotient_fits(a@, b@),
        r matches Some(d) ==> d@ == decimal_quotient(a@, b@),
{
    decimal_checked_div(a, b)
}

} // verus!
