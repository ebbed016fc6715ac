//! Fixed-point decimal quantities (prices, quantities, balances).
//!
//! A `Dec` holds the two plain values that describe a `rust_decimal::Decimal`:
//! a signed mantissa below 2^96 in magnitude and a scale of at most 28, so that
//! its value is `mantissa / 10^scale`.  Arithmetic that may round is computed by
//! `rust_decimal` itself; the library states what those results are when they are
//! exact and names them otherwise.
use crate::text::decimal_digits;
use rust_decimal::Decimal;
use vstd::prelude::*;

verus! {

/// The largest mantissa magnitude of a decimal (2^96 - 1).
pub const MAX_MANTISSA: i128 = 79228162514264337593543950335;

/// The largest number of fractional digits of a decimal.
pub const MAX_SCALE: u32 = 28;

/// `10^n`.
pub open spec fn pow10(n: nat) -> int
    decreases n,
{
    if n == 0 {
        1
    } else {
        10 * pow10((n - 1) as nat)
    }
}

/// Whether an integer fits in a decimal mantissa.
pub open spec fn fits_mantissa(x: int) -> bool {
    -MAX_MANTISSA <= x <= MAX_MANTISSA
}

/// A decimal number `mantissa / 10^scale`.
#[derive(Clone, Copy, Debug)]
pub struct Dec {
    pub(crate) mantissa: i128,
    pub(crate) scale: u32,
}

impl Dec {
    #[verifier::type_invariant]
    spec fn inv(self) -> bool {
        &&& self.scale <= MAX_SCALE
        &&& fits_mantissa(self.mantissa as int)
    }

    /// The mantissa.
    pub open(crate) spec fn m(self) -> int {
        self.mantissa as int
    }

    /// The scale (number of fractional digits).
    pub open(crate) spec fn s(self) -> int {
        self.scale as int
    }

    /// The pair (mantissa, scale).
    pub open spec fn parts(self) -> (int, int) {
        (self.m(), self.s())
    }

    /// The value of `self` is `num / 10^sc`.
    pub open spec fn has_value(self, num: int, sc: nat) -> bool {
        self.m() * pow10(sc) == num * pow10(self.s() as nat)
    }

    /// `self` is zero.
    pub open spec fn spec_is_zero(self) -> bool {
        self.m() == 0
    }

    /// Builds a decimal from a mantissa and a scale; `None` where
    /// `rust_decimal::Decimal::try_from_i128_with_scale` refuses them.
    pub fn from_i128_with_scale(mantissa: i128, scale: u32) -> (r: Option<Dec>)
        ensures
            r is Some <==> (scale <= MAX_SCALE && fits_mantissa(mantissa as int)),
            r matches Some(d) ==> d.parts() == (mantissa as int, scale as int),
    {
        if scale <= MAX_SCALE && -MAX_MANTISSA <= mantissa && mantissa <= MAX_MANTISSA {
            Some(Dec { mantissa, scale })
        } else {
            None
        }
    }

    /// `num / 10^scale`, as `rust_decimal::Decimal::new` builds it.
    pub fn new(num: i64, scale: u32) -> (r: Dec)
        requires
            scale <= MAX_SCALE,
        ensures
            r.parts() == (num as int, scale as int),
    {
        Dec { mantissa: num as i128, scale }
    }

    /// The integer `num` at scale 0, as `Decimal::from` an `i64` builds it.
    pub fn from_i64(num: i64) -> (r: Dec)
        ensures
            r.parts() == (num as int, 0int),
    {
        Dec { mantissa: num as i128, scale: 0 }
    }

    /// Zero at scale 0 (`Decimal::ZERO`).
    pub fn zero() -> (r: Dec)
        ensures
            r.parts() == (0int, 0int),
            r == spec_zero(),
    {
        Dec { mantissa: 0, scale: 0 }
    }

    /// The mantissa.
    pub fn mantissa(&self) -> (r: i128)
        ensures
            r == self.m(),
    {
        self.mantissa
    }

    /// The scale.
    pub fn scale(&self) -> (r: u32)
        ensures
            r == self.s(),
    {
        self.scale
    }

    /// Whether the value is zero.
    pub fn is_zero(&self) -> (r: bool)
        ensures
            r == self.spec_is_zero(),
    {
        self.mantissa == 0
    }

    /// The negation: the mantissa with its sign flipped, at the same scale.
    pub fn neg(&self) -> (r: Dec)
        ensures
            r.parts() == (-self.m(), self.s()),
    {
        proof {
            use_type_invariant(self);
        }
        Dec { mantissa: -self.mantissa, scale: self.scale }
    }

    /// The absolute value: the mantissa's magnitude, at the same scale.
    pub fn abs(&self) -> (r: Dec)
        ensures
            r.parts() == (if self.m() < 0 { -self.m() } else { self.m() }, self.s()),
    {
        proof {
            use_type_invariant(self);
        }
        if self.mantissa < 0 {
            Dec { mantissa: -self.mantissa, scale: self.scale }
        } else {
            Dec { mantissa: self.mantissa, scale: self.scale }
        }
    }
}

/// Zero at scale 0, the value `Dec::zero` returns.
pub open(crate) spec fn spec_zero() -> Dec {
    Dec { mantissa: 0, scale: 0 }
}

/// Two decimals with the same mantissa and scale are the same decimal.
pub proof fn lemma_parts_determine(a: Dec, b: Dec)
    requires
        a.parts() == b.parts(),
    ensures
        a == b,
{
}

/// Every power of ten is positive.
pub proof fn lemma_pow10_positive(n: nat)
    ensures
        pow10(n) > 0,
    decreases n,
{
    if n > 0 {
        lemma_pow10_positive((n - 1) as nat);
    }
}

/// Comparing `a / 10^es` with `|em| / 10^ms` is comparing `a / 10^s` with
/// `|x| / 10^ms` when `em / 10^es` and `x / 10^s` are the same number.
pub proof fn lemma_scaled_compare(a: int, em: int, x: int, es: nat, s: nat, ms: nat)
    requires
        em * pow10(s) == x * pow10(es),
    ensures
        (a * pow10(es) < (if em < 0 { -em } else { em }) * pow10(ms)) <==> (a * pow10(s) < (if x < 0 { -x } else { x }) * pow10(ms)),
{
    lemma_pow10_positive(es);
    lemma_pow10_positive(s);
    lemma_pow10_positive(ms);
    let p = pow10(es);
    let q = pow10(s);
    let m = pow10(ms);
    let ae = if em < 0 { -em } else { em };
    let ax = if x < 0 { -x } else { x };
    assert(ae * q == ax * p) by (nonlinear_arith)
        requires
            em * q == x * p,
            p > 0,
            q > 0,
            ae == (if em < 0 { -em } else { em }),
            ax == (if x < 0 { -x } else { x }),
    ;
    assert((a * p < ae * m) <==> (a * q < ax * m)) by (nonlinear_arith)
        requires
            ae * q == ax * p,
            p > 0,
            q > 0,
            m > 0,
    ;
}

/// A decimal is above zero exactly when its mantissa is, and below zero exactly
/// when its mantissa is.
pub proof fn lemma_compare_zero(d: Dec)
    ensures
        value_lt(spec_zero(), d) <==> d.m() > 0,
        value_lt(d, spec_zero()) <==> d.m() < 0,
{
    assert(pow10(0) == 1);
    let z = spec_zero().m();
    let pw = pow10(d.s() as nat);
    assert(z == 0);
    assert(z * pw == 0) by (nonlinear_arith)
        requires
            z == 0,
    ;
}

/// The pair (mantissa, scale) of an optional decimal.
pub open spec fn opt_parts(r: Option<Dec>) -> Option<(int, int)> {
    match r {
        Some(d) => Some(d.parts()),
        None => None,
    }
}

/// The larger of the two scales.
pub open spec fn max_scale(a: Dec, b: Dec) -> nat {
    if a.s() >= b.s() {
        a.s() as nat
    } else {
        b.s() as nat
    }
}

/// The mantissa of `d` written at scale `sc` (at least `d`'s own).
pub open spec fn aligned(d: Dec, sc: nat) -> int {
    d.m() * pow10((sc - d.s()) as nat)
}

/// The exact sum of `a` and `b`, as a mantissa at scale `max_scale(a, b)`.
pub open spec fn exact_sum(a: Dec, b: Dec) -> int {
    aligned(a, max_scale(a, b)) + aligned(b, max_scale(a, b))
}

/// The exact difference `a - b`, as a mantissa at scale `max_scale(a, b)`.
pub open spec fn exact_difference(a: Dec, b: Dec) -> int {
    aligned(a, max_scale(a, b)) - aligned(b, max_scale(a, b))
}

/// `a < b` as numbers.
pub open spec fn value_lt(a: Dec, b: Dec) -> bool {
    a.m() * pow10(b.s() as nat) < b.m() * pow10(a.s() as nat)
}

/// `a == b` as numbers (`1.0 == 1.00`).
pub open spec fn value_eq(a: Dec, b: Dec) -> bool {
    a.m() * pow10(b.s() as nat) == b.m() * pow10(a.s() as nat)
}

/// What `rust_decimal::Decimal::checked_add` returns, as (mantissa, scale).
pub uninterp spec fn decimal_sum(a_mantissa: int, a_scale: int, b_mantissa: int, b_scale: int) -> Option<(int, int)>;

/// What `rust_decimal::Decimal::checked_sub` returns, as (mantissa, scale).
pub uninterp spec fn decimal_difference(a_mantissa: int, a_scale: int, b_mantissa: int, b_scale: int) -> Option<(int, int)>;

/// What `rust_decimal::Decimal::checked_mul` returns, as (mantissa, scale).
pub uninterp spec fn decimal_product(a_mantissa: int, a_scale: int, b_mantissa: int, b_scale: int) -> Option<(int, int)>;

/// What `rust_decimal::Decimal::checked_div` returns, as (mantissa, scale).
pub uninterp spec fn decimal_quotient(a_mantissa: int, a_scale: int, b_mantissa: int, b_scale: int) -> Option<(int, int)>;

/// What `str::parse::<rust_decimal::Decimal>` returns for a text, as (mantissa,
/// scale).
pub uninterp spec fn decimal_from_text(text: Seq<char>) -> Option<(int, int)>;

/// The digits of a mantissa's magnitude, none for zero.
pub open spec fn magnitude_digits(mantissa: int) -> Seq<char> {
    if mantissa == 0 {
        Seq::empty()
    } else if mantissa < 0 {
        decimal_digits((-mantissa) as nat)
    } else {
        decimal_digits(mantissa as nat)
    }
}

/// `digits` with zeros put in front until it is at least `width` long.
pub open spec fn zero_padded(digits: Seq<char>, width: nat) -> Seq<char> {
    if digits.len() >= width {
        digits
    } else {
        Seq::new((width - digits.len()) as nat, |i: int| '0') + digits
    }
}

/// What `Decimal`'s `Display` writes for a mantissa and a scale: a minus sign
/// for a negative value, then the magnitude's digits padded with zeros to at
/// least `scale` digits; with a scale, the point stands before the last `scale`
/// digits, with a zero before it when no digit is left there; without one, zero
/// is written "0".
pub open spec fn decimal_text(mantissa: int, scale: int) -> Seq<char> {
    let digits = zero_padded(magnitude_digits(mantissa), scale as nat);
    let whole = digits.take(digits.len() - scale);
    let body = if scale == 0 {
        if digits.len() == 0 {
            "0"@
        } else {
            digits
        }
    } else {
        (if whole.len() == 0 {
            "0"@
        } else {
            whole
        }) + "."@ + digits.skip(digits.len() - scale)
    };
    if mantissa < 0 {
        "-"@ + body
    } else {
        body
    }
}

/// `a + b` as `rust_decimal` computes it.
pub open spec fn spec_sum(a: Dec, b: Dec) -> Option<(int, int)> {
    decimal_sum(a.m(), a.s(), b.m(), b.s())
}

/// `a - b` as `rust_decimal` computes it.
pub open spec fn spec_difference(a: Dec, b: Dec) -> Option<(int, int)> {
    decimal_difference(a.m(), a.s(), b.m(), b.s())
}

/// `a / b` as `rust_decimal` computes it.
pub open spec fn spec_quotient(a: Dec, b: Dec) -> Option<(int, int)> {
    decimal_quotient(a.m(), a.s(), b.m(), b.s())
}

/// `a * b` as `rust_decimal` computes it.
pub open spec fn spec_product(a: Dec, b: Dec) -> Option<(int, int)> {
    decimal_product(a.m(), a.s(), b.m(), b.s())
}

/// Calls `rust_decimal::Decimal::checked_add`.  The claim: the result is the name
/// `decimal_sum` of the two operands, and where the exact sum, written at the larger
/// of the two scales, fits a mantissa, the result is `Some` and has exactly that value
/// (the source adds the aligned mantissas without rounding in that case).
#[verifier::external_body]
fn raw_checked_add(a: &Dec, b: &Dec) -> (r: Option<Dec>)
    ensures
        opt_parts(r) == decimal_sum(a.m(), a.s(), b.m(), b.s()),
        r is Some || !fits_mantissa(exact_sum(*a, *b)),
        r matches Some(d) ==> (fits_mantissa(exact_sum(*a, *b)) ==> d.has_value(exact_sum(*a, *b), max_scale(*a, *b))),
{
    let x = Decimal::from_i128_with_scale(a.mantissa, a.scale);
    let y = Decimal::from_i128_with_scale(b.mantissa, b.scale);
    match x.checked_add(y) {
        Some(z) => Some(Dec { mantissa: z.mantissa(), scale: z.scale() }),
        None => None,
    }
}

/// Calls `rust_decimal::Decimal::checked_sub`.  The claim: the result is the name
/// `decimal_difference` of the two operands, and where the exact difference, written
/// at the larger of the two scales, fits a mantissa, the result is `Some` and has
/// exactly that value.
#[verifier::external_body]
fn raw_checked_sub(a: &Dec, b: &Dec) -> (r: Option<Dec>)
    ensures
        opt_parts(r) == decimal_difference(a.m(), a.s(), b.m(), b.s()),
        r is Some || !fits_mantissa(exact_difference(*a, *b)),
        r matches Some(d) ==> (fits_mantissa(exact_difference(*a, *b)) ==> d.has_value(exact_difference(*a, *b), max_scale(*a, *b))),
{
    let x = Decimal::from_i128_with_scale(a.mantissa, a.scale);
    let y = Decimal::from_i128_with_scale(b.mantissa, b.scale);
    match x.checked_sub(y) {
        Some(z) => Some(Dec { mantissa: z.mantissa(), scale: z.scale() }),
        None => None,
    }
}

/// Calls `rust_decimal::Decimal::checked_mul`.  The claim: the result is the name
/// `decimal_product` of the two operands, and where the product of the mantissas fits
/// a mantissa and the two scales add up to at most 28, the result is `Some` and has
/// exactly the value of the product.
#[verifier::external_body]
fn raw_checked_mul(a: &Dec, b: &Dec) -> (r: Option<Dec>)
    ensures
        opt_parts(r) == decimal_product(a.m(), a.s(), b.m(), b.s()),
        r is Some || !(fits_mantissa(a.m() * b.m()) && a.s() + b.s() <= MAX_SCALE),
        r matches Some(d) ==> ((fits_mantissa(a.m() * b.m()) && a.s() + b.s() <= MAX_SCALE) ==> d.has_value(a.m() * b.m(), (a.s() + b.s()) as nat)),
{
    let x = Decimal::from_i128_with_scale(a.mantissa, a.scale);
    let y = Decimal::from_i128_with_scale(b.mantissa, b.scale);
    match x.checked_mul(y) {
        Some(z) => Some(Dec { mantissa: z.mantissa(), scale: z.scale() }),
        None => None,
    }
}

/// Calls `rust_decimal::Decimal::checked_div`.  The claim: the result is the name
/// `decimal_quotient` of the two operands, and a zero divisor gives `None` (the
/// source reports division by zero as a failed calculation).
#[verifier::external_body]
fn raw_checked_div(a: &Dec, b: &Dec) -> (r: Option<Dec>)
    ensures
        opt_parts(r) == decimal_quotient(a.m(), a.s(), b.m(), b.s()),
        b.m() == 0 ==> r is None,
{
    let x = Decimal::from_i128_with_scale(a.mantissa, a.scale);
    let y = Decimal::from_i128_with_scale(b.mantissa, b.scale);
    match x.checked_div(y) {
        Some(z) => Some(Dec { mantissa: z.mantissa(), scale: z.scale() }),
        None => None,
    }
}

/// Calls `str::parse::<rust_decimal::Decimal>` (its `FromStr`).  The claim: the
/// result is the name `decimal_from_text` of the text.
#[verifier::external_body]
fn raw_parse(text: &str) -> (r: Option<Dec>)
    ensures
        opt_parts(r) == decimal_from_text(text@),
{
    match text.parse::<Decimal>() {
        Ok(z) => Some(Dec { mantissa: z.mantissa(), scale: z.scale() }),
        Err(_) => None,
    }
}

/// Calls `<` on two `rust_decimal::Decimal`s, which compares their values.
#[verifier::external_body]
fn raw_lt(a: &Dec, b: &Dec) -> (r: bool)
    ensures
        r == value_lt(*a, *b),
{
    Decimal::from_i128_with_scale(a.mantissa, a.scale) < Decimal::from_i128_with_scale(b.mantissa, b.scale)
}

/// Calls `Decimal`'s `Display` (through `to_string`) on the decimal with this
/// mantissa and scale.  The claim: it writes `decimal_text` of them.
#[verifier::external_body]
fn raw_to_string(a: &Dec) -> (r: String)
    ensures
        r@ == decimal_text(a.m(), a.s()),
{
    Decimal::from_i128_with_scale(a.mantissa, a.scale).to_string()
}

impl Dec {
    /// `self + other`; `None` where the sum overflows.
    pub fn checked_add(&self, other: &Dec) -> (r: Option<Dec>)
        ensures
            opt_parts(r) == spec_sum(*self, *other),
            fits_mantissa(exact_sum(*self, *other)) ==> (r matches Some(d) && d.has_value(exact_sum(*self, *other), max_scale(*self, *other))),
    {
        raw_checked_add(self, other)
    }

    /// `self - other`; `None` where the difference overflows.
    pub fn checked_sub(&self, other: &Dec) -> (r: Option<Dec>)
        ensures
            opt_parts(r) == spec_difference(*self, *other),
            fits_mantissa(exact_difference(*self, *other)) ==> (r matches Some(d) && d.has_value(exact_difference(*self, *other), max_scale(*self, *other))),
    {
        raw_checked_sub(self, other)
    }

    /// `self * other`; `None` where the product overflows.
    pub fn checked_mul(&self, other: &Dec) -> (r: Option<Dec>)
        ensures
            opt_parts(r) == spec_product(*self, *other),
            (fits_mantissa(self.m() * other.m()) && self.s() + other.s() <= MAX_SCALE) ==> (r matches Some(d) && d.has_value(self.m() * other.m(), (self.s() + other.s()) as nat)),
    {
        raw_checked_mul(self, other)
    }

    /// `self + other` (the `+` of `Decimal`, which panics on overflow).
    pub fn add(&self, other: &Dec) -> (r: Dec)
        requires
            spec_sum(*self, *other) is Some,
        ensures
            Some(r.parts()) == spec_sum(*self, *other),
            fits_mantissa(exact_sum(*self, *other)) ==> r.has_value(exact_sum(*self, *other), max_scale(*self, *other)),
    {
        raw_checked_add(self, other).unwrap()
    }

    /// `self - other` (the `-` of `Decimal`, which panics on overflow).
    pub fn sub(&self, other: &Dec) -> (r: Dec)
        requires
            spec_difference(*self, *other) is Some,
        ensures
            Some(r.parts()) == spec_difference(*self, *other),
            fits_mantissa(exact_difference(*self, *other)) ==> r.has_value(exact_difference(*self, *other), max_scale(*self, *other)),
    {
        raw_checked_sub(self, other).unwrap()
    }

    /// `self * other` (the `*` of `Decimal`, which panics on overflow).
    pub fn mul(&self, other: &Dec) -> (r: Dec)
        requires
            spec_product(*self, *other) is Some,
        ensures
            Some(r.parts()) == spec_product(*self, *other),
            (fits_mantissa(self.m() * other.m()) && self.s() + other.s() <= MAX_SCALE) ==> r.has_value(self.m() * other.m(), (self.s() + other.s()) as nat),
    {
        raw_checked_mul(self, other).unwrap()
    }

    /// `self / other`; `None` where the divisor is zero or the quotient overflows.
    pub fn checked_div(&self, other: &Dec) -> (r: Option<Dec>)
        ensures
            opt_parts(r) == spec_quotient(*self, *other),
            other.m() == 0 ==> r is None,
    {
        raw_checked_div(self, other)
    }

    /// The decimal a text denotes, as `Decimal` parses it; `None` for a text it
    /// refuses.
    pub fn parse(text: &str) -> (r: Option<Dec>)
        ensures
            opt_parts(r) == decimal_from_text(text@),
    {
        raw_parse(text)
    }

    /// `self < other` as numbers.
    pub fn lt(&self, other: &Dec) -> (r: bool)
        ensures
            r == value_lt(*self, *other),
    {
        raw_lt(self, other)
    }

    /// `self > other` as numbers.
    pub fn gt(&self, other: &Dec) -> (r: bool)
        ensures
            r == value_lt(*other, *self),
    {
        raw_lt(other, self)
    }

    /// `self == other` as numbers.
    pub fn value_eq(&self, other: &Dec) -> (r: bool)
        ensures
            r == value_eq(*self, *other),
    {
        !raw_lt(self, other) && !raw_lt(other, self)
    }

    /// The text `Decimal` displays for this value.
    pub fn to_string(&self) -> (r: String)
        ensures
            r@ == decimal_text(self.m(), self.s()),
    {
        raw_to_string(self)
    }
}

} // verus!
