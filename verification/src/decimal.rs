//! Exact decimal numbers: an integer mantissa and a power-of-ten scale.
//!
//! The arithmetic that needs rounding rules is done by `rust_decimal`; this
//! module holds the numbers as plain integers so that the rest of the library
//! can reason about them.

use vstd::prelude::*;

verus! {

/// Largest magnitude a mantissa can have: 96 bits, all set.
pub const MAX_MANTISSA: i128 = 0xFFFF_FFFF_FFFF_FFFF_FFFF_FFFF;

/// Largest number of digits that can follow the decimal point.
pub const MAX_SCALE: u32 = 28;

/// The number `mantissa / 10^scale`.
pub struct DecimalView {
    pub mantissa: int,
    pub scale: nat,
}

/// A decimal number `mantissa / 10^scale`, with `|mantissa| <= MAX_MANTISSA`
/// and `scale <= MAX_SCALE`.
#[derive(Clone, Copy, Debug, PartialEq, Eq, Structural)]
pub struct Decimal {
    mantissa: i128,
    scale: u32,
}

impl View for Decimal {
    type V = DecimalView;

    closed spec fn view(&self) -> DecimalView {
        DecimalView { mantissa: self.mantissa as int, scale: self.scale as nat }
    }
}

impl DeepView for Decimal {
    type V = DecimalView;

    open spec fn deep_view(&self) -> DecimalView {
        self@
    }
}

/// Whether a mantissa and a scale are within the representable range.
pub open spec fn representable(mantissa: int, scale: nat) -> bool {
    -MAX_MANTISSA <= mantissa <= MAX_MANTISSA && scale <= MAX_SCALE
}

impl Decimal {
    #[verifier::type_invariant]
    spec fn in_range(self) -> bool {
        representable(self.mantissa as int, self.scale as nat)
    }

    /// The decimal `mantissa / 10^scale`, if it is representable.
    pub fn try_new(mantissa: i128, scale: u32) -> (r: Option<Decimal>)
        ensures
            r is Some <==> representable(mantissa as int, scale as nat),
            r matches Some(d) ==> d@ == (DecimalView { mantissa: mantissa as int, scale: scale as nat }),
    {
        if scale <= MAX_SCALE && -MAX_MANTISSA <= mantissa && mantissa <= MAX_MANTISSA {
            Some(Decimal { mantissa, scale })
        } else {
            None
        }
    }

    /// Zero, with no digits after the decimal point.
    pub fn zero() -> (r: Decimal)
        ensures
            r@ == (DecimalView { mantissa: 0, scale: 0 }),
    {
        Decimal { mantissa: 0, scale: 0 }
    }

    /// One, with one digit after the decimal point.
    pub fn one() -> (r: Decimal)
        ensures
            r@ == (DecimalView { mantissa: 10, scale: 1 }),
    {
        Decimal { mantissa: 10, scale: 1 }
    }

    /// The digits of the number, as an integer.
    pub fn mantissa(&self) -> (m: i128)
        ensures
            m == self@.mantissa,
            representable(self@.mantissa, self@.scale),
    {
        proof {
            use_type_invariant(self);
        }
        self.mantissa
    }

    /// How many of the digits follow the decimal point.
    pub fn scale(&self) -> (s: u32)
        ensures
            s == self@.scale,
            representable(self@.mantissa, self@.scale),
    {
        proof {
            use_type_invariant(self);
        }
        self.scale
    }
}

impl Decimal {
    /// Whether the number is below zero.
    pub fn is_negative(&self) -> (b: bool)
        ensures
            b == (self@.mantissa < 0),
    {
        self.mantissa < 0
    }

    /// Whether the number is zero or below.
    pub fn is_zero_or_negative(&self) -> (b: bool)
        ensures
            b == (self@.mantissa <= 0),
    {
        self.mantissa <= 0
    }

    /// The number with its sign flipped; the scale stays.
    pub fn neg(self) -> (r: Decimal)
        ensures
            r@ == (DecimalView { mantissa: -self@.mantissa, scale: self@.scale }),
    {
        proof {
            use_type_invariant(self);
        }
        Decimal { mantissa: -self.mantissa, scale: self.scale }
    }

    /// The magnitude of the number; the scale stays.
    pub fn abs(self) -> (r: Decimal)
        ensures
            r@ == (DecimalView { mantissa: abs_int(self@.mantissa), scale: self@.scale }),
    {
        if self.mantissa < 0 {
            self.neg()
        } else {
            self
        }
    }
}

/// The magnitude of an integer.
pub open spec fn abs_int(m: int) -> int {
    if m < 0 {
        -m
    } else {
        m
    }
}

/// `10^n`.
pub open spec fn pow10(n: nat) -> int
    decreases n,
{
    if n == 0 {
        1
    } else {
        10 * pow10((n - 1) as nat)
    }
}

/// The integer nearest to `m / d`; a tie goes to the even neighbour.
pub open spec fn div_round_half_even(m: int, d: int) -> int
    recommends
        d > 0,
{
    let q = abs_int(m) / d;
    let r = abs_int(m) % d;
    let rounded = if 2 * r > d || (2 * r == d && q % 2 == 1) {
        q + 1
    } else {
        q
    };
    if m < 0 {
        -rounded
    } else {
        rounded
    }
}

/// `x` with at most `dp` digits after the decimal point: unchanged if it has
/// no more than that, else rounded to `dp` digits, ties to even.
pub open spec fn round_dp_spec(x: DecimalView, dp: nat) -> DecimalView {
    if x.scale <= dp {
        x
    } else {
        DecimalView {
            mantissa: div_round_half_even(x.mantissa, pow10((x.scale - dp) as nat)),
            scale: dp,
        }
    }
}

/// What `rust_decimal` reads from a string: the number, or nothing if the
/// string is not a decimal number it can hold exactly.
pub uninterp spec fn from_str_exact_result(s: Seq<char>) -> Option<DecimalView>;

/// What `rust_decimal` gives for the product of two numbers: the product,
/// rounded where it has more digits than fit, or nothing if it is too large.
pub uninterp spec fn checked_mul_result(a: DecimalView, b: DecimalView) -> Option<DecimalView>;

/// What `rust_decimal` gives for the quotient of two numbers: the quotient,
/// rounded to the digits that fit, or nothing if it cannot be formed.
pub uninterp spec fn checked_div_result(a: DecimalView, b: DecimalView) -> Option<DecimalView>;

/// The product of two numbers where it is known without rounding: plain
/// zero where a factor is zero, and the product of the mantissas with the
/// scales added where that is representable.
pub open spec fn exact_product(a: DecimalView, b: DecimalView) -> Option<DecimalView> {
    if a.mantissa == 0 || b.mantissa == 0 {
        Some(DecimalView { mantissa: 0, scale: 0 })
    } else if representable(a.mantissa * b.mantissa, a.scale + b.scale) {
        Some(DecimalView { mantissa: a.mantissa * b.mantissa, scale: a.scale + b.scale })
    } else {
        None
    }
}

/// The error of `rust_decimal`, carried through without a look inside.
#[verifier::external_type_specification]
#[verifier::external_body]
pub struct ExDecimalError(rust_decimal::Error);

/// `rust_decimal::Decimal::from_str_exact`. The contract claims only that
/// the outcome is a function of the characters: a number comes back exactly
/// when `from_str_exact_result` holds one, and it is that number.
#[verifier::external_body]
fn parse_exact(s: &str) -> (r: Result<Decimal, rust_decimal::Error>)
    ensures
        r is Ok <==> from_str_exact_result(s@) is Some,
        r matches Ok(d) ==> Some(d@) == from_str_exact_result(s@),
{
    match rust_decimal::Decimal::from_str_exact(s) {
        Ok(d) => Ok(Decimal { mantissa: d.mantissa(), scale: d.scale() }),
        Err(e) => Err(e),
    }
}

/// `rust_decimal::Decimal::checked_mul`. The contract claims that the outcome
/// is a function of the two numbers (`checked_mul_result`), that a zero
/// factor gives plain zero, and that for non-zero factors whose exact product
/// is representable the outcome is that product with the scales added
/// (`exact_product`).
#[verifier::external_body]
fn multiply(a: Decimal, b: Decimal) -> (r: Option<Decimal>)
    requires
        representable(a@.mantissa, a@.scale),
        representable(b@.mantissa, b@.scale),
    ensures
        r.deep_view() == checked_mul_result(a@, b@),
        exact_product(a@, b@) is Some ==> r.deep_view() == exact_product(a@, b@),
{
    let x = rust_decimal::Decimal::from_i128_with_scale(a.mantissa, a.scale);
    let y = rust_decimal::Decimal::from_i128_with_scale(b.mantissa, b.scale);
    match x.checked_mul(y) {
        Some(p) => Some(Decimal { mantissa: p.mantissa(), scale: p.scale() }),
        None => None,
    }
}

/// `rust_decimal::Decimal::checked_div`. The contract claims that the outcome
/// is a function of the two numbers (`checked_div_result`) and that there is
/// none when the divisor is zero.
#[verifier::external_body]
fn divide(a: Decimal, b: Decimal) -> (r: Option<Decimal>)
    requires
        representable(a@.mantissa, a@.scale),
        representable(b@.mantissa, b@.scale),
    ensures
        r.deep_view() == checked_div_result(a@, b@),
        b@.mantissa == 0 ==> r is None,
{
    let x = rust_decimal::Decimal::from_i128_with_scale(a.mantissa, a.scale);
    let y = rust_decimal::Decimal::from_i128_with_scale(b.mantissa, b.scale);
    match x.checked_div(y) {
        Some(q) => Some(Decimal { mantissa: q.mantissa(), scale: q.scale() }),
        None => None,
    }
}

/// `rust_decimal::Decimal::round_dp`. The contract claims what its
/// documentation says: a number with no more than `dp` digits after the
/// decimal point comes back unchanged, any other is rounded to `dp` digits
/// with ties going to the even neighbour.
#[verifier::external_body]
fn round_to(x: Decimal, dp: u32) -> (r: Decimal)
    requires
        representable(x@.mantissa, x@.scale),
    ensures
        r@ == round_dp_spec(x@, dp as nat),
{
    let d = rust_decimal::Decimal::from_i128_with_scale(x.mantissa, x.scale).round_dp(dp);
    Decimal { mantissa: d.mantissa(), scale: d.scale() }
}

impl Decimal {
    /// Reads a number written with a full stop before its fraction, if the
    /// text is one that can be held exactly.
    pub fn from_str_exact(s: &str) -> (r: Option<Decimal>)
        ensures
            r.deep_view() == from_str_exact_result(s@),
    {
        match parse_exact(s) {
            Ok(d) => Some(d),
            Err(_) => None,
        }
    }

    /// The product of two numbers, if it can be held. It is exact where the
    /// exact product is representable.
    pub fn checked_mul(self, other: Decimal) -> (r: Option<Decimal>)
        ensures
            r.deep_view() == checked_mul_result(self@, other@),
            exact_product(self@, other@) is Some ==> r.deep_view() == exact_product(self@, other@),
    {
        proof {
            use_type_invariant(self);
            use_type_invariant(other);
        }
        multiply(self, other)
    }

    /// The quotient of two numbers, if it can be formed and held. There is
    /// none where the divisor is zero.
    pub fn checked_div(self, other: Decimal) -> (r: Option<Decimal>)
        ensures
            r.deep_view() == checked_div_result(self@, other@),
            other@.mantissa == 0 ==> r is None,
    {
        proof {
            use_type_invariant(self);
            use_type_invariant(other);
        }
        divide(self, other)
    }

    /// The number with at most `dp` digits after the decimal point, rounded
    /// with ties going to the even neighbour.
    pub fn round_dp(self, dp: u32) -> (r: Decimal)
        ensures
            r@ == round_dp_spec(self@, dp as nat),
    {
        proof {
            use_type_invariant(self);
        }
        round_to(self, dp)
    }
}

} // verus!
