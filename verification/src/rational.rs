//! Exact rational numbers, carried by `num`'s arbitrary-precision ratios.
//!
//! The arithmetic itself is `num`'s. The private functions at the head of
//! this module each make one call into it, and what they claim of the
//! result, in terms of the real number that a ratio denotes, is taken on
//! trust from `num`'s source. [`Rational`] is built on them and keeps the
//! one condition they all ask for: a positive denominator.

use num::BigInt;
use num::BigRational;
use vstd::prelude::*;

verus! {

/// `num::BigInt`, an integer of any size. Nothing of its inside is used here.
#[verifier::external_type_specification]
#[verifier::external_body]
pub struct ExBigInt(BigInt);

/// `num::rational::Ratio`, a numerator over a denominator. Its fields are
/// private; what it holds is named by [`ratio_numer`] and [`ratio_denom`].
#[verifier::external_type_specification]
#[verifier::external_body]
#[verifier::reject_recursive_types(T)]
pub struct ExRatio<T>(num::rational::Ratio<T>);

/// The numerator stored in a ratio, as `Ratio::numer` reports it.
pub uninterp spec fn ratio_numer(r: BigRational) -> int;

/// The denominator stored in a ratio, as `Ratio::denom` reports it.
pub uninterp spec fn ratio_denom(r: BigRational) -> int;

/// The number that a ratio denotes.
pub open spec fn ratio_value(r: BigRational) -> real {
    ratio_numer(r) as real / ratio_denom(r) as real
}

/// Whether a ratio is one that the arithmetic of `num` is defined on: its
/// denominator is positive. Every ratio is, unless it was put together by
/// `Ratio::new_raw` from a denominator that is not.
pub open spec fn ratio_proper(r: BigRational) -> bool {
    ratio_denom(r) > 0
}

/// `Ratio::from_integer` on a machine integer widened by `BigInt::from`.
#[verifier::external_body]
fn ratio_from_int(n: i64) -> (r: BigRational)
    ensures
        ratio_proper(r),
        ratio_value(r) == n as real,
{
    BigRational::from_integer(BigInt::from(n))
}

/// Whether the denominator that `Ratio::denom` reports is zero.
#[verifier::external_body]
fn ratio_denom_is_zero(b: &BigRational) -> (z: bool)
    ensures
        z == (ratio_denom(*b) == 0),
{
    num::Zero::is_zero(b.denom())
}

/// `Ratio::reduced`: the same number in lowest terms with a positive
/// denominator. It panics on a zero denominator.
#[verifier::external_body]
fn ratio_reduced(b: &BigRational) -> (r: BigRational)
    requires
        ratio_denom(*b) != 0,
    ensures
        ratio_proper(r),
        ratio_numer(r) * ratio_denom(*b) == ratio_numer(*b) * ratio_denom(r),
{
    b.reduced()
}

/// `Ratio::clone`.
#[verifier::external_body]
fn ratio_clone(a: &BigRational) -> (r: BigRational)
    ensures
        ratio_numer(r) == ratio_numer(*a),
        ratio_denom(r) == ratio_denom(*a),
{
    a.clone()
}

/// `&Ratio + &Ratio`: the sum, in lowest terms.
#[verifier::external_body]
fn ratio_add(a: &BigRational, b: &BigRational) -> (r: BigRational)
    requires
        ratio_proper(*a),
        ratio_proper(*b),
    ensures
        ratio_proper(r),
        ratio_value(r) == ratio_value(*a) + ratio_value(*b),
{
    a + b
}

/// `&Ratio - &Ratio`: the difference, in lowest terms.
#[verifier::external_body]
fn ratio_sub(a: &BigRational, b: &BigRational) -> (r: BigRational)
    requires
        ratio_proper(*a),
        ratio_proper(*b),
    ensures
        ratio_proper(r),
        ratio_value(r) == ratio_value(*a) - ratio_value(*b),
{
    a - b
}

/// `&Ratio * &Ratio`: the product, in lowest terms.
#[verifier::external_body]
fn ratio_mul(a: &BigRational, b: &BigRational) -> (r: BigRational)
    requires
        ratio_proper(*a),
        ratio_proper(*b),
    ensures
        ratio_proper(r),
        ratio_value(r) == ratio_value(*a) * ratio_value(*b),
{
    a * b
}

/// `&Ratio / &Ratio`: the quotient, in lowest terms. It panics on a zero
/// divisor.
#[verifier::external_body]
fn ratio_div(a: &BigRational, b: &BigRational) -> (r: BigRational)
    requires
        ratio_proper(*a),
        ratio_proper(*b),
        ratio_value(*b) != 0real,
    ensures
        ratio_proper(r),
        ratio_value(r) == ratio_value(*a) / ratio_value(*b),
{
    a / b
}

/// `Ratio < Ratio`: the order of the numbers denoted.
#[verifier::external_body]
fn ratio_less(a: &BigRational, b: &BigRational) -> (less: bool)
    requires
        ratio_proper(*a),
        ratio_proper(*b),
    ensures
        less == (ratio_value(*a) < ratio_value(*b)),
{
    a < b
}

/// `Ratio == Ratio`: whether the numbers denoted are the same.
#[verifier::external_body]
fn ratio_same(a: &BigRational, b: &BigRational) -> (same: bool)
    requires
        ratio_proper(*a),
        ratio_proper(*b),
    ensures
        same == (ratio_value(*a) == ratio_value(*b)),
{
    a == b
}

/// An exact rational number.
///
/// The ratio inside always has a positive denominator.
pub struct Rational {
    inner: BigRational,
}

impl View for Rational {
    type V = real;

    closed spec fn view(&self) -> real {
        ratio_value(self.inner)
    }
}

impl Clone for Rational {
    fn clone(&self) -> (r: Rational)
        ensures
            r@ == self@,
    {
        proof {
            use_type_invariant(self);
        }
        Rational { inner: ratio_clone(&self.inner) }
    }
}

impl Rational {
    #[verifier::type_invariant]
    spec fn proper(self) -> bool {
        ratio_proper(self.inner)
    }

    /// Adopts a ratio built elsewhere. A ratio with a zero denominator denotes
    /// no number and is refused; any other ratio is brought to lowest terms.
    pub fn from_big(b: BigRational) -> (r: Option<Rational>)
        ensures
            r is None <==> ratio_denom(b) == 0,
            r matches Some(q) ==> q@ == ratio_value(b),
    {
        if ratio_denom_is_zero(&b) {
            None
        } else {
            let inner = ratio_reduced(&b);
            proof {
                lemma_same_quotient(
                    ratio_numer(inner),
                    ratio_denom(inner),
                    ratio_numer(b),
                    ratio_denom(b),
                );
            }
            Some(Rational { inner })
        }
    }

    /// Gives up the underlying ratio.
    pub fn into_big(self) -> (b: BigRational)
        ensures
            ratio_proper(b),
            ratio_value(b) == self@,
    {
        proof {
            use_type_invariant(&self);
        }
        self.inner
    }

    /// The ratio inside, for the calls into other libraries that this crate
    /// makes.
    pub(crate) fn as_big(&self) -> (b: &BigRational)
        ensures
            ratio_proper(*b),
            ratio_value(*b) == self@,
    {
        proof {
            use_type_invariant(self);
        }
        &self.inner
    }

    /// A ratio that another library handed back, known to be proper.
    pub(crate) fn from_proper(b: BigRational) -> (r: Rational)
        requires
            ratio_proper(b),
        ensures
            r@ == ratio_value(b),
    {
        Rational { inner: b }
    }

    /// The rational number equal to the integer `n`.
    pub fn from_int(n: i64) -> (r: Rational)
        ensures
            r@ == n as real,
    {
        Rational { inner: ratio_from_int(n) }
    }

    /// The rational number `numer / denom`.
    pub fn new(numer: i64, denom: i64) -> (r: Rational)
        requires
            denom != 0,
        ensures
            r@ == numer as real / denom as real,
    {
        Rational::from_int(numer).over(&Rational::from_int(denom))
    }

    /// The sum of two numbers.
    pub fn plus(&self, rhs: &Rational) -> (r: Rational)
        ensures
            r@ == self@ + rhs@,
    {
        proof {
            use_type_invariant(self);
            use_type_invariant(rhs);
        }
        Rational { inner: ratio_add(&self.inner, &rhs.inner) }
    }

    /// The difference of two numbers.
    pub fn minus(&self, rhs: &Rational) -> (r: Rational)
        ensures
            r@ == self@ - rhs@,
    {
        proof {
            use_type_invariant(self);
            use_type_invariant(rhs);
        }
        Rational { inner: ratio_sub(&self.inner, &rhs.inner) }
    }

    /// The product of two numbers.
    pub fn times(&self, rhs: &Rational) -> (r: Rational)
        ensures
            r@ == self@ * rhs@,
    {
        proof {
            use_type_invariant(self);
            use_type_invariant(rhs);
        }
        Rational { inner: ratio_mul(&self.inner, &rhs.inner) }
    }

    /// The quotient of two numbers, the second of which is not zero.
    pub fn over(&self, rhs: &Rational) -> (r: Rational)
        requires
            rhs@ != 0real,
        ensures
            r@ == self@ / rhs@,
    {
        proof {
            use_type_invariant(self);
            use_type_invariant(rhs);
        }
        Rational { inner: ratio_div(&self.inner, &rhs.inner) }
    }

    /// The quotient of two numbers, or `None` where the second is zero.
    pub fn checked_over(&self, rhs: &Rational) -> (r: Option<Rational>)
        ensures
            r is None <==> rhs@ == 0real,
            r matches Some(q) ==> q@ == self@ / rhs@,
    {
        if rhs.is_zero() {
            None
        } else {
            Some(self.over(rhs))
        }
    }

    /// Whether this number is smaller than the other.
    pub fn less_than(&self, rhs: &Rational) -> (b: bool)
        ensures
            b == (self@ < rhs@),
    {
        proof {
            use_type_invariant(self);
            use_type_invariant(rhs);
        }
        ratio_less(&self.inner, &rhs.inner)
    }

    /// Whether the two numbers are the same.
    pub fn same(&self, rhs: &Rational) -> (b: bool)
        ensures
            b == (self@ == rhs@),
    {
        proof {
            use_type_invariant(self);
            use_type_invariant(rhs);
        }
        ratio_same(&self.inner, &rhs.inner)
    }

    /// The number with the opposite sign.
    pub fn negated(&self) -> (r: Rational)
        ensures
            r@ == -self@,
    {
        Rational::from_int(0).minus(self)
    }

    /// Whether the number is zero.
    pub fn is_zero(&self) -> (b: bool)
        ensures
            b == (self@ == 0real),
    {
        self.same(&Rational::from_int(0))
    }
}

/// Two fractions whose cross products agree denote the same number.
proof fn lemma_same_quotient(n1: int, d1: int, n2: int, d2: int)
    by (nonlinear_arith)
    requires
        d1 != 0,
        d2 != 0,
        n1 * d2 == n2 * d1,
    ensures
        n1 as real / d1 as real == n2 as real / d2 as real,
{
}

} // verus!
