//! A fraction of two `i64` scalars.
//!
//! Zero denominators are accepted (the permissive policy): construction never
//! fails, and a fraction over zero simply compares by cross-multiplication like
//! any other. Nothing is reduced to lowest terms, so `2/2` and `1/1` are
//! distinct values that compare equal.
use vstd::prelude::*;
use vstd::std_specs::convert::FromSpec;

verus! {

/// True when `x` can be held in an `i64`.
pub open spec fn fits_i64(x: int) -> bool {
    i64::MIN <= x <= i64::MAX
}

#[derive(Debug, Clone, Copy)]
pub struct Rational {
    pub nominator: i64,
    pub denominator: i64,
}

impl Rational {
    /// Two fractions stand for the same rational number: their cross
    /// products, taken over unbounded integers, agree.
    pub open spec fn same_value(self, other: Rational) -> bool {
        self.nominator * other.denominator == self.denominator * other.nominator
    }

    /// `(a/b) + (c/d) = (a·d + c·b) / (b·d)`, over unbounded integers.
    pub open spec fn sum_nominator(self, o: Rational) -> int {
        self.nominator * o.denominator + o.nominator * self.denominator
    }

    /// `(a/b) − (c/d) = (a·d − c·b) / (b·d)`, over unbounded integers.
    pub open spec fn difference_nominator(self, o: Rational) -> int {
        self.nominator * o.denominator - o.nominator * self.denominator
    }

    /// The denominator of a sum or a difference: `b·d`.
    pub open spec fn common_denominator(self, o: Rational) -> int {
        self.denominator * o.denominator
    }

    /// `(a/b) + (c/d)`, unreduced. The fields are exact where `sum_fits` holds;
    /// the same holds of the three below with their own `_fits`.
    pub open spec fn sum(self, o: Rational) -> Rational {
        Rational {
            nominator: self.sum_nominator(o) as i64,
            denominator: self.common_denominator(o) as i64,
        }
    }

    /// `(a/b) − (c/d)`, unreduced.
    pub open spec fn difference(self, o: Rational) -> Rational {
        Rational {
            nominator: self.difference_nominator(o) as i64,
            denominator: self.common_denominator(o) as i64,
        }
    }

    /// `(a/b) × (c/d) = (a·c) / (b·d)`, unreduced.
    pub open spec fn product(self, o: Rational) -> Rational {
        Rational {
            nominator: (self.nominator * o.nominator) as i64,
            denominator: (self.denominator * o.denominator) as i64,
        }
    }

    /// `(a/b) ÷ (c/d) = (a·d) / (b·c)`, unreduced and with no check on `c`.
    pub open spec fn quotient(self, o: Rational) -> Rational {
        Rational {
            nominator: (self.nominator * o.denominator) as i64,
            denominator: (self.denominator * o.nominator) as i64,
        }
    }

    /// A sum can be held in `i64` scalars.
    pub open spec fn sum_fits(self, o: Rational) -> bool {
        fits_i64(self.sum_nominator(o)) && fits_i64(self.common_denominator(o))
    }

    /// A difference can be held in `i64` scalars.
    pub open spec fn difference_fits(self, o: Rational) -> bool {
        fits_i64(self.difference_nominator(o)) && fits_i64(self.common_denominator(o))
    }

    /// A product can be held in `i64` scalars.
    pub open spec fn product_fits(self, o: Rational) -> bool {
        fits_i64(self.nominator * o.nominator) && fits_i64(self.denominator * o.denominator)
    }

    /// A quotient can be held in `i64` scalars.
    pub open spec fn quotient_fits(self, o: Rational) -> bool {
        fits_i64(self.nominator * o.denominator) && fits_i64(self.denominator * o.nominator)
    }

    /// Stores the pair as given, without reduction or validation.
    pub fn new(nominator: i64, denominator: i64) -> (r: Rational)
        ensures
            r.nominator == nominator,
            r.denominator == denominator,
    {
        Rational { nominator, denominator }
    }
}

/// Scaling numerator and denominator by the same non-zero factor keeps the
/// value: `(a·k)/(b·k) == a/b`.
pub proof fn lemma_scaling_keeps_value(a: i64, b: i64, k: i64)
    requires
        k != 0,
        fits_i64(a * k),
        fits_i64(b * k),
    ensures
        (Rational { nominator: (a * k) as i64, denominator: (b * k) as i64 }).same_value(
            Rational { nominator: a, denominator: b },
        ),
{
    assert((a * k) * b == (b * k) * a) by (nonlinear_arith);
}

/// Addition and multiplication are commutative: `x + y == y + x` and
/// `x × y == y × x`.
pub proof fn lemma_commutative(x: Rational, y: Rational)
    ensures
        x.sum(y).same_value(y.sum(x)),
        x.product(y).same_value(y.product(x)),
{
    assert(x.sum_nominator(y) == y.sum_nominator(x));
    assert(x.common_denominator(y) == y.common_denominator(x)) by (nonlinear_arith);
    assert(x.nominator * y.nominator == y.nominator * x.nominator) by (nonlinear_arith);
    let s = x.sum(y);
    let p = x.product(y);
    assert(s.nominator * s.denominator == s.denominator * s.nominator) by (nonlinear_arith);
    assert(p.nominator * p.denominator == p.denominator * p.nominator) by (nonlinear_arith);
}

/// Adding the conversion of zero keeps the value: `x + from(0) == x`.
pub proof fn lemma_add_from_zero(x: Rational)
    ensures
        x.sum(Rational::from_spec(0i64)).same_value(x),
{
    let s = x.sum(Rational::from_spec(0i64));
    assert(s.nominator == x.nominator && s.denominator == x.denominator);
    assert(x.nominator * x.denominator == x.denominator * x.nominator) by (nonlinear_arith);
}

/// Multiplying by the conversion of one keeps the value: `x × from(1) == x`.
pub proof fn lemma_mul_from_one(x: Rational)
    ensures
        x.product(Rational::from_spec(1i64)).same_value(x),
{
    let p = x.product(Rational::from_spec(1i64));
    assert(p.nominator == x.nominator && p.denominator == x.denominator);
    assert(x.nominator * x.denominator == x.denominator * x.nominator) by (nonlinear_arith);
}

/// Division undoes multiplication by a non-zero fraction: `(x × y) ÷ y == x`,
/// where both steps can be held in `i64` scalars.
pub proof fn lemma_div_undoes_mul(x: Rational, y: Rational)
    requires
        y.nominator != 0,
        x.product_fits(y),
        x.product(y).quotient_fits(y),
    ensures
        x.product(y).quotient(y).same_value(x),
{
    let (a, b, c, d) = (x.nominator as int, x.denominator as int, y.nominator as int, y.denominator as int);
    assert((a * c) * d * b == (b * d) * c * a) by (nonlinear_arith);
}

/// The product of two `i64` values, computed exactly in `i128`.
fn wide_mul(x: i64, y: i64) -> (r: i128)
    ensures
        r == x * y,
{
    proof {
        assert(i64::MIN * i64::MIN >= x * y >= i64::MIN * i64::MAX) by (nonlinear_arith)
            requires
                i64::MIN <= x <= i64::MAX,
                i64::MIN <= y <= i64::MAX,
        ;
    }
    (x as i128) * (y as i128)
}

impl core::ops::Add for Rational {
    type Output = Rational;

    /// `(a/b) + (c/d) = (a·d + c·b) / (b·d)`; nothing is reduced.
    fn add(self, other: Rational) -> (r: Rational)
        ensures
            r == self.sum(other),
    {
        let n = wide_mul(self.nominator, other.denominator) + wide_mul(other.nominator, self.denominator);
        let d = wide_mul(self.denominator, other.denominator);
        Rational { nominator: n as i64, denominator: d as i64 }
    }
}

impl vstd::std_specs::ops::AddSpecImpl for Rational {
    open spec fn obeys_add_spec() -> bool {
        true
    }

    open spec fn add_req(self, rhs: Rational) -> bool {
        self.sum_fits(rhs)
    }

    open spec fn add_spec(self, rhs: Rational) -> Rational {
        self.sum(rhs)
    }
}

impl core::ops::Sub for Rational {
    type Output = Rational;

    /// `(a/b) − (c/d) = (a·d − c·b) / (b·d)`; nothing is reduced.
    fn sub(self, other: Rational) -> (r: Rational)
        ensures
            r == self.difference(other),
    {
        let n = wide_mul(self.nominator, other.denominator) - wide_mul(other.nominator, self.denominator);
        let d = wide_mul(self.denominator, other.denominator);
        Rational { nominator: n as i64, denominator: d as i64 }
    }
}

impl vstd::std_specs::ops::SubSpecImpl for Rational {
    open spec fn obeys_sub_spec() -> bool {
        true
    }

    open spec fn sub_req(self, rhs: Rational) -> bool {
        self.difference_fits(rhs)
    }

    open spec fn sub_spec(self, rhs: Rational) -> Rational {
        self.difference(rhs)
    }
}

impl core::ops::Mul for Rational {
    type Output = Rational;

    /// `(a/b) × (c/d) = (a·c) / (b·d)`; nothing is reduced.
    fn mul(self, other: Rational) -> (r: Rational)
        ensures
            r == self.product(other),
    {
        let n = wide_mul(self.nominator, other.nominator);
        let d = wide_mul(self.denominator, other.denominator);
        Rational { nominator: n as i64, denominator: d as i64 }
    }
}

impl vstd::std_specs::ops::MulSpecImpl for Rational {
    open spec fn obeys_mul_spec() -> bool {
        true
    }

    open spec fn mul_req(self, rhs: Rational) -> bool {
        self.product_fits(rhs)
    }

    open spec fn mul_spec(self, rhs: Rational) -> Rational {
        self.product(rhs)
    }
}

impl core::ops::Div for Rational {
    type Output = Rational;

    /// `(a/b) ÷ (c/d) = (a·d) / (b·c)`: multiplication by the reciprocal,
    /// with no check that `c` is non-zero.
    fn div(self, other: Rational) -> (r: Rational)
        ensures
            r == self.quotient(other),
    {
        let n = wide_mul(self.nominator, other.denominator);
        let d = wide_mul(self.denominator, other.nominator);
        Rational { nominator: n as i64, denominator: d as i64 }
    }
}

impl vstd::std_specs::ops::DivSpecImpl for Rational {
    open spec fn obeys_div_spec() -> bool {
        true
    }

    open spec fn div_req(self, rhs: Rational) -> bool {
        self.quotient_fits(rhs)
    }

    open spec fn div_spec(self, rhs: Rational) -> Rational {
        self.quotient(rhs)
    }
}

impl PartialEq for Rational {
    /// Cross-multiplication: `a/b == c/d` exactly when `a·d == b·c`.
    /// The products are taken in `i128`, so no pair of `i64` values overflows.
    fn eq(&self, other: &Rational) -> (r: bool)
        ensures
            r == self.same_value(*other),
    {
        wide_mul(self.nominator, other.denominator) == wide_mul(self.denominator, other.nominator)
    }
}

impl vstd::std_specs::cmp::PartialEqSpecImpl for Rational {
    open spec fn obeys_eq_spec() -> bool {
        true
    }

    open spec fn eq_spec(&self, other: &Rational) -> bool {
        self.same_value(*other)
    }
}

impl Eq for Rational {}

/// Relies on `num::one`: for `i64` it returns the multiplicative identity, `1`.
#[verifier::external_body]
fn one_i64() -> (r: i64)
    ensures
        r == 1,
{
    num::one::<i64>()
}

impl From<i64> for Rational {
    /// A scalar `v` as the fraction `v / 1`.
    fn from(value: i64) -> (r: Rational)
        ensures
            r.nominator == value,
            r.denominator == 1,
    {
        Rational { nominator: value, denominator: one_i64() }
    }
}

impl vstd::std_specs::convert::FromSpecImpl<i64> for Rational {
    open spec fn obeys_from_spec() -> bool {
        true
    }

    open spec fn from_spec(v: i64) -> Rational {
        Rational { nominator: v, denominator: 1 }
    }
}

} // verus!
