//! Exact numbers.
//!
//! A report spells whole numbers and fractions such as `1/2` or `1 1/2`, and
//! decoding scales them by powers of ten. A [`Number`] is the quotient of two
//! integers, so none of this rounds.

use vstd::prelude::*;

verus! {

/// The quotient `numerator / denominator`.
///
/// Two numbers are equal as values when [`Number::same_value`] holds; `==`
/// compares the two fields, and `1/2 == 2/4` is false.
#[derive(Clone, Copy, Debug, PartialEq, Eq, Structural)]
pub struct Number {
    pub numerator: i64,
    pub denominator: i64,
}

impl Number {
    /// A number is well formed when its denominator is positive.
    pub open spec fn wf(self) -> bool {
        self.denominator > 0
    }

    /// The whole number `n`.
    pub open spec fn of_int(n: int) -> Number {
        Number { numerator: n as i64, denominator: 1 }
    }

    /// Whether both stand for the same rational number.
    pub open spec fn same_value(self, other: Number) -> bool {
        self.numerator * other.denominator == other.numerator * self.denominator
    }

    /// Whether `self` is the smaller rational number.
    pub open spec fn below(self, other: Number) -> bool {
        self.numerator * other.denominator < other.numerator * self.denominator
    }

    /// Whether `self` is the whole number `n`.
    pub open spec fn is_int(self, n: int) -> bool {
        self.numerator == n * self.denominator
    }

    /// Whether multiplying and dividing by `k` stays within 64 bits.
    pub open spec fn can_scale(self, k: int) -> bool {
        &&& i64::MIN <= self.numerator * k <= i64::MAX
        &&& self.denominator * k <= i64::MAX
    }

    /// `self` times `k`.
    pub open spec fn times(self, k: int) -> Number {
        Number { numerator: (self.numerator * k) as i64, denominator: self.denominator }
    }

    /// `self` divided by `k`.
    pub open spec fn over(self, k: int) -> Number {
        Number { numerator: self.numerator, denominator: (self.denominator * k) as i64 }
    }

    pub fn from_integer(n: i64) -> (r: Number)
        ensures
            r == Number::of_int(n as int),
            r.wf(),
    {
        Number { numerator: n, denominator: 1 }
    }

    /// The quotient of `numerator` and `denominator`, unless the denominator is
    /// not positive.
    pub fn new(numerator: i64, denominator: i64) -> (r: Option<Number>)
        ensures
            denominator > 0 ==> r == Some(Number { numerator, denominator }),
            denominator <= 0 ==> r is None,
    {
        if denominator > 0 {
            Some(Number { numerator, denominator })
        } else {
            None
        }
    }

    pub fn equals(&self, other: &Number) -> (r: bool)
        ensures
            r == self.same_value(*other),
    {
        proof {
            lemma_product_fits(self.numerator, other.denominator);
            lemma_product_fits(other.numerator, self.denominator);
        }
        (self.numerator as i128) * (other.denominator as i128) == (other.numerator as i128) * (
        self.denominator as i128)
    }

    pub fn less_than(&self, other: &Number) -> (r: bool)
        ensures
            r == self.below(*other),
    {
        proof {
            lemma_product_fits(self.numerator, other.denominator);
            lemma_product_fits(other.numerator, self.denominator);
        }
        (self.numerator as i128) * (other.denominator as i128) < (other.numerator as i128) * (
        self.denominator as i128)
    }

    pub fn equals_integer(&self, n: i64) -> (r: bool)
        ensures
            r == self.is_int(n as int),
    {
        proof {
            lemma_product_fits(n, self.denominator);
        }
        (self.numerator as i128) == (n as i128) * (self.denominator as i128)
    }

    pub fn mul(self, k: u32) -> (r: Number)
        requires
            self.can_scale(k as int),
        ensures
            r == self.times(k as int),
            self.wf() ==> r.wf(),
    {
        Number { numerator: self.numerator * (k as i64), denominator: self.denominator }
    }

    pub fn div(self, k: u32) -> (r: Number)
        requires
            self.wf(),
            k > 0,
            self.can_scale(k as int),
        ensures
            r == self.over(k as int),
            r.wf(),
    {
        assert(self.denominator * k > 0) by (nonlinear_arith)
            requires
                self.denominator > 0,
                k > 0,
        ;
        Number { numerator: self.numerator, denominator: self.denominator * (k as i64) }
    }
}

/// The product of two 64-bit integers fits in 128 bits.
pub proof fn lemma_product_fits(a: i64, b: i64)
    ensures
        i128::MIN <= a * b <= i128::MAX,
{
    assert(-0x8000_0000_0000_0000 * 0x8000_0000_0000_0000 <= a * b <= 0x8000_0000_0000_0000
        * 0x8000_0000_0000_0000) by (nonlinear_arith)
        requires
            -0x8000_0000_0000_0000 <= a <= 0x8000_0000_0000_0000,
            -0x8000_0000_0000_0000 <= b <= 0x8000_0000_0000_0000,
    ;
}

/// Scaling up and then down by the same factor, or down and then up, leaves
/// the value of a number as it was.
pub proof fn lemma_number_scale_round_trip(x: Number, k: int)
    requires
        x.wf(),
        k > 0,
        x.can_scale(k),
    ensures
        x.times(k).over(k).same_value(x),
        x.over(k).times(k).same_value(x),
        x.times(k).over(k).wf(),
        x.over(k).times(k).wf(),
{
    let n = x.numerator as int;
    let d = x.denominator as int;
    assert(d * k > 0) by (nonlinear_arith)
        requires
            d > 0,
            k > 0,
    ;
    assert((n * k) * d == n * (d * k)) by (nonlinear_arith);
}

} // verus!
