//! Exact fractions between zero and one, and fixed-point values in millionths.
//!
//! The parts of a score are single fractions (`1 / (index + 1)`,
//! `(longest - distance) / longest`) and are kept exact. Weights and
//! thresholds are whole numbers of millionths, and so is a weighted part
//! where it is shown.

use vstd::prelude::*;

verus! {

/// Number of millionths in one whole unit of a fixed-point value.
pub const MICROS_PER_UNIT: u32 = 1_000_000;

/// A fraction `numer / denom` with `0 < denom` and `numer <= denom`.
///
/// Two fractions stand for the same value when their cross products agree;
/// they are not reduced.
#[derive(Clone, Copy, Debug)]
pub struct Fraction {
    num: u64,
    den: u64,
}

impl Fraction {
    #[verifier::type_invariant]
    spec fn inv(self) -> bool {
        self.wf()
    }

    /// The numerator.
    pub closed spec fn numer(self) -> nat {
        self.num as nat
    }

    /// The denominator.
    pub closed spec fn denom(self) -> nat {
        self.den as nat
    }

    /// Validity: a positive denominator and a value of at most one.
    pub open spec fn wf(self) -> bool {
        0 < self.denom() && self.numer() <= self.denom() <= u64::MAX
    }

    /// `self < other` as values.
    pub open spec fn lt_spec(self, other: Fraction) -> bool {
        self.numer() * other.denom() < other.numer() * self.denom()
    }

    /// `self == other` as values.
    pub open spec fn same_value(self, other: Fraction) -> bool {
        self.numer() * other.denom() == other.numer() * self.denom()
    }

    /// `self < threshold / 1_000_000`.
    pub open spec fn below_spec(self, threshold: u32) -> bool {
        self.numer() * 1_000_000 < (threshold as nat) * self.denom()
    }

    /// The value in millionths, rounded down.
    pub open spec fn micros_spec(self) -> nat {
        (self.numer() * 1_000_000) / self.denom()
    }

    /// `weight * self`, rounded down.
    pub open spec fn scaled_spec(self, weight: u32) -> nat {
        ((weight as nat) * self.numer()) / self.denom()
    }

    /// The fraction with the given numerator and denominator.
    pub closed spec fn of(num: nat, den: nat) -> Fraction {
        Fraction { num: num as u64, den: den as u64 }
    }

    /// The fraction `num / den`, or `None` where `den` is zero or `num > den`.
    pub fn new(num: u64, den: u64) -> (r: Option<Fraction>)
        ensures
            r is Some <==> (0 < den && num <= den),
            r matches Some(f) ==> f == Fraction::of(num as nat, den as nat) && f.wf(),
    {
        if den == 0 || num > den {
            None
        } else {
            Some(Fraction { num, den })
        }
    }

    /// Zero, as `0 / 1`.
    pub fn zero() -> (r: Fraction)
        ensures
            r == Fraction::of(0, 1),
            r.wf(),
    {
        Fraction { num: 0, den: 1 }
    }

    /// One, as `1 / 1`.
    pub fn one() -> (r: Fraction)
        ensures
            r == Fraction::of(1, 1),
            r.wf(),
    {
        Fraction { num: 1, den: 1 }
    }

    /// The numerator.
    pub fn num(&self) -> (n: u64)
        ensures
            n == self.numer(),
            self.wf(),
    {
        proof {
            use_type_invariant(self);
        }
        self.num
    }

    /// The denominator.
    pub fn den(&self) -> (d: u64)
        ensures
            d == self.denom(),
            self.wf(),
    {
        proof {
            use_type_invariant(self);
        }
        self.den
    }

    /// Whether the value is zero.
    pub fn is_zero(&self) -> (b: bool)
        ensures
            b == (self.numer() == 0),
    {
        self.num == 0
    }

    /// Exact comparison of two fractions.
    pub fn lt(&self, other: &Fraction) -> (b: bool)
        ensures
            b == self.lt_spec(*other),
    {
        proof {
            use_type_invariant(self);
            use_type_invariant(other);
            lemma_product_fits(self.num, other.den);
            lemma_product_fits(other.num, self.den);
        }
        let left: u128 = (self.num as u128) * (other.den as u128);
        let right: u128 = (other.num as u128) * (self.den as u128);
        left < right
    }

    /// Exact equality of two fractions as values.
    pub fn eq_value(&self, other: &Fraction) -> (b: bool)
        ensures
            b == self.same_value(*other),
    {
        proof {
            use_type_invariant(self);
            use_type_invariant(other);
            lemma_product_fits(self.num, other.den);
            lemma_product_fits(other.num, self.den);
        }
        let left: u128 = (self.num as u128) * (other.den as u128);
        let right: u128 = (other.num as u128) * (self.den as u128);
        left == right
    }

    /// Whether the value lies strictly below `threshold` millionths.
    pub fn is_below(&self, threshold: u32) -> (b: bool)
        ensures
            b == self.below_spec(threshold),
            self.wf(),
    {
        proof {
            use_type_invariant(self);
            lemma_product_fits(self.num, 1_000_000);
            lemma_product_fits(threshold as u64, self.den);
        }
        let left: u128 = (self.num as u128) * 1_000_000u128;
        let right: u128 = (threshold as u128) * (self.den as u128);
        left < right
    }

    /// The value in millionths, rounded down.
    pub fn to_micros(&self) -> (m: u32)
        ensures
            m == self.micros_spec(),
            m <= MICROS_PER_UNIT,
    {
        proof {
            use_type_invariant(self);
            lemma_product_fits(self.num, 1_000_000);
            lemma_scaled_bound(1_000_000, self.num as nat, self.den as nat);
        }
        let scaled: u128 = (self.num as u128) * 1_000_000u128;
        let q: u128 = scaled / (self.den as u128);
        q as u32
    }

    /// `weight * self`, rounded down to a whole number of the weight's units.
    pub fn scaled(&self, weight: u32) -> (s: u64)
        ensures
            s == self.scaled_spec(weight),
            s <= weight,
    {
        proof {
            use_type_invariant(self);
            lemma_product_fits(weight as u64, self.num);
            lemma_scaled_bound(weight as nat, self.num as nat, self.den as nat);
        }
        let product: u128 = (weight as u128) * (self.num as u128);
        let q: u128 = product / (self.den as u128);
        q as u64
    }
}

/// What `Fraction::of` holds, where its arguments make a valid fraction.
pub proof fn lemma_of(num: nat, den: nat)
    requires
        0 < den <= u64::MAX,
        num <= den,
    ensures
        Fraction::of(num, den).numer() == num,
        Fraction::of(num, den).denom() == den,
        Fraction::of(num, den).wf(),
{
}

proof fn lemma_product_fits(a: u64, b: u64)
    ensures
        a * b <= u128::MAX,
{
    assert(a * b <= 0xffff_ffff_ffff_ffff * 0xffff_ffff_ffff_ffff) by (nonlinear_arith)
        requires
            0 <= a <= 0xffff_ffff_ffff_ffff,
            0 <= b <= 0xffff_ffff_ffff_ffff,
    ;
}

/// `(weight * num) / den <= weight` whenever `num <= den`.
pub proof fn lemma_scaled_bound(weight: nat, num: nat, den: nat)
    requires
        0 < den,
        num <= den,
    ensures
        (weight * num) / den <= weight,
{
    assert(weight * num <= weight * den) by (nonlinear_arith)
        requires
            num <= den,
    ;
    assert((weight * num) / den <= weight) by (nonlinear_arith)
        requires
            0 < den,
            weight * num <= weight * den,
    ;
}

/// A larger fraction never has a smaller weighted share.
pub proof fn lemma_scaled_monotonic(weight: u32, a: Fraction, b: Fraction)
    requires
        a.wf(),
        b.wf(),
        !a.lt_spec(b),
    ensures
        b.scaled_spec(weight) <= a.scaled_spec(weight),
{
    let (an, ad, bn, bd) = (a.numer() as int, a.denom() as int, b.numer() as int, b.denom() as int);
    let w = weight as int;
    let qb = (w * bn) / bd;
    // qb * bd <= w * bn and bn * ad <= an * bd give qb * ad <= w * an.
    assert(qb * bd <= w * bn) by (nonlinear_arith)
        requires
            0 < bd,
            0 <= w * bn,
            qb == (w * bn) / bd,
    ;
    assert(qb * ad * bd <= w * an * bd) by (nonlinear_arith)
        requires
            qb * bd <= w * bn,
            bn * ad <= an * bd,
            0 <= w,
            0 <= ad,
            0 <= qb,
    ;
    assert(qb * ad <= w * an) by (nonlinear_arith)
        requires
            qb * ad * bd <= w * an * bd,
            0 < bd,
    ;
    assert(qb <= (w * an) / ad) by (nonlinear_arith)
        requires
            qb * ad <= w * an,
            0 < ad,
    ;
}

} // verus!
