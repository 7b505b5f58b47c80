//! Natural numbers of any size, for sums and products that must stay
//! exact.
//!
//! A number is held as its digits to the base `2^64`, the lowest first.

use vstd::prelude::*;

verus! {

/// The base of the digits, `2^64`.
pub open spec fn base() -> nat {
    0x1_0000_0000_0000_0000
}

/// The base to the power `n`.
pub open spec fn pow_base(n: nat) -> nat
    decreases n,
{
    if n == 0 {
        1
    } else {
        base() * pow_base((n - 1) as nat)
    }
}

/// The digit at the place `i`, which is zero beyond the digits that are
/// written.
pub open spec fn digit_at(digits: Seq<u64>, i: int) -> nat {
    if 0 <= i < digits.len() {
        digits[i] as nat
    } else {
        0
    }
}

/// The number that the lowest `n` digits stand for.
pub open spec fn value_upto(digits: Seq<u64>, n: nat) -> nat
    decreases n,
{
    if n == 0 {
        0
    } else {
        value_upto(digits, (n - 1) as nat) + digit_at(digits, n - 1) * pow_base((n - 1) as nat)
    }
}

/// The number that the digits stand for.
pub open spec fn value_of(digits: Seq<u64>) -> nat {
    value_upto(digits, digits.len())
}

/// Places beyond the written digits add nothing.
pub proof fn lemma_value_beyond(digits: Seq<u64>, n: nat)
    requires
        n >= digits.len(),
    ensures
        value_upto(digits, n) == value_of(digits),
    decreases n,
{
    if n > digits.len() {
        lemma_value_beyond(digits, (n - 1) as nat);
        assert(digit_at(digits, n - 1) * pow_base((n - 1) as nat) == 0) by (nonlinear_arith)
            requires
                digit_at(digits, n - 1) == 0,
        ;
    }
}

/// The lowest `n` digits stand for a number below the base to the power
/// `n`.
pub proof fn lemma_value_bound(digits: Seq<u64>, n: nat)
    ensures
        value_upto(digits, n) < pow_base(n),
    decreases n,
{
    if n > 0 {
        lemma_value_bound(digits, (n - 1) as nat);
        let p = pow_base((n - 1) as nat);
        let d = digit_at(digits, n - 1);
        assert(d * p <= (base() - 1) * p) by (nonlinear_arith)
            requires
                d <= base() - 1,
                p >= 0,
        ;
        assert((base() - 1) * p + p == base() * p) by (nonlinear_arith);
    }
}

/// One more digit at the high end leaves the lower places as they are.
pub proof fn lemma_push_keeps(digits: Seq<u64>, digit: u64, n: nat)
    requires
        n <= digits.len(),
    ensures
        value_upto(digits.push(digit), n) == value_upto(digits, n),
    decreases n,
{
    if n > 0 {
        lemma_push_keeps(digits, digit, (n - 1) as nat);
        assert(digit_at(digits.push(digit), n - 1) == digit_at(digits, n - 1));
    }
}

/// One more digit at the high end adds that digit times the power of its
/// place.
pub proof fn lemma_push_adds(digits: Seq<u64>, digit: u64)
    ensures
        value_of(digits.push(digit)) == value_of(digits) + digit * pow_base(digits.len()),
{
    lemma_push_keeps(digits, digit, digits.len());
    assert(digit_at(digits.push(digit), digits.len() as int) == digit);
}

/// A natural number of any size.
pub struct Natural {
    digits: Vec<u64>,
}

impl View for Natural {
    type V = nat;

    closed spec fn view(&self) -> nat {
        value_of(self.digits@)
    }
}

/// The digit at the place `i`, which is zero beyond the digits that are
/// written.
fn digit(digits: &Vec<u64>, i: usize) -> (d: u64)
    ensures
        d == digit_at(digits@, i as int),
{
    if i < digits.len() {
        digits[i]
    } else {
        0
    }
}

proof fn lemma_mul_step(out: nat, carry: nat, p: nat, low: nat, high: nat, a: nat, d: nat, m: nat)
    requires
        out + carry * p == a * m,
        low + high * base() == d * m + carry,
    ensures
        (out + low * p) + high * (base() * p) == (a + d * p) * m,
{
    assert((out + low * p) + high * (base() * p) == out + (low + high * base()) * p)
        by (nonlinear_arith);
    assert(out + (d * m + carry) * p == (out + carry * p) + d * m * p) by (nonlinear_arith);
    assert((a + d * p) * m == a * m + d * m * p) by (nonlinear_arith);
}

proof fn lemma_add_step(out: nat, carry: nat, p: nat, low: nat, high: nat, a: nat, b: nat, x: nat, y: nat)
    requires
        out + carry * p == a + b,
        low + high * base() == x + y + carry,
    ensures
        (out + low * p) + high * (base() * p) == (a + x * p) + (b + y * p),
{
    assert((out + low * p) + high * (base() * p) == out + (low + high * base()) * p)
        by (nonlinear_arith);
    assert(out + (x + y + carry) * p == (out + carry * p) + x * p + y * p) by (nonlinear_arith);
}

proof fn lemma_order_step(a: nat, b: nat, x: nat, y: nat, p: nat)
    requires
        a < p,
        b < p,
    ensures
        x < y ==> a + x * p < b + y * p,
        x == y ==> (a + x * p < b + y * p <==> a < b),
        x == y ==> (a + x * p == b + y * p <==> a == b),
{
    if x < y {
        assert((x + 1) * p <= y * p) by (nonlinear_arith)
            requires
                x + 1 <= y,
                p >= 0,
        ;
        assert((x + 1) * p == x * p + p) by (nonlinear_arith);
    }
}

impl Natural {
    /// The number `x`.
    pub fn from_u64(x: u64) -> (r: Natural)
        ensures
            r@ == x,
    {
        let mut digits: Vec<u64> = Vec::new();
        digits.push(x);
        proof {
            lemma_push_adds(Seq::<u64>::empty(), x);
            assert(digits@ =~= Seq::<u64>::empty().push(x));
            assert(x * pow_base(0) == x) by (nonlinear_arith)
                requires
                    pow_base(0) == 1,
            ;
        }
        Natural { digits }
    }

    /// `self * m`.
    pub fn mul_u64(&self, m: u64) -> (r: Natural)
        ensures
            r@ == self@ * m,
    {
        let mut out: Vec<u64> = Vec::new();
        let mut carry: u64 = 0;
        let mut i: usize = 0;
        assert(0 * pow_base(0) == 0) by (nonlinear_arith);
        assert(0 == 0 * (m as nat)) by (nonlinear_arith);
        while i < self.digits.len()
            invariant
                i <= self.digits.len(),
                out@.len() == i,
                value_of(out@) + carry * pow_base(i as nat) == value_upto(self.digits@, i as nat)
                    * m,
            decreases self.digits.len() - i,
        {
            let d = self.digits[i];
            assert(d * m + carry <= u128::MAX) by (nonlinear_arith)
                requires
                    d <= 0xffff_ffff_ffff_ffff,
                    m <= 0xffff_ffff_ffff_ffff,
                    carry <= 0xffff_ffff_ffff_ffff,
            ;
            let t: u128 = (d as u128) * (m as u128) + (carry as u128);
            let low: u128 = t % 0x1_0000_0000_0000_0000u128;
            let high: u128 = t / 0x1_0000_0000_0000_0000u128;
            assert(high <= 0xffff_ffff_ffff_ffff) by {
                assert(d * m + carry <= 0xffff_ffff_ffff_ffff * 0xffff_ffff_ffff_ffff
                    + 0xffff_ffff_ffff_ffff) by (nonlinear_arith)
                    requires
                        d <= 0xffff_ffff_ffff_ffff,
                        m <= 0xffff_ffff_ffff_ffff,
                        carry <= 0xffff_ffff_ffff_ffff,
                ;
            }
            proof {
                lemma_push_adds(out@, low as u64);
                lemma_mul_step(
                    value_of(out@),
                    carry as nat,
                    pow_base(i as nat),
                    low as nat,
                    high as nat,
                    value_upto(self.digits@, i as nat),
                    d as nat,
                    m as nat,
                );
            }
            out.push(low as u64);
            carry = high as u64;
            i = i + 1;
        }
        proof {
            lemma_push_adds(out@, carry);
        }
        out.push(carry);
        Natural { digits: out }
    }

    /// `self + other`.
    pub fn add(&self, other: &Natural) -> (r: Natural)
        ensures
            r@ == self@ + other@,
    {
        let n = if self.digits.len() >= other.digits.len() {
            self.digits.len()
        } else {
            other.digits.len()
        };
        let mut out: Vec<u64> = Vec::new();
        let mut carry: u64 = 0;
        let mut i: usize = 0;
        assert(0 * pow_base(0) == 0) by (nonlinear_arith);
        while i < n
            invariant
                i <= n,
                n >= self.digits.len(),
                n >= other.digits.len(),
                out@.len() == i,
                carry <= 1,
                value_of(out@) + carry * pow_base(i as nat) == value_upto(self.digits@, i as nat)
                    + value_upto(other.digits@, i as nat),
            decreases n - i,
        {
            let x = digit(&self.digits, i);
            let y = digit(&other.digits, i);
            let t: u128 = (x as u128) + (y as u128) + (carry as u128);
            let low: u128 = t % 0x1_0000_0000_0000_0000u128;
            let high: u128 = t / 0x1_0000_0000_0000_0000u128;
            proof {
                lemma_push_adds(out@, low as u64);
                lemma_add_step(
                    value_of(out@),
                    carry as nat,
                    pow_base(i as nat),
                    low as nat,
                    high as nat,
                    value_upto(self.digits@, i as nat),
                    value_upto(other.digits@, i as nat),
                    x as nat,
                    y as nat,
                );
            }
            out.push(low as u64);
            carry = high as u64;
            i = i + 1;
        }
        proof {
            lemma_push_adds(out@, carry);
            lemma_value_beyond(self.digits@, n as nat);
            lemma_value_beyond(other.digits@, n as nat);
        }
        out.push(carry);
        Natural { digits: out }
    }

    /// Whether `self < other`.
    pub fn lt(&self, other: &Natural) -> (b: bool)
        ensures
            b == (self@ < other@),
    {
        let n = if self.digits.len() >= other.digits.len() {
            self.digits.len()
        } else {
            other.digits.len()
        };
        let mut less = false;
        let mut equal = true;
        let mut i: usize = 0;
        while i < n
            invariant
                i <= n,
                n >= self.digits.len(),
                n >= other.digits.len(),
                less == (value_upto(self.digits@, i as nat) < value_upto(other.digits@, i as nat)),
                equal == (value_upto(self.digits@, i as nat) == value_upto(
                    other.digits@,
                    i as nat,
                )),
            decreases n - i,
        {
            let x = digit(&self.digits, i);
            let y = digit(&other.digits, i);
            proof {
                lemma_value_bound(self.digits@, i as nat);
                lemma_value_bound(other.digits@, i as nat);
                lemma_order_step(
                    value_upto(self.digits@, i as nat),
                    value_upto(other.digits@, i as nat),
                    x as nat,
                    y as nat,
                    pow_base(i as nat),
                );
                lemma_order_step(
                    value_upto(other.digits@, i as nat),
                    value_upto(self.digits@, i as nat),
                    y as nat,
                    x as nat,
                    pow_base(i as nat),
                );
            }
            if x < y {
                less = true;
                equal = false;
            } else if x > y {
                less = false;
                equal = false;
            }
            i = i + 1;
        }
        proof {
            lemma_value_beyond(self.digits@, n as nat);
            lemma_value_beyond(other.digits@, n as nat);
        }
        less
    }
}

} // verus!
