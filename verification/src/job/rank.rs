//! Exact scores and the choice of the highest among them.
//!
//! A score is a sum of fractions and is kept as one fraction of natural
//! numbers of any size, so that two scores compare as their exact values do.

use crate::natural::Natural;
use vstd::prelude::*;

verus! {

/// A fraction `num / den` of natural numbers, as a value to reason about.
pub struct Exact {
    pub num: nat,
    pub den: nat,
}

impl Exact {
    /// The whole number `n`.
    pub open spec fn whole(n: nat) -> Exact {
        Exact { num: n, den: 1 }
    }

    /// `self < other` as values.
    pub open spec fn lt(self, other: Exact) -> bool {
        self.num * other.den < other.num * self.den
    }

    /// `self == other` as values.
    pub open spec fn same(self, other: Exact) -> bool {
        self.num * other.den == other.num * self.den
    }
}

/// What is not higher than something lower than a third is lower than the
/// third, and what is lower than something not higher than a third is so
/// too.
pub proof fn lemma_order(x: Exact, y: Exact, z: Exact)
    requires
        x.den > 0,
        y.den > 0,
        z.den > 0,
    ensures
        !y.lt(x) && y.lt(z) ==> x.lt(z),
        x.lt(y) && !z.lt(y) ==> x.lt(z),
        !y.lt(x) && !z.lt(y) ==> !z.lt(x),
{
    let (a, b, c, d, e, f) = (
        x.num as int,
        x.den as int,
        y.num as int,
        y.den as int,
        z.num as int,
        z.den as int,
    );
    if a * d <= c * b && c * f < e * d {
        assert(a * f * d < e * b * d) by (nonlinear_arith)
            requires
                a * d <= c * b,
                c * f < e * d,
                b > 0,
                f > 0,
                d > 0,
                a >= 0,
                c >= 0,
                e >= 0,
        ;
        assert(a * f < e * b) by (nonlinear_arith)
            requires
                a * f * d < e * b * d,
                d > 0,
        ;
    }
    if a * d < c * b && c * f <= e * d {
        assert(a * f * d < e * b * d) by (nonlinear_arith)
            requires
                a * d < c * b,
                c * f <= e * d,
                b > 0,
                f > 0,
                d > 0,
                a >= 0,
                c >= 0,
                e >= 0,
        ;
        assert(a * f < e * b) by (nonlinear_arith)
            requires
                a * f * d < e * b * d,
                d > 0,
        ;
    }
    if a * d <= c * b && c * f <= e * d {
        assert(a * f * d <= e * b * d) by (nonlinear_arith)
            requires
                a * d <= c * b,
                c * f <= e * d,
                b > 0,
                f > 0,
                d > 0,
                a >= 0,
                c >= 0,
                e >= 0,
        ;
        assert(a * f <= e * b) by (nonlinear_arith)
            requires
                a * f * d <= e * b * d,
                d > 0,
        ;
    }
}

/// Whether every score of a list is a fraction with a denominator.
pub open spec fn all_defined(scores: Seq<Exact>) -> bool {
    forall|k: int| 0 <= k < scores.len() ==> (#[trigger] scores[k]).den > 0
}

/// Whether every score that a list has is a fraction with a denominator.
pub open spec fn all_defined_where_present(scores: Seq<Option<Exact>>) -> bool {
    forall|k: int|
        0 <= k < scores.len() && (#[trigger] scores[k]) is Some ==> scores[k].unwrap().den > 0
}

/// The index of the highest score; of several equal ones the first.
pub open spec fn first_max(scores: Seq<Exact>) -> int
    decreases scores.len(),
{
    if scores.len() <= 1 {
        0
    } else {
        let before = first_max(scores.drop_last());
        if scores[before].lt(scores.last()) {
            scores.len() - 1
        } else {
            before
        }
    }
}

/// The index of the highest score among the entries that have one; of several
/// equal ones the last. `None` where no entry has a score.
pub open spec fn last_max(scores: Seq<Option<Exact>>) -> Option<int>
    decreases scores.len(),
{
    if scores.len() == 0 {
        None
    } else {
        let before = last_max(scores.drop_last());
        match (scores.last(), before) {
            (None, _) => before,
            (Some(_), None) => Some(scores.len() - 1),
            (Some(s), Some(b)) => if !s.lt(scores[b].unwrap()) {
                Some(scores.len() - 1)
            } else {
                before
            },
        }
    }
}

/// `first_max` is in range, no score is higher than the one it points to,
/// and every score before it is strictly lower.
pub proof fn lemma_first_max(scores: Seq<Exact>)
    requires
        scores.len() > 0,
        all_defined(scores),
    ensures
        0 <= first_max(scores) < scores.len(),
        forall|k: int|
            0 <= k < scores.len() ==> !scores[first_max(scores)].lt(#[trigger] scores[k]),
        forall|k: int|
            0 <= k < first_max(scores) ==> (#[trigger] scores[k]).lt(scores[first_max(scores)]),
    decreases scores.len(),
{
    if scores.len() > 1 {
        let front = scores.drop_last();
        assert forall|k: int| 0 <= k < front.len() implies (#[trigger] front[k]).den > 0 by {
            assert(front[k] == scores[k]);
        }
        lemma_first_max(front);
        let before = first_max(front);
        let chosen = first_max(scores);
        assert(front[before] == scores[before]);
        assert forall|k: int| 0 <= k < scores.len() implies !scores[chosen].lt(
            #[trigger] scores[k],
        ) by {
            if k < front.len() {
                assert(front[k] == scores[k]);
                lemma_order(scores[k], scores[before], scores.last());
            }
        }
        assert forall|k: int| 0 <= k < chosen implies (#[trigger] scores[k]).lt(
            scores[chosen],
        ) by {
            assert(front[k] == scores[k]);
            lemma_order(scores[k], scores[before], scores.last());
        }
    }
}

/// `last_max` finds nothing exactly where no entry has a score, and what it
/// finds is in range and has a score.
pub proof fn lemma_last_max_found(scores: Seq<Option<Exact>>)
    ensures
        last_max(scores) is None <==> forall|k: int|
            0 <= k < scores.len() ==> (#[trigger] scores[k]) is None,
        last_max(scores) matches Some(i) ==> 0 <= i < scores.len() && scores[i] is Some,
    decreases scores.len(),
{
    if scores.len() > 0 {
        let front = scores.drop_last();
        assert forall|k: int| 0 <= k < front.len() implies #[trigger] front[k] == scores[k] by {}
        lemma_last_max_found(front);
        if last_max(scores) is None {
            assert forall|k: int| 0 <= k < scores.len() implies (#[trigger] scores[k]) is None by {
                if k < front.len() {
                    assert(front[k] == scores[k]);
                }
            }
        } else if last_max(front) is Some {
            assert(front[last_max(front).unwrap()] is Some);
        }
    }
}

/// No score is higher than the one that `last_max` finds, and every score
/// after it is strictly lower.
pub proof fn lemma_last_max(scores: Seq<Option<Exact>>)
    requires
        all_defined_where_present(scores),
    ensures
        last_max(scores) matches Some(i) ==> {
            &&& 0 <= i < scores.len()
            &&& scores[i] is Some
            &&& forall|k: int|
                0 <= k < scores.len() && (#[trigger] scores[k]) is Some ==> !scores[i].unwrap().lt(
                    scores[k].unwrap(),
                )
            &&& forall|k: int|
                i < k < scores.len() && (#[trigger] scores[k]) is Some ==> scores[k].unwrap().lt(
                    scores[i].unwrap(),
                )
        },
    decreases scores.len(),
{
    lemma_last_max_found(scores);
    if scores.len() > 0 && last_max(scores) is Some {
        let front = scores.drop_last();
        assert forall|k: int| 0 <= k < front.len() implies #[trigger] front[k] == scores[k] by {}
        lemma_last_max(front);
        lemma_last_max_found(front);
        let i = last_max(scores).unwrap();
        assert forall|k: int|
            0 <= k < scores.len() && (#[trigger] scores[k]) is Some implies !scores[i].unwrap().lt(
            scores[k].unwrap(),
        ) by {
            if k < front.len() {
                assert(front[k] == scores[k]);
                if i == scores.len() - 1 {
                    let b = last_max(front).unwrap();
                    assert(front[b] == scores[b]);
                    lemma_order(scores[k].unwrap(), scores[b].unwrap(), scores[i].unwrap());
                }
            }
        }
        assert forall|k: int|
            i < k < scores.len() && (#[trigger] scores[k]) is Some implies scores[k].unwrap().lt(
            scores[i].unwrap(),
        ) by {
            if k < front.len() {
                assert(front[k] == scores[k]);
            }
        }
    }
}

/// An exact score: a sum of weighted fractions as one fraction, together
/// with the sum in whole millionths, each weighted part rounded down, for
/// showing it.
pub struct Score {
    num: Natural,
    d1: u64,
    d2: u64,
    d3: u64,
    d4: u64,
    micros: u64,
}

proof fn lemma_chain(n: nat, a: nat, b: nat, c: nat, d: nat)
    ensures
        n * a * b * c * d == n * (a * b * c * d),
        a > 0 && b > 0 && c > 0 && d > 0 ==> a * b * c * d > 0,
{
    assert(n * a * b * c * d == n * (a * b * c * d)) by (nonlinear_arith);
    if a > 0 && b > 0 && c > 0 && d > 0 {
        assert(a * b > 0) by (nonlinear_arith)
            requires
                a > 0,
                b > 0,
        ;
        assert(a * b * c > 0) by (nonlinear_arith)
            requires
                a * b > 0,
                c > 0,
        ;
        assert(a * b * c * d > 0) by (nonlinear_arith)
            requires
                a * b * c > 0,
                d > 0,
        ;
    }
}

impl Score {
    #[verifier::type_invariant]
    spec fn inv(self) -> bool {
        self.d1 > 0 && self.d2 > 0 && self.d3 > 0 && self.d4 > 0
    }

    /// The exact value of the score.
    pub closed spec fn exact(self) -> Exact {
        Exact {
            num: self.num@,
            den: (self.d1 as nat) * (self.d2 as nat) * (self.d3 as nat) * (self.d4 as nat),
        }
    }

    /// The score in whole millionths, each weighted part rounded down.
    pub closed spec fn rounded(self) -> nat {
        self.micros as nat
    }

    /// The score with the numerator `num` over the product of the four
    /// denominators, shown as `micros`.
    pub(crate) fn new(num: Natural, d1: u64, d2: u64, d3: u64, d4: u64, micros: u64) -> (r: Score)
        requires
            d1 > 0,
            d2 > 0,
            d3 > 0,
            d4 > 0,
        ensures
            r.exact() == (Exact {
                num: num@,
                den: (d1 as nat) * (d2 as nat) * (d3 as nat) * (d4 as nat),
            }),
            r.exact().den > 0,
            r.rounded() == micros,
    {
        proof {
            lemma_chain(0, d1 as nat, d2 as nat, d3 as nat, d4 as nat);
        }
        Score { num, d1, d2, d3, d4, micros }
    }

    /// The score in whole millionths, each weighted part rounded down. Two
    /// scores that differ by little may show the same number.
    pub fn micros(&self) -> (m: u64)
        ensures
            m == self.rounded(),
    {
        self.micros
    }

    /// Whether this score is lower than the other, exactly.
    pub fn lt(&self, other: &Score) -> (b: bool)
        ensures
            b == self.exact().lt(other.exact()),
            self.exact().den > 0,
            other.exact().den > 0,
    {
        proof {
            use_type_invariant(self);
            use_type_invariant(other);
            lemma_chain(
                self.num@,
                other.d1 as nat,
                other.d2 as nat,
                other.d3 as nat,
                other.d4 as nat,
            );
            lemma_chain(other.num@, self.d1 as nat, self.d2 as nat, self.d3 as nat, self.d4 as nat);
        }
        let left = self.num.mul_u64(other.d1).mul_u64(other.d2).mul_u64(other.d3).mul_u64(
            other.d4,
        );
        let right = other.num.mul_u64(self.d1).mul_u64(self.d2).mul_u64(self.d3).mul_u64(self.d4);
        left.lt(&right)
    }
}

} // verus!
