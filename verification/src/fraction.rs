//! Tuples of rational numbers over one common denominator, kept in lowest terms.
//!
//! `Fractions` is the mathematical model that every value of the library is viewed as:
//! a scalar has one numerator, a vector three or four, a matrix nine or sixteen.
//! Two tuples in lowest terms are equal exactly when they denote the same rationals.

use crate::divisor::{
    abs, divided, gcd_fold, lemma_exact_division, lemma_gcd_fold_divides, lemma_gcd_fold_scales,
    scaled,
};
use vstd::prelude::*;

verus! {

/// The numerators `num[i]` over the common denominator `den`: the rationals `num[i] / den`.
pub struct Fractions {
    pub num: Seq<int>,
    pub den: int,
}

impl Fractions {
    /// The greatest number that divides the denominator and every numerator.
    pub open spec fn content(self) -> nat {
        gcd_fold(abs(self.den), self.num)
    }

    /// The denominator is positive and no number above 1 divides it and all numerators.
    pub open spec fn lowest(self) -> bool {
        self.den > 0 && self.content() == 1
    }

    /// The same rationals with the common factor taken out.
    pub open spec fn reduced(self) -> Fractions {
        Fractions {
            num: divided(self.num, self.content() as int),
            den: self.den / (self.content() as int),
        }
    }

    /// Both tuples denote the same rationals, member by member.
    pub open spec fn same_value(self, other: Fractions) -> bool {
        &&& self.num.len() == other.num.len()
        &&& forall|i: int|
            0 <= i < self.num.len() ==> #[trigger] self.num[i] * other.den == #[trigger] other.num[i]
                * self.den
    }

    /// The member-wise sum, not reduced.
    pub open spec fn sum(self, other: Fractions) -> Fractions {
        Fractions {
            num: Seq::new(
                self.num.len(),
                |i: int| self.num[i] * other.den + other.num[i] * self.den,
            ),
            den: self.den * other.den,
        }
    }

    /// The member-wise difference, not reduced.
    pub open spec fn difference(self, other: Fractions) -> Fractions {
        Fractions {
            num: Seq::new(
                self.num.len(),
                |i: int| self.num[i] * other.den - other.num[i] * self.den,
            ),
            den: self.den * other.den,
        }
    }

    /// Every member multiplied by the first member of `factor`, not reduced.
    pub open spec fn scaled_by(self, factor: Fractions) -> Fractions {
        Fractions {
            num: Seq::new(self.num.len(), |i: int| self.num[i] * factor.num[0]),
            den: self.den * factor.den,
        }
    }

    /// The denominator and the magnitude of every numerator are at most `limit`.
    pub open spec fn within(self, limit: int) -> bool {
        &&& self.den <= limit
        &&& forall|i: int| 0 <= i < self.num.len() ==> -limit <= #[trigger] self.num[i] <= limit
    }
}

/// Taking the common factor out gives lowest terms and keeps the value.
pub proof fn lemma_reduced(f: Fractions)
    requires
        f.den > 0,
    ensures
        f.reduced().lowest(),
        f.reduced().same_value(f),
        f.reduced().num.len() == f.num.len(),
        f.content() > 0,
        f.den == f.content() * f.reduced().den,
        forall|i: int|
            0 <= i < f.num.len() ==> #[trigger] f.num[i] == f.content() * f.reduced().num[i],
{
    let g = f.content();
    let r = f.reduced();
    lemma_gcd_fold_divides(abs(f.den), f.num);
    lemma_exact_division(f.den, g as int);
    assert(r.den > 0) by (nonlinear_arith)
        requires
            f.den == g * r.den,
            f.den > 0,
            g > 0,
    ;
    assert forall|i: int| 0 <= i < f.num.len() implies #[trigger] f.num[i] == g * r.num[i] by {
        lemma_exact_division(f.num[i], g as int);
    }
    assert(f.num =~= scaled(r.num, g as int));
    lemma_gcd_fold_scales(g, abs(r.den), r.num);
    assert(g * abs(r.den) == abs(f.den));
    assert(r.content() == 1) by (nonlinear_arith)
        requires
            g == g * r.content(),
            g > 0,
    ;
    assert forall|i: int| 0 <= i < r.num.len() implies #[trigger] r.num[i] * f.den
        == #[trigger] f.num[i] * r.den by {
        assert(r.num[i] * f.den == f.num[i] * r.den) by (nonlinear_arith)
            requires
                f.den == g * r.den,
                f.num[i] == g * r.num[i],
        ;
    }
}

/// Reduction never enlarges a denominator or the magnitude of a numerator.
pub proof fn lemma_reduced_within(f: Fractions, limit: int)
    requires
        f.den > 0,
        f.within(limit),
    ensures
        f.reduced().within(limit),
{
    lemma_reduced(f);
    let g = f.content() as int;
    let r = f.reduced();
    assert(r.den <= f.den) by (nonlinear_arith)
        requires
            f.den == g * r.den,
            g > 0,
            r.den > 0,
    ;
    assert forall|i: int| 0 <= i < r.num.len() implies -limit <= #[trigger] r.num[i] <= limit by {
        let x = f.num[i];
        let y = r.num[i];
        assert(-limit <= x <= limit);
        assert(-limit <= y <= limit) by (nonlinear_arith)
            requires
                x == g * y,
                g > 0,
                -limit <= x <= limit,
        ;
    }
}

/// Two tuples in lowest terms that denote the same rationals are the same tuple.
pub proof fn lemma_lowest_unique(f: Fractions, h: Fractions)
    requires
        f.lowest(),
        h.lowest(),
        f.same_value(h),
    ensures
        f == h,
{
    let left = scaled(f.num, h.den);
    let right = scaled(h.num, f.den);
    assert forall|i: int| 0 <= i < left.len() implies left[i] == right[i] by {
        assert(f.num[i] * h.den == h.num[i] * f.den);
        assert(h.den * f.num[i] == f.num[i] * h.den) by (nonlinear_arith);
        assert(f.den * h.num[i] == h.num[i] * f.den) by (nonlinear_arith);
    }
    assert(left =~= right);
    lemma_gcd_fold_scales(h.den as nat, f.den as nat, f.num);
    lemma_gcd_fold_scales(f.den as nat, h.den as nat, h.num);
    assert((h.den as nat) * (f.den as nat) == (f.den as nat) * (h.den as nat)) by (nonlinear_arith);
    assert((h.den as nat) * 1 == h.den);
    assert((f.den as nat) * 1 == f.den);
    assert(f.den == h.den);
    assert forall|i: int| 0 <= i < f.num.len() implies f.num[i] == h.num[i] by {
        assert(f.num[i] * h.den == h.num[i] * f.den);
        assert(f.num[i] == h.num[i]) by (nonlinear_arith)
            requires
                f.num[i] * h.den == h.num[i] * f.den,
                f.den == h.den,
                f.den > 0,
        ;
    }
    assert(f.num =~= h.num);
}

/// Denoting the same rationals is transitive.
pub proof fn lemma_same_value_transitive(a: Fractions, b: Fractions, c: Fractions)
    requires
        b.den != 0,
        a.same_value(b),
        b.same_value(c),
    ensures
        a.same_value(c),
{
    assert forall|i: int| 0 <= i < a.num.len() implies #[trigger] a.num[i] * c.den
        == #[trigger] c.num[i] * a.den by {
        assert(a.num[i] * b.den == b.num[i] * a.den);
        assert(b.num[i] * c.den == c.num[i] * b.den);
        assert(a.num[i] * c.den == c.num[i] * a.den) by (nonlinear_arith)
            requires
                a.num[i] * b.den == b.num[i] * a.den,
                b.num[i] * c.den == c.num[i] * b.den,
                b.den != 0,
        ;
    }
}

/// Denoting the same rationals is symmetric.
pub proof fn lemma_same_value_symmetric(a: Fractions, b: Fractions)
    requires
        a.same_value(b),
    ensures
        b.same_value(a),
{
    assert forall|i: int| 0 <= i < b.num.len() implies #[trigger] b.num[i] * a.den
        == #[trigger] a.num[i] * b.den by {
        assert(a.num[i] * b.den == b.num[i] * a.den);
    }
}

/// Tuples with positive denominators that denote the same rationals reduce to the same tuple.
pub proof fn lemma_reduced_respects_value(f: Fractions, h: Fractions)
    requires
        f.den > 0,
        h.den > 0,
        f.same_value(h),
    ensures
        f.reduced() == h.reduced(),
{
    lemma_reduced(f);
    lemma_reduced(h);
    lemma_same_value_transitive(f.reduced(), f, h);
    lemma_same_value_symmetric(h.reduced(), h);
    lemma_same_value_transitive(f.reduced(), h, h.reduced());
    lemma_lowest_unique(f.reduced(), h.reduced());
}

/// A tuple in lowest terms is its own reduction.
pub proof fn lemma_lowest_is_reduced(f: Fractions)
    requires
        f.lowest(),
    ensures
        f.reduced() == f,
{
    lemma_reduced(f);
    lemma_lowest_unique(f.reduced(), f);
}

} // verus!
