//! Exact storage: a fixed number of rationals over one denominator, held in machine integers.

use crate::divisor::{abs, gcd_exec, gcd_fold, lemma_exact_division, lemma_gcd_fold_divides};
use crate::error::TransformError;
use crate::fraction::{lemma_reduced, lemma_reduced_within, Fractions};
use vstd::prelude::*;

verus! {

/// The largest denominator, and the largest magnitude of a numerator, that a stored value
/// may have: 2^30. Within it, every intermediate of a product or an inverse of 4x4 matrices
/// fits 128-bit integers.
pub const LIMIT: i64 = 1_073_741_824;

/// The largest magnitude of a numerator that `Rationals::from_wide` accepts: 2^126.
pub const WIDE_LIMIT: i128 = 0x4000_0000_0000_0000_0000_0000_0000_0000;

/// `LIMIT` squared: 2^60.
pub const LIMIT2: i128 = 0x1000_0000_0000_0000;

/// `LIMIT` cubed: 2^90.
pub const LIMIT3: i128 = 0x400_0000_0000_0000_0000_0000;

/// The integers of an array of wide integers.
pub open spec fn wide_ints<const N: usize>(a: [i128; N]) -> Seq<int> {
    Seq::new(N as nat, |i: int| a[i] as int)
}

/// `N` rationals over one denominator, in lowest terms and within `LIMIT`.
#[derive(Clone, Copy, Debug, PartialEq, Eq)]
pub struct Rationals<const N: usize> {
    num: [i64; N],
    den: i64,
}

impl<const N: usize> View for Rationals<N> {
    type V = Fractions;

    closed spec fn view(&self) -> Fractions {
        Fractions { num: Seq::new(N as nat, |i: int| self.num[i] as int), den: self.den as int }
    }
}

/// The magnitude of a wide integer.
fn magnitude(x: i128) -> (m: u128)
    requires
        x > i128::MIN,
    ensures
        m == abs(x as int),
{
    if x < 0 {
        (-x) as u128
    } else {
        x as u128
    }
}

/// The product of two stored integers, which cannot overflow.
pub fn product(a: i64, b: i64) -> (p: i128)
    requires
        -LIMIT <= a <= LIMIT,
        -LIMIT <= b <= LIMIT,
    ensures
        p == a * b,
        -LIMIT * LIMIT <= p <= LIMIT * LIMIT,
{
    assert(-LIMIT * LIMIT <= a * b <= LIMIT * LIMIT) by (nonlinear_arith)
        requires
            -LIMIT <= a <= LIMIT,
            -LIMIT <= b <= LIMIT,
    ;
    (a as i128) * (b as i128)
}

/// The product of two wide integers whose magnitudes are bounded so that it cannot overflow.
pub(crate) fn times(
    a: i128,
    b: i128,
    Ghost(bound_a): Ghost<int>,
    Ghost(bound_b): Ghost<int>,
) -> (p: i128)
    requires
        -bound_a <= a <= bound_a,
        -bound_b <= b <= bound_b,
        bound_a * bound_b <= WIDE_LIMIT,
    ensures
        p == a * b,
        -(bound_a * bound_b) <= p <= bound_a * bound_b,
{
    assert(-(bound_a * bound_b) <= a * b <= bound_a * bound_b) by (nonlinear_arith)
        requires
            -bound_a <= a <= bound_a,
            -bound_b <= b <= bound_b,
    ;
    a * b
}

impl<const N: usize> Rationals<N> {
    /// The tuple holds `N` rationals in lowest terms, within `LIMIT`.
    #[verifier::type_invariant]
    pub open spec fn wf(self) -> bool {
        &&& self@.num.len() == N
        &&& self@.lowest()
        &&& self@.within(LIMIT as int)
    }

    /// The numerator at `i`.
    pub fn numerator(&self, i: usize) -> (n: i64)
        requires
            i < N,
        ensures
            n == self@.num[i as int],
            -LIMIT <= n <= LIMIT,
            self.wf(),
    {
        proof {
            use_type_invariant(self);
        }
        self.num[i]
    }

    /// The common denominator.
    pub fn denominator(&self) -> (d: i64)
        ensures
            d == self@.den,
            0 < d <= LIMIT,
            self.wf(),
    {
        proof {
            use_type_invariant(self);
        }
        self.den
    }

    /// The rationals `wide[i] / den`, reduced to lowest terms; `None` when the reduced
    /// tuple is not within `LIMIT`.
    pub fn from_wide(wide: &[i128; N], den: i128) -> (r: Option<Self>)
        requires
            0 < den <= WIDE_LIMIT,
            forall|i: int| 0 <= i < N ==> -WIDE_LIMIT <= #[trigger] wide[i] <= WIDE_LIMIT,
        ensures
            ({
                let f = Fractions { num: wide_ints(*wide), den: den as int }.reduced();
                match r {
                    Some(q) => q@ == f && q.wf(),
                    None => !f.within(LIMIT as int),
                }
            }),
    {
        let ghost raw = Fractions { num: wide_ints(*wide), den: den as int };
        let ghost f = raw.reduced();
        let mut g: u128 = den as u128;
        let mut i: usize = 0;
        while i < N
            invariant
                0 <= i <= N,
                den > 0,
                g == gcd_fold(den as nat, raw.num.take(i as int)),
                forall|k: int| 0 <= k < N ==> -WIDE_LIMIT <= #[trigger] wide[k] <= WIDE_LIMIT,
                raw.num == wide_ints(*wide),
            decreases N - i,
        {
            let a: u128 = magnitude(wide[i]);
            proof {
                let next = raw.num.take(i as int + 1);
                assert(next.drop_last() =~= raw.num.take(i as int));
                assert(next.last() == wide[i as int] as int);
            }
            g = gcd_exec(g, a);
            i = i + 1;
        }
        proof {
            assert(raw.num.take(N as int) =~= raw.num);
            lemma_reduced(raw);
            lemma_gcd_fold_divides(abs(raw.den), raw.num);
            lemma_exact_division(raw.den, g as int);
        }
        let d: u128 = (den as u128) / g;
        if d > LIMIT as u128 {
            return None;
        }
        let mut out: [i64; N] = [0i64; N];
        let mut j: usize = 0;
        while j < N
            invariant
                0 <= j <= N,
                g > 0,
                g == raw.content(),
                f == raw.reduced(),
                raw == (Fractions { num: wide_ints(*wide), den: den as int }),
                f.num.len() == N,
                forall|k: int| 0 <= k < N ==> -WIDE_LIMIT <= #[trigger] wide[k] <= WIDE_LIMIT,
                forall|k: int| 0 <= k < N ==> abs(#[trigger] raw.num[k]) % (g as nat) == 0,
                forall|k: int| 0 <= k < j ==> #[trigger] out[k] as int == f.num[k],
                forall|k: int| 0 <= k < j ==> -LIMIT <= #[trigger] out[k] <= LIMIT,
            decreases N - j,
        {
            let a: u128 = magnitude(wide[j]) / g;
            proof {
                assert(raw.num[j as int] == wide[j as int] as int);
                lemma_exact_division(raw.num[j as int], g as int);
                assert(f.num[j as int] == raw.num[j as int] / (g as int));
                assert(a == abs(f.num[j as int]));
            }
            if a > LIMIT as u128 {
                assert(!(-LIMIT <= f.num[j as int] <= LIMIT));
                return None;
            }
            let v: i64 = if wide[j] < 0 {
                -(a as i64)
            } else {
                a as i64
            };
            out[j] = v;
            j = j + 1;
        }
        proof {
            let v = Fractions { num: Seq::new(N as nat, |k: int| out[k] as int), den: d as int };
            assert(v.num =~= f.num);
            assert(v == f);
        }
        Some(Rationals { num: out, den: d as i64 })
    }

    /// `from_wide`, with `Overflow` for a tuple that is not within `LIMIT`.
    pub fn checked(wide: &[i128; N], den: i128) -> (r: Result<Self, TransformError>)
        requires
            0 < den <= WIDE_LIMIT,
            forall|i: int| 0 <= i < N ==> -WIDE_LIMIT <= #[trigger] wide[i] <= WIDE_LIMIT,
        ensures
            ({
                let f = Fractions { num: wide_ints(*wide), den: den as int }.reduced();
                match r {
                    Ok(q) => q@ == f && q.wf(),
                    Err(e) => e == TransformError::Overflow && !f.within(LIMIT as int),
                }
            }),
    {
        match Self::from_wide(wide, den) {
            Some(q) => Ok(q),
            None => Err(TransformError::Overflow),
        }
    }

    /// `from_wide` for a tuple that is known to be within `LIMIT` before reduction.
    pub fn reduce(wide: &[i128; N], den: i128) -> (q: Self)
        requires
            0 < den <= LIMIT,
            forall|i: int| 0 <= i < N ==> -LIMIT <= #[trigger] wide[i] <= LIMIT,
        ensures
            q@ == (Fractions { num: wide_ints(*wide), den: den as int }).reduced(),
            q.wf(),
    {
        proof {
            let raw = Fractions { num: wide_ints(*wide), den: den as int };
            assert(raw.within(LIMIT as int));
            lemma_reduced_within(raw, LIMIT as int);
        }
        match Self::from_wide(wide, den) {
            Some(q) => q,
            None => vstd::pervasive::unreached(),
        }
    }

    /// The member-wise sum.
    pub fn add(&self, other: &Self) -> (r: Result<Self, TransformError>)
        ensures
            match r {
                Ok(q) => q@ == self@.sum(other@).reduced() && q.wf(),
                Err(e) => e == TransformError::Overflow && !self@.sum(other@).reduced().within(
                    LIMIT as int,
                ),
            },
    {
        proof {
            use_type_invariant(self);
            use_type_invariant(other);
        }
        let mut wide: [i128; N] = [0i128; N];
        let mut i: usize = 0;
        while i < N
            invariant
                0 <= i <= N,
                self.wf(),
                other.wf(),
                forall|k: int|
                    0 <= k < i ==> #[trigger] wide[k] as int == self@.sum(other@).num[k],
                forall|k: int| 0 <= k < N ==> -WIDE_LIMIT <= #[trigger] wide[k] <= WIDE_LIMIT,
            decreases N - i,
        {
            proof {
                assert(self@.num[i as int] == self.num[i as int]);
                assert(other@.num[i as int] == other.num[i as int]);
            }
            let left: i128 = product(self.num[i], other.den);
            let right: i128 = product(other.num[i], self.den);
            wide[i] = left + right;
            i = i + 1;
        }
        let den: i128 = product(self.den, other.den);
        proof {
            assert(den > 0) by (nonlinear_arith)
                requires
                    den == self.den * other.den,
                    self.den > 0,
                    other.den > 0,
            ;
            assert(wide_ints(wide) =~= self@.sum(other@).num);
        }
        Self::checked(&wide, den)
    }

    /// The member-wise difference.
    pub fn sub(&self, other: &Self) -> (r: Result<Self, TransformError>)
        ensures
            match r {
                Ok(q) => q@ == self@.difference(other@).reduced() && q.wf(),
                Err(e) => e == TransformError::Overflow && !self@.difference(
                    other@,
                ).reduced().within(LIMIT as int),
            },
    {
        proof {
            use_type_invariant(self);
            use_type_invariant(other);
        }
        let mut wide: [i128; N] = [0i128; N];
        let mut i: usize = 0;
        while i < N
            invariant
                0 <= i <= N,
                self.wf(),
                other.wf(),
                forall|k: int|
                    0 <= k < i ==> #[trigger] wide[k] as int == self@.difference(other@).num[k],
                forall|k: int| 0 <= k < N ==> -WIDE_LIMIT <= #[trigger] wide[k] <= WIDE_LIMIT,
            decreases N - i,
        {
            proof {
                assert(self@.num[i as int] == self.num[i as int]);
                assert(other@.num[i as int] == other.num[i as int]);
            }
            let left: i128 = product(self.num[i], other.den);
            let right: i128 = product(other.num[i], self.den);
            wide[i] = left - right;
            i = i + 1;
        }
        let den: i128 = product(self.den, other.den);
        proof {
            assert(den > 0) by (nonlinear_arith)
                requires
                    den == self.den * other.den,
                    self.den > 0,
                    other.den > 0,
            ;
            assert(wide_ints(wide) =~= self@.difference(other@).num);
        }
        Self::checked(&wide, den)
    }

    /// Every member multiplied by the one rational of `factor`.
    pub fn scale_by(&self, factor: &Rationals<1>) -> (r: Result<Self, TransformError>)
        ensures
            match r {
                Ok(q) => q@ == self@.scaled_by(factor@).reduced() && q.wf(),
                Err(e) => e == TransformError::Overflow && !self@.scaled_by(
                    factor@,
                ).reduced().within(LIMIT as int),
            },
    {
        proof {
            use_type_invariant(self);
            use_type_invariant(factor);
        }
        let mut wide: [i128; N] = [0i128; N];
        let mut i: usize = 0;
        while i < N
            invariant
                0 <= i <= N,
                self.wf(),
                factor.wf(),
                forall|k: int|
                    0 <= k < i ==> #[trigger] wide[k] as int == self@.scaled_by(factor@).num[k],
                forall|k: int| 0 <= k < N ==> -WIDE_LIMIT <= #[trigger] wide[k] <= WIDE_LIMIT,
            decreases N - i,
        {
            proof {
                assert(self@.num[i as int] == self.num[i as int]);
                assert(factor@.num[0] == factor.num[0]);
            }
            wide[i] = product(self.num[i], factor.num[0]);
            i = i + 1;
        }
        let den: i128 = product(self.den, factor.den);
        proof {
            assert(den > 0) by (nonlinear_arith)
                requires
                    den == self.den * factor.den,
                    self.den > 0,
                    factor.den > 0,
            ;
            assert(wide_ints(wide) =~= self@.scaled_by(factor@).num);
        }
        Self::checked(&wide, den)
    }
}

} // verus!
