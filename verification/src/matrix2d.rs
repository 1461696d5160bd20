//! The 3x3 matrix of an affine transform of the plane, in exact rationals.

use crate::determinant::skip;
use crate::determinant3::{cofactor3, det2, det9, minor3};
use crate::error::TransformError;
use crate::exact::{product, times, wide_ints, Rationals, LIMIT, LIMIT2};
use crate::fraction::Fractions;
use crate::linear3::{
    adjugate3, identity3, inverse3, invertible3, lemma_identity3_lowest, mul3, product3,
    raw_inverse3, raw_mul3, unit3,
};
use crate::scalar::{raw_scalar, Scalar};
use vstd::prelude::*;

verus! {

/// The matrix with the given numerators, row by row, over `den`, not reduced.
pub open spec fn raw_matrix3(rows: [[i64; 3]; 3], den: int) -> Fractions {
    Fractions { num: Seq::new(9, |t: int| rows[t / 3][t % 3] as int), den: den }
}

/// The entry at row `i` and column `j`, as a rational in lowest terms.
pub open spec fn entry3(m: Fractions, i: int, j: int) -> Fractions {
    raw_scalar(m.num[3 * i + j], m.den).reduced()
}

/// A 3x3 matrix of rationals in lowest terms over one denominator: rows 0 and 1 hold the
/// linear part and, in column 2, the translation; row 2 is `(0, 0, 1)` in a frame that was
/// built from the identity by rotating, translating and scaling.
#[derive(Clone, Copy, Debug, PartialEq, Eq)]
pub struct Matrix2D {
    cells: Rationals<9>,
}

impl View for Matrix2D {
    type V = Fractions;

    closed spec fn view(&self) -> Fractions {
        self.cells@
    }
}

/// The index that is left at place `k` when index `i` is struck out.
fn skip_exec(k: usize, i: usize) -> (r: usize)
    requires
        k < 2,
        i < 3,
    ensures
        r == skip(k as int, i as int),
        r < 3,
{
    if k < i {
        k
    } else {
        k + 1
    }
}

/// The determinant of a 2x2 matrix of stored integers.
fn det2_exec(a: i64, b: i64, c: i64, d: i64) -> (r: i128)
    requires
        -LIMIT <= a <= LIMIT,
        -LIMIT <= b <= LIMIT,
        -LIMIT <= c <= LIMIT,
        -LIMIT <= d <= LIMIT,
    ensures
        r == det2(a as int, b as int, c as int, d as int),
        -2 * LIMIT2 <= r <= 2 * LIMIT2,
{
    product(a, d) - product(b, c)
}

impl Matrix2D {
    /// Nine rationals in lowest terms over one denominator, within `LIMIT`.
    #[verifier::type_invariant]
    pub open spec fn wf(self) -> bool {
        &&& self@.num.len() == 9
        &&& self@.lowest()
        &&& self@.within(LIMIT as int)
    }

    /// The tuple that holds the entries.
    pub(crate) fn cells(&self) -> (r: &Rationals<9>)
        ensures
            r@ == self@,
            r.wf(),
            self.wf(),
    {
        proof {
            use_type_invariant(self);
        }
        &self.cells
    }

    /// The matrix that holds the given tuple, or the error that came in its place.
    pub(crate) fn from_cells(cells: Result<Rationals<9>, TransformError>) -> (r: Result<
        Matrix2D,
        TransformError,
    >)
        ensures
            match (cells, r) {
                (Ok(c), Ok(m)) => m@ == c@ && m.wf(),
                (Err(e), Err(f)) => e == f,
                _ => false,
            },
    {
        match cells {
            Ok(c) => {
                proof {
                    use_type_invariant(&c);
                }
                Ok(Matrix2D { cells: c })
            },
            Err(e) => Err(e),
        }
    }

    /// The matrix that holds the given tuple.
    pub(crate) fn from_tuple(cells: Rationals<9>) -> (m: Matrix2D)
        ensures
            m@ == cells@,
            m.wf(),
    {
        proof {
            use_type_invariant(&cells);
        }
        Matrix2D { cells }
    }

    /// The identity: ones on the diagonal, zeros elsewhere.
    pub fn identity() -> (m: Matrix2D)
        ensures
            m@ == identity3(),
            m.wf(),
    {
        let wide: [i128; 9] = [1, 0, 0, 0, 1, 0, 0, 0, 1];
        proof {
            assert(wide_ints(wide) =~= unit3());
            lemma_identity3_lowest();
            crate::fraction::lemma_lowest_is_reduced(identity3());
        }
        let cells = Rationals::reduce(&wide, 1);
        Matrix2D { cells }
    }

    /// The matrix with the entries `rows[i][j] / den`. A denominator that is not positive
    /// is refused with `BadDenominator`, a matrix whose lowest terms are beyond `LIMIT`
    /// with `Overflow`.
    pub fn from_rows(rows: [[i64; 3]; 3], den: i64) -> (r: Result<Matrix2D, TransformError>)
        ensures
            match r {
                Ok(m) => den > 0 && m@ == raw_matrix3(rows, den as int).reduced() && m.wf(),
                Err(e) => if den <= 0 {
                    e == TransformError::BadDenominator
                } else {
                    e == TransformError::Overflow && !raw_matrix3(
                        rows,
                        den as int,
                    ).reduced().within(LIMIT as int)
                },
            },
    {
        if den <= 0 {
            return Err(TransformError::BadDenominator);
        }
        let mut wide: [i128; 9] = [0i128; 9];
        let mut t: usize = 0;
        while t < 9
            invariant
                0 <= t <= 9,
                forall|k: int| 0 <= k < t ==> #[trigger] wide[k] as int == rows[k / 3][k % 3],
                forall|k: int|
                    0 <= k < 9 ==> -0x8000_0000_0000_0000 <= #[trigger] wide[k]
                        <= 0x8000_0000_0000_0000,
            decreases 9 - t,
        {
            wide[t] = rows[t / 3][t % 3] as i128;
            t = t + 1;
        }
        proof {
            assert(wide_ints(wide) =~= raw_matrix3(rows, den as int).num);
        }
        Self::from_cells(Rationals::checked(&wide, den as i128))
    }

    /// The entry at row `i` and column `j`.
    pub fn entry(&self, i: usize, j: usize) -> (s: Scalar)
        requires
            i < 3,
            j < 3,
        ensures
            s@ == entry3(self@, i as int, j as int),
            s.wf(),
    {
        let cells = self.cells();
        let wide: [i128; 1] = [cells.numerator(3 * i + j) as i128];
        proof {
            assert(wide_ints(wide) =~= seq![self@.num[3 * i + j]]);
        }
        Scalar::from_cells(Rationals::reduce(&wide, cells.denominator() as i128))
    }

    /// The entry-wise sum.
    pub fn add(&self, other: &Matrix2D) -> (r: Result<Matrix2D, TransformError>)
        ensures
            match r {
                Ok(m) => m@ == self@.sum(other@).reduced() && m.wf(),
                Err(e) => e == TransformError::Overflow && !self@.sum(other@).reduced().within(
                    LIMIT as int,
                ),
            },
    {
        Self::from_cells(self.cells().add(other.cells()))
    }

    /// The entry-wise difference.
    pub fn sub(&self, other: &Matrix2D) -> (r: Result<Matrix2D, TransformError>)
        ensures
            match r {
                Ok(m) => m@ == self@.difference(other@).reduced() && m.wf(),
                Err(e) => e == TransformError::Overflow && !self@.difference(
                    other@,
                ).reduced().within(LIMIT as int),
            },
    {
        Self::from_cells(self.cells().sub(other.cells()))
    }

    /// Every entry multiplied by `factor`.
    pub fn scale_entries(&self, factor: &Scalar) -> (r: Result<Matrix2D, TransformError>)
        ensures
            match r {
                Ok(m) => m@ == self@.scaled_by(factor@).reduced() && m.wf(),
                Err(e) => e == TransformError::Overflow && !self@.scaled_by(
                    factor@,
                ).reduced().within(LIMIT as int),
            },
    {
        Self::from_cells(self.cells().scale_by(factor.cells()))
    }

    /// The matrix product `self * other`: rows of `self` times columns of `other`. As a
    /// transform it applies `other` first and `self` after it.
    pub fn mul(&self, other: &Matrix2D) -> (r: Result<Matrix2D, TransformError>)
        ensures
            match r {
                Ok(m) => m@ == mul3(self@, other@) && m.wf(),
                Err(e) => e == TransformError::Overflow && !mul3(self@, other@).within(
                    LIMIT as int,
                ),
            },
    {
        let a = self.cells();
        let b = other.cells();
        let mut wide: [i128; 9] = [0i128; 9];
        let mut t: usize = 0;
        while t < 9
            invariant
                0 <= t <= 9,
                a.wf(),
                b.wf(),
                a@.num.len() == 9,
                b@.num.len() == 9,
                forall|k: int|
                    0 <= k < t ==> #[trigger] wide[k] as int == product3(a@.num, b@.num)[k],
                forall|k: int| 0 <= k < 9 ==> -3 * LIMIT2 <= #[trigger] wide[k] <= 3 * LIMIT2,
            decreases 9 - t,
        {
            let i: usize = t / 3;
            let j: usize = t % 3;
            let p0: i128 = product(a.numerator(3 * i), b.numerator(j));
            let p1: i128 = product(a.numerator(3 * i + 1), b.numerator(3 + j));
            let p2: i128 = product(a.numerator(3 * i + 2), b.numerator(6 + j));
            wide[t] = p0 + p1 + p2;
            t = t + 1;
        }
        let den: i128 = product(a.denominator(), b.denominator());
        proof {
            crate::linear4::lemma_positive_product(a@.den, b@.den);
            assert(wide_ints(wide) =~= raw_mul3(self@, other@).num);
        }
        Self::from_cells(Rationals::checked(&wide, den))
    }

    /// The matrix product `other * self`: as a transform it applies `self` first and
    /// `other` after it.
    pub fn pre_mul(&self, other: &Matrix2D) -> (r: Result<Matrix2D, TransformError>)
        ensures
            match r {
                Ok(m) => m@ == mul3(other@, self@) && m.wf(),
                Err(e) => e == TransformError::Overflow && !mul3(other@, self@).within(
                    LIMIT as int,
                ),
            },
    {
        other.mul(self)
    }

    /// The cofactor at row `i` and column `j`.
    fn cofactor(&self, i: usize, j: usize) -> (c: i128)
        requires
            i < 3,
            j < 3,
        ensures
            c == cofactor3(self@.num, i as int, j as int),
            -2 * LIMIT2 <= c <= 2 * LIMIT2,
    {
        let m = self.cells();
        let r0: usize = skip_exec(0, i);
        let r1: usize = skip_exec(1, i);
        let c0: usize = skip_exec(0, j);
        let c1: usize = skip_exec(1, j);
        let minor: i128 = det2_exec(
            m.numerator(3 * r0 + c0),
            m.numerator(3 * r0 + c1),
            m.numerator(3 * r1 + c0),
            m.numerator(3 * r1 + c1),
        );
        assert(minor == minor3(self@.num, i as int, j as int));
        if (i + j) % 2 == 0 {
            minor
        } else {
            -minor
        }
    }

    /// The inverse. A matrix whose determinant is zero is refused with `Singular`, an
    /// inverse whose lowest terms are beyond `LIMIT` with `Overflow`.
    pub fn invert(&self) -> (r: Result<Matrix2D, TransformError>)
        ensures
            match r {
                Ok(m) => invertible3(self@) && m@ == inverse3(self@) && m.wf(),
                Err(e) => if invertible3(self@) {
                    e == TransformError::Overflow && !inverse3(self@).within(LIMIT as int)
                } else {
                    e == TransformError::Singular
                },
            },
    {
        let m = self.cells();
        let mut cof: [i128; 9] = [0i128; 9];
        let mut t: usize = 0;
        while t < 9
            invariant
                0 <= t <= 9,
                self.wf(),
                forall|k: int|
                    0 <= k < t ==> #[trigger] cof[k] as int == cofactor3(self@.num, k / 3, k % 3),
                forall|k: int| 0 <= k < 9 ==> -2 * LIMIT2 <= #[trigger] cof[k] <= 2 * LIMIT2,
            decreases 9 - t,
        {
            cof[t] = self.cofactor(t / 3, t % 3);
            t = t + 1;
        }
        let d0: i128 = times(m.numerator(0) as i128, cof[0], Ghost(LIMIT as int), Ghost(2 * LIMIT2));
        let d1: i128 = times(m.numerator(1) as i128, cof[1], Ghost(LIMIT as int), Ghost(2 * LIMIT2));
        let d2: i128 = times(m.numerator(2) as i128, cof[2], Ghost(LIMIT as int), Ghost(2 * LIMIT2));
        let det: i128 = d0 + d1 + d2;
        assert(det == det9(self@.num));
        if det == 0 {
            return Err(TransformError::Singular);
        }
        let den: i64 = m.denominator();
        let k: i64 = if det > 0 {
            den
        } else {
            -den
        };
        let positive: i128 = if det > 0 {
            det
        } else {
            -det
        };
        let mut wide: [i128; 9] = [0i128; 9];
        let mut u: usize = 0;
        while u < 9
            invariant
                0 <= u <= 9,
                -LIMIT <= k <= LIMIT,
                forall|n: int|
                    0 <= n < 9 ==> #[trigger] cof[n] as int == cofactor3(self@.num, n / 3, n % 3),
                forall|n: int| 0 <= n < 9 ==> -2 * LIMIT2 <= #[trigger] cof[n] <= 2 * LIMIT2,
                forall|n: int|
                    0 <= n < u ==> #[trigger] wide[n] as int == k * adjugate3(self@.num)[n],
                forall|n: int|
                    0 <= n < 9 ==> -2 * LIMIT2 * LIMIT <= #[trigger] wide[n] <= 2 * LIMIT2
                        * LIMIT,
            decreases 9 - u,
        {
            let from: usize = 3 * (u % 3) + u / 3;
            wide[u] = times(k as i128, cof[from], Ghost(LIMIT as int), Ghost(2 * LIMIT2));
            u = u + 1;
        }
        proof {
            assert(wide_ints(wide) =~= raw_inverse3(self@).num);
        }
        Self::from_cells(Rationals::checked(&wide, positive))
    }
}

impl Default for Matrix2D {
    /// The matrix whose entries are all zero.
    fn default() -> (m: Matrix2D)
        ensures
            m@.num == Seq::new(9, |t: int| 0int),
            m@.den == 1,
            m.wf(),
    {
        let wide: [i128; 9] = [0i128; 9];
        proof {
            let zeros = Fractions { num: Seq::new(9, |t: int| 0int), den: 1 };
            assert(wide_ints(wide) =~= zeros.num);
            crate::linear4::lemma_gcd_fold_of_one(zeros.num);
            crate::fraction::lemma_lowest_is_reduced(zeros);
        }
        Matrix2D { cells: Rationals::reduce(&wide, 1) }
    }
}

} // verus!
