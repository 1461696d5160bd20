//! The 4x4 matrix of an affine transform of space, in exact rationals.

use crate::determinant::{cofactor4, det3, det4, minor4, skip};
use crate::error::TransformError;
use crate::exact::{product, times, wide_ints, Rationals, LIMIT, LIMIT2, LIMIT3};
use crate::fraction::Fractions;
use crate::linear4::{
    adjugate4, identity4, inverse4, invertible4, lemma_identity4_lowest, mul4, product4,
    raw_inverse4, raw_mul4, unit4,
};
use crate::scalar::{raw_scalar, Scalar};
use vstd::prelude::*;

verus! {

/// The matrix with the given numerators, row by row, over `den`, not reduced.
pub open spec fn raw_matrix4(rows: [[i64; 4]; 4], den: int) -> Fractions {
    Fractions { num: Seq::new(16, |t: int| rows[t / 4][t % 4] as int), den: den }
}

/// The entry at row `i` and column `j`, as a rational in lowest terms.
pub open spec fn entry4(m: Fractions, i: int, j: int) -> Fractions {
    raw_scalar(m.num[4 * i + j], m.den).reduced()
}

/// A 4x4 matrix of rationals in lowest terms over one denominator: rows 0 to 2 hold the
/// linear part and, in column 3, the translation; row 3 is `(0, 0, 0, 1)` in a frame that
/// was built from the identity by rotating, translating and scaling.
#[derive(Clone, Copy, Debug, PartialEq, Eq)]
pub struct Matrix3D {
    cells: Rationals<16>,
}

impl View for Matrix3D {
    type V = Fractions;

    closed spec fn view(&self) -> Fractions {
        self.cells@
    }
}

/// The index that is left at place `k` when index `i` is struck out.
fn skip_exec(k: usize, i: usize) -> (r: usize)
    requires
        k < 3,
        i < 4,
    ensures
        r == skip(k as int, i as int),
        r < 4,
{
    if k < i {
        k
    } else {
        k + 1
    }
}

/// The determinant of a 3x3 matrix of stored integers.
fn det3_exec(a: i64, b: i64, c: i64, d: i64, e: i64, f: i64, g: i64, h: i64, i: i64) -> (r: i128)
    requires
        -LIMIT <= a <= LIMIT,
        -LIMIT <= b <= LIMIT,
        -LIMIT <= c <= LIMIT,
        -LIMIT <= d <= LIMIT,
        -LIMIT <= e <= LIMIT,
        -LIMIT <= f <= LIMIT,
        -LIMIT <= g <= LIMIT,
        -LIMIT <= h <= LIMIT,
        -LIMIT <= i <= LIMIT,
    ensures
        r == det3(a as int, b as int, c as int, d as int, e as int, f as int, g as int, h as int,
            i as int),
        -6 * LIMIT3 <= r <= 6 * LIMIT3,
{
    let first: i128 = times(
        a as i128,
        product(e, i) - product(f, h),
        Ghost(LIMIT as int),
        Ghost(2 * LIMIT2),
    );
    let second: i128 = times(
        b as i128,
        product(d, i) - product(f, g),
        Ghost(LIMIT as int),
        Ghost(2 * LIMIT2),
    );
    let third: i128 = times(
        c as i128,
        product(d, h) - product(e, g),
        Ghost(LIMIT as int),
        Ghost(2 * LIMIT2),
    );
    first - second + third
}

impl Matrix3D {
    /// Sixteen rationals in lowest terms over one denominator, within `LIMIT`.
    #[verifier::type_invariant]
    pub open spec fn wf(self) -> bool {
        &&& self@.num.len() == 16
        &&& self@.lowest()
        &&& self@.within(LIMIT as int)
    }

    /// The tuple that holds the entries.
    pub(crate) fn cells(&self) -> (r: &Rationals<16>)
        ensures
            r@ == self@,
            r.wf(),
            self.wf(),
    {
        proof {
            use_type_invariant(self);
        }
        &self.cells
    }

    /// The matrix that holds the given tuple, or the error that came in its place.
    pub(crate) fn from_cells(cells: Result<Rationals<16>, TransformError>) -> (r: Result<
        Matrix3D,
        TransformError,
    >)
        ensures
            match (cells, r) {
                (Ok(c), Ok(m)) => m@ == c@ && m.wf(),
                (Err(e), Err(f)) => e == f,
                _ => false,
            },
    {
        match cells {
            Ok(c) => {
                proof {
                    use_type_invariant(&c);
                }
                Ok(Matrix3D { cells: c })
            },
            Err(e) => Err(e),
        }
    }

    /// The matrix that holds the given tuple.
    pub(crate) fn from_tuple(cells: Rationals<16>) -> (m: Matrix3D)
        ensures
            m@ == cells@,
            m.wf(),
    {
        proof {
            use_type_invariant(&cells);
        }
        Matrix3D { cells }
    }

    /// The identity: ones on the diagonal, zeros elsewhere.
    pub fn identity() -> (m: Matrix3D)
        ensures
            m@ == identity4(),
            m.wf(),
    {
        let wide: [i128; 16] = [1, 0, 0, 0, 0, 1, 0, 0, 0, 0, 1, 0, 0, 0, 0, 1];
        proof {
            assert(wide_ints(wide) =~= unit4());
            lemma_identity4_lowest();
            crate::fraction::lemma_lowest_is_reduced(identity4());
        }
        let cells = Rationals::reduce(&wide, 1);
        Matrix3D { cells }
    }

    /// The matrix with the entries `rows[i][j] / den`. A denominator that is not positive
    /// is refused with `BadDenominator`, a matrix whose lowest terms are beyond `LIMIT`
    /// with `Overflow`.
    pub fn from_rows(rows: [[i64; 4]; 4], den: i64) -> (r: Result<Matrix3D, TransformError>)
        ensures
            match r {
                Ok(m) => den > 0 && m@ == raw_matrix4(rows, den as int).reduced() && m.wf(),
                Err(e) => if den <= 0 {
                    e == TransformError::BadDenominator
                } else {
                    e == TransformError::Overflow && !raw_matrix4(
                        rows,
                        den as int,
                    ).reduced().within(LIMIT as int)
                },
            },
    {
        if den <= 0 {
            return Err(TransformError::BadDenominator);
        }
        let mut wide: [i128; 16] = [0i128; 16];
        let mut t: usize = 0;
        while t < 16
            invariant
                0 <= t <= 16,
                forall|k: int| 0 <= k < t ==> #[trigger] wide[k] as int == rows[k / 4][k % 4],
                forall|k: int|
                    0 <= k < 16 ==> -0x8000_0000_0000_0000 <= #[trigger] wide[k]
                        <= 0x8000_0000_0000_0000,
            decreases 16 - t,
        {
            wide[t] = rows[t / 4][t % 4] as i128;
            t = t + 1;
        }
        proof {
            assert(wide_ints(wide) =~= raw_matrix4(rows, den as int).num);
        }
        Self::from_cells(Rationals::checked(&wide, den as i128))
    }

    /// The entry at row `i` and column `j`.
    pub fn entry(&self, i: usize, j: usize) -> (s: Scalar)
        requires
            i < 4,
            j < 4,
        ensures
            s@ == entry4(self@, i as int, j as int),
            s.wf(),
    {
        let cells = self.cells();
        let wide: [i128; 1] = [cells.numerator(4 * i + j) as i128];
        proof {
            assert(wide_ints(wide) =~= seq![self@.num[4 * i + j]]);
        }
        Scalar::from_cells(Rationals::reduce(&wide, cells.denominator() as i128))
    }

    /// The entry-wise sum.
    pub fn add(&self, other: &Matrix3D) -> (r: Result<Matrix3D, TransformError>)
        ensures
            match r {
                Ok(m) => m@ == self@.sum(other@).reduced() && m.wf(),
                Err(e) => e == TransformError::Overflow && !self@.sum(other@).reduced().within(
                    LIMIT as int,
                ),
            },
    {
        Self::from_cells(self.cells().add(other.cells()))
    }

    /// The entry-wise difference.
    pub fn sub(&self, other: &Matrix3D) -> (r: Result<Matrix3D, TransformError>)
        ensures
            match r {
                Ok(m) => m@ == self@.difference(other@).reduced() && m.wf(),
                Err(e) => e == TransformError::Overflow && !self@.difference(
                    other@,
                ).reduced().within(LIMIT as int),
            },
    {
        Self::from_cells(self.cells().sub(other.cells()))
    }

    /// Every entry multiplied by `factor`.
    pub fn scale_entries(&self, factor: &Scalar) -> (r: Result<Matrix3D, TransformError>)
        ensures
            match r {
                Ok(m) => m@ == self@.scaled_by(factor@).reduced() && m.wf(),
                Err(e) => e == TransformError::Overflow && !self@.scaled_by(
                    factor@,
                ).reduced().within(LIMIT as int),
            },
    {
        Self::from_cells(self.cells().scale_by(factor.cells()))
    }

    /// The matrix product `self * other`: rows of `self` times columns of `other`. As a
    /// transform it applies `other` first and `self` after it.
    pub fn mul(&self, other: &Matrix3D) -> (r: Result<Matrix3D, TransformError>)
        ensures
            match r {
                Ok(m) => m@ == mul4(self@, other@) && m.wf(),
                Err(e) => e == TransformError::Overflow && !mul4(self@, other@).within(
                    LIMIT as int,
                ),
            },
    {
        let a = self.cells();
        let b = other.cells();
        let mut wide: [i128; 16] = [0i128; 16];
        let mut t: usize = 0;
        while t < 16
            invariant
                0 <= t <= 16,
                a.wf(),
                b.wf(),
                a@.num.len() == 16,
                b@.num.len() == 16,
                forall|k: int|
                    0 <= k < t ==> #[trigger] wide[k] as int == product4(a@.num, b@.num)[k],
                forall|k: int| 0 <= k < 16 ==> -4 * LIMIT2 <= #[trigger] wide[k] <= 4 * LIMIT2,
            decreases 16 - t,
        {
            let i: usize = t / 4;
            let j: usize = t % 4;
            let p0: i128 = product(a.numerator(4 * i), b.numerator(j));
            let p1: i128 = product(a.numerator(4 * i + 1), b.numerator(4 + j));
            let p2: i128 = product(a.numerator(4 * i + 2), b.numerator(8 + j));
            let p3: i128 = product(a.numerator(4 * i + 3), b.numerator(12 + j));
            wide[t] = p0 + p1 + p2 + p3;
            t = t + 1;
        }
        let den: i128 = product(a.denominator(), b.denominator());
        proof {
            crate::linear4::lemma_positive_product(a@.den, b@.den);
            assert(wide_ints(wide) =~= raw_mul4(self@, other@).num);
        }
        Self::from_cells(Rationals::checked(&wide, den))
    }

    /// The matrix product `other * self`: as a transform it applies `self` first and
    /// `other` after it.
    pub fn pre_mul(&self, other: &Matrix3D) -> (r: Result<Matrix3D, TransformError>)
        ensures
            match r {
                Ok(m) => m@ == mul4(other@, self@) && m.wf(),
                Err(e) => e == TransformError::Overflow && !mul4(other@, self@).within(
                    LIMIT as int,
                ),
            },
    {
        other.mul(self)
    }

    /// The cofactor at row `i` and column `j`.
    fn cofactor(&self, i: usize, j: usize) -> (c: i128)
        requires
            i < 4,
            j < 4,
        ensures
            c == cofactor4(self@.num, i as int, j as int),
            -6 * LIMIT3 <= c <= 6 * LIMIT3,
    {
        let m = self.cells();
        let r0: usize = skip_exec(0, i);
        let r1: usize = skip_exec(1, i);
        let r2: usize = skip_exec(2, i);
        let c0: usize = skip_exec(0, j);
        let c1: usize = skip_exec(1, j);
        let c2: usize = skip_exec(2, j);
        let minor: i128 = det3_exec(
            m.numerator(4 * r0 + c0),
            m.numerator(4 * r0 + c1),
            m.numerator(4 * r0 + c2),
            m.numerator(4 * r1 + c0),
            m.numerator(4 * r1 + c1),
            m.numerator(4 * r1 + c2),
            m.numerator(4 * r2 + c0),
            m.numerator(4 * r2 + c1),
            m.numerator(4 * r2 + c2),
        );
        assert(minor == minor4(self@.num, i as int, j as int));
        if (i + j) % 2 == 0 {
            minor
        } else {
            -minor
        }
    }

    /// The inverse. A matrix whose determinant is zero is refused with `Singular`, an
    /// inverse whose lowest terms are beyond `LIMIT` with `Overflow`.
    pub fn invert(&self) -> (r: Result<Matrix3D, TransformError>)
        ensures
            match r {
                Ok(m) => invertible4(self@) && m@ == inverse4(self@) && m.wf(),
                Err(e) => if invertible4(self@) {
                    e == TransformError::Overflow && !inverse4(self@).within(LIMIT as int)
                } else {
                    e == TransformError::Singular
                },
            },
    {
        let m = self.cells();
        let mut cof: [i128; 16] = [0i128; 16];
        let mut t: usize = 0;
        while t < 16
            invariant
                0 <= t <= 16,
                self.wf(),
                forall|k: int|
                    0 <= k < t ==> #[trigger] cof[k] as int == cofactor4(self@.num, k / 4, k % 4),
                forall|k: int| 0 <= k < 16 ==> -6 * LIMIT3 <= #[trigger] cof[k] <= 6 * LIMIT3,
            decreases 16 - t,
        {
            cof[t] = self.cofactor(t / 4, t % 4);
            t = t + 1;
        }
        let d0: i128 = times(m.numerator(0) as i128, cof[0], Ghost(LIMIT as int), Ghost(6 * LIMIT3));
        let d1: i128 = times(m.numerator(1) as i128, cof[1], Ghost(LIMIT as int), Ghost(6 * LIMIT3));
        let d2: i128 = times(m.numerator(2) as i128, cof[2], Ghost(LIMIT as int), Ghost(6 * LIMIT3));
        let d3: i128 = times(m.numerator(3) as i128, cof[3], Ghost(LIMIT as int), Ghost(6 * LIMIT3));
        let det: i128 = d0 + d1 + d2 + d3;
        assert(det == det4(self@.num));
        if det == 0 {
            return Err(TransformError::Singular);
        }
        let den: i64 = m.denominator();
        let k: i64 = if det > 0 {
            den
        } else {
            -den
        };
        let positive: i128 = if det > 0 {
            det
        } else {
            -det
        };
        let mut wide: [i128; 16] = [0i128; 16];
        let mut u: usize = 0;
        while u < 16
            invariant
                0 <= u <= 16,
                -LIMIT <= k <= LIMIT,
                forall|n: int|
                    0 <= n < 16 ==> #[trigger] cof[n] as int == cofactor4(self@.num, n / 4, n % 4),
                forall|n: int| 0 <= n < 16 ==> -6 * LIMIT3 <= #[trigger] cof[n] <= 6 * LIMIT3,
                forall|n: int|
                    0 <= n < u ==> #[trigger] wide[n] as int == k * adjugate4(self@.num)[n],
                forall|n: int|
                    0 <= n < 16 ==> -6 * LIMIT3 * LIMIT <= #[trigger] wide[n] <= 6 * LIMIT3
                        * LIMIT,
            decreases 16 - u,
        {
            let from: usize = 4 * (u % 4) + u / 4;
            wide[u] = times(k as i128, cof[from], Ghost(LIMIT as int), Ghost(6 * LIMIT3));
            u = u + 1;
        }
        proof {
            assert(wide_ints(wide) =~= raw_inverse4(self@).num);
        }
        Self::from_cells(Rationals::checked(&wide, positive))
    }
}

impl Default for Matrix3D {
    /// The matrix whose entries are all zero.
    fn default() -> (m: Matrix3D)
        ensures
            m@.num == Seq::new(16, |t: int| 0int),
            m@.den == 1,
            m.wf(),
    {
        let wide: [i128; 16] = [0i128; 16];
        proof {
            let zeros = Fractions { num: Seq::new(16, |t: int| 0int), den: 1 };
            assert(wide_ints(wide) =~= zeros.num);
            crate::linear4::lemma_gcd_fold_of_one(zeros.num);
            crate::fraction::lemma_lowest_is_reduced(zeros);
        }
        Matrix3D { cells: Rationals::reduce(&wide, 1) }
    }
}

} // verus!
