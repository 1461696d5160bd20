//! Taking a frame of the plane apart: its rows and columns, and the translation, the scale
//! and the rotation that it holds if it was built without shear.

use crate::error::TransformError;
use crate::exact::{wide_ints, Rationals};
use crate::fraction::{lemma_reduced_respects_value, Fractions};
use crate::matrix2d::{entry3, Matrix2D};
use crate::rotation::Rotation;
use crate::scalar::{raw_scalar, Scalar};
use crate::vector::first_error;
use crate::vector2d::{norm_error3, norm_outcome3, rotation_outcome3, Vector2D};
use vstd::prelude::*;

verus! {

/// Row `i` of the matrix, as a vector in lowest terms.
pub open spec fn row3(m: Fractions, i: int) -> Fractions {
    Fractions { num: seq![m.num[3 * i], m.num[3 * i + 1], m.num[3 * i + 2]], den: m.den }.reduced()
}

/// Column `j` of the matrix, as a vector in lowest terms.
pub open spec fn column3(m: Fractions, j: int) -> Fractions {
    Fractions { num: seq![m.num[j], m.num[3 + j], m.num[6 + j]], den: m.den }.reduced()
}

/// Matrices that denote the same rationals have the same entries.
pub proof fn lemma_entry3_respects_value(f: Fractions, h: Fractions, i: int, j: int)
    requires
        f.num.len() == 9,
        f.den > 0,
        h.den > 0,
        0 <= i < 3,
        0 <= j < 3,
        f.same_value(h),
    ensures
        entry3(f, i, j) == entry3(h, i, j),
{
    let a = raw_scalar(f.num[3 * i + j], f.den);
    let b = raw_scalar(h.num[3 * i + j], h.den);
    assert(f.num[3 * i + j] * h.den == h.num[3 * i + j] * f.den);
    assert(a.same_value(b));
    lemma_reduced_respects_value(a, b);
}

/// Matrices that denote the same rationals have the same columns.
pub proof fn lemma_column3_respects_value(f: Fractions, h: Fractions, j: int)
    requires
        f.num.len() == 9,
        f.den > 0,
        h.den > 0,
        0 <= j < 3,
        f.same_value(h),
    ensures
        column3(f, j) == column3(h, j),
{
    let a = Fractions { num: seq![f.num[j], f.num[3 + j], f.num[6 + j]], den: f.den };
    let b = Fractions { num: seq![h.num[j], h.num[3 + j], h.num[6 + j]], den: h.den };
    assert(f.num[j] * h.den == h.num[j] * f.den);
    assert(f.num[3 + j] * h.den == h.num[3 + j] * f.den);
    assert(f.num[6 + j] * h.den == h.num[6 + j] * f.den);
    assert(a.same_value(b));
    lemma_reduced_respects_value(a, b);
}

impl Matrix2D {
    /// Row `i`.
    pub fn row(&self, i: i32) -> (v: Vector2D)
        requires
            0 <= i < 3,
        ensures
            v@ == row3(self@, i as int),
            v.wf(),
    {
        let m = self.cells();
        let k: usize = i as usize;
        let wide: [i128; 3] = [
            m.numerator(3 * k) as i128,
            m.numerator(3 * k + 1) as i128,
            m.numerator(3 * k + 2) as i128,
        ];
        proof {
            assert(wide_ints(wide) =~= seq![
                self@.num[3 * i],
                self@.num[3 * i + 1],
                self@.num[3 * i + 2],
            ]);
        }
        Vector2D::from_tuple(Rationals::reduce(&wide, m.denominator() as i128))
    }

    /// Column `i`.
    pub fn column(&self, i: i32) -> (v: Vector2D)
        requires
            0 <= i < 3,
        ensures
            v@ == column3(self@, i as int),
            v.wf(),
    {
        let m = self.cells();
        let k: usize = i as usize;
        let wide: [i128; 3] = [
            m.numerator(k) as i128,
            m.numerator(3 + k) as i128,
            m.numerator(6 + k) as i128,
        ];
        proof {
            assert(wide_ints(wide) =~= seq![self@.num[i as int], self@.num[3 + i], self@.num[6 + i]]);
        }
        Vector2D::from_tuple(Rationals::reduce(&wide, m.denominator() as i128))
    }

    /// The offset along x: the entry at row 0 of column 2.
    pub fn get_translate_x(&self) -> (s: Scalar)
        ensures
            s@ == entry3(self@, 0, 2),
            s.wf(),
    {
        self.entry(0, 2)
    }

    /// The offset along y: the entry at row 1 of column 2.
    pub fn get_translate_y(&self) -> (s: Scalar)
        ensures
            s@ == entry3(self@, 1, 2),
            s.wf(),
    {
        self.entry(1, 2)
    }

    /// The two offsets.
    pub fn get_translate(&self) -> (t: (Scalar, Scalar))
        ensures
            t.0@ == entry3(self@, 0, 2),
            t.1@ == entry3(self@, 1, 2),
            t.0.wf() && t.1.wf(),
    {
        (self.get_translate_x(), self.get_translate_y())
    }

    /// The scale along x: the Euclidean length of column 0.
    pub fn get_scale_x(&self) -> (r: Result<Scalar, TransformError>)
        ensures
            norm_outcome3(column3(self@, 0), r),
    {
        self.column(0).l2_norm()
    }

    /// The scale along y: the Euclidean length of column 1.
    pub fn get_scale_y(&self) -> (r: Result<Scalar, TransformError>)
        ensures
            norm_outcome3(column3(self@, 1), r),
    {
        self.column(1).l2_norm()
    }

    /// The two scales, or the error of the first of them that has none.
    pub fn get_scale(&self) -> (r: Result<(Scalar, Scalar), TransformError>)
        ensures
            match r {
                Ok(s) => norm_outcome3(column3(self@, 0), Ok(s.0)) && norm_outcome3(
                    column3(self@, 1),
                    Ok(s.1),
                ),
                Err(e) => Some(e) == first_error(
                    norm_error3(column3(self@, 0)),
                    norm_error3(column3(self@, 1)),
                    None,
                ),
            },
    {
        let x = match self.get_scale_x() {
            Ok(s) => s,
            Err(e) => {
                return Err(e);
            },
        };
        let y = match self.get_scale_y() {
            Ok(s) => s,
            Err(e) => {
                return Err(e);
            },
        };
        Ok((x, y))
    }

    /// The rotation, if the frame holds one of at most a half turn counterclockwise: its
    /// cosine is the entry at row 0 of column 0 over the scale along x.
    pub fn get_rotate(&self) -> (r: Result<Rotation, TransformError>)
        ensures
            rotation_outcome3(column3(self@, 0), 0, r),
    {
        self.column(0).recover_rotation(0)
    }
}

} // verus!
