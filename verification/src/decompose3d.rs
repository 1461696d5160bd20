//! Taking a frame of space apart: its rows and columns, and the translation, the scale and
//! the rotation that it holds if it was built without shear.

use crate::error::TransformError;
use crate::exact::{wide_ints, Rationals};
use crate::fraction::{lemma_lowest_is_reduced, lemma_reduced_respects_value, Fractions};
use crate::matrix3d::{entry4, Matrix3D};
use crate::rotation::Rotation;
use crate::scalar::{raw_scalar, Scalar};
use crate::vector::{
    first_error, norm_error, norm_outcome, rotation_error, rotation_outcome, Vector3D,
};
use vstd::prelude::*;

verus! {

/// Row `i` of the matrix, as a vector in lowest terms.
pub open spec fn row4(m: Fractions, i: int) -> Fractions {
    Fractions {
        num: seq![m.num[4 * i], m.num[4 * i + 1], m.num[4 * i + 2], m.num[4 * i + 3]],
        den: m.den,
    }.reduced()
}

/// Column `j` of the matrix, as a vector in lowest terms.
pub open spec fn column4(m: Fractions, j: int) -> Fractions {
    Fractions { num: seq![m.num[j], m.num[4 + j], m.num[8 + j], m.num[12 + j]], den: m.den }.reduced()
}

/// Matrices that denote the same rationals have the same entries.
pub proof fn lemma_entry4_respects_value(f: Fractions, h: Fractions, i: int, j: int)
    requires
        f.num.len() == 16,
        f.den > 0,
        h.den > 0,
        0 <= i < 4,
        0 <= j < 4,
        f.same_value(h),
    ensures
        entry4(f, i, j) == entry4(h, i, j),
{
    let a = raw_scalar(f.num[4 * i + j], f.den);
    let b = raw_scalar(h.num[4 * i + j], h.den);
    assert(f.num[4 * i + j] * h.den == h.num[4 * i + j] * f.den);
    assert(a.same_value(b));
    lemma_reduced_respects_value(a, b);
}

/// Matrices that denote the same rationals have the same columns.
pub proof fn lemma_column4_respects_value(f: Fractions, h: Fractions, j: int)
    requires
        f.num.len() == 16,
        f.den > 0,
        h.den > 0,
        0 <= j < 4,
        f.same_value(h),
    ensures
        column4(f, j) == column4(h, j),
{
    let a = Fractions { num: seq![f.num[j], f.num[4 + j], f.num[8 + j], f.num[12 + j]], den: f.den };
    let b = Fractions { num: seq![h.num[j], h.num[4 + j], h.num[8 + j], h.num[12 + j]], den: h.den };
    assert(f.num[j] * h.den == h.num[j] * f.den);
    assert(f.num[4 + j] * h.den == h.num[4 + j] * f.den);
    assert(f.num[8 + j] * h.den == h.num[8 + j] * f.den);
    assert(f.num[12 + j] * h.den == h.num[12 + j] * f.den);
    assert(a.same_value(b));
    lemma_reduced_respects_value(a, b);
}

/// A rational that denotes what a rational in lowest terms denotes reduces to it.
pub proof fn lemma_reduces_to(raw: Fractions, lowest: Fractions)
    requires
        raw.den > 0,
        lowest.lowest(),
        raw.same_value(lowest),
    ensures
        raw.reduced() == lowest,
{
    lemma_reduced_respects_value(raw, lowest);
    lemma_lowest_is_reduced(lowest);
}

impl Matrix3D {
    /// Row `i`.
    pub fn row(&self, i: i32) -> (v: Vector3D)
        requires
            0 <= i < 4,
        ensures
            v@ == row4(self@, i as int),
            v.wf(),
    {
        let m = self.cells();
        let k: usize = i as usize;
        let wide: [i128; 4] = [
            m.numerator(4 * k) as i128,
            m.numerator(4 * k + 1) as i128,
            m.numerator(4 * k + 2) as i128,
            m.numerator(4 * k + 3) as i128,
        ];
        proof {
            assert(wide_ints(wide) =~= seq![
                self@.num[4 * i],
                self@.num[4 * i + 1],
                self@.num[4 * i + 2],
                self@.num[4 * i + 3],
            ]);
        }
        Vector3D::from_tuple(Rationals::reduce(&wide, m.denominator() as i128))
    }

    /// Column `i`.
    pub fn column(&self, i: i32) -> (v: Vector3D)
        requires
            0 <= i < 4,
        ensures
            v@ == column4(self@, i as int),
            v.wf(),
    {
        let m = self.cells();
        let k: usize = i as usize;
        let wide: [i128; 4] = [
            m.numerator(k) as i128,
            m.numerator(4 + k) as i128,
            m.numerator(8 + k) as i128,
            m.numerator(12 + k) as i128,
        ];
        proof {
            assert(wide_ints(wide) =~= seq![
                self@.num[i as int],
                self@.num[4 + i],
                self@.num[8 + i],
                self@.num[12 + i],
            ]);
        }
        Vector3D::from_tuple(Rationals::reduce(&wide, m.denominator() as i128))
    }

    /// The offset along x: the entry at row 0 of column 3.
    pub fn get_translate_x(&self) -> (s: Scalar)
        ensures
            s@ == entry4(self@, 0, 3),
            s.wf(),
    {
        self.entry(0, 3)
    }

    /// The offset along y: the entry at row 1 of column 3.
    pub fn get_translate_y(&self) -> (s: Scalar)
        ensures
            s@ == entry4(self@, 1, 3),
            s.wf(),
    {
        self.entry(1, 3)
    }

    /// The offset along z: the entry at row 2 of column 3.
    pub fn get_translate_z(&self) -> (s: Scalar)
        ensures
            s@ == entry4(self@, 2, 3),
            s.wf(),
    {
        self.entry(2, 3)
    }

    /// The three offsets.
    pub fn get_translate(&self) -> (t: (Scalar, Scalar, Scalar))
        ensures
            t.0@ == entry4(self@, 0, 3),
            t.1@ == entry4(self@, 1, 3),
            t.2@ == entry4(self@, 2, 3),
            t.0.wf() && t.1.wf() && t.2.wf(),
    {
        (self.get_translate_x(), self.get_translate_y(), self.get_translate_z())
    }

    /// The scale along x: the Euclidean length of column 0.
    pub fn get_scale_x(&self) -> (r: Result<Scalar, TransformError>)
        ensures
            norm_outcome(column4(self@, 0), r),
    {
        self.column(0).l2_norm()
    }

    /// The scale along y: the Euclidean length of column 1.
    pub fn get_scale_y(&self) -> (r: Result<Scalar, TransformError>)
        ensures
            norm_outcome(column4(self@, 1), r),
    {
        self.column(1).l2_norm()
    }

    /// The scale along z: the Euclidean length of column 2.
    pub fn get_scale_z(&self) -> (r: Result<Scalar, TransformError>)
        ensures
            norm_outcome(column4(self@, 2), r),
    {
        self.column(2).l2_norm()
    }

    /// The three scales, or the error of the first of them that has none.
    pub fn get_scale(&self) -> (r: Result<(Scalar, Scalar, Scalar), TransformError>)
        ensures
            match r {
                Ok(s) => norm_outcome(column4(self@, 0), Ok(s.0)) && norm_outcome(
                    column4(self@, 1),
                    Ok(s.1),
                ) && norm_outcome(column4(self@, 2), Ok(s.2)),
                Err(e) => Some(e) == first_error(
                    norm_error(column4(self@, 0)),
                    norm_error(column4(self@, 1)),
                    norm_error(column4(self@, 2)),
                ),
            },
    {
        let x = match self.get_scale_x() {
            Ok(s) => s,
            Err(e) => {
                return Err(e);
            },
        };
        let y = match self.get_scale_y() {
            Ok(s) => s,
            Err(e) => {
                return Err(e);
            },
        };
        let z = match self.get_scale_z() {
            Ok(s) => s,
            Err(e) => {
                return Err(e);
            },
        };
        Ok((x, y, z))
    }

    /// The rotation about x, if the frame holds one of less than a quarter turn to either
    /// side: its sine is the entry at row 2 of column 1 over the scale along y.
    pub fn get_rotate_x(&self) -> (r: Result<Rotation, TransformError>)
        ensures
            rotation_outcome(column4(self@, 1), 2, r),
    {
        self.column(1).recover_rotation(2)
    }

    /// The rotation about y, if the frame holds one of less than a quarter turn to either
    /// side: its sine is the entry at row 0 of column 2 over the scale along z.
    pub fn get_rotate_y(&self) -> (r: Result<Rotation, TransformError>)
        ensures
            rotation_outcome(column4(self@, 2), 0, r),
    {
        self.column(2).recover_rotation(0)
    }

    /// The rotation about z, if the frame holds one of less than a quarter turn to either
    /// side: its sine is the entry at row 1 of column 0 over the scale along x.
    pub fn get_rotate_z(&self) -> (r: Result<Rotation, TransformError>)
        ensures
            rotation_outcome(column4(self@, 0), 1, r),
    {
        self.column(0).recover_rotation(1)
    }

    /// The three rotations, or the error of the first of them that has none.
    pub fn get_rotate(&self) -> (r: Result<(Rotation, Rotation, Rotation), TransformError>)
        ensures
            match r {
                Ok(s) => rotation_outcome(column4(self@, 1), 2, Ok(s.0)) && rotation_outcome(
                    column4(self@, 2),
                    0,
                    Ok(s.1),
                ) && rotation_outcome(column4(self@, 0), 1, Ok(s.2)),
                Err(e) => Some(e) == first_error(
                    rotation_error(column4(self@, 1), 2),
                    rotation_error(column4(self@, 2), 0),
                    rotation_error(column4(self@, 0), 1),
                ),
            },
    {
        let x = match self.get_rotate_x() {
            Ok(s) => s,
            Err(e) => {
                return Err(e);
            },
        };
        let y = match self.get_rotate_y() {
            Ok(s) => s,
            Err(e) => {
                return Err(e);
            },
        };
        let z = match self.get_rotate_z() {
            Ok(s) => s,
            Err(e) => {
                return Err(e);
            },
        };
        Ok((x, y, z))
    }
}

} // verus!
