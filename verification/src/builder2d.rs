//! Building a frame of the plane step by step: rotate, translate and scale, each either in
//! the frame's own axes (absolute) or in the outer axes (relative).

use crate::error::TransformError;
use crate::exact::{wide_ints, Rationals, LIMIT};
use crate::linear3::mul3;
use crate::matrix2d::Matrix2D;
use crate::rotation::Rotation;
use crate::scalar::Scalar;
use crate::transform3::{
    absolute_step3, raw_rotation3, raw_scaling3, raw_translation3, relative_step3, rotation3,
    scaling3, translation3,
};
use crate::transform4::{composed, one, zero};
use crate::vector2d::over_common_denominator2;
use vstd::prelude::*;

verus! {

impl Matrix2D {
    /// The matrix of the translation by `(x, y)`.
    pub fn translation(x: &Scalar, y: &Scalar) -> (r: Result<Matrix2D, TransformError>)
        ensures
            match r {
                Ok(m) => m@ == translation3(x@, y@) && m.wf(),
                Err(e) => e == TransformError::Overflow && !translation3(x@, y@).within(
                    LIMIT as int,
                ),
            },
    {
        let (v, d) = over_common_denominator2(x, y, 1);
        let wide: [i128; 9] = [d, 0, v[0], 0, d, v[1], 0, 0, d];
        proof {
            assert(wide_ints(v)[0] == v[0] && wide_ints(v)[1] == v[1]);
            assert(wide_ints(wide) =~= raw_translation3(x@, y@).num);
        }
        Self::from_cells(Rationals::checked(&wide, d))
    }

    /// The matrix of the scaling by `(x, y)`.
    pub fn scaling(x: &Scalar, y: &Scalar) -> (r: Result<Matrix2D, TransformError>)
        ensures
            match r {
                Ok(m) => m@ == scaling3(x@, y@) && m.wf(),
                Err(e) => e == TransformError::Overflow && !scaling3(x@, y@).within(LIMIT as int),
            },
    {
        let (v, d) = over_common_denominator2(x, y, 1);
        let wide: [i128; 9] = [v[0], 0, 0, 0, v[1], 0, 0, 0, d];
        proof {
            assert(wide_ints(v)[0] == v[0] && wide_ints(v)[1] == v[1]);
            assert(wide_ints(wide) =~= raw_scaling3(x@, y@).num);
        }
        Self::from_cells(Rationals::checked(&wide, d))
    }

    /// The matrix of the rotation of the plane.
    pub fn rotation(angle: &Rotation) -> (m: Matrix2D)
        ensures
            m@ == rotation3(angle@),
            m.wf(),
    {
        let r = angle.cells();
        let c: i128 = r.numerator(0) as i128;
        let s: i128 = r.numerator(1) as i128;
        let d: i128 = r.denominator() as i128;
        let wide: [i128; 9] = [c, -s, 0, s, c, 0, 0, 0, d];
        proof {
            assert(wide_ints(wide) =~= raw_rotation3(angle@).num);
        }
        Self::from_tuple(Rationals::reduce(&wide, d))
    }

    /// Replaces the frame by its product with `elementary`: on the right if `absolute`, on
    /// the left if not.
    fn apply(&mut self, elementary: &Matrix2D, absolute: bool) -> (r: Result<(), TransformError>)
        ensures
            composed(
                old(self)@,
                elementary@,
                if absolute {
                    mul3(old(self)@, elementary@)
                } else {
                    mul3(elementary@, old(self)@)
                },
                final(self)@,
                r,
            ),
    {
        proof {
            use_type_invariant(elementary);
        }
        let product = if absolute {
            self.mul(elementary)
        } else {
            elementary.mul(self)
        };
        match product {
            Ok(m) => {
                proof {
                    use_type_invariant(&m);
                }
                *self = m;
                Ok(())
            },
            Err(e) => Err(e),
        }
    }

    /// `apply` for an elementary matrix that may itself be out of range.
    fn apply_checked(
        &mut self,
        elementary: Result<Matrix2D, TransformError>,
        absolute: bool,
        Ghost(model): Ghost<crate::fraction::Fractions>,
    ) -> (r: Result<(), TransformError>)
        requires
            match elementary {
                Ok(m) => m@ == model,
                Err(e) => e == TransformError::Overflow && !model.within(LIMIT as int),
            },
        ensures
            composed(
                old(self)@,
                model,
                if absolute {
                    mul3(old(self)@, model)
                } else {
                    mul3(model, old(self)@)
                },
                final(self)@,
                r,
            ),
    {
        match elementary {
            Ok(m) => self.apply(&m, absolute),
            Err(e) => Err(e),
        }
    }

    /// Rotates about the frame's own origin.
    pub fn rotate(&mut self, x: &Rotation) -> (r: Result<(), TransformError>)
        ensures
            absolute_step3(old(self)@, rotation3(x@), final(self)@, r),
    {
        self.apply(&Self::rotation(x), true)
    }

    /// Rotates about the outer origin.
    pub fn rel_rotate(&mut self, x: &Rotation) -> (r: Result<(), TransformError>)
        ensures
            relative_step3(old(self)@, rotation3(x@), final(self)@, r),
    {
        self.apply(&Self::rotation(x), false)
    }

    /// Translates along the frame's own axes.
    pub fn translate(&mut self, x: &Scalar, y: &Scalar) -> (r: Result<(), TransformError>)
        ensures
            absolute_step3(old(self)@, translation3(x@, y@), final(self)@, r),
    {
        self.apply_checked(Self::translation(x, y), true, Ghost(translation3(x@, y@)))
    }

    /// Translates along the frame's own x axis.
    pub fn translate_x(&mut self, x: &Scalar) -> (r: Result<(), TransformError>)
        ensures
            absolute_step3(old(self)@, translation3(x@, zero()), final(self)@, r),
    {
        self.translate(x, &Scalar::zero())
    }

    /// Translates along the frame's own y axis.
    pub fn translate_y(&mut self, y: &Scalar) -> (r: Result<(), TransformError>)
        ensures
            absolute_step3(old(self)@, translation3(zero(), y@), final(self)@, r),
    {
        self.translate(&Scalar::zero(), y)
    }

    /// Scales along the frame's own axes.
    pub fn scale(&mut self, x: &Scalar, y: &Scalar) -> (r: Result<(), TransformError>)
        ensures
            absolute_step3(old(self)@, scaling3(x@, y@), final(self)@, r),
    {
        self.apply_checked(Self::scaling(x, y), true, Ghost(scaling3(x@, y@)))
    }

    /// Scales along the frame's own x axis.
    pub fn scale_x(&mut self, x: &Scalar) -> (r: Result<(), TransformError>)
        ensures
            absolute_step3(old(self)@, scaling3(x@, one()), final(self)@, r),
    {
        self.scale(x, &Scalar::one())
    }

    /// Scales along the frame's own y axis.
    pub fn scale_y(&mut self, y: &Scalar) -> (r: Result<(), TransformError>)
        ensures
            absolute_step3(old(self)@, scaling3(one(), y@), final(self)@, r),
    {
        self.scale(&Scalar::one(), y)
    }

    /// Translates along the outer axes.
    pub fn rel_translate(&mut self, x: &Scalar, y: &Scalar) -> (r: Result<(), TransformError>)
        ensures
            relative_step3(old(self)@, translation3(x@, y@), final(self)@, r),
    {
        self.apply_checked(Self::translation(x, y), false, Ghost(translation3(x@, y@)))
    }

    /// Translates along the outer x axis.
    pub fn rel_translate_x(&mut self, x: &Scalar) -> (r: Result<(), TransformError>)
        ensures
            relative_step3(old(self)@, translation3(x@, zero()), final(self)@, r),
    {
        self.rel_translate(x, &Scalar::zero())
    }

    /// Translates along the outer y axis.
    pub fn rel_translate_y(&mut self, y: &Scalar) -> (r: Result<(), TransformError>)
        ensures
            relative_step3(old(self)@, translation3(zero(), y@), final(self)@, r),
    {
        self.rel_translate(&Scalar::zero(), y)
    }

    /// Scales along the outer axes.
    pub fn rel_scale(&mut self, x: &Scalar, y: &Scalar) -> (r: Result<(), TransformError>)
        ensures
            relative_step3(old(self)@, scaling3(x@, y@), final(self)@, r),
    {
        self.apply_checked(Self::scaling(x, y), false, Ghost(scaling3(x@, y@)))
    }

    /// Scales along the outer x axis.
    pub fn rel_scale_x(&mut self, x: &Scalar) -> (r: Result<(), TransformError>)
        ensures
            relative_step3(old(self)@, scaling3(x@, one()), final(self)@, r),
    {
        self.rel_scale(x, &Scalar::one())
    }

    /// Scales along the outer y axis.
    pub fn rel_scale_y(&mut self, y: &Scalar) -> (r: Result<(), TransformError>)
        ensures
            relative_step3(old(self)@, scaling3(one(), y@), final(self)@, r),
    {
        self.rel_scale(&Scalar::one(), y)
    }
}

} // verus!
