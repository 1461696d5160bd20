//! Building a frame of space step by step: rotate, translate and scale, each either in the
//! frame's own axes (absolute) or in the outer axes (relative).

use crate::error::TransformError;
use crate::exact::{wide_ints, Rationals, LIMIT};
use crate::linear4::mul4;
use crate::matrix3d::Matrix3D;
use crate::rotation::Rotation;
use crate::scalar::Scalar;
use crate::transform4::{
    absolute_step, composed, one, raw_rotation_x4, raw_rotation_y4, raw_rotation_z4,
    raw_scaling4, raw_translation4, relative_step, rotation_x4, rotation_y4, rotation_z4,
    scaling4, translation4, zero,
};
use crate::vector::over_common_denominator;
use vstd::prelude::*;

verus! {

impl Matrix3D {
    /// The matrix of the translation by `(x, y, z)`.
    pub fn translation(x: &Scalar, y: &Scalar, z: &Scalar) -> (r: Result<
        Matrix3D,
        TransformError,
    >)
        ensures
            match r {
                Ok(m) => m@ == translation4(x@, y@, z@) && m.wf(),
                Err(e) => e == TransformError::Overflow && !translation4(x@, y@, z@).within(
                    LIMIT as int,
                ),
            },
    {
        let (v, d) = over_common_denominator(x, y, z, 1);
        let wide: [i128; 16] = [d, 0, 0, v[0], 0, d, 0, v[1], 0, 0, d, v[2], 0, 0, 0, d];
        proof {
            assert(wide_ints(v)[0] == v[0] && wide_ints(v)[1] == v[1] && wide_ints(v)[2] == v[2]);
            assert(wide_ints(wide) =~= raw_translation4(x@, y@, z@).num);
        }
        Self::from_cells(Rationals::checked(&wide, d))
    }

    /// The matrix of the scaling by `(x, y, z)`.
    pub fn scaling(x: &Scalar, y: &Scalar, z: &Scalar) -> (r: Result<Matrix3D, TransformError>)
        ensures
            match r {
                Ok(m) => m@ == scaling4(x@, y@, z@) && m.wf(),
                Err(e) => e == TransformError::Overflow && !scaling4(x@, y@, z@).within(
                    LIMIT as int,
                ),
            },
    {
        let (v, d) = over_common_denominator(x, y, z, 1);
        let wide: [i128; 16] = [v[0], 0, 0, 0, 0, v[1], 0, 0, 0, 0, v[2], 0, 0, 0, 0, d];
        proof {
            assert(wide_ints(v)[0] == v[0] && wide_ints(v)[1] == v[1] && wide_ints(v)[2] == v[2]);
            assert(wide_ints(wide) =~= raw_scaling4(x@, y@, z@).num);
        }
        Self::from_cells(Rationals::checked(&wide, d))
    }

    /// The matrix of the rotation about the x axis.
    pub fn rotation_x(angle: &Rotation) -> (m: Matrix3D)
        ensures
            m@ == rotation_x4(angle@),
            m.wf(),
    {
        let r = angle.cells();
        let c: i128 = r.numerator(0) as i128;
        let s: i128 = r.numerator(1) as i128;
        let d: i128 = r.denominator() as i128;
        let wide: [i128; 16] = [d, 0, 0, 0, 0, c, -s, 0, 0, s, c, 0, 0, 0, 0, d];
        proof {
            assert(wide_ints(wide) =~= raw_rotation_x4(angle@).num);
        }
        Self::from_tuple(Rationals::reduce(&wide, d))
    }

    /// The matrix of the rotation about the y axis.
    pub fn rotation_y(angle: &Rotation) -> (m: Matrix3D)
        ensures
            m@ == rotation_y4(angle@),
            m.wf(),
    {
        let r = angle.cells();
        let c: i128 = r.numerator(0) as i128;
        let s: i128 = r.numerator(1) as i128;
        let d: i128 = r.denominator() as i128;
        let wide: [i128; 16] = [c, 0, s, 0, 0, d, 0, 0, -s, 0, c, 0, 0, 0, 0, d];
        proof {
            assert(wide_ints(wide) =~= raw_rotation_y4(angle@).num);
        }
        Self::from_tuple(Rationals::reduce(&wide, d))
    }

    /// The matrix of the rotation about the z axis.
    pub fn rotation_z(angle: &Rotation) -> (m: Matrix3D)
        ensures
            m@ == rotation_z4(angle@),
            m.wf(),
    {
        let r = angle.cells();
        let c: i128 = r.numerator(0) as i128;
        let s: i128 = r.numerator(1) as i128;
        let d: i128 = r.denominator() as i128;
        let wide: [i128; 16] = [c, -s, 0, 0, s, c, 0, 0, 0, 0, d, 0, 0, 0, 0, d];
        proof {
            assert(wide_ints(wide) =~= raw_rotation_z4(angle@).num);
        }
        Self::from_tuple(Rationals::reduce(&wide, d))
    }

    /// Replaces the frame by its product with `elementary`: on the right if `absolute`, on
    /// the left if not.
    fn apply(&mut self, elementary: &Matrix3D, absolute: bool) -> (r: Result<(), TransformError>)
        ensures
            composed(
                old(self)@,
                elementary@,
                if absolute {
                    mul4(old(self)@, elementary@)
                } else {
                    mul4(elementary@, old(self)@)
                },
                final(self)@,
                r,
            ),
    {
        proof {
            use_type_invariant(elementary);
        }
        let product = if absolute {
            self.mul(elementary)
        } else {
            elementary.mul(self)
        };
        match product {
            Ok(m) => {
                proof {
                    use_type_invariant(&m);
                }
                *self = m;
                Ok(())
            },
            Err(e) => Err(e),
        }
    }

    /// `apply` for an elementary matrix that may itself be out of range.
    fn apply_checked(
        &mut self,
        elementary: Result<Matrix3D, TransformError>,
        absolute: bool,
        Ghost(model): Ghost<crate::fraction::Fractions>,
    ) -> (r: Result<(), TransformError>)
        requires
            match elementary {
                Ok(m) => m@ == model,
                Err(e) => e == TransformError::Overflow && !model.within(LIMIT as int),
            },
        ensures
            composed(
                old(self)@,
                model,
                if absolute {
                    mul4(old(self)@, model)
                } else {
                    mul4(model, old(self)@)
                },
                final(self)@,
                r,
            ),
    {
        match elementary {
            Ok(m) => self.apply(&m, absolute),
            Err(e) => Err(e),
        }
    }

    /// Rotates about the frame's own x axis.
    pub fn rotate_x(&mut self, x: &Rotation) -> (r: Result<(), TransformError>)
        ensures
            absolute_step(old(self)@, rotation_x4(x@), final(self)@, r),
    {
        self.apply(&Self::rotation_x(x), true)
    }

    /// Rotates about the frame's own y axis.
    pub fn rotate_y(&mut self, y: &Rotation) -> (r: Result<(), TransformError>)
        ensures
            absolute_step(old(self)@, rotation_y4(y@), final(self)@, r),
    {
        self.apply(&Self::rotation_y(y), true)
    }

    /// Rotates about the frame's own z axis.
    pub fn rotate_z(&mut self, z: &Rotation) -> (r: Result<(), TransformError>)
        ensures
            absolute_step(old(self)@, rotation_z4(z@), final(self)@, r),
    {
        self.apply(&Self::rotation_z(z), true)
    }

    /// Rotates about the outer x axis.
    pub fn rel_rotate_x(&mut self, x: &Rotation) -> (r: Result<(), TransformError>)
        ensures
            relative_step(old(self)@, rotation_x4(x@), final(self)@, r),
    {
        self.apply(&Self::rotation_x(x), false)
    }

    /// Rotates about the outer y axis.
    pub fn rel_rotate_y(&mut self, y: &Rotation) -> (r: Result<(), TransformError>)
        ensures
            relative_step(old(self)@, rotation_y4(y@), final(self)@, r),
    {
        self.apply(&Self::rotation_y(y), false)
    }

    /// Rotates about the outer z axis.
    pub fn rel_rotate_z(&mut self, z: &Rotation) -> (r: Result<(), TransformError>)
        ensures
            relative_step(old(self)@, rotation_z4(z@), final(self)@, r),
    {
        self.apply(&Self::rotation_z(z), false)
    }

    /// Translates along the frame's own axes.
    pub fn translate(&mut self, x: &Scalar, y: &Scalar, z: &Scalar) -> (r: Result<
        (),
        TransformError,
    >)
        ensures
            absolute_step(old(self)@, translation4(x@, y@, z@), final(self)@, r),
    {
        self.apply_checked(Self::translation(x, y, z), true, Ghost(translation4(x@, y@, z@)))
    }

    /// Translates along the frame's own x axis.
    pub fn translate_x(&mut self, x: &Scalar) -> (r: Result<(), TransformError>)
        ensures
            absolute_step(old(self)@, translation4(x@, zero(), zero()), final(self)@, r),
    {
        self.translate(x, &Scalar::zero(), &Scalar::zero())
    }

    /// Translates along the frame's own y axis.
    pub fn translate_y(&mut self, y: &Scalar) -> (r: Result<(), TransformError>)
        ensures
            absolute_step(old(self)@, translation4(zero(), y@, zero()), final(self)@, r),
    {
        self.translate(&Scalar::zero(), y, &Scalar::zero())
    }

    /// Translates along the frame's own z axis.
    pub fn translate_z(&mut self, z: &Scalar) -> (r: Result<(), TransformError>)
        ensures
            absolute_step(old(self)@, translation4(zero(), zero(), z@), final(self)@, r),
    {
        self.translate(&Scalar::zero(), &Scalar::zero(), z)
    }

    /// Translates along the outer axes.
    pub fn rel_translate(&mut self, x: &Scalar, y: &Scalar, z: &Scalar) -> (r: Result<
        (),
        TransformError,
    >)
        ensures
            relative_step(old(self)@, translation4(x@, y@, z@), final(self)@, r),
    {
        self.apply_checked(Self::translation(x, y, z), false, Ghost(translation4(x@, y@, z@)))
    }

    /// Translates along the outer x axis.
    pub fn rel_translate_x(&mut self, x: &Scalar) -> (r: Result<(), TransformError>)
        ensures
            relative_step(old(self)@, translation4(x@, zero(), zero()), final(self)@, r),
    {
        self.rel_translate(x, &Scalar::zero(), &Scalar::zero())
    }

    /// Translates along the outer y axis.
    pub fn rel_translate_y(&mut self, y: &Scalar) -> (r: Result<(), TransformError>)
        ensures
            relative_step(old(self)@, translation4(zero(), y@, zero()), final(self)@, r),
    {
        self.rel_translate(&Scalar::zero(), y, &Scalar::zero())
    }

    /// Translates along the outer z axis.
    pub fn rel_translate_z(&mut self, z: &Scalar) -> (r: Result<(), TransformError>)
        ensures
            relative_step(old(self)@, translation4(zero(), zero(), z@), final(self)@, r),
    {
        self.rel_translate(&Scalar::zero(), &Scalar::zero(), z)
    }

    /// Scales along the frame's own axes.
    pub fn scale(&mut self, x: &Scalar, y: &Scalar, z: &Scalar) -> (r: Result<(), TransformError>)
        ensures
            absolute_step(old(self)@, scaling4(x@, y@, z@), final(self)@, r),
    {
        self.apply_checked(Self::scaling(x, y, z), true, Ghost(scaling4(x@, y@, z@)))
    }

    /// Scales along the frame's own x axis.
    pub fn scale_x(&mut self, x: &Scalar) -> (r: Result<(), TransformError>)
        ensures
            absolute_step(old(self)@, scaling4(x@, one(), one()), final(self)@, r),
    {
        self.scale(x, &Scalar::one(), &Scalar::one())
    }

    /// Scales along the frame's own y axis.
    pub fn scale_y(&mut self, y: &Scalar) -> (r: Result<(), TransformError>)
        ensures
            absolute_step(old(self)@, scaling4(one(), y@, one()), final(self)@, r),
    {
        self.scale(&Scalar::one(), y, &Scalar::one())
    }

    /// Scales along the frame's own z axis.
    pub fn scale_z(&mut self, z: &Scalar) -> (r: Result<(), TransformError>)
        ensures
            absolute_step(old(self)@, scaling4(one(), one(), z@), final(self)@, r),
    {
        self.scale(&Scalar::one(), &Scalar::one(), z)
    }

    /// Scales along the outer axes.
    pub fn rel_scale(&mut self, x: &Scalar, y: &Scalar, z: &Scalar) -> (r: Result<
        (),
        TransformError,
    >)
        ensures
            relative_step(old(self)@, scaling4(x@, y@, z@), final(self)@, r),
    {
        self.apply_checked(Self::scaling(x, y, z), false, Ghost(scaling4(x@, y@, z@)))
    }

    /// Scales along the outer x axis.
    pub fn rel_scale_x(&mut self, x: &Scalar) -> (r: Result<(), TransformError>)
        ensures
            relative_step(old(self)@, scaling4(x@, one(), one()), final(self)@, r),
    {
        self.rel_scale(x, &Scalar::one(), &Scalar::one())
    }

    /// Scales along the outer y axis.
    pub fn rel_scale_y(&mut self, y: &Scalar) -> (r: Result<(), TransformError>)
        ensures
            relative_step(old(self)@, scaling4(one(), y@, one()), final(self)@, r),
    {
        self.rel_scale(&Scalar::one(), y, &Scalar::one())
    }

    /// Scales along the outer z axis.
    pub fn rel_scale_z(&mut self, z: &Scalar) -> (r: Result<(), TransformError>)
        ensures
            relative_step(old(self)@, scaling4(one(), one(), z@), final(self)@, r),
    {
        self.rel_scale(&Scalar::one(), &Scalar::one(), z)
    }

    /// Rotates about the frame's own x axis, then about its new y axis, then about its new
    /// z axis. When a step fails the frame is left as it was before the first.
    pub fn rotate(&mut self, x: &Rotation, y: &Rotation, z: &Rotation) -> (r: Result<
        (),
        TransformError,
    >)
        ensures
            ({
                let first = mul4(old(self)@, rotation_x4(x@));
                let second = mul4(first, rotation_y4(y@));
                let third = mul4(second, rotation_z4(z@));
                match r {
                    Ok(_) => final(self)@ == third,
                    Err(e) => e == TransformError::Overflow && final(self)@ == old(self)@ && !(
                    first.within(LIMIT as int) && second.within(LIMIT as int) && third.within(
                        LIMIT as int,
                    )),
                }
            }),
    {
        let mut frame: Matrix3D = *self;
        match frame.apply(&Self::rotation_x(x), true) {
            Ok(_) => {},
            Err(e) => {
                return Err(e);
            },
        }
        match frame.apply(&Self::rotation_y(y), true) {
            Ok(_) => {},
            Err(e) => {
                return Err(e);
            },
        }
        match frame.apply(&Self::rotation_z(z), true) {
            Ok(_) => {},
            Err(e) => {
                return Err(e);
            },
        }
        *self = frame;
        Ok(())
    }

    /// Rotates about the outer x axis, then about the outer y axis, then about the outer z
    /// axis. When a step fails the frame is left as it was before the first.
    pub fn rel_rotate(&mut self, x: &Rotation, y: &Rotation, z: &Rotation) -> (r: Result<
        (),
        TransformError,
    >)
        ensures
            ({
                let first = mul4(rotation_x4(x@), old(self)@);
                let second = mul4(rotation_y4(y@), first);
                let third = mul4(rotation_z4(z@), second);
                match r {
                    Ok(_) => final(self)@ == third,
                    Err(e) => e == TransformError::Overflow && final(self)@ == old(self)@ && !(
                    first.within(LIMIT as int) && second.within(LIMIT as int) && third.within(
                        LIMIT as int,
                    )),
                }
            }),
    {
        let mut frame: Matrix3D = *self;
        match frame.apply(&Self::rotation_x(x), false) {
            Ok(_) => {},
            Err(e) => {
                return Err(e);
            },
        }
        match frame.apply(&Self::rotation_y(y), false) {
            Ok(_) => {},
            Err(e) => {
                return Err(e);
            },
        }
        match frame.apply(&Self::rotation_z(z), false) {
            Ok(_) => {},
            Err(e) => {
                return Err(e);
            },
        }
        *self = frame;
        Ok(())
    }
}

} // verus!
