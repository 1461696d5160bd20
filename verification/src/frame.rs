//! The owners of a frame, and the building vocabulary that every owner has.

use crate::anchor::Anchor;
use crate::decompose3d::column4;
use crate::error::TransformError;
use crate::exact::LIMIT;
use crate::linear4::mul4;
use crate::matrix3d::{entry4, Matrix3D};
use crate::object3d::Object3D;
use crate::rotation::Rotation;
use crate::scalar::Scalar;
use crate::transform4::{
    absolute_step, one, relative_step, rotation_x4, rotation_y4, rotation_z4, scaling4,
    translation4, zero,
};
use crate::vector::{first_error, norm_error, norm_outcome, rotation_error, rotation_outcome};
use vstd::prelude::*;

verus! {

/// What owns a frame of space.
pub trait HasRefSys3D: Sized {
    /// The frame that the owner holds.
    spec fn frame(&self) -> Matrix3D;

    /// The owner with its frame replaced and everything else as it is.
    spec fn with_frame(&self, frame: Matrix3D) -> Self;

    /// The frame.
    fn ref_sys(&self) -> (m: &Matrix3D)
        ensures
            *m == self.frame(),
    ;

    /// The frame, to be changed in place.
    fn ref_sys_mut(&mut self) -> (m: &mut Matrix3D)
        ensures
            *m == old(self).frame(),
            *final(m) == final(self).frame(),
            *final(self) == old(self).with_frame(*final(m)),
    ;

    /// Replaces the frame.
    fn set_ref_sys(&mut self, ref_sys: Matrix3D)
        ensures
            final(self).frame() == ref_sys,
            *final(self) == old(self).with_frame(ref_sys),
    ;
}

impl HasRefSys3D for Anchor {
    open spec fn frame(&self) -> Matrix3D {
        self.ref_sys
    }

    open spec fn with_frame(&self, frame: Matrix3D) -> Self {
        Self { ref_sys: frame, ..*self }
    }

    fn ref_sys(&self) -> (m: &Matrix3D) {
        &self.ref_sys
    }

    fn ref_sys_mut(&mut self) -> (m: &mut Matrix3D) {
        &mut self.ref_sys
    }

    fn set_ref_sys(&mut self, ref_sys: Matrix3D) {
        self.ref_sys = ref_sys;
    }
}

impl HasRefSys3D for Object3D {
    open spec fn frame(&self) -> Matrix3D {
        self.ref_sys
    }

    open spec fn with_frame(&self, frame: Matrix3D) -> Self {
        Self { ref_sys: frame, ..*self }
    }

    fn ref_sys(&self) -> (m: &Matrix3D) {
        &self.ref_sys
    }

    fn ref_sys_mut(&mut self) -> (m: &mut Matrix3D) {
        &mut self.ref_sys
    }

    fn set_ref_sys(&mut self, ref_sys: Matrix3D) {
        self.ref_sys = ref_sys;
    }
}

/// The vocabulary of `Matrix3D` for building and taking apart a frame, for whatever owns one.
pub trait Is3DObject: HasRefSys3D {
    /// Rotates about the frame's own x axis.
    fn rotate_x(&mut self, x: &Rotation) -> (r: Result<(), TransformError>)
        ensures
            absolute_step(old(self).frame()@, rotation_x4(x@), final(self).frame()@, r),
            r is Ok ==> *final(self) == old(self).with_frame(final(self).frame()),
            r is Err ==> *final(self) == *old(self),
    ;

    /// Rotates about the frame's own y axis.
    fn rotate_y(&mut self, y: &Rotation) -> (r: Result<(), TransformError>)
        ensures
            absolute_step(old(self).frame()@, rotation_y4(y@), final(self).frame()@, r),
            r is Ok ==> *final(self) == old(self).with_frame(final(self).frame()),
            r is Err ==> *final(self) == *old(self),
    ;

    /// Rotates about the frame's own z axis.
    fn rotate_z(&mut self, z: &Rotation) -> (r: Result<(), TransformError>)
        ensures
            absolute_step(old(self).frame()@, rotation_z4(z@), final(self).frame()@, r),
            r is Ok ==> *final(self) == old(self).with_frame(final(self).frame()),
            r is Err ==> *final(self) == *old(self),
    ;

    /// Translates along the frame's own x axis.
    fn translate_x(&mut self, x: &Scalar) -> (r: Result<(), TransformError>)
        ensures
            absolute_step(old(self).frame()@, translation4(x@, zero(), zero()), final(self).frame()@, r),
            r is Ok ==> *final(self) == old(self).with_frame(final(self).frame()),
            r is Err ==> *final(self) == *old(self),
    ;

    /// Translates along the frame's own y axis.
    fn translate_y(&mut self, y: &Scalar) -> (r: Result<(), TransformError>)
        ensures
            absolute_step(old(self).frame()@, translation4(zero(), y@, zero()), final(self).frame()@, r),
            r is Ok ==> *final(self) == old(self).with_frame(final(self).frame()),
            r is Err ==> *final(self) == *old(self),
    ;

    /// Translates along the frame's own z axis.
    fn translate_z(&mut self, z: &Scalar) -> (r: Result<(), TransformError>)
        ensures
            absolute_step(old(self).frame()@, translation4(zero(), zero(), z@), final(self).frame()@, r),
            r is Ok ==> *final(self) == old(self).with_frame(final(self).frame()),
            r is Err ==> *final(self) == *old(self),
    ;

    /// Translates along the frame's own axes.
    fn translate(&mut self, x: &Scalar, y: &Scalar, z: &Scalar) -> (r: Result<(), TransformError>)
        ensures
            absolute_step(old(self).frame()@, translation4(x@, y@, z@), final(self).frame()@, r),
            r is Ok ==> *final(self) == old(self).with_frame(final(self).frame()),
            r is Err ==> *final(self) == *old(self),
    ;

    /// Scales along the frame's own x axis.
    fn scale_x(&mut self, x: &Scalar) -> (r: Result<(), TransformError>)
        ensures
            absolute_step(old(self).frame()@, scaling4(x@, one(), one()), final(self).frame()@, r),
            r is Ok ==> *final(self) == old(self).with_frame(final(self).frame()),
            r is Err ==> *final(self) == *old(self),
    ;

    /// Scales along the frame's own y axis.
    fn scale_y(&mut self, y: &Scalar) -> (r: Result<(), TransformError>)
        ensures
            absolute_step(old(self).frame()@, scaling4(one(), y@, one()), final(self).frame()@, r),
            r is Ok ==> *final(self) == old(self).with_frame(final(self).frame()),
            r is Err ==> *final(self) == *old(self),
    ;

    /// Scales along the frame's own z axis.
    fn scale_z(&mut self, z: &Scalar) -> (r: Result<(), TransformError>)
        ensures
            absolute_step(old(self).frame()@, scaling4(one(), one(), z@), final(self).frame()@, r),
            r is Ok ==> *final(self) == old(self).with_frame(final(self).frame()),
            r is Err ==> *final(self) == *old(self),
    ;

    /// Scales along the frame's own axes.
    fn scale(&mut self, x: &Scalar, y: &Scalar, z: &Scalar) -> (r: Result<(), TransformError>)
        ensures
            absolute_step(old(self).frame()@, scaling4(x@, y@, z@), final(self).frame()@, r),
            r is Ok ==> *final(self) == old(self).with_frame(final(self).frame()),
            r is Err ==> *final(self) == *old(self),
    ;

    /// Rotates about the outer x axis.
    fn rel_rotate_x(&mut self, x: &Rotation) -> (r: Result<(), TransformError>)
        ensures
            relative_step(old(self).frame()@, rotation_x4(x@), final(self).frame()@, r),
            r is Ok ==> *final(self) == old(self).with_frame(final(self).frame()),
            r is Err ==> *final(self) == *old(self),
    ;

    /// Rotates about the outer y axis.
    fn rel_rotate_y(&mut self, y: &Rotation) -> (r: Result<(), TransformError>)
        ensures
            relative_step(old(self).frame()@, rotation_y4(y@), final(self).frame()@, r),
            r is Ok ==> *final(self) == old(self).with_frame(final(self).frame()),
            r is Err ==> *final(self) == *old(self),
    ;

    /// Rotates about the outer z axis.
    fn rel_rotate_z(&mut self, z: &Rotation) -> (r: Result<(), TransformError>)
        ensures
            relative_step(old(self).frame()@, rotation_z4(z@), final(self).frame()@, r),
            r is Ok ==> *final(self) == old(self).with_frame(final(self).frame()),
            r is Err ==> *final(self) == *old(self),
    ;

    /// Translates along the outer x axis.
    fn rel_translate_x(&mut self, x: &Scalar) -> (r: Result<(), TransformError>)
        ensures
            relative_step(old(self).frame()@, translation4(x@, zero(), zero()), final(self).frame()@, r),
            r is Ok ==> *final(self) == old(self).with_frame(final(self).frame()),
            r is Err ==> *final(self) == *old(self),
    ;

    /// Translates along the outer y axis.
    fn rel_translate_y(&mut self, y: &Scalar) -> (r: Result<(), TransformError>)
        ensures
            relative_step(old(self).frame()@, translation4(zero(), y@, zero()), final(self).frame()@, r),
            r is Ok ==> *final(self) == old(self).with_frame(final(self).frame()),
            r is Err ==> *final(self) == *old(self),
    ;

    /// Translates along the outer z axis.
    fn rel_translate_z(&mut self, z: &Scalar) -> (r: Result<(), TransformError>)
        ensures
            relative_step(old(self).frame()@, translation4(zero(), zero(), z@), final(self).frame()@, r),
            r is Ok ==> *final(self) == old(self).with_frame(final(self).frame()),
            r is Err ==> *final(self) == *old(self),
    ;

    /// Translates along the outer axes.
    fn rel_translate(&mut self, x: &Scalar, y: &Scalar, z: &Scalar) -> (r: Result<(), TransformError>)
        ensures
            relative_step(old(self).frame()@, translation4(x@, y@, z@), final(self).frame()@, r),
            r is Ok ==> *final(self) == old(self).with_frame(final(self).frame()),
            r is Err ==> *final(self) == *old(self),
    ;

    /// Scales along the outer x axis.
    fn rel_scale_x(&mut self, x: &Scalar) -> (r: Result<(), TransformError>)
        ensures
            relative_step(old(self).frame()@, scaling4(x@, one(), one()), final(self).frame()@, r),
            r is Ok ==> *final(self) == old(self).with_frame(final(self).frame()),
            r is Err ==> *final(self) == *old(self),
    ;

    /// Scales along the outer y axis.
    fn rel_scale_y(&mut self, y: &Scalar) -> (r: Result<(), TransformError>)
        ensures
            relative_step(old(self).frame()@, scaling4(one(), y@, one()), final(self).frame()@, r),
            r is Ok ==> *final(self) == old(self).with_frame(final(self).frame()),
            r is Err ==> *final(self) == *old(self),
    ;

    /// Scales along the outer z axis.
    fn rel_scale_z(&mut self, z: &Scalar) -> (r: Result<(), TransformError>)
        ensures
            relative_step(old(self).frame()@, scaling4(one(), one(), z@), final(self).frame()@, r),
            r is Ok ==> *final(self) == old(self).with_frame(final(self).frame()),
            r is Err ==> *final(self) == *old(self),
    ;

    /// Scales along the outer axes.
    fn rel_scale(&mut self, x: &Scalar, y: &Scalar, z: &Scalar) -> (r: Result<(), TransformError>)
        ensures
            relative_step(old(self).frame()@, scaling4(x@, y@, z@), final(self).frame()@, r),
            r is Ok ==> *final(self) == old(self).with_frame(final(self).frame()),
            r is Err ==> *final(self) == *old(self),
    ;

    /// Rotates about the frame's own x axis, then about its new y axis, then about its new
    /// z axis. When a step fails the frame is left as it was before the first.
    fn rotate(&mut self, x: &Rotation, y: &Rotation, z: &Rotation) -> (r: Result<
        (),
        TransformError,
    >)
        ensures
            ({
                let first = mul4(old(self).frame()@, rotation_x4(x@));
                let second = mul4(first, rotation_y4(y@));
                let third = mul4(second, rotation_z4(z@));
                match r {
                    Ok(_) => final(self).frame()@ == third,
                    Err(e) => e == TransformError::Overflow && final(self).frame()@ == old(
                        self,
                    ).frame()@ && !(first.within(LIMIT as int) && second.within(LIMIT as int)
                        && third.within(LIMIT as int)),
                }
            }),
            r is Ok ==> *final(self) == old(self).with_frame(final(self).frame()),
            r is Err ==> *final(self) == *old(self),
    ;

    /// Rotates about the outer x axis, then about the outer y axis, then about the outer z
    /// axis. When a step fails the frame is left as it was before the first.
    fn rel_rotate(&mut self, x: &Rotation, y: &Rotation, z: &Rotation) -> (r: Result<
        (),
        TransformError,
    >)
        ensures
            ({
                let first = mul4(rotation_x4(x@), old(self).frame()@);
                let second = mul4(rotation_y4(y@), first);
                let third = mul4(rotation_z4(z@), second);
                match r {
                    Ok(_) => final(self).frame()@ == third,
                    Err(e) => e == TransformError::Overflow && final(self).frame()@ == old(
                        self,
                    ).frame()@ && !(first.within(LIMIT as int) && second.within(LIMIT as int)
                        && third.within(LIMIT as int)),
                }
            }),
            r is Ok ==> *final(self) == old(self).with_frame(final(self).frame()),
            r is Err ==> *final(self) == *old(self),
    ;

    /// The offset along x.
    fn get_translate_x(&self) -> (s: Scalar)
        ensures
            s@ == entry4(self.frame()@, 0, 3),
            s.wf(),
    ;

    /// The offset along y.
    fn get_translate_y(&self) -> (s: Scalar)
        ensures
            s@ == entry4(self.frame()@, 1, 3),
            s.wf(),
    ;

    /// The offset along z.
    fn get_translate_z(&self) -> (s: Scalar)
        ensures
            s@ == entry4(self.frame()@, 2, 3),
            s.wf(),
    ;

    /// The three offsets.
    fn get_translate(&self) -> (t: (Scalar, Scalar, Scalar))
        ensures
            t.0@ == entry4(self.frame()@, 0, 3),
            t.1@ == entry4(self.frame()@, 1, 3),
            t.2@ == entry4(self.frame()@, 2, 3),
            t.0.wf() && t.1.wf() && t.2.wf(),
    ;

    /// The scale along x: the Euclidean length of column 0.
    fn get_scale_x(&self) -> (r: Result<Scalar, TransformError>)
        ensures
            norm_outcome(column4(self.frame()@, 0), r),
    ;

    /// The scale along y: the Euclidean length of column 1.
    fn get_scale_y(&self) -> (r: Result<Scalar, TransformError>)
        ensures
            norm_outcome(column4(self.frame()@, 1), r),
    ;

    /// The scale along z: the Euclidean length of column 2.
    fn get_scale_z(&self) -> (r: Result<Scalar, TransformError>)
        ensures
            norm_outcome(column4(self.frame()@, 2), r),
    ;

    /// The three scales, or the error of the first of them that has none.
    fn get_scale(&self) -> (r: Result<(Scalar, Scalar, Scalar), TransformError>)
        ensures
            match r {
                Ok(s) => norm_outcome(column4(self.frame()@, 0), Ok(s.0)) && norm_outcome(
                    column4(self.frame()@, 1),
                    Ok(s.1),
                ) && norm_outcome(column4(self.frame()@, 2), Ok(s.2)),
                Err(e) => Some(e) == first_error(
                    norm_error(column4(self.frame()@, 0)),
                    norm_error(column4(self.frame()@, 1)),
                    norm_error(column4(self.frame()@, 2)),
                ),
            },
    ;

    /// The rotation about x, if the frame holds one of less than a quarter turn to either side.
    fn get_rotate_x(&self) -> (r: Result<Rotation, TransformError>)
        ensures
            rotation_outcome(column4(self.frame()@, 1), 2, r),
    ;

    /// The rotation about y, if the frame holds one of less than a quarter turn to either side.
    fn get_rotate_y(&self) -> (r: Result<Rotation, TransformError>)
        ensures
            rotation_outcome(column4(self.frame()@, 2), 0, r),
    ;

    /// The rotation about z, if the frame holds one of less than a quarter turn to either side.
    fn get_rotate_z(&self) -> (r: Result<Rotation, TransformError>)
        ensures
            rotation_outcome(column4(self.frame()@, 0), 1, r),
    ;

    /// The three rotations, or the error of the first of them that has none.
    fn get_rotate(&self) -> (r: Result<(Rotation, Rotation, Rotation), TransformError>)
        ensures
            match r {
                Ok(s) => rotation_outcome(column4(self.frame()@, 1), 2, Ok(s.0))
                    && rotation_outcome(column4(self.frame()@, 2), 0, Ok(s.1))
                    && rotation_outcome(column4(self.frame()@, 0), 1, Ok(s.2)),
                Err(e) => Some(e) == first_error(
                    rotation_error(column4(self.frame()@, 1), 2),
                    rotation_error(column4(self.frame()@, 2), 0),
                    rotation_error(column4(self.frame()@, 0), 1),
                ),
            },
    ;
}

impl<T: HasRefSys3D> Is3DObject for T {
    fn rotate_x(&mut self, x: &Rotation) -> (r: Result<(), TransformError>) {
        let mut frame: Matrix3D = *self.ref_sys();
        let r = frame.rotate_x(x);
        if r.is_ok() {
            self.set_ref_sys(frame);
        }
        r
    }

    fn rotate_y(&mut self, y: &Rotation) -> (r: Result<(), TransformError>) {
        let mut frame: Matrix3D = *self.ref_sys();
        let r = frame.rotate_y(y);
        if r.is_ok() {
            self.set_ref_sys(frame);
        }
        r
    }

    fn rotate_z(&mut self, z: &Rotation) -> (r: Result<(), TransformError>) {
        let mut frame: Matrix3D = *self.ref_sys();
        let r = frame.rotate_z(z);
        if r.is_ok() {
            self.set_ref_sys(frame);
        }
        r
    }

    fn translate_x(&mut self, x: &Scalar) -> (r: Result<(), TransformError>) {
        let mut frame: Matrix3D = *self.ref_sys();
        let r = frame.translate_x(x);
        if r.is_ok() {
            self.set_ref_sys(frame);
        }
        r
    }

    fn translate_y(&mut self, y: &Scalar) -> (r: Result<(), TransformError>) {
        let mut frame: Matrix3D = *self.ref_sys();
        let r = frame.translate_y(y);
        if r.is_ok() {
            self.set_ref_sys(frame);
        }
        r
    }

    fn translate_z(&mut self, z: &Scalar) -> (r: Result<(), TransformError>) {
        let mut frame: Matrix3D = *self.ref_sys();
        let r = frame.translate_z(z);
        if r.is_ok() {
            self.set_ref_sys(frame);
        }
        r
    }

    fn translate(&mut self, x: &Scalar, y: &Scalar, z: &Scalar) -> (r: Result<(), TransformError>) {
        let mut frame: Matrix3D = *self.ref_sys();
        let r = frame.translate(x, y, z);
        if r.is_ok() {
            self.set_ref_sys(frame);
        }
        r
    }

    fn scale_x(&mut self, x: &Scalar) -> (r: Result<(), TransformError>) {
        let mut frame: Matrix3D = *self.ref_sys();
        let r = frame.scale_x(x);
        if r.is_ok() {
            self.set_ref_sys(frame);
        }
        r
    }

    fn scale_y(&mut self, y: &Scalar) -> (r: Result<(), TransformError>) {
        let mut frame: Matrix3D = *self.ref_sys();
        let r = frame.scale_y(y);
        if r.is_ok() {
            self.set_ref_sys(frame);
        }
        r
    }

    fn scale_z(&mut self, z: &Scalar) -> (r: Result<(), TransformError>) {
        let mut frame: Matrix3D = *self.ref_sys();
        let r = frame.scale_z(z);
        if r.is_ok() {
            self.set_ref_sys(frame);
        }
        r
    }

    fn scale(&mut self, x: &Scalar, y: &Scalar, z: &Scalar) -> (r: Result<(), TransformError>) {
        let mut frame: Matrix3D = *self.ref_sys();
        let r = frame.scale(x, y, z);
        if r.is_ok() {
            self.set_ref_sys(frame);
        }
        r
    }

    fn rel_rotate_x(&mut self, x: &Rotation) -> (r: Result<(), TransformError>) {
        let mut frame: Matrix3D = *self.ref_sys();
        let r = frame.rel_rotate_x(x);
        if r.is_ok() {
            self.set_ref_sys(frame);
        }
        r
    }

    fn rel_rotate_y(&mut self, y: &Rotation) -> (r: Result<(), TransformError>) {
        let mut frame: Matrix3D = *self.ref_sys();
        let r = frame.rel_rotate_y(y);
        if r.is_ok() {
            self.set_ref_sys(frame);
        }
        r
    }

    fn rel_rotate_z(&mut self, z: &Rotation) -> (r: Result<(), TransformError>) {
        let mut frame: Matrix3D = *self.ref_sys();
        let r = frame.rel_rotate_z(z);
        if r.is_ok() {
            self.set_ref_sys(frame);
        }
        r
    }

    fn rel_translate_x(&mut self, x: &Scalar) -> (r: Result<(), TransformError>) {
        let mut frame: Matrix3D = *self.ref_sys();
        let r = frame.rel_translate_x(x);
        if r.is_ok() {
            self.set_ref_sys(frame);
        }
        r
    }

    fn rel_translate_y(&mut self, y: &Scalar) -> (r: Result<(), TransformError>) {
        let mut frame: Matrix3D = *self.ref_sys();
        let r = frame.rel_translate_y(y);
        if r.is_ok() {
            self.set_ref_sys(frame);
        }
        r
    }

    fn rel_translate_z(&mut self, z: &Scalar) -> (r: Result<(), TransformError>) {
        let mut frame: Matrix3D = *self.ref_sys();
        let r = frame.rel_translate_z(z);
        if r.is_ok() {
            self.set_ref_sys(frame);
        }
        r
    }

    fn rel_translate(&mut self, x: &Scalar, y: &Scalar, z: &Scalar) -> (r: Result<(), TransformError>) {
        let mut frame: Matrix3D = *self.ref_sys();
        let r = frame.rel_translate(x, y, z);
        if r.is_ok() {
            self.set_ref_sys(frame);
        }
        r
    }

    fn rel_scale_x(&mut self, x: &Scalar) -> (r: Result<(), TransformError>) {
        let mut frame: Matrix3D = *self.ref_sys();
        let r = frame.rel_scale_x(x);
        if r.is_ok() {
            self.set_ref_sys(frame);
        }
        r
    }

    fn rel_scale_y(&mut self, y: &Scalar) -> (r: Result<(), TransformError>) {
        let mut frame: Matrix3D = *self.ref_sys();
        let r = frame.rel_scale_y(y);
        if r.is_ok() {
            self.set_ref_sys(frame);
        }
        r
    }

    fn rel_scale_z(&mut self, z: &Scalar) -> (r: Result<(), TransformError>) {
        let mut frame: Matrix3D = *self.ref_sys();
        let r = frame.rel_scale_z(z);
        if r.is_ok() {
            self.set_ref_sys(frame);
        }
        r
    }

    fn rel_scale(&mut self, x: &Scalar, y: &Scalar, z: &Scalar) -> (r: Result<(), TransformError>) {
        let mut frame: Matrix3D = *self.ref_sys();
        let r = frame.rel_scale(x, y, z);
        if r.is_ok() {
            self.set_ref_sys(frame);
        }
        r
    }

    fn rotate(&mut self, x: &Rotation, y: &Rotation, z: &Rotation) -> (r: Result<
        (),
        TransformError,
    >) {
        let mut frame: Matrix3D = *self.ref_sys();
        let r = frame.rotate(x, y, z);
        if r.is_ok() {
            self.set_ref_sys(frame);
        }
        r
    }

    fn rel_rotate(&mut self, x: &Rotation, y: &Rotation, z: &Rotation) -> (r: Result<
        (),
        TransformError,
    >) {
        let mut frame: Matrix3D = *self.ref_sys();
        let r = frame.rel_rotate(x, y, z);
        if r.is_ok() {
            self.set_ref_sys(frame);
        }
        r
    }

    fn get_translate_x(&self) -> (s: Scalar) {
        self.ref_sys().get_translate_x()
    }

    fn get_translate_y(&self) -> (s: Scalar) {
        self.ref_sys().get_translate_y()
    }

    fn get_translate_z(&self) -> (s: Scalar) {
        self.ref_sys().get_translate_z()
    }

    fn get_translate(&self) -> (t: (Scalar, Scalar, Scalar)) {
        self.ref_sys().get_translate()
    }

    fn get_scale_x(&self) -> (r: Result<Scalar, TransformError>) {
        self.ref_sys().get_scale_x()
    }

    fn get_scale_y(&self) -> (r: Result<Scalar, TransformError>) {
        self.ref_sys().get_scale_y()
    }

    fn get_scale_z(&self) -> (r: Result<Scalar, TransformError>) {
        self.ref_sys().get_scale_z()
    }

    fn get_scale(&self) -> (r: Result<(Scalar, Scalar, Scalar), TransformError>) {
        self.ref_sys().get_scale()
    }

    fn get_rotate_x(&self) -> (r: Result<Rotation, TransformError>) {
        self.ref_sys().get_rotate_x()
    }

    fn get_rotate_y(&self) -> (r: Result<Rotation, TransformError>) {
        self.ref_sys().get_rotate_y()
    }

    fn get_rotate_z(&self) -> (r: Result<Rotation, TransformError>) {
        self.ref_sys().get_rotate_z()
    }

    fn get_rotate(&self) -> (r: Result<(Rotation, Rotation, Rotation), TransformError>) {
        self.ref_sys().get_rotate()
    }
}

} // verus!
