//! The owners of a frame of the plane, and the building vocabulary that every owner has.

use crate::anchor2d::Anchor;
use crate::decompose2d::column3;
use crate::error::TransformError;
use crate::matrix2d::{entry3, Matrix2D};
use crate::object2d::Object2D;
use crate::rotation::Rotation;
use crate::scalar::Scalar;
use crate::transform3::{
    absolute_step3, relative_step3, rotation3, scaling3, translation3,
};
use crate::transform4::{one, zero};
use crate::vector::first_error;
use crate::vector2d::{norm_error3, norm_outcome3, rotation_outcome3};
use vstd::prelude::*;

verus! {

/// What owns a frame of the plane.
pub trait HasRefSys2D: Sized {
    /// The frame that the owner holds.
    spec fn frame(&self) -> Matrix2D;

    /// The owner with its frame replaced and everything else as it is.
    spec fn with_frame(&self, frame: Matrix2D) -> Self;

    /// The frame.
    fn ref_sys(&self) -> (m: &Matrix2D)
        ensures
            *m == self.frame(),
    ;

    /// The frame, to be changed in place.
    fn ref_sys_mut(&mut self) -> (m: &mut Matrix2D)
        ensures
            *m == old(self).frame(),
            *final(m) == final(self).frame(),
            *final(self) == old(self).with_frame(*final(m)),
    ;

    /// Replaces the frame.
    fn set_ref_sys(&mut self, ref_sys: Matrix2D)
        ensures
            final(self).frame() == ref_sys,
            *final(self) == old(self).with_frame(ref_sys),
    ;
}

impl HasRefSys2D for Anchor {
    open spec fn frame(&self) -> Matrix2D {
        self.ref_sys
    }

    open spec fn with_frame(&self, frame: Matrix2D) -> Self {
        Self { ref_sys: frame, ..*self }
    }

    fn ref_sys(&self) -> (m: &Matrix2D) {
        &self.ref_sys
    }

    fn ref_sys_mut(&mut self) -> (m: &mut Matrix2D) {
        &mut self.ref_sys
    }

    fn set_ref_sys(&mut self, ref_sys: Matrix2D) {
        self.ref_sys = ref_sys;
    }
}

impl HasRefSys2D for Object2D {
    open spec fn frame(&self) -> Matrix2D {
        self.ref_sys
    }

    open spec fn with_frame(&self, frame: Matrix2D) -> Self {
        Self { ref_sys: frame, ..*self }
    }

    fn ref_sys(&self) -> (m: &Matrix2D) {
        &self.ref_sys
    }

    fn ref_sys_mut(&mut self) -> (m: &mut Matrix2D) {
        &mut self.ref_sys
    }

    fn set_ref_sys(&mut self, ref_sys: Matrix2D) {
        self.ref_sys = ref_sys;
    }
}

/// The vocabulary of `Matrix2D` for building and taking apart a frame, for whatever owns one.
pub trait Is2DObject: HasRefSys2D {
    /// Rotates about the frame's own origin.
    fn rotate(&mut self, x: &Rotation) -> (r: Result<(), TransformError>)
        ensures
            absolute_step3(old(self).frame()@, rotation3(x@), final(self).frame()@, r),
            r is Ok ==> *final(self) == old(self).with_frame(final(self).frame()),
            r is Err ==> *final(self) == *old(self),
    ;

    /// Rotates about the outer origin.
    fn rel_rotate(&mut self, x: &Rotation) -> (r: Result<(), TransformError>)
        ensures
            relative_step3(old(self).frame()@, rotation3(x@), final(self).frame()@, r),
            r is Ok ==> *final(self) == old(self).with_frame(final(self).frame()),
            r is Err ==> *final(self) == *old(self),
    ;

    /// Translates along the frame's own x axis.
    fn translate_x(&mut self, x: &Scalar) -> (r: Result<(), TransformError>)
        ensures
            absolute_step3(old(self).frame()@, translation3(x@, zero()), final(self).frame()@, r),
            r is Ok ==> *final(self) == old(self).with_frame(final(self).frame()),
            r is Err ==> *final(self) == *old(self),
    ;

    /// Translates along the frame's own y axis.
    fn translate_y(&mut self, y: &Scalar) -> (r: Result<(), TransformError>)
        ensures
            absolute_step3(old(self).frame()@, translation3(zero(), y@), final(self).frame()@, r),
            r is Ok ==> *final(self) == old(self).with_frame(final(self).frame()),
            r is Err ==> *final(self) == *old(self),
    ;

    /// Translates along the frame's own axes.
    fn translate(&mut self, x: &Scalar, y: &Scalar) -> (r: Result<(), TransformError>)
        ensures
            absolute_step3(old(self).frame()@, translation3(x@, y@), final(self).frame()@, r),
            r is Ok ==> *final(self) == old(self).with_frame(final(self).frame()),
            r is Err ==> *final(self) == *old(self),
    ;

    /// Scales along the frame's own x axis.
    fn scale_x(&mut self, x: &Scalar) -> (r: Result<(), TransformError>)
        ensures
            absolute_step3(old(self).frame()@, scaling3(x@, one()), final(self).frame()@, r),
            r is Ok ==> *final(self) == old(self).with_frame(final(self).frame()),
            r is Err ==> *final(self) == *old(self),
    ;

    /// Scales along the frame's own y axis.
    fn scale_y(&mut self, y: &Scalar) -> (r: Result<(), TransformError>)
        ensures
            absolute_step3(old(self).frame()@, scaling3(one(), y@), final(self).frame()@, r),
            r is Ok ==> *final(self) == old(self).with_frame(final(self).frame()),
            r is Err ==> *final(self) == *old(self),
    ;

    /// Scales along the frame's own axes.
    fn scale(&mut self, x: &Scalar, y: &Scalar) -> (r: Result<(), TransformError>)
        ensures
            absolute_step3(old(self).frame()@, scaling3(x@, y@), final(self).frame()@, r),
            r is Ok ==> *final(self) == old(self).with_frame(final(self).frame()),
            r is Err ==> *final(self) == *old(self),
    ;

    /// Translates along the outer x axis.
    fn rel_translate_x(&mut self, x: &Scalar) -> (r: Result<(), TransformError>)
        ensures
            relative_step3(old(self).frame()@, translation3(x@, zero()), final(self).frame()@, r),
            r is Ok ==> *final(self) == old(self).with_frame(final(self).frame()),
            r is Err ==> *final(self) == *old(self),
    ;

    /// Translates along the outer y axis.
    fn rel_translate_y(&mut self, y: &Scalar) -> (r: Result<(), TransformError>)
        ensures
            relative_step3(old(self).frame()@, translation3(zero(), y@), final(self).frame()@, r),
            r is Ok ==> *final(self) == old(self).with_frame(final(self).frame()),
            r is Err ==> *final(self) == *old(self),
    ;

    /// Translates along the outer axes.
    fn rel_translate(&mut self, x: &Scalar, y: &Scalar) -> (r: Result<(), TransformError>)
        ensures
            relative_step3(old(self).frame()@, translation3(x@, y@), final(self).frame()@, r),
            r is Ok ==> *final(self) == old(self).with_frame(final(self).frame()),
            r is Err ==> *final(self) == *old(self),
    ;

    /// Scales along the outer x axis.
    fn rel_scale_x(&mut self, x: &Scalar) -> (r: Result<(), TransformError>)
        ensures
            relative_step3(old(self).frame()@, scaling3(x@, one()), final(self).frame()@, r),
            r is Ok ==> *final(self) == old(self).with_frame(final(self).frame()),
            r is Err ==> *final(self) == *old(self),
    ;

    /// Scales along the outer y axis.
    fn rel_scale_y(&mut self, y: &Scalar) -> (r: Result<(), TransformError>)
        ensures
            relative_step3(old(self).frame()@, scaling3(one(), y@), final(self).frame()@, r),
            r is Ok ==> *final(self) == old(self).with_frame(final(self).frame()),
            r is Err ==> *final(self) == *old(self),
    ;

    /// Scales along the outer axes.
    fn rel_scale(&mut self, x: &Scalar, y: &Scalar) -> (r: Result<(), TransformError>)
        ensures
            relative_step3(old(self).frame()@, scaling3(x@, y@), final(self).frame()@, r),
            r is Ok ==> *final(self) == old(self).with_frame(final(self).frame()),
            r is Err ==> *final(self) == *old(self),
    ;

    /// The rotation, if the frame holds one of at most a half turn counterclockwise.
    fn get_rotate(&self) -> (r: Result<Rotation, TransformError>)
        ensures
            rotation_outcome3(column3(self.frame()@, 0), 0, r),
    ;

    /// The offset along x.
    fn get_translate_x(&self) -> (s: Scalar)
        ensures
            s@ == entry3(self.frame()@, 0, 2),
            s.wf(),
    ;

    /// The offset along y.
    fn get_translate_y(&self) -> (s: Scalar)
        ensures
            s@ == entry3(self.frame()@, 1, 2),
            s.wf(),
    ;

    /// The two offsets.
    fn get_translate(&self) -> (t: (Scalar, Scalar))
        ensures
            t.0@ == entry3(self.frame()@, 0, 2),
            t.1@ == entry3(self.frame()@, 1, 2),
            t.0.wf() && t.1.wf(),
    ;

    /// The scale along x: the Euclidean length of column 0.
    fn get_scale_x(&self) -> (r: Result<Scalar, TransformError>)
        ensures
            norm_outcome3(column3(self.frame()@, 0), r),
    ;

    /// The scale along y: the Euclidean length of column 1.
    fn get_scale_y(&self) -> (r: Result<Scalar, TransformError>)
        ensures
            norm_outcome3(column3(self.frame()@, 1), r),
    ;

    /// The two scales, or the error of the first of them that has none.
    fn get_scale(&self) -> (r: Result<(Scalar, Scalar), TransformError>)
        ensures
            match r {
                Ok(s) => norm_outcome3(column3(self.frame()@, 0), Ok(s.0)) && norm_outcome3(
                    column3(self.frame()@, 1),
                    Ok(s.1),
                ),
                Err(e) => Some(e) == first_error(
                    norm_error3(column3(self.frame()@, 0)),
                    norm_error3(column3(self.frame()@, 1)),
                    None,
                ),
            },
    ;
}

impl<T: HasRefSys2D> Is2DObject for T {
    fn rotate(&mut self, x: &Rotation) -> (r: Result<(), TransformError>) {
        let mut frame: Matrix2D = *self.ref_sys();
        let r = frame.rotate(x);
        if r.is_ok() {
            self.set_ref_sys(frame);
        }
        r
    }

    fn rel_rotate(&mut self, x: &Rotation) -> (r: Result<(), TransformError>) {
        let mut frame: Matrix2D = *self.ref_sys();
        let r = frame.rel_rotate(x);
        if r.is_ok() {
            self.set_ref_sys(frame);
        }
        r
    }

    fn translate_x(&mut self, x: &Scalar) -> (r: Result<(), TransformError>) {
        let mut frame: Matrix2D = *self.ref_sys();
        let r = frame.translate_x(x);
        if r.is_ok() {
            self.set_ref_sys(frame);
        }
        r
    }

    fn translate_y(&mut self, y: &Scalar) -> (r: Result<(), TransformError>) {
        let mut frame: Matrix2D = *self.ref_sys();
        let r = frame.translate_y(y);
        if r.is_ok() {
            self.set_ref_sys(frame);
        }
        r
    }

    fn translate(&mut self, x: &Scalar, y: &Scalar) -> (r: Result<(), TransformError>) {
        let mut frame: Matrix2D = *self.ref_sys();
        let r = frame.translate(x, y);
        if r.is_ok() {
            self.set_ref_sys(frame);
        }
        r
    }

    fn scale_x(&mut self, x: &Scalar) -> (r: Result<(), TransformError>) {
        let mut frame: Matrix2D = *self.ref_sys();
        let r = frame.scale_x(x);
        if r.is_ok() {
            self.set_ref_sys(frame);
        }
        r
    }

    fn scale_y(&mut self, y: &Scalar) -> (r: Result<(), TransformError>) {
        let mut frame: Matrix2D = *self.ref_sys();
        let r = frame.scale_y(y);
        if r.is_ok() {
            self.set_ref_sys(frame);
        }
        r
    }

    fn scale(&mut self, x: &Scalar, y: &Scalar) -> (r: Result<(), TransformError>) {
        let mut frame: Matrix2D = *self.ref_sys();
        let r = frame.scale(x, y);
        if r.is_ok() {
            self.set_ref_sys(frame);
        }
        r
    }

    fn rel_translate_x(&mut self, x: &Scalar) -> (r: Result<(), TransformError>) {
        let mut frame: Matrix2D = *self.ref_sys();
        let r = frame.rel_translate_x(x);
        if r.is_ok() {
            self.set_ref_sys(frame);
        }
        r
    }

    fn rel_translate_y(&mut self, y: &Scalar) -> (r: Result<(), TransformError>) {
        let mut frame: Matrix2D = *self.ref_sys();
        let r = frame.rel_translate_y(y);
        if r.is_ok() {
            self.set_ref_sys(frame);
        }
        r
    }

    fn rel_translate(&mut self, x: &Scalar, y: &Scalar) -> (r: Result<(), TransformError>) {
        let mut frame: Matrix2D = *self.ref_sys();
        let r = frame.rel_translate(x, y);
        if r.is_ok() {
            self.set_ref_sys(frame);
        }
        r
    }

    fn rel_scale_x(&mut self, x: &Scalar) -> (r: Result<(), TransformError>) {
        let mut frame: Matrix2D = *self.ref_sys();
        let r = frame.rel_scale_x(x);
        if r.is_ok() {
            self.set_ref_sys(frame);
        }
        r
    }

    fn rel_scale_y(&mut self, y: &Scalar) -> (r: Result<(), TransformError>) {
        let mut frame: Matrix2D = *self.ref_sys();
        let r = frame.rel_scale_y(y);
        if r.is_ok() {
            self.set_ref_sys(frame);
        }
        r
    }

    fn rel_scale(&mut self, x: &Scalar, y: &Scalar) -> (r: Result<(), TransformError>) {
        let mut frame: Matrix2D = *self.ref_sys();
        let r = frame.rel_scale(x, y);
        if r.is_ok() {
            self.set_ref_sys(frame);
        }
        r
    }

    fn get_rotate(&self) -> (r: Result<Rotation, TransformError>) {
        self.ref_sys().get_rotate()
    }

    fn get_translate_x(&self) -> (s: Scalar) {
        self.ref_sys().get_translate_x()
    }

    fn get_translate_y(&self) -> (s: Scalar) {
        self.ref_sys().get_translate_y()
    }

    fn get_translate(&self) -> (t: (Scalar, Scalar)) {
        self.ref_sys().get_translate()
    }

    fn get_scale_x(&self) -> (r: Result<Scalar, TransformError>) {
        self.ref_sys().get_scale_x()
    }

    fn get_scale_y(&self) -> (r: Result<Scalar, TransformError>) {
        self.ref_sys().get_scale_y()
    }

    fn get_scale(&self) -> (r: Result<(Scalar, Scalar), TransformError>) {
        self.ref_sys().get_scale()
    }
}

} // verus!
