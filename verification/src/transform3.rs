//! The elementary transforms of the plane as 3x3 matrices, and what it means to apply one to
//! a frame.

use crate::error::TransformError;
use crate::fraction::Fractions;
use crate::linear3::mul3;
use crate::transform4::composed;
use crate::vector2d::raw_vector3;
use vstd::prelude::*;

verus! {

/// The translation by `(x, y)`, not reduced: the offsets stand in column 2.
pub open spec fn raw_translation3(x: Fractions, y: Fractions) -> Fractions {
    let v = raw_vector3(x, y, 1);
    let d = v.den;
    Fractions { num: seq![d, 0, v.num[0], 0, d, v.num[1], 0, 0, d], den: d }
}

/// The scaling by `(x, y)`, not reduced: the factors stand on the diagonal.
pub open spec fn raw_scaling3(x: Fractions, y: Fractions) -> Fractions {
    let v = raw_vector3(x, y, 1);
    let d = v.den;
    Fractions { num: seq![v.num[0], 0, 0, 0, v.num[1], 0, 0, 0, d], den: d }
}

/// The rotation of the plane with cosine and sine `r`, not reduced.
pub open spec fn raw_rotation3(r: Fractions) -> Fractions {
    let c = r.num[0];
    let s = r.num[1];
    let d = r.den;
    Fractions { num: seq![c, -s, 0, s, c, 0, 0, 0, d], den: d }
}

/// The translation by `(x, y)`.
pub open spec fn translation3(x: Fractions, y: Fractions) -> Fractions {
    raw_translation3(x, y).reduced()
}

/// The scaling by `(x, y)`.
pub open spec fn scaling3(x: Fractions, y: Fractions) -> Fractions {
    raw_scaling3(x, y).reduced()
}

/// The rotation of the plane with cosine and sine `r`.
pub open spec fn rotation3(r: Fractions) -> Fractions {
    raw_rotation3(r).reduced()
}

/// An absolute step in the plane: the frame is multiplied by the elementary transform on
/// the right, so that the transform acts in the frame's own axes. It succeeds exactly when
/// the elementary matrix and the product are within `LIMIT`; when it fails the frame is
/// left as it was.
pub open spec fn absolute_step3(
    before: Fractions,
    elementary: Fractions,
    after: Fractions,
    r: Result<(), TransformError>,
) -> bool {
    composed(before, elementary, mul3(before, elementary), after, r)
}

/// A relative step in the plane: the frame is multiplied by the elementary transform on
/// the left, so that the transform acts in the outer axes. It succeeds exactly when the
/// elementary matrix and the product are within `LIMIT`; when it fails the frame is left as
/// it was.
pub open spec fn relative_step3(
    before: Fractions,
    elementary: Fractions,
    after: Fractions,
    r: Result<(), TransformError>,
) -> bool {
    composed(before, elementary, mul3(elementary, before), after, r)
}

} // verus!
