//! The elementary transforms of space as 4x4 matrices, and what it means to apply one to a
//! frame.

use crate::error::TransformError;
use crate::exact::LIMIT;
use crate::fraction::Fractions;
use crate::linear4::mul4;
use crate::scalar::raw_scalar;
use crate::vector::raw_vector4;
use vstd::prelude::*;

verus! {

/// The translation by `(x, y, z)`, not reduced: the offsets stand in column 3.
pub open spec fn raw_translation4(x: Fractions, y: Fractions, z: Fractions) -> Fractions {
    let v = raw_vector4(x, y, z, 1);
    let d = v.den;
    Fractions {
        num: seq![d, 0, 0, v.num[0], 0, d, 0, v.num[1], 0, 0, d, v.num[2], 0, 0, 0, d],
        den: d,
    }
}

/// The scaling by `(x, y, z)`, not reduced: the factors stand on the diagonal.
pub open spec fn raw_scaling4(x: Fractions, y: Fractions, z: Fractions) -> Fractions {
    let v = raw_vector4(x, y, z, 1);
    let d = v.den;
    Fractions {
        num: seq![v.num[0], 0, 0, 0, 0, v.num[1], 0, 0, 0, 0, v.num[2], 0, 0, 0, 0, d],
        den: d,
    }
}

/// The rotation about the x axis with cosine and sine `r`, not reduced.
pub open spec fn raw_rotation_x4(r: Fractions) -> Fractions {
    let c = r.num[0];
    let s = r.num[1];
    let d = r.den;
    Fractions { num: seq![d, 0, 0, 0, 0, c, -s, 0, 0, s, c, 0, 0, 0, 0, d], den: d }
}

/// The rotation about the y axis with cosine and sine `r`, not reduced.
pub open spec fn raw_rotation_y4(r: Fractions) -> Fractions {
    let c = r.num[0];
    let s = r.num[1];
    let d = r.den;
    Fractions { num: seq![c, 0, s, 0, 0, d, 0, 0, -s, 0, c, 0, 0, 0, 0, d], den: d }
}

/// The rotation about the z axis with cosine and sine `r`, not reduced.
pub open spec fn raw_rotation_z4(r: Fractions) -> Fractions {
    let c = r.num[0];
    let s = r.num[1];
    let d = r.den;
    Fractions { num: seq![c, -s, 0, 0, s, c, 0, 0, 0, 0, d, 0, 0, 0, 0, d], den: d }
}

/// The translation by `(x, y, z)`.
pub open spec fn translation4(x: Fractions, y: Fractions, z: Fractions) -> Fractions {
    raw_translation4(x, y, z).reduced()
}

/// The scaling by `(x, y, z)`.
pub open spec fn scaling4(x: Fractions, y: Fractions, z: Fractions) -> Fractions {
    raw_scaling4(x, y, z).reduced()
}

/// The rotation about the x axis with cosine and sine `r`.
pub open spec fn rotation_x4(r: Fractions) -> Fractions {
    raw_rotation_x4(r).reduced()
}

/// The rotation about the y axis with cosine and sine `r`.
pub open spec fn rotation_y4(r: Fractions) -> Fractions {
    raw_rotation_y4(r).reduced()
}

/// The rotation about the z axis with cosine and sine `r`.
pub open spec fn rotation_z4(r: Fractions) -> Fractions {
    raw_rotation_z4(r).reduced()
}

/// The number zero.
pub open spec fn zero() -> Fractions {
    raw_scalar(0, 1)
}

/// The number one.
pub open spec fn one() -> Fractions {
    raw_scalar(1, 1)
}

/// An absolute step: the frame is multiplied by the elementary transform on the right, so
/// that the transform acts in the frame's own axes. It succeeds exactly when the elementary
/// matrix and the product are within `LIMIT`; when it fails the frame is left as it was.
pub open spec fn absolute_step(
    before: Fractions,
    elementary: Fractions,
    after: Fractions,
    r: Result<(), TransformError>,
) -> bool {
    composed(before, elementary, mul4(before, elementary), after, r)
}

/// A relative step: the frame is multiplied by the elementary transform on the left, so
/// that the transform acts in the outer axes. It succeeds exactly when the elementary
/// matrix and the product are within `LIMIT`; when it fails the frame is left as it was.
pub open spec fn relative_step(
    before: Fractions,
    elementary: Fractions,
    after: Fractions,
    r: Result<(), TransformError>,
) -> bool {
    composed(before, elementary, mul4(elementary, before), after, r)
}

/// The outcome of replacing a frame by its product with an elementary transform.
pub open spec fn composed(
    before: Fractions,
    elementary: Fractions,
    product: Fractions,
    after: Fractions,
    r: Result<(), TransformError>,
) -> bool {
    match r {
        Ok(_) => elementary.within(LIMIT as int) && product.within(LIMIT as int) && after
            == product,
        Err(e) => e == TransformError::Overflow && after == before && !(elementary.within(
            LIMIT as int,
        ) && product.within(LIMIT as int)),
    }
}

} // verus!
