//! The arithmetic operators of numbers, vectors and matrices: `+`, `-`, `*` and, for the
//! inverse of a matrix, `!`. Each answers as the method of the same meaning does.

use crate::error::TransformError;
use crate::exact::LIMIT;
use crate::linear3::{inverse3, invertible3, mul3};
use crate::linear4::{inverse4, invertible4, mul4};
use crate::matrix2d::Matrix2D;
use crate::matrix3d::Matrix3D;
use crate::scalar::Scalar;
use crate::vector::{raw_dot4, Vector3D};
use crate::vector2d::{raw_dot3, Vector2D};
use vstd::prelude::*;

verus! {

impl core::ops::Mul<Matrix3D> for Matrix3D {
    type Output = Result<Matrix3D, TransformError>;

    /// The matrix product `self * other`: rows of `self` times columns of `other`.
    fn mul(self, other: Matrix3D) -> (r: Result<Matrix3D, TransformError>)
        ensures
            match r {
                Ok(m) => m@ == mul4(self@, other@) && m.wf(),
                Err(e) => e == TransformError::Overflow && !mul4(self@, other@).within(LIMIT as int),
            },
    {
        Matrix3D::mul(&self, &other)
    }
}

impl vstd::std_specs::ops::MulSpecImpl<Matrix3D> for Matrix3D {
    /// The operator is specified by the postcondition of `mul`.
    open spec fn obeys_mul_spec() -> bool {
        false
    }

    open spec fn mul_req(self, other: Matrix3D) -> bool {
        true
    }

    open spec fn mul_spec(self, other: Matrix3D) -> Result<Matrix3D, TransformError> {
        arbitrary()
    }
}

impl core::ops::Mul<Scalar> for Matrix3D {
    type Output = Result<Matrix3D, TransformError>;

    /// Every entry multiplied by `other`.
    fn mul(self, other: Scalar) -> (r: Result<Matrix3D, TransformError>)
        ensures
            match r {
                Ok(m) => m@ == self@.scaled_by(other@).reduced() && m.wf(),
                Err(e) => e == TransformError::Overflow && !self@.scaled_by(other@).reduced().within(LIMIT as int),
            },
    {
        self.scale_entries(&other)
    }
}

impl vstd::std_specs::ops::MulSpecImpl<Scalar> for Matrix3D {
    /// The operator is specified by the postcondition of `mul`.
    open spec fn obeys_mul_spec() -> bool {
        false
    }

    open spec fn mul_req(self, other: Scalar) -> bool {
        true
    }

    open spec fn mul_spec(self, other: Scalar) -> Result<Matrix3D, TransformError> {
        arbitrary()
    }
}

impl core::ops::Add<Matrix3D> for Matrix3D {
    type Output = Result<Matrix3D, TransformError>;

    /// The entry-wise sum.
    fn add(self, other: Matrix3D) -> (r: Result<Matrix3D, TransformError>)
        ensures
            match r {
                Ok(m) => m@ == self@.sum(other@).reduced() && m.wf(),
                Err(e) => e == TransformError::Overflow && !self@.sum(other@).reduced().within(LIMIT as int),
            },
    {
        Matrix3D::add(&self, &other)
    }
}

impl vstd::std_specs::ops::AddSpecImpl<Matrix3D> for Matrix3D {
    /// The operator is specified by the postcondition of `add`.
    open spec fn obeys_add_spec() -> bool {
        false
    }

    open spec fn add_req(self, other: Matrix3D) -> bool {
        true
    }

    open spec fn add_spec(self, other: Matrix3D) -> Result<Matrix3D, TransformError> {
        arbitrary()
    }
}

impl core::ops::Sub<Matrix3D> for Matrix3D {
    type Output = Result<Matrix3D, TransformError>;

    /// The entry-wise difference.
    fn sub(self, other: Matrix3D) -> (r: Result<Matrix3D, TransformError>)
        ensures
            match r {
                Ok(m) => m@ == self@.difference(other@).reduced() && m.wf(),
                Err(e) => e == TransformError::Overflow && !self@.difference(other@).reduced().within(LIMIT as int),
            },
    {
        Matrix3D::sub(&self, &other)
    }
}

impl vstd::std_specs::ops::SubSpecImpl<Matrix3D> for Matrix3D {
    /// The operator is specified by the postcondition of `sub`.
    open spec fn obeys_sub_spec() -> bool {
        false
    }

    open spec fn sub_req(self, other: Matrix3D) -> bool {
        true
    }

    open spec fn sub_spec(self, other: Matrix3D) -> Result<Matrix3D, TransformError> {
        arbitrary()
    }
}

impl core::ops::Not for Matrix3D {
    type Output = Result<Matrix3D, TransformError>;

    /// The inverse.
    fn not(self) -> (r: Result<Matrix3D, TransformError>)
        ensures
            match r {
                Ok(m) => invertible4(self@) && m@ == inverse4(self@) && m.wf(),
                Err(e) => if invertible4(self@) {
                    e == TransformError::Overflow && !inverse4(self@).within(LIMIT as int)
                } else {
                    e == TransformError::Singular
                },
            },
    {
        self.invert()
    }
}

impl vstd::std_specs::ops::NotSpecImpl for Matrix3D {
    /// The operator is specified by the postcondition of `not`.
    open spec fn obeys_not_spec() -> bool {
        false
    }

    open spec fn not_req(self) -> bool {
        true
    }

    open spec fn not_spec(self) -> Result<Matrix3D, TransformError> {
        arbitrary()
    }
}

impl core::ops::Mul<Matrix2D> for Matrix2D {
    type Output = Result<Matrix2D, TransformError>;

    /// The matrix product `self * other`: rows of `self` times columns of `other`.
    fn mul(self, other: Matrix2D) -> (r: Result<Matrix2D, TransformError>)
        ensures
            match r {
                Ok(m) => m@ == mul3(self@, other@) && m.wf(),
                Err(e) => e == TransformError::Overflow && !mul3(self@, other@).within(LIMIT as int),
            },
    {
        Matrix2D::mul(&self, &other)
    }
}

impl vstd::std_specs::ops::MulSpecImpl<Matrix2D> for Matrix2D {
    /// The operator is specified by the postcondition of `mul`.
    open spec fn obeys_mul_spec() -> bool {
        false
    }

    open spec fn mul_req(self, other: Matrix2D) -> bool {
        true
    }

    open spec fn mul_spec(self, other: Matrix2D) -> Result<Matrix2D, TransformError> {
        arbitrary()
    }
}

impl core::ops::Mul<Scalar> for Matrix2D {
    type Output = Result<Matrix2D, TransformError>;

    /// Every entry multiplied by `other`.
    fn mul(self, other: Scalar) -> (r: Result<Matrix2D, TransformError>)
        ensures
            match r {
                Ok(m) => m@ == self@.scaled_by(other@).reduced() && m.wf(),
                Err(e) => e == TransformError::Overflow && !self@.scaled_by(other@).reduced().within(LIMIT as int),
            },
    {
        self.scale_entries(&other)
    }
}

impl vstd::std_specs::ops::MulSpecImpl<Scalar> for Matrix2D {
    /// The operator is specified by the postcondition of `mul`.
    open spec fn obeys_mul_spec() -> bool {
        false
    }

    open spec fn mul_req(self, other: Scalar) -> bool {
        true
    }

    open spec fn mul_spec(self, other: Scalar) -> Result<Matrix2D, TransformError> {
        arbitrary()
    }
}

impl core::ops::Add<Matrix2D> for Matrix2D {
    type Output = Result<Matrix2D, TransformError>;

    /// The entry-wise sum.
    fn add(self, other: Matrix2D) -> (r: Result<Matrix2D, TransformError>)
        ensures
            match r {
                Ok(m) => m@ == self@.sum(other@).reduced() && m.wf(),
                Err(e) => e == TransformError::Overflow && !self@.sum(other@).reduced().within(LIMIT as int),
            },
    {
        Matrix2D::add(&self, &other)
    }
}

impl vstd::std_specs::ops::AddSpecImpl<Matrix2D> for Matrix2D {
    /// The operator is specified by the postcondition of `add`.
    open spec fn obeys_add_spec() -> bool {
        false
    }

    open spec fn add_req(self, other: Matrix2D) -> bool {
        true
    }

    open spec fn add_spec(self, other: Matrix2D) -> Result<Matrix2D, TransformError> {
        arbitrary()
    }
}

impl core::ops::Sub<Matrix2D> for Matrix2D {
    type Output = Result<Matrix2D, TransformError>;

    /// The entry-wise difference.
    fn sub(self, other: Matrix2D) -> (r: Result<Matrix2D, TransformError>)
        ensures
            match r {
                Ok(m) => m@ == self@.difference(other@).reduced() && m.wf(),
                Err(e) => e == TransformError::Overflow && !self@.difference(other@).reduced().within(LIMIT as int),
            },
    {
        Matrix2D::sub(&self, &other)
    }
}

impl vstd::std_specs::ops::SubSpecImpl<Matrix2D> for Matrix2D {
    /// The operator is specified by the postcondition of `sub`.
    open spec fn obeys_sub_spec() -> bool {
        false
    }

    open spec fn sub_req(self, other: Matrix2D) -> bool {
        true
    }

    open spec fn sub_spec(self, other: Matrix2D) -> Result<Matrix2D, TransformError> {
        arbitrary()
    }
}

impl core::ops::Not for Matrix2D {
    type Output = Result<Matrix2D, TransformError>;

    /// The inverse.
    fn not(self) -> (r: Result<Matrix2D, TransformError>)
        ensures
            match r {
                Ok(m) => invertible3(self@) && m@ == inverse3(self@) && m.wf(),
                Err(e) => if invertible3(self@) {
                    e == TransformError::Overflow && !inverse3(self@).within(LIMIT as int)
                } else {
                    e == TransformError::Singular
                },
            },
    {
        self.invert()
    }
}

impl vstd::std_specs::ops::NotSpecImpl for Matrix2D {
    /// The operator is specified by the postcondition of `not`.
    open spec fn obeys_not_spec() -> bool {
        false
    }

    open spec fn not_req(self) -> bool {
        true
    }

    open spec fn not_spec(self) -> Result<Matrix2D, TransformError> {
        arbitrary()
    }
}

impl core::ops::Add<Vector3D> for Vector3D {
    type Output = Result<Vector3D, TransformError>;

    /// The component-wise sum.
    fn add(self, other: Vector3D) -> (r: Result<Vector3D, TransformError>)
        ensures
            match r {
                Ok(m) => m@ == self@.sum(other@).reduced() && m.wf(),
                Err(e) => e == TransformError::Overflow && !self@.sum(other@).reduced().within(LIMIT as int),
            },
    {
        Vector3D::add(&self, &other)
    }
}

impl vstd::std_specs::ops::AddSpecImpl<Vector3D> for Vector3D {
    /// The operator is specified by the postcondition of `add`.
    open spec fn obeys_add_spec() -> bool {
        false
    }

    open spec fn add_req(self, other: Vector3D) -> bool {
        true
    }

    open spec fn add_spec(self, other: Vector3D) -> Result<Vector3D, TransformError> {
        arbitrary()
    }
}

impl core::ops::Sub<Vector3D> for Vector3D {
    type Output = Result<Vector3D, TransformError>;

    /// The component-wise difference.
    fn sub(self, other: Vector3D) -> (r: Result<Vector3D, TransformError>)
        ensures
            match r {
                Ok(m) => m@ == self@.difference(other@).reduced() && m.wf(),
                Err(e) => e == TransformError::Overflow && !self@.difference(other@).reduced().within(LIMIT as int),
            },
    {
        Vector3D::sub(&self, &other)
    }
}

impl vstd::std_specs::ops::SubSpecImpl<Vector3D> for Vector3D {
    /// The operator is specified by the postcondition of `sub`.
    open spec fn obeys_sub_spec() -> bool {
        false
    }

    open spec fn sub_req(self, other: Vector3D) -> bool {
        true
    }

    open spec fn sub_spec(self, other: Vector3D) -> Result<Vector3D, TransformError> {
        arbitrary()
    }
}

impl core::ops::Mul<Scalar> for Vector3D {
    type Output = Result<Vector3D, TransformError>;

    /// Every component multiplied by `other`.
    fn mul(self, other: Scalar) -> (r: Result<Vector3D, TransformError>)
        ensures
            match r {
                Ok(m) => m@ == self@.scaled_by(other@).reduced() && m.wf(),
                Err(e) => e == TransformError::Overflow && !self@.scaled_by(other@).reduced().within(LIMIT as int),
            },
    {
        self.scale(&other)
    }
}

impl vstd::std_specs::ops::MulSpecImpl<Scalar> for Vector3D {
    /// The operator is specified by the postcondition of `mul`.
    open spec fn obeys_mul_spec() -> bool {
        false
    }

    open spec fn mul_req(self, other: Scalar) -> bool {
        true
    }

    open spec fn mul_spec(self, other: Scalar) -> Result<Vector3D, TransformError> {
        arbitrary()
    }
}

impl core::ops::Mul<Vector3D> for Vector3D {
    type Output = Result<Scalar, TransformError>;

    /// The dot product over all components.
    fn mul(self, other: Vector3D) -> (r: Result<Scalar, TransformError>)
        ensures
            match r {
                Ok(m) => m@ == raw_dot4(self@, other@).reduced() && m.wf(),
                Err(e) => e == TransformError::Overflow && !raw_dot4(self@, other@).reduced().within(LIMIT as int),
            },
    {
        self.dot(&other)
    }
}

impl vstd::std_specs::ops::MulSpecImpl<Vector3D> for Vector3D {
    /// The operator is specified by the postcondition of `mul`.
    open spec fn obeys_mul_spec() -> bool {
        false
    }

    open spec fn mul_req(self, other: Vector3D) -> bool {
        true
    }

    open spec fn mul_spec(self, other: Vector3D) -> Result<Scalar, TransformError> {
        arbitrary()
    }
}

impl core::ops::Add<Vector2D> for Vector2D {
    type Output = Result<Vector2D, TransformError>;

    /// The component-wise sum.
    fn add(self, other: Vector2D) -> (r: Result<Vector2D, TransformError>)
        ensures
            match r {
                Ok(m) => m@ == self@.sum(other@).reduced() && m.wf(),
                Err(e) => e == TransformError::Overflow && !self@.sum(other@).reduced().within(LIMIT as int),
            },
    {
        Vector2D::add(&self, &other)
    }
}

impl vstd::std_specs::ops::AddSpecImpl<Vector2D> for Vector2D {
    /// The operator is specified by the postcondition of `add`.
    open spec fn obeys_add_spec() -> bool {
        false
    }

    open spec fn add_req(self, other: Vector2D) -> bool {
        true
    }

    open spec fn add_spec(self, other: Vector2D) -> Result<Vector2D, TransformError> {
        arbitrary()
    }
}

impl core::ops::Sub<Vector2D> for Vector2D {
    type Output = Result<Vector2D, TransformError>;

    /// The component-wise difference.
    fn sub(self, other: Vector2D) -> (r: Result<Vector2D, TransformError>)
        ensures
            match r {
                Ok(m) => m@ == self@.difference(other@).reduced() && m.wf(),
                Err(e) => e == TransformError::Overflow && !self@.difference(other@).reduced().within(LIMIT as int),
            },
    {
        Vector2D::sub(&self, &other)
    }
}

impl vstd::std_specs::ops::SubSpecImpl<Vector2D> for Vector2D {
    /// The operator is specified by the postcondition of `sub`.
    open spec fn obeys_sub_spec() -> bool {
        false
    }

    open spec fn sub_req(self, other: Vector2D) -> bool {
        true
    }

    open spec fn sub_spec(self, other: Vector2D) -> Result<Vector2D, TransformError> {
        arbitrary()
    }
}

impl core::ops::Mul<Scalar> for Vector2D {
    type Output = Result<Vector2D, TransformError>;

    /// Every component multiplied by `other`.
    fn mul(self, other: Scalar) -> (r: Result<Vector2D, TransformError>)
        ensures
            match r {
                Ok(m) => m@ == self@.scaled_by(other@).reduced() && m.wf(),
                Err(e) => e == TransformError::Overflow && !self@.scaled_by(other@).reduced().within(LIMIT as int),
            },
    {
        self.scale(&other)
    }
}

impl vstd::std_specs::ops::MulSpecImpl<Scalar> for Vector2D {
    /// The operator is specified by the postcondition of `mul`.
    open spec fn obeys_mul_spec() -> bool {
        false
    }

    open spec fn mul_req(self, other: Scalar) -> bool {
        true
    }

    open spec fn mul_spec(self, other: Scalar) -> Result<Vector2D, TransformError> {
        arbitrary()
    }
}

impl core::ops::Mul<Vector2D> for Vector2D {
    type Output = Result<Scalar, TransformError>;

    /// The dot product over all components.
    fn mul(self, other: Vector2D) -> (r: Result<Scalar, TransformError>)
        ensures
            match r {
                Ok(m) => m@ == raw_dot3(self@, other@).reduced() && m.wf(),
                Err(e) => e == TransformError::Overflow && !raw_dot3(self@, other@).reduced().within(LIMIT as int),
            },
    {
        self.dot(&other)
    }
}

impl vstd::std_specs::ops::MulSpecImpl<Vector2D> for Vector2D {
    /// The operator is specified by the postcondition of `mul`.
    open spec fn obeys_mul_spec() -> bool {
        false
    }

    open spec fn mul_req(self, other: Vector2D) -> bool {
        true
    }

    open spec fn mul_spec(self, other: Vector2D) -> Result<Scalar, TransformError> {
        arbitrary()
    }
}

impl core::ops::Add<Scalar> for Scalar {
    type Output = Result<Scalar, TransformError>;

    /// The sum.
    fn add(self, other: Scalar) -> (r: Result<Scalar, TransformError>)
        ensures
            match r {
                Ok(m) => m@ == self@.sum(other@).reduced() && m.wf(),
                Err(e) => e == TransformError::Overflow && !self@.sum(other@).reduced().within(LIMIT as int),
            },
    {
        Scalar::add(&self, &other)
    }
}

impl vstd::std_specs::ops::AddSpecImpl<Scalar> for Scalar {
    /// The operator is specified by the postcondition of `add`.
    open spec fn obeys_add_spec() -> bool {
        false
    }

    open spec fn add_req(self, other: Scalar) -> bool {
        true
    }

    open spec fn add_spec(self, other: Scalar) -> Result<Scalar, TransformError> {
        arbitrary()
    }
}

impl core::ops::Sub<Scalar> for Scalar {
    type Output = Result<Scalar, TransformError>;

    /// The difference.
    fn sub(self, other: Scalar) -> (r: Result<Scalar, TransformError>)
        ensures
            match r {
                Ok(m) => m@ == self@.difference(other@).reduced() && m.wf(),
                Err(e) => e == TransformError::Overflow && !self@.difference(other@).reduced().within(LIMIT as int),
            },
    {
        Scalar::sub(&self, &other)
    }
}

impl vstd::std_specs::ops::SubSpecImpl<Scalar> for Scalar {
    /// The operator is specified by the postcondition of `sub`.
    open spec fn obeys_sub_spec() -> bool {
        false
    }

    open spec fn sub_req(self, other: Scalar) -> bool {
        true
    }

    open spec fn sub_spec(self, other: Scalar) -> Result<Scalar, TransformError> {
        arbitrary()
    }
}

impl core::ops::Mul<Scalar> for Scalar {
    type Output = Result<Scalar, TransformError>;

    /// The product.
    fn mul(self, other: Scalar) -> (r: Result<Scalar, TransformError>)
        ensures
            match r {
                Ok(m) => m@ == self@.scaled_by(other@).reduced() && m.wf(),
                Err(e) => e == TransformError::Overflow && !self@.scaled_by(other@).reduced().within(LIMIT as int),
            },
    {
        Scalar::mul(&self, &other)
    }
}

impl vstd::std_specs::ops::MulSpecImpl<Scalar> for Scalar {
    /// The operator is specified by the postcondition of `mul`.
    open spec fn obeys_mul_spec() -> bool {
        false
    }

    open spec fn mul_req(self, other: Scalar) -> bool {
        true
    }

    open spec fn mul_spec(self, other: Scalar) -> Result<Scalar, TransformError> {
        arbitrary()
    }
}

} // verus!
