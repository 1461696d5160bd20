use std::ops::{BitAnd, BitOr, Not};

use rusty_scad::anchor::AnchorConstraint;
use rusty_scad::error::TransformError;
use rusty_scad::matrix2d::Matrix2D;
use rusty_scad::matrix3d::Matrix3D;
use rusty_scad::rotation::Rotation;
use rusty_scad::scalar::Scalar;
use rusty_scad::vector::vector3D;
use rusty_scad::vector2d::vector2D;

fn s(num: i64, den: i64) -> Scalar {
    Scalar::new(num, den).unwrap()
}

fn frame() -> Matrix3D {
    let mut m = Matrix3D::identity();
    m.translate(&s(3, 2), &s(-1, 3), &s(5, 1)).unwrap();
    m.rotate_x(&Rotation::from_half_tangent(&s(1, 2)).unwrap()).unwrap();
    m.scale(&s(2, 1), &s(1, 2), &s(3, 1)).unwrap();
    m
}

#[test]
fn identity_law_with_operators() {
    let m = frame();
    assert_eq!(Matrix3D::identity() * m, Ok(m));
    assert_eq!(m * Matrix3D::identity(), Ok(m));
}

#[test]
fn inverse_law_with_operators() {
    let m = frame();
    let inverse = (!m).unwrap();
    assert_eq!(inverse * m, Ok(Matrix3D::identity()));
    assert_eq!(m * inverse, Ok(Matrix3D::identity()));
    assert_eq!(m.not(), Ok(inverse));
    assert_eq!(!Matrix3D::default(), Err(TransformError::Singular));
}

#[test]
fn snap_formula_with_operators() {
    let child_anchor = frame();
    let mut parent_anchor = Matrix3D::identity();
    parent_anchor.translate_y(&s(7, 1)).unwrap();
    let mut parent_frame = Matrix3D::identity();
    parent_frame.rotate_z(&Rotation::quarter_turns(1)).unwrap();
    let child_frame = (((!child_anchor).unwrap() * parent_anchor).unwrap() * parent_frame).unwrap();
    assert_eq!(child_anchor * child_frame, parent_anchor * parent_frame);
}

#[test]
fn matrix_operators_agree_with_the_methods() {
    let a = frame();
    let b = Matrix3D::rotation_y(&Rotation::from_half_tangent(&s(1, 3)).unwrap());
    assert_eq!(a * b, a.mul(&b));
    assert_ne!(a * b, b * a);
    assert_eq!(a + b, a.add(&b));
    assert_eq!(a - b, a.sub(&b));
    assert_eq!(a * s(2, 3), a.scale_entries(&s(2, 3)));
    let p = Matrix2D::from_rows([[1, 2, 3], [0, 1, 4], [0, 0, 1]], 2).unwrap();
    let q = Matrix2D::rotation(&Rotation::quarter_turns(1));
    assert_eq!(p * q, p.mul(&q));
    assert_eq!(p + q, p.add(&q));
    assert_eq!(p - q, p.sub(&q));
    assert_eq!(p * s(1, 2), p.scale_entries(&s(1, 2)));
    assert_eq!(!p, p.invert());
    assert_eq!((!p).unwrap() * p, Ok(Matrix2D::identity()));
}

#[test]
fn vector_and_scalar_operators() {
    let a = vector3D(&s(1, 1), &s(2, 1), &s(2, 1)).unwrap();
    let b = vector3D(&s(3, 1), &s(0, 1), &s(-1, 2)).unwrap();
    assert_eq!(a * b, Ok(s(2, 1)));
    assert_eq!(a + b, vector3D(&s(4, 1), &s(2, 1), &s(3, 2)));
    assert_eq!(a - b, vector3D(&s(-2, 1), &s(2, 1), &s(5, 2)));
    assert_eq!(a * s(1, 2), vector3D(&s(1, 2), &s(1, 1), &s(1, 1)));
    let u = vector2D(&s(3, 1), &s(4, 1)).unwrap();
    let v = vector2D(&s(1, 2), &s(1, 4)).unwrap();
    assert_eq!(u * v, Ok(s(5, 2)));
    assert_eq!(u + v, vector2D(&s(7, 2), &s(17, 4)));
    assert_eq!(u - v, vector2D(&s(5, 2), &s(15, 4)));
    assert_eq!(u * s(2, 1), vector2D(&s(6, 1), &s(8, 1)));
    assert_eq!(s(1, 2) + s(1, 3), Ok(s(5, 6)));
    assert_eq!(s(1, 2) - s(1, 3), Ok(s(1, 6)));
    assert_eq!(s(1, 2) * s(2, 3), Ok(s(1, 3)));
    assert_eq!(s(1 << 20, 1) * s(1 << 20, 1), Err(TransformError::Overflow));
}

#[test]
fn constraint_operators() {
    let a = AnchorConstraint { x: true, y: false, z: true, relative: true };
    let b = AnchorConstraint { x: true, y: true, z: false, relative: false };
    assert_eq!(a & b, AnchorConstraint { x: true, y: false, z: false, relative: false });
    assert_eq!(a | b, AnchorConstraint { x: true, y: true, z: true, relative: true });
    assert_eq!(a.bitand(b), a & b);
    assert_eq!(a.bitor(b), a | b);
}
