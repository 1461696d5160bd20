use rusty_scad::error::TransformError;
use rusty_scad::rotation::Rotation;
use rusty_scad::scalar::Scalar;
use rusty_scad::vector::{point3D, vector3D, Vector3D};

fn s(num: i64, den: i64) -> Scalar {
    Scalar::new(num, den).unwrap()
}

#[test]
fn scalars_are_kept_in_lowest_terms() {
    let a = s(6, 8);
    assert_eq!((a.numerator(), a.denominator()), (3, 4));
    let b = s(-10, 5);
    assert_eq!((b.numerator(), b.denominator()), (-2, 1));
    let c = s(0, 7);
    assert_eq!((c.numerator(), c.denominator()), (0, 1));
    assert_eq!(s(1, 2), s(2, 4));
}

#[test]
fn scalar_with_a_bad_denominator_is_refused() {
    assert_eq!(Scalar::new(1, 0), Err(TransformError::BadDenominator));
    assert_eq!(Scalar::new(1, -2), Err(TransformError::BadDenominator));
}

#[test]
fn scalar_beyond_the_limit_is_refused() {
    assert_eq!(Scalar::new((1 << 30) + 1, 1), Err(TransformError::Overflow));
    assert_eq!(Scalar::new(1, (1 << 30) + 1), Err(TransformError::Overflow));
    assert_eq!(Scalar::new(i64::MIN, 1), Err(TransformError::Overflow));
    // reducible to something within the limit
    assert_eq!(Scalar::new(1 << 31, 1 << 31), Ok(Scalar::one()));
    assert_eq!(Scalar::new(i64::MIN, i64::MAX), Err(TransformError::Overflow));
}

#[test]
fn zero_and_one() {
    assert_eq!(Scalar::zero(), s(0, 1));
    assert_eq!(Scalar::one(), s(1, 1));
}

#[test]
fn scalar_arithmetic_is_exact() {
    assert_eq!(s(1, 2).add(&s(1, 3)), Ok(s(5, 6)));
    assert_eq!(s(1, 2).sub(&s(1, 3)), Ok(s(1, 6)));
    assert_eq!(s(1, 3).sub(&s(1, 2)), Ok(s(-1, 6)));
    assert_eq!(s(2, 3).mul(&s(3, 4)), Ok(s(1, 2)));
    assert_eq!(s(1, 2).add(&s(1, 2)), Ok(s(1, 1)));
    assert_eq!(s(1 << 30, 1).add(&s(1, 1)), Err(TransformError::Overflow));
    assert_eq!(s(1 << 20, 1).mul(&s(1 << 20, 1)), Err(TransformError::Overflow));
    assert_eq!(s(1, 1 << 20).sub(&s(1, (1 << 20) + 1)), Err(TransformError::Overflow));
}

#[test]
fn points_have_weight_one_and_directions_weight_zero() {
    let p = point3D(&s(1, 2), &s(2, 3), &s(-3, 4)).unwrap();
    assert_eq!((p.get(0), p.get(1), p.get(2), p.get(3)), (s(1, 2), s(2, 3), s(-3, 4), s(1, 1)));
    let v = vector3D(&s(1, 2), &s(2, 3), &s(-3, 4)).unwrap();
    assert_eq!((v.get(0), v.get(1), v.get(2), v.get(3)), (s(1, 2), s(2, 3), s(-3, 4), s(0, 1)));
    assert_eq!(Vector3D::new(&s(1, 2), &s(2, 3), &s(-3, 4), true), Ok(p));
    assert_eq!(Vector3D::new(&s(1, 2), &s(2, 3), &s(-3, 4), false), Ok(v));
}

#[test]
fn vector_with_too_large_a_common_denominator_is_refused() {
    let a = s(1, (1 << 20) + 1);
    let b = s(1, (1 << 20) + 3);
    assert_eq!(point3D(&a, &b, &s(1, 1)), Err(TransformError::Overflow));
}

#[test]
fn vector_arithmetic_is_component_wise() {
    let a = point3D(&s(1, 1), &s(2, 1), &s(3, 1)).unwrap();
    let b = vector3D(&s(1, 2), &s(1, 3), &s(1, 4)).unwrap();
    let sum = a.add(&b).unwrap();
    assert_eq!((sum.get(0), sum.get(1), sum.get(2), sum.get(3)), (s(3, 2), s(7, 3), s(13, 4), s(1, 1)));
    let diff = a.sub(&b).unwrap();
    assert_eq!((diff.get(0), diff.get(1), diff.get(2), diff.get(3)), (s(1, 2), s(5, 3), s(11, 4), s(1, 1)));
    let twice = b.scale(&s(2, 1)).unwrap();
    assert_eq!((twice.get(0), twice.get(1), twice.get(2), twice.get(3)), (s(1, 1), s(2, 3), s(1, 2), s(0, 1)));
}

#[test]
fn dot_product_and_lengths() {
    let a = vector3D(&s(1, 1), &s(2, 1), &s(2, 1)).unwrap();
    let b = vector3D(&s(3, 1), &s(0, 1), &s(-1, 2)).unwrap();
    assert_eq!(a.dot(&b), Ok(s(2, 1)));
    assert_eq!(a.squared_length(), Ok(s(9, 1)));
    assert_eq!(a.l2_norm(), Ok(s(3, 1)));
    let p = point3D(&s(1, 1), &s(2, 1), &s(2, 1)).unwrap();
    // the weight counts: 1 + 4 + 4 + 1
    assert_eq!(p.squared_length(), Ok(s(10, 1)));
    assert_eq!(p.l2_norm(), Err(TransformError::Irrational));
    let h = vector3D(&s(3, 10), &s(4, 10), &s(0, 1)).unwrap();
    assert_eq!(h.l2_norm(), Ok(s(1, 2)));
    assert_eq!(h.squared_length(), Ok(s(1, 4)));
}

#[test]
fn length_beyond_the_limit_is_refused() {
    let big = s(1 << 30, 1);
    let v = Vector3D::new(&big, &big, &big, false).unwrap();
    // the sum of squares is 3 * 2^60, no square
    assert_eq!(v.l2_norm(), Err(TransformError::Irrational));
    let w = Vector3D::new(&big, &s(0, 1), &s(0, 1), false).unwrap();
    assert_eq!(w.l2_norm(), Ok(big));
    assert_eq!(w.squared_length(), Err(TransformError::Overflow));
}

#[test]
fn quarter_turns_have_the_expected_cosine_and_sine() {
    let table = [(0, (1, 0)), (1, (0, 1)), (2, (-1, 0)), (3, (0, -1)), (4, (1, 0)), (7, (0, -1))];
    for (k, (c, sn)) in table {
        let r = Rotation::quarter_turns(k);
        assert_eq!((r.cos(), r.sin()), (s(c, 1), s(sn, 1)));
    }
}

#[test]
fn half_tangent_gives_a_point_of_the_unit_circle() {
    let r = Rotation::from_half_tangent(&s(1, 2)).unwrap();
    assert_eq!((r.cos(), r.sin()), (s(3, 5), s(4, 5)));
    let back = Rotation::from_half_tangent(&s(-1, 2)).unwrap();
    assert_eq!((back.cos(), back.sin()), (s(3, 5), s(-4, 5)));
    assert_eq!(r.opposite(), back);
    let none = Rotation::from_half_tangent(&s(0, 1)).unwrap();
    assert_eq!(none, Rotation::quarter_turns(0));
    let quarter = Rotation::from_half_tangent(&s(1, 1)).unwrap();
    assert_eq!(quarter, Rotation::quarter_turns(1));
    let beyond = Rotation::from_half_tangent(&s(2, 1)).unwrap();
    assert_eq!((beyond.cos(), beyond.sin()), (s(-3, 5), s(4, 5)));
    let c = r.cos();
    let sn = r.sin();
    assert_eq!(c.mul(&c).unwrap().add(&sn.mul(&sn).unwrap()), Ok(s(1, 1)));
}

#[test]
fn half_tangent_beyond_the_limit_is_refused() {
    assert_eq!(Rotation::from_half_tangent(&s(1, 1 << 16)), Err(TransformError::Overflow));
    assert!(Rotation::from_half_tangent(&s(1, 1 << 14)).is_ok());
}
