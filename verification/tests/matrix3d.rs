use rusty_scad::error::TransformError;
use rusty_scad::matrix3d::Matrix3D;
use rusty_scad::rotation::Rotation;
use rusty_scad::scalar::Scalar;

fn s(num: i64, den: i64) -> Scalar {
    Scalar::new(num, den).unwrap()
}

fn sample() -> Matrix3D {
    Matrix3D::from_rows([[2, 0, 1, 3], [0, 3, 0, -5], [1, 0, 1, 7], [0, 0, 0, 2]], 2).unwrap()
}

#[test]
fn identity_has_ones_on_the_diagonal() {
    let i = Matrix3D::identity();
    for r in 0..4 {
        for c in 0..4 {
            let expected = if r == c { s(1, 1) } else { s(0, 1) };
            assert_eq!(i.entry(r, c), expected);
        }
    }
}

#[test]
fn identity_is_neutral_on_both_sides() {
    let m = sample();
    let i = Matrix3D::identity();
    assert_eq!(i.mul(&m), Ok(m));
    assert_eq!(m.mul(&i), Ok(m));
}

#[test]
fn from_rows_reduces_to_lowest_terms() {
    let a = Matrix3D::from_rows([[2, 0, 0, 0], [0, 2, 0, 0], [0, 0, 2, 0], [0, 0, 0, 2]], 2).unwrap();
    assert_eq!(a, Matrix3D::identity());
    let b = Matrix3D::from_rows([[1, 0, 0, 0], [0, 1, 0, 0], [0, 0, 1, 0], [0, 0, 0, 1]], 2).unwrap();
    assert_eq!(b.entry(0, 0), s(1, 2));
    assert_eq!(b.entry(0, 1), s(0, 1));
}

#[test]
fn from_rows_refuses_a_bad_denominator() {
    let rows = [[1, 0, 0, 0], [0, 1, 0, 0], [0, 0, 1, 0], [0, 0, 0, 1]];
    assert_eq!(Matrix3D::from_rows(rows, 0), Err(TransformError::BadDenominator));
    assert_eq!(Matrix3D::from_rows(rows, -3), Err(TransformError::BadDenominator));
}

#[test]
fn from_rows_refuses_what_is_beyond_the_limit() {
    let big = 1_073_741_825; // one more than 2^30
    let rows = [[big, 0, 0, 0], [0, 1, 0, 0], [0, 0, 1, 0], [0, 0, 0, 1]];
    assert_eq!(Matrix3D::from_rows(rows, 1), Err(TransformError::Overflow));
    let at_limit = [[1_073_741_824, 0, 0, 0], [0, 1, 0, 0], [0, 0, 1, 0], [0, 0, 0, 1]];
    assert!(Matrix3D::from_rows(at_limit, 1).is_ok());
}

#[test]
fn product_is_rows_times_columns() {
    let a = Matrix3D::from_rows([[1, 2, 0, 0], [0, 1, 0, 0], [0, 0, 1, 0], [0, 0, 0, 1]], 1).unwrap();
    let b = Matrix3D::from_rows([[1, 0, 0, 0], [3, 1, 0, 0], [0, 0, 1, 0], [0, 0, 0, 1]], 1).unwrap();
    let ab = Matrix3D::from_rows([[7, 2, 0, 0], [3, 1, 0, 0], [0, 0, 1, 0], [0, 0, 0, 1]], 1).unwrap();
    let ba = Matrix3D::from_rows([[1, 2, 0, 0], [3, 7, 0, 0], [0, 0, 1, 0], [0, 0, 0, 1]], 1).unwrap();
    assert_eq!(a.mul(&b), Ok(ab));
    assert_eq!(b.mul(&a), Ok(ba));
    assert_eq!(a.pre_mul(&b), Ok(ba));
    assert_eq!(b.pre_mul(&a), Ok(ab));
}

#[test]
fn product_of_fractions_is_exact() {
    let half = Matrix3D::from_rows([[1, 0, 0, 1], [0, 1, 0, 0], [0, 0, 1, 0], [0, 0, 0, 2]], 2).unwrap();
    let third = Matrix3D::from_rows([[1, 0, 0, 0], [0, 1, 0, 2], [0, 0, 1, 0], [0, 0, 0, 3]], 3).unwrap();
    let p = half.mul(&third).unwrap();
    assert_eq!(p.entry(0, 0), s(1, 6));
    assert_eq!(p.entry(0, 3), s(1, 2));
    assert_eq!(p.entry(1, 3), s(1, 3));
    assert_eq!(p.entry(3, 3), s(1, 1));
}

#[test]
fn product_is_associative() {
    let a = sample();
    let b = Matrix3D::from_rows([[1, 2, 3, 4], [0, 1, 5, 6], [7, 0, 1, 8], [0, 0, 0, 1]], 3).unwrap();
    let c = Matrix3D::from_rows([[0, -1, 0, 2], [1, 0, 0, 3], [0, 0, 1, 4], [0, 0, 0, 1]], 5).unwrap();
    let left = a.mul(&b).unwrap().mul(&c).unwrap();
    let right = a.mul(&b.mul(&c).unwrap()).unwrap();
    assert_eq!(left, right);
}

#[test]
fn product_overflows_beyond_the_limit() {
    let big = Matrix3D::from_rows([[1 << 20, 0, 0, 0], [0, 1, 0, 0], [0, 0, 1, 0], [0, 0, 0, 1]], 1).unwrap();
    assert_eq!(big.mul(&big), Err(TransformError::Overflow));
    let small = Matrix3D::from_rows([[1 << 15, 0, 0, 0], [0, 1, 0, 0], [0, 0, 1, 0], [0, 0, 0, 1]], 1).unwrap();
    assert_eq!(small.mul(&small).unwrap().entry(0, 0), s(1 << 30, 1));
}

#[test]
fn sum_difference_and_multiple_are_entry_wise() {
    let a = Matrix3D::from_rows([[1, 2, 3, 4], [5, 6, 7, 8], [9, 10, 11, 12], [13, 14, 15, 16]], 2).unwrap();
    let b = Matrix3D::from_rows([[1, 0, 0, 0], [0, 1, 0, 0], [0, 0, 1, 0], [0, 0, 0, 1]], 3).unwrap();
    let sum = a.add(&b).unwrap();
    assert_eq!(sum.entry(0, 0), s(5, 6));
    assert_eq!(sum.entry(0, 1), s(1, 1));
    assert_eq!(sum.entry(3, 3), s(25, 3));
    let diff = a.sub(&b).unwrap();
    assert_eq!(diff.entry(0, 0), s(1, 6));
    assert_eq!(diff.entry(1, 0), s(5, 2));
    assert_eq!(diff.entry(3, 3), s(23, 3));
    let scaled = a.scale_entries(&s(2, 3)).unwrap();
    assert_eq!(scaled.entry(0, 0), s(1, 3));
    assert_eq!(scaled.entry(0, 2), s(1, 1));
    assert_eq!(scaled.entry(3, 3), s(16, 3));
}

#[test]
fn inverse_times_matrix_is_identity() {
    let m = sample();
    let inv = m.invert().unwrap();
    assert_eq!(inv.mul(&m), Ok(Matrix3D::identity()));
    assert_eq!(m.mul(&inv), Ok(Matrix3D::identity()));
}

#[test]
fn inverse_has_the_expected_entries() {
    // scale by 2 along x, then shift by 3 along x
    let m = Matrix3D::from_rows([[2, 0, 0, 3], [0, 1, 0, 0], [0, 0, 1, 0], [0, 0, 0, 1]], 1).unwrap();
    let inv = m.invert().unwrap();
    assert_eq!(inv.entry(0, 0), s(1, 2));
    assert_eq!(inv.entry(0, 3), s(-3, 2));
    assert_eq!(inv.entry(1, 1), s(1, 1));
    assert_eq!(inv.entry(3, 3), s(1, 1));
}

#[test]
fn inverse_of_a_matrix_with_negative_determinant() {
    let m = Matrix3D::from_rows([[0, 1, 0, 0], [1, 0, 0, 0], [0, 0, 1, 0], [0, 0, 0, 1]], 1).unwrap();
    let inv = m.invert().unwrap();
    assert_eq!(inv, m);
    let n = Matrix3D::from_rows([[-2, 0, 0, 0], [0, 1, 0, 0], [0, 0, 1, 0], [0, 0, 0, 1]], 1).unwrap();
    assert_eq!(n.invert().unwrap().entry(0, 0), s(-1, 2));
}

#[test]
fn inverse_of_a_singular_matrix_is_refused() {
    let flat = Matrix3D::from_rows([[1, 0, 0, 0], [0, 0, 0, 0], [0, 0, 1, 0], [0, 0, 0, 1]], 1).unwrap();
    assert_eq!(flat.invert(), Err(TransformError::Singular));
    let twice = Matrix3D::from_rows([[1, 2, 3, 4], [2, 4, 6, 8], [0, 0, 1, 0], [0, 0, 0, 1]], 1).unwrap();
    assert_eq!(twice.invert(), Err(TransformError::Singular));
}

#[test]
fn inverse_beyond_the_limit_is_refused() {
    let m = Matrix3D::from_rows(
        [[1 << 30, 1, 0, 0], [1, (1 << 30) - 1, 0, 0], [0, 0, 1, 0], [0, 0, 0, 1]],
        1,
    )
    .unwrap();
    assert_eq!(m.invert(), Err(TransformError::Overflow));
}

#[test]
fn rotation_then_translation_does_not_commute() {
    let mut a = Matrix3D::identity();
    a.rotate_z(&Rotation::quarter_turns(1)).unwrap();
    let mut b = Matrix3D::identity();
    b.translate(&s(1, 1), &s(2, 1), &s(3, 1)).unwrap();
    let ab = a.mul(&b).unwrap();
    let ba = b.mul(&a).unwrap();
    assert_ne!(ab, ba);
    // a * b turns the offset, b * a keeps it
    assert_eq!(ab.get_translate(), (s(-2, 1), s(1, 1), s(3, 1)));
    assert_eq!(ba.get_translate(), (s(1, 1), s(2, 1), s(3, 1)));
}

#[test]
fn absolute_and_relative_rotations_differ() {
    let x = Rotation::from_half_tangent(&s(1, 2)).unwrap();
    let y = Rotation::from_half_tangent(&s(1, 3)).unwrap();
    let mut absolute = Matrix3D::identity();
    absolute.rotate_x(&x).unwrap();
    absolute.rotate_y(&y).unwrap();
    let mut relative = Matrix3D::identity();
    relative.rel_rotate_x(&x).unwrap();
    relative.rel_rotate_y(&y).unwrap();
    assert_ne!(absolute, relative);
    let rx = Matrix3D::rotation_x(&x);
    let ry = Matrix3D::rotation_y(&y);
    assert_eq!(absolute, rx.mul(&ry).unwrap());
    assert_eq!(relative, ry.mul(&rx).unwrap());
}

#[test]
fn absolute_step_multiplies_on_the_right() {
    let mut m = sample();
    let e = Matrix3D::translation(&s(1, 2), &s(0, 1), &s(-1, 1)).unwrap();
    let expected = sample().mul(&e).unwrap();
    assert_eq!(m.translate(&s(1, 2), &s(0, 1), &s(-1, 1)), Ok(()));
    assert_eq!(m, expected);
}

#[test]
fn relative_step_multiplies_on_the_left() {
    let mut m = sample();
    let e = Matrix3D::scaling(&s(2, 1), &s(3, 1), &s(1, 2)).unwrap();
    let expected = e.mul(&sample()).unwrap();
    assert_eq!(m.rel_scale(&s(2, 1), &s(3, 1), &s(1, 2)), Ok(()));
    assert_eq!(m, expected);
}

#[test]
fn single_axis_steps_are_the_compound_step_with_neutral_others() {
    let zero = s(0, 1);
    let one = s(1, 1);
    let v = s(5, 3);
    let mut a = sample();
    let mut b = sample();
    a.translate_x(&v).unwrap();
    b.translate(&v, &zero, &zero).unwrap();
    assert_eq!(a, b);
    a.translate_y(&v).unwrap();
    b.translate(&zero, &v, &zero).unwrap();
    assert_eq!(a, b);
    a.translate_z(&v).unwrap();
    b.translate(&zero, &zero, &v).unwrap();
    assert_eq!(a, b);
    a.rel_translate_x(&v).unwrap();
    b.rel_translate(&v, &zero, &zero).unwrap();
    assert_eq!(a, b);
    a.rel_translate_y(&v).unwrap();
    b.rel_translate(&zero, &v, &zero).unwrap();
    assert_eq!(a, b);
    a.rel_translate_z(&v).unwrap();
    b.rel_translate(&zero, &zero, &v).unwrap();
    assert_eq!(a, b);
    let mut c = Matrix3D::identity();
    let mut d = Matrix3D::identity();
    c.scale_x(&v).unwrap();
    d.scale(&v, &one, &one).unwrap();
    assert_eq!(c, d);
    c.scale_y(&v).unwrap();
    d.scale(&one, &v, &one).unwrap();
    assert_eq!(c, d);
    c.scale_z(&v).unwrap();
    d.scale(&one, &one, &v).unwrap();
    assert_eq!(c, d);
    c.rel_scale_x(&v).unwrap();
    d.rel_scale(&v, &one, &one).unwrap();
    assert_eq!(c, d);
    c.rel_scale_y(&v).unwrap();
    d.rel_scale(&one, &v, &one).unwrap();
    assert_eq!(c, d);
    c.rel_scale_z(&v).unwrap();
    d.rel_scale(&one, &one, &v).unwrap();
    assert_eq!(c, d);
}

#[test]
fn compound_rotation_is_x_then_y_then_z() {
    let x = Rotation::from_half_tangent(&s(1, 2)).unwrap();
    let y = Rotation::from_half_tangent(&s(1, 3)).unwrap();
    let z = Rotation::from_half_tangent(&s(1, 4)).unwrap();
    let mut all = Matrix3D::identity();
    assert_eq!(all.rotate(&x, &y, &z), Ok(()));
    let mut xyz = Matrix3D::identity();
    xyz.rotate_x(&x).unwrap();
    xyz.rotate_y(&y).unwrap();
    xyz.rotate_z(&z).unwrap();
    assert_eq!(all, xyz);
    let mut zyx = Matrix3D::identity();
    zyx.rotate_z(&z).unwrap();
    zyx.rotate_y(&y).unwrap();
    zyx.rotate_x(&x).unwrap();
    assert_ne!(all, zyx);
    let mut yxz = Matrix3D::identity();
    yxz.rotate_y(&y).unwrap();
    yxz.rotate_x(&x).unwrap();
    yxz.rotate_z(&z).unwrap();
    assert_ne!(all, yxz);
    let mut rel = Matrix3D::identity();
    assert_eq!(rel.rel_rotate(&x, &y, &z), Ok(()));
    assert_eq!(rel, zyx);
}

#[test]
fn rotation_matrices_have_the_expected_entries() {
    // cosine 3/5, sine 4/5
    let r = Rotation::from_half_tangent(&s(1, 2)).unwrap();
    let c = s(3, 5);
    let sn = s(4, 5);
    let minus = s(-4, 5);
    let x = Matrix3D::rotation_x(&r);
    assert_eq!(x.entry(0, 0), s(1, 1));
    assert_eq!(x.entry(1, 1), c);
    assert_eq!(x.entry(1, 2), minus);
    assert_eq!(x.entry(2, 1), sn);
    assert_eq!(x.entry(2, 2), c);
    let y = Matrix3D::rotation_y(&r);
    assert_eq!(y.entry(1, 1), s(1, 1));
    assert_eq!(y.entry(0, 0), c);
    assert_eq!(y.entry(0, 2), sn);
    assert_eq!(y.entry(2, 0), minus);
    assert_eq!(y.entry(2, 2), c);
    let z = Matrix3D::rotation_z(&r);
    assert_eq!(z.entry(2, 2), s(1, 1));
    assert_eq!(z.entry(0, 0), c);
    assert_eq!(z.entry(0, 1), minus);
    assert_eq!(z.entry(1, 0), sn);
    assert_eq!(z.entry(1, 1), c);
}

#[test]
fn a_failed_step_leaves_the_frame_as_it_was() {
    let mut m = Matrix3D::from_rows([[1 << 20, 0, 0, 0], [0, 1, 0, 0], [0, 0, 1, 0], [0, 0, 0, 1]], 1).unwrap();
    let before = m;
    assert_eq!(m.scale_x(&s(1 << 20, 1)), Err(TransformError::Overflow));
    assert_eq!(m, before);
    assert_eq!(m.rel_translate_x(&s(1, (1 << 30) - 1)), Err(TransformError::Overflow));
    assert_eq!(m, before);
    let fine = Rotation::from_half_tangent(&s(1, 2)).unwrap();
    let wide = Rotation::from_half_tangent(&s(1000, 1001)).unwrap();
    let mut n = Matrix3D::identity();
    n.translate_x(&s(1, 1 << 20)).unwrap();
    let kept = n;
    assert_eq!(n.rotate(&fine, &fine, &wide), Err(TransformError::Overflow));
    assert_eq!(n, kept);
}

#[test]
fn rows_and_columns_are_read_off_the_matrix() {
    let m = sample();
    let row = m.row(1);
    assert_eq!((row.get(0), row.get(1), row.get(2), row.get(3)), (s(0, 1), s(3, 2), s(0, 1), s(-5, 2)));
    let column = m.column(3);
    assert_eq!(
        (column.get(0), column.get(1), column.get(2), column.get(3)),
        (s(3, 2), s(-5, 2), s(7, 2), s(1, 1))
    );
}
