use rusty_scad::matrix2d::Matrix2D;
use rusty_scad::matrix3d::Matrix3D;
use rusty_scad::rotation::Rotation;
use rusty_scad::scalar::Scalar;

fn s(num: i64, den: i64) -> Scalar {
    Scalar::new(num, den).unwrap()
}

fn as_float(x: Scalar) -> f64 {
    x.numerator() as f64 / x.denominator() as f64
}

fn floats4(m: &Matrix3D) -> vecmath::Matrix4<f64> {
    let mut out = [[0.0; 4]; 4];
    for i in 0..4 {
        for j in 0..4 {
            out[i][j] = as_float(m.entry(i, j));
        }
    }
    out
}

fn floats3(m: &Matrix2D) -> vecmath::Matrix3<f64> {
    let mut out = [[0.0; 3]; 3];
    for i in 0..3 {
        for j in 0..3 {
            out[i][j] = as_float(m.entry(i, j));
        }
    }
    out
}

fn close4(a: vecmath::Matrix4<f64>, b: vecmath::Matrix4<f64>) -> bool {
    (0..4).all(|i| (0..4).all(|j| (a[i][j] - b[i][j]).abs() < 1e-9))
}

fn close3(a: vecmath::Matrix3<f64>, b: vecmath::Matrix3<f64>) -> bool {
    (0..3).all(|i| (0..3).all(|j| (a[i][j] - b[i][j]).abs() < 1e-9))
}

fn frame() -> Matrix3D {
    let mut m = Matrix3D::identity();
    m.translate(&s(3, 2), &s(-1, 3), &s(5, 1)).unwrap();
    m.rotate_x(&Rotation::from_half_tangent(&s(1, 2)).unwrap()).unwrap();
    m.rotate_z(&Rotation::from_half_tangent(&s(-1, 3)).unwrap()).unwrap();
    m.scale(&s(2, 1), &s(1, 2), &s(3, 1)).unwrap();
    m
}

#[test]
fn product_agrees_with_the_floating_point_product() {
    let a = frame();
    let mut b = Matrix3D::identity();
    b.rotate_y(&Rotation::from_half_tangent(&s(2, 3)).unwrap()).unwrap();
    b.translate_x(&s(7, 4)).unwrap();
    let exact = a.mul(&b).unwrap();
    assert!(close4(floats4(&exact), vecmath::row_mat4_mul(floats4(&a), floats4(&b))));
    let other = a.pre_mul(&b).unwrap();
    assert!(close4(floats4(&other), vecmath::row_mat4_mul(floats4(&b), floats4(&a))));
}

#[test]
fn inverse_agrees_with_the_floating_point_inverse() {
    let a = frame();
    let exact = a.invert().unwrap();
    assert!(close4(floats4(&exact), vecmath::mat4_inv(floats4(&a))));
    let id = vecmath::row_mat4_mul(floats4(&exact), floats4(&a));
    assert!(close4(id, vecmath::mat4_id()));
}

#[test]
fn sum_and_difference_agree_with_the_floating_point_ones() {
    let a = frame();
    let b = Matrix3D::rotation_y(&Rotation::from_half_tangent(&s(2, 3)).unwrap());
    assert!(close4(floats4(&a.add(&b).unwrap()), vecmath::mat4_add(floats4(&a), floats4(&b))));
    assert!(close4(floats4(&a.sub(&b).unwrap()), vecmath::mat4_sub(floats4(&a), floats4(&b))));
}

#[test]
fn rotations_agree_with_sine_and_cosine() {
    let r = Rotation::from_half_tangent(&s(1, 3)).unwrap();
    let angle = 2.0 * (1.0f64 / 3.0).atan();
    assert!((as_float(r.cos()) - angle.cos()).abs() < 1e-12);
    assert!((as_float(r.sin()) - angle.sin()).abs() < 1e-12);
    let mut m = Matrix3D::identity();
    m.rotate_x(&r).unwrap();
    let f = floats4(&m);
    assert!((f[1][1] - angle.cos()).abs() < 1e-12);
    assert!((f[1][2] + angle.sin()).abs() < 1e-12);
    assert!((f[2][1] - angle.sin()).abs() < 1e-12);
    let recovered = m.get_rotate_x().unwrap();
    assert!((as_float(recovered.sin()).asin() - angle).abs() < 1e-12);
}

#[test]
fn plane_product_and_inverse_agree_with_the_floating_point_ones() {
    let mut a = Matrix2D::identity();
    a.translate(&s(3, 2), &s(-1, 3)).unwrap();
    a.rotate(&Rotation::from_half_tangent(&s(1, 2)).unwrap()).unwrap();
    a.scale(&s(2, 1), &s(1, 2)).unwrap();
    let mut b = Matrix2D::identity();
    b.rotate(&Rotation::from_half_tangent(&s(2, 3)).unwrap()).unwrap();
    b.translate_x(&s(7, 4)).unwrap();
    assert!(close3(floats3(&a.mul(&b).unwrap()), vecmath::row_mat3_mul(floats3(&a), floats3(&b))));
    assert!(close3(floats3(&a.invert().unwrap()), vecmath::mat3_inv(floats3(&a))));
    assert!(close3(floats3(&a.add(&b).unwrap()), vecmath::mat3_add(floats3(&a), floats3(&b))));
    assert!(close3(floats3(&a.sub(&b).unwrap()), vecmath::mat3_sub(floats3(&a), floats3(&b))));
}
