use rusty_scad::error::TransformError;
use rusty_scad::matrix3d::Matrix3D;
use rusty_scad::rotation::Rotation;
use rusty_scad::scalar::Scalar;

fn s(num: i64, den: i64) -> Scalar {
    Scalar::new(num, den).unwrap()
}

#[test]
fn translate_then_scale_round_trip() {
    let (tx, ty, tz) = (s(3, 2), s(-7, 5), s(11, 1));
    let (sx, sy, sz) = (s(2, 1), s(1, 3), s(5, 4));
    let mut m = Matrix3D::identity();
    m.translate(&tx, &ty, &tz).unwrap();
    m.scale(&sx, &sy, &sz).unwrap();
    assert_eq!(m.get_translate(), (tx, ty, tz));
    assert_eq!(m.get_translate_x(), tx);
    assert_eq!(m.get_translate_y(), ty);
    assert_eq!(m.get_translate_z(), tz);
    assert_eq!(m.get_scale(), Ok((sx, sy, sz)));
    assert_eq!(m.get_scale_x(), Ok(sx));
    assert_eq!(m.get_scale_y(), Ok(sy));
    assert_eq!(m.get_scale_z(), Ok(sz));
}

#[test]
fn scale_then_translate_scales_the_offsets() {
    let mut m = Matrix3D::identity();
    m.scale(&s(2, 1), &s(3, 1), &s(4, 1)).unwrap();
    m.translate(&s(1, 1), &s(1, 1), &s(1, 1)).unwrap();
    assert_eq!(m.get_translate(), (s(2, 1), s(3, 1), s(4, 1)));
    assert_eq!(m.get_scale(), Ok((s(2, 1), s(3, 1), s(4, 1))));
}

#[test]
fn scale_survives_a_rotation() {
    let mut m = Matrix3D::identity();
    m.rotate_z(&Rotation::from_half_tangent(&s(1, 2)).unwrap()).unwrap();
    m.scale(&s(2, 1), &s(3, 1), &s(1, 2)).unwrap();
    assert_eq!(m.get_scale(), Ok((s(2, 1), s(3, 1), s(1, 2))));
}

#[test]
fn scale_of_a_sheared_frame_is_irrational() {
    let m = Matrix3D::from_rows([[1, 0, 0, 0], [1, 1, 0, 0], [0, 0, 1, 0], [0, 0, 0, 1]], 1).unwrap();
    assert_eq!(m.get_scale_x(), Err(TransformError::Irrational));
    assert_eq!(m.get_scale_y(), Ok(s(1, 1)));
    assert_eq!(m.get_scale(), Err(TransformError::Irrational));
}

#[test]
fn rotation_about_x_is_recovered_within_a_quarter_turn() {
    for (n, d) in [(1, 2), (-1, 2), (1, 3), (-2, 3), (0, 1), (1, 1), (-1, 1), (3, 7)] {
        let r = Rotation::from_half_tangent(&s(n, d)).unwrap();
        let mut m = Matrix3D::identity();
        m.rotate_x(&r).unwrap();
        assert_eq!(m.get_rotate_x(), Ok(r));
    }
}

#[test]
fn rotation_about_y_and_z_is_recovered_within_a_quarter_turn() {
    for (n, d) in [(1, 2), (-1, 2), (1, 3), (-2, 3), (0, 1)] {
        let r = Rotation::from_half_tangent(&s(n, d)).unwrap();
        let mut y = Matrix3D::identity();
        y.rotate_y(&r).unwrap();
        assert_eq!(y.get_rotate_y(), Ok(r));
        let mut z = Matrix3D::identity();
        z.rotate_z(&r).unwrap();
        assert_eq!(z.get_rotate_z(), Ok(r));
        assert_eq!(z.get_rotate(), Ok((Rotation::quarter_turns(0), Rotation::quarter_turns(0), r)));
    }
}

#[test]
fn rotation_beyond_a_quarter_turn_comes_back_mirrored() {
    // half tangent 2: cosine -3/5, sine 4/5, about 127 degrees
    let r = Rotation::from_half_tangent(&s(2, 1)).unwrap();
    let mirrored = Rotation::from_half_tangent(&s(1, 2)).unwrap();
    let mut m = Matrix3D::identity();
    m.rotate_x(&r).unwrap();
    assert_ne!(m.get_rotate_x(), Ok(r));
    assert_eq!(m.get_rotate_x(), Ok(mirrored));
    let half = Rotation::quarter_turns(2);
    let mut h = Matrix3D::identity();
    h.rotate_x(&half).unwrap();
    assert_eq!(h.get_rotate_x(), Ok(Rotation::quarter_turns(0)));
}

#[test]
fn rotation_is_recovered_from_a_scaled_frame() {
    let r = Rotation::from_half_tangent(&s(1, 2)).unwrap();
    let mut m = Matrix3D::identity();
    m.rotate_x(&r).unwrap();
    m.scale(&s(2, 1), &s(3, 1), &s(5, 1)).unwrap();
    assert_eq!(m.get_rotate_x(), Ok(r));
}

#[test]
fn rotation_of_a_flattened_frame_is_refused() {
    let mut m = Matrix3D::identity();
    m.scale_y(&s(0, 1)).unwrap();
    assert_eq!(m.get_rotate_x(), Err(TransformError::Singular));
    assert_eq!(m.get_rotate(), Err(TransformError::Singular));
    let sheared = Matrix3D::from_rows([[1, 0, 0, 0], [0, 1, 0, 0], [0, 1, 1, 0], [0, 0, 0, 1]], 1).unwrap();
    assert_eq!(sheared.get_rotate_x(), Err(TransformError::Irrational));
}
