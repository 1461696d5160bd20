use rusty_scad::anchor2d::Anchor;
use rusty_scad::error::TransformError;
use rusty_scad::frame2d::{HasRefSys2D, Is2DObject};
use rusty_scad::matrix2d::Matrix2D;
use rusty_scad::object2d::Object2D;
use rusty_scad::rotation::Rotation;
use rusty_scad::scalar::Scalar;
use rusty_scad::vector2d::{point2D, vector2D};

fn s(num: i64, den: i64) -> Scalar {
    Scalar::new(num, den).unwrap()
}

fn sample() -> Matrix2D {
    Matrix2D::from_rows([[2, 1, 3], [0, 3, -5], [0, 0, 2]], 2).unwrap()
}

#[test]
fn plane_identity_is_neutral() {
    let m = sample();
    let i = Matrix2D::identity();
    assert_eq!(i.mul(&m), Ok(m));
    assert_eq!(m.mul(&i), Ok(m));
    assert_eq!(i.entry(0, 0), s(1, 1));
    assert_eq!(i.entry(0, 1), s(0, 1));
    assert_eq!(i.entry(2, 2), s(1, 1));
}

#[test]
fn plane_product_is_rows_times_columns() {
    let a = Matrix2D::from_rows([[1, 2, 0], [0, 1, 0], [0, 0, 1]], 1).unwrap();
    let b = Matrix2D::from_rows([[1, 0, 0], [3, 1, 0], [0, 0, 1]], 1).unwrap();
    assert_eq!(a.mul(&b), Matrix2D::from_rows([[7, 2, 0], [3, 1, 0], [0, 0, 1]], 1));
    assert_eq!(a.pre_mul(&b), Matrix2D::from_rows([[1, 2, 0], [3, 7, 0], [0, 0, 1]], 1));
    assert_eq!(a.add(&b), Matrix2D::from_rows([[2, 2, 0], [3, 2, 0], [0, 0, 2]], 1));
    assert_eq!(a.sub(&b), Matrix2D::from_rows([[0, 2, 0], [-3, 0, 0], [0, 0, 0]], 1));
    assert_eq!(a.scale_entries(&s(1, 2)), Matrix2D::from_rows([[1, 2, 0], [0, 1, 0], [0, 0, 1]], 2));
}

#[test]
fn plane_inverse_times_matrix_is_identity() {
    let m = sample();
    let inv = m.invert().unwrap();
    assert_eq!(inv.mul(&m), Ok(Matrix2D::identity()));
    assert_eq!(m.mul(&inv), Ok(Matrix2D::identity()));
    assert_eq!(inv.entry(0, 0), s(1, 1));
    assert_eq!(inv.entry(0, 1), s(-1, 3));
    assert_eq!(inv.entry(1, 1), s(2, 3));
    let flat = Matrix2D::from_rows([[1, 2, 0], [2, 4, 0], [0, 0, 1]], 1).unwrap();
    assert_eq!(flat.invert(), Err(TransformError::Singular));
    assert_eq!(Matrix2D::from_rows([[1, 0, 0], [0, 1, 0], [0, 0, 1]], 0), Err(TransformError::BadDenominator));
    assert_eq!(Matrix2D::from_rows([[1 << 31, 0, 0], [0, 1, 0], [0, 0, 1]], 1), Err(TransformError::Overflow));
}

#[test]
fn plane_steps_multiply_on_the_right_or_on_the_left() {
    let r = Rotation::from_half_tangent(&s(1, 2)).unwrap();
    let t = Matrix2D::translation(&s(1, 1), &s(2, 1)).unwrap();
    let rot = Matrix2D::rotation(&r);
    let mut absolute = Matrix2D::identity();
    absolute.translate(&s(1, 1), &s(2, 1)).unwrap();
    absolute.rotate(&r).unwrap();
    assert_eq!(absolute, t.mul(&rot).unwrap());
    let mut relative = Matrix2D::identity();
    relative.rel_translate(&s(1, 1), &s(2, 1)).unwrap();
    relative.rel_rotate(&r).unwrap();
    assert_eq!(relative, rot.mul(&t).unwrap());
    assert_ne!(absolute, relative);
    assert_eq!(rot.entry(0, 0), s(3, 5));
    assert_eq!(rot.entry(0, 1), s(-4, 5));
    assert_eq!(rot.entry(1, 0), s(4, 5));
    assert_eq!(rot.entry(1, 1), s(3, 5));
    assert_eq!(t.entry(0, 2), s(1, 1));
    assert_eq!(t.entry(1, 2), s(2, 1));
}

#[test]
fn plane_single_axis_steps() {
    let v = s(5, 3);
    let (zero, one) = (s(0, 1), s(1, 1));
    let mut a = sample();
    let mut b = sample();
    a.translate_x(&v).unwrap();
    b.translate(&v, &zero).unwrap();
    assert_eq!(a, b);
    a.translate_y(&v).unwrap();
    b.translate(&zero, &v).unwrap();
    assert_eq!(a, b);
    a.rel_translate_x(&v).unwrap();
    b.rel_translate(&v, &zero).unwrap();
    assert_eq!(a, b);
    a.rel_translate_y(&v).unwrap();
    b.rel_translate(&zero, &v).unwrap();
    assert_eq!(a, b);
    a.scale_x(&v).unwrap();
    b.scale(&v, &one).unwrap();
    assert_eq!(a, b);
    a.scale_y(&v).unwrap();
    b.scale(&one, &v).unwrap();
    assert_eq!(a, b);
    a.rel_scale_x(&v).unwrap();
    b.rel_scale(&v, &one).unwrap();
    assert_eq!(a, b);
    a.rel_scale_y(&v).unwrap();
    b.rel_scale(&one, &v).unwrap();
    assert_eq!(a, b);
}

#[test]
fn plane_decomposition() {
    let mut m = Matrix2D::identity();
    m.translate(&s(3, 2), &s(-1, 4)).unwrap();
    m.scale(&s(2, 1), &s(1, 3)).unwrap();
    assert_eq!(m.get_translate(), (s(3, 2), s(-1, 4)));
    assert_eq!(m.get_translate_x(), s(3, 2));
    assert_eq!(m.get_translate_y(), s(-1, 4));
    assert_eq!(m.get_scale(), Ok((s(2, 1), s(1, 3))));
    assert_eq!(m.get_scale_x(), Ok(s(2, 1)));
    assert_eq!(m.get_scale_y(), Ok(s(1, 3)));
    let r = Rotation::from_half_tangent(&s(2, 1)).unwrap();
    let mut turned = Matrix2D::identity();
    turned.rotate(&r).unwrap();
    assert_eq!(turned.get_rotate(), Ok(r));
    let back = Rotation::from_half_tangent(&s(-1, 2)).unwrap();
    let mut clockwise = Matrix2D::identity();
    clockwise.rotate(&back).unwrap();
    assert_eq!(clockwise.get_rotate(), Ok(back.opposite()));
    let sheared = Matrix2D::from_rows([[1, 0, 0], [1, 1, 0], [0, 0, 1]], 1).unwrap();
    assert_eq!(sheared.get_scale_x(), Err(TransformError::Irrational));
    assert_eq!(sheared.get_rotate(), Err(TransformError::Irrational));
    let mut flat = Matrix2D::identity();
    flat.scale_x(&s(0, 1)).unwrap();
    assert_eq!(flat.get_rotate(), Err(TransformError::Singular));
    let row = sample().row(0);
    assert_eq!((row.get(0), row.get(1), row.get(2)), (s(1, 1), s(1, 2), s(3, 2)));
    let column = sample().column(2);
    assert_eq!((column.get(0), column.get(1), column.get(2)), (s(3, 2), s(-5, 2), s(1, 1)));
}

#[test]
fn plane_vectors() {
    let p = point2D(&s(3, 1), &s(4, 1)).unwrap();
    let v = vector2D(&s(3, 1), &s(4, 1)).unwrap();
    assert_eq!((p.get(0), p.get(1), p.get(2)), (s(3, 1), s(4, 1), s(1, 1)));
    assert_eq!((v.get(0), v.get(1), v.get(2)), (s(3, 1), s(4, 1), s(0, 1)));
    assert_eq!(v.l2_norm(), Ok(s(5, 1)));
    assert_eq!(v.squared_length(), Ok(s(25, 1)));
    assert_eq!(p.squared_length(), Ok(s(26, 1)));
    assert_eq!(p.l2_norm(), Err(TransformError::Irrational));
    assert_eq!(p.dot(&v), Ok(s(25, 1)));
    let sum = p.add(&v).unwrap();
    assert_eq!((sum.get(0), sum.get(1), sum.get(2)), (s(6, 1), s(8, 1), s(1, 1)));
    let diff = p.sub(&v).unwrap();
    assert_eq!((diff.get(0), diff.get(1), diff.get(2)), (s(0, 1), s(0, 1), s(1, 1)));
    let half = v.scale(&s(1, 2)).unwrap();
    assert_eq!((half.get(0), half.get(1), half.get(2)), (s(3, 2), s(2, 1), s(0, 1)));
    assert_eq!(v.recover_rotation(0), Rotation::from_half_tangent(&s(1, 2)).map_err(|e| e));
}

#[test]
fn plane_snap() {
    let mut parent = Object2D::new("parent");
    parent.translate(&s(5, 1), &s(-2, 1)).unwrap();
    parent.rotate(&Rotation::from_half_tangent(&s(1, 2)).unwrap()).unwrap();
    let mut b = Anchor::new("b");
    b.translate_y(&s(3, 1)).unwrap();
    parent.attach_anchor(b);
    let mut child = Object2D::new("child");
    let mut a = Anchor::new("a");
    a.scale(&s(2, 1), &s(2, 1)).unwrap();
    a.translate_x(&s(1, 3)).unwrap();
    child.attach_anchor(a);
    child.create_anchor("flat");
    assert_eq!(child.anchor("a").snap_to(&mut parent.anchor("b")), Ok(()));
    let fa = child.anchors.get("a").unwrap().ref_sys;
    let fb = parent.anchors.get("b").unwrap().ref_sys;
    assert_eq!(fa.mul(child.ref_sys()), fb.mul(parent.ref_sys()));
    let once = child.ref_sys;
    assert_eq!(child.anchor("a").snap_to(&mut parent.anchor("b")), Ok(()));
    assert_eq!(child.ref_sys, once);
    assert_eq!(child.anchor("a").snap_to(&mut parent.anchor("c")), Err(TransformError::AnchorNotFound));
    assert_eq!(child.anchor("c").snap_to(&mut parent.anchor("b")), Err(TransformError::AnchorNotFound));
    let mut degenerate = Anchor::new("d");
    degenerate.scale_x(&s(0, 1)).unwrap();
    child.attach_anchor(degenerate);
    assert_eq!(child.anchor("d").snap_to(&mut parent.anchor("b")), Err(TransformError::Singular));
    assert_eq!(child.ref_sys, once);
    child.set_ref_sys(Matrix2D::identity());
    assert_eq!(Is2DObject::get_translate(&child), (s(0, 1), s(0, 1)));
    child.ref_sys_mut().translate_x(&s(1, 1)).unwrap();
    assert_eq!(Is2DObject::get_translate_x(&child), s(1, 1));
}
