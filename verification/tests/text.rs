use rusty_scad::anchor::{rekey, Anchor, Anchors, Replicate};
use rusty_scad::frame::Is3DObject;
use rusty_scad::matrix2d::Matrix2D;
use rusty_scad::matrix3d::Matrix3D;
use rusty_scad::object3d::{CustomModifier, Object3D, ScadModifier};
use rusty_scad::scalar::Scalar;
use rusty_scad::vector::point3D;
use rusty_scad::vector2d::vector2D;

fn s(num: i64, den: i64) -> Scalar {
    Scalar::new(num, den).unwrap()
}

#[test]
fn numbers_print_as_fractions_in_lowest_terms() {
    assert_eq!(s(0, 5).to_text(), "0");
    assert_eq!(s(7, 1).to_text(), "7");
    assert_eq!(s(-12, 4).to_text(), "-3");
    assert_eq!(s(6, 8).to_text(), "3/4");
    assert_eq!(s(-1, 1 << 30).to_text(), "-1/1073741824");
    assert_eq!(s(1 << 30, 1).to_text(), "1073741824");
    assert_eq!(s(-1050, 100).to_text(), "-21/2");
}

#[test]
fn vectors_print_in_brackets() {
    assert_eq!(point3D(&s(1, 2), &s(-3, 1), &s(0, 1)).unwrap().display(), "[1/2, -3, 0, 1]");
    assert_eq!(vector2D(&s(1, 2), &s(-3, 4)).unwrap().display(), "[1/2, -3/4, 0]");
}

#[test]
fn matrices_print_one_row_to_a_line() {
    let m = Matrix3D::from_rows([[2, 0, 1, 3], [0, 3, 0, -5], [1, 0, 1, 7], [0, 0, 0, 2]], 2).unwrap();
    assert_eq!(m.display(0), "[[1, 0, 1/2, 3/2],\n [0, 3/2, 0, -5/2],\n [1/2, 0, 1/2, 7/2],\n [0, 0, 0, 1]]");
    assert_eq!(
        Matrix3D::identity().display(2),
        "\t\t[[1, 0, 0, 0],\n\t\t [0, 1, 0, 0],\n\t\t [0, 0, 1, 0],\n\t\t [0, 0, 0, 1]]"
    );
    let p = Matrix2D::from_rows([[1, 2, 3], [4, 5, 6], [0, 0, 10]], 10).unwrap();
    assert_eq!(p.display(1), "\t[[1/10, 1/5, 3/10],\n\t [2/5, 1/2, 3/5],\n\t [0, 0, 1]]");
}

#[test]
fn anchors_of_children_are_known_under_rekeyed_names() {
    assert_eq!(rekey("arm", "tip"), "arm::tip");
    assert_eq!(rekey("", "tip"), "tip");
    assert_eq!(rekey("arm", ""), "arm::");
    let mut arm = Object3D::new("arm");
    let mut tip = Anchor::new("tip");
    tip.translate_x(&s(3, 1)).unwrap();
    arm.attach_anchor(tip.duplicate());
    arm.create_anchor("base");
    let mut nameless = Object3D::new("");
    let mut top = Anchor::new("top");
    top.translate_z(&s(1, 2)).unwrap();
    nameless.attach_anchor(top);
    let mut second_arm = Object3D::new("arm");
    let mut other_tip = Anchor::new("tip");
    other_tip.translate_x(&s(5, 1)).unwrap();
    second_arm.attach_anchor(other_tip);
    let whole = Object3D::composite("whole", &vec![arm, nameless, second_arm]);
    assert_eq!(whole.name, "whole");
    assert_eq!(whole.ref_sys, Matrix3D::identity());
    assert_eq!(whole.scad_modifier, ScadModifier::Unset);
    assert_eq!(whole.custom_modifier, CustomModifier::Unset);
    assert_eq!(whole.anchors.len(), 3);
    // the anchor keeps its own name, and the later child of the same name wins
    assert_eq!(whole.anchors.get("arm::tip").unwrap().name, "tip");
    assert_eq!(whole.anchors.get("arm::tip").unwrap().ref_sys.get_translate_x(), s(5, 1));
    assert_eq!(whole.anchors.get("arm::base").unwrap().ref_sys, Matrix3D::identity());
    assert_eq!(whole.anchors.get("top").unwrap().ref_sys.get_translate_z(), s(1, 2));
    assert!(whole.anchors.get("tip").is_none());
    assert_eq!(Object3D::composite("empty", &vec![]).anchors.len(), 0);
}

#[test]
fn absorbing_keeps_what_is_not_overwritten() {
    let mut mine: Anchors<Anchor> = Anchors::new();
    mine.insert("a", Anchor::new("mine"));
    mine.insert("x::a", Anchor::new("old"));
    let mut theirs: Anchors<Anchor> = Anchors::new();
    theirs.insert("a", Anchor::new("theirs"));
    mine.absorb("x", &theirs);
    assert_eq!(mine.len(), 2);
    assert_eq!(mine.get("a").unwrap().name, "mine");
    assert_eq!(mine.get("x::a").unwrap().name, "theirs");
    let mut node = Object3D::new("n");
    node.create_anchor("a");
    let mut child = Object3D::new("");
    child.attach_anchor(Anchor::new("b"));
    node.adopt_anchors(&child);
    assert!(node.anchors.contains("a"));
    assert!(node.anchors.contains("b"));
}
