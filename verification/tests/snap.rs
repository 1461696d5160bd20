use std::ops::{BitAnd, BitOr};

use rusty_scad::anchor::{Anchor, AnchorConstraint, Anchors, Replicate};
use rusty_scad::error::TransformError;
use rusty_scad::frame::{HasRefSys3D, Is3DObject};
use rusty_scad::matrix3d::Matrix3D;
use rusty_scad::object3d::{BooleanOp, CustomModifier, Object3D, ScadModifier};
use rusty_scad::rotation::Rotation;
use rusty_scad::scalar::Scalar;

fn s(num: i64, den: i64) -> Scalar {
    Scalar::new(num, den).unwrap()
}

fn frame_of(node: &Object3D, anchor: &str) -> Matrix3D {
    node.anchors.get(anchor).unwrap().ref_sys
}

fn capsule(name: &str, length: Scalar, radius: Scalar) -> Object3D {
    let reach = length.mul(&s(1, 2)).unwrap().add(&radius).unwrap();
    let mut front = Anchor::new("front");
    front.translate_y(&reach).unwrap();
    let mut rear = Anchor::new("rear");
    rear.translate_y(&s(0, 1).sub(&reach).unwrap()).unwrap();
    let mut node = Object3D::new(name);
    node.attach_anchor(front);
    node.attach_anchor(rear);
    node
}

#[test]
fn new_anchor_is_at_the_origin_and_constrains_nothing() {
    let a = Anchor::new("tip");
    let none = AnchorConstraint { x: false, y: false, z: false, relative: false };
    assert_eq!(a.name, "tip");
    assert_eq!(a.ref_sys, Matrix3D::identity());
    assert_eq!(a.constrain_rotation, none);
    assert_eq!(a.constrain_translation, none);
    assert_eq!(a.constrain_scale, none);
    assert_eq!(a.constrain_shear, none);
    assert_eq!(AnchorConstraint::default(), none);
}

#[test]
fn constraints_combine_flag_by_flag() {
    let a = AnchorConstraint { x: true, y: false, z: true, relative: false };
    let b = AnchorConstraint { x: true, y: true, z: false, relative: false };
    assert_eq!(a.bitand(b), AnchorConstraint { x: true, y: false, z: false, relative: false });
    assert_eq!(a.bitor(b), AnchorConstraint { x: true, y: true, z: true, relative: false });
}

#[test]
fn anchors_overwrite_on_the_same_name() {
    let mut anchors: Anchors<Anchor> = Anchors::new();
    assert_eq!(anchors.len(), 0);
    assert!(anchors.get("a").is_none());
    assert!(!anchors.contains("a"));
    let mut first = Anchor::new("a");
    first.translate_x(&s(1, 1)).unwrap();
    anchors.insert("a", first.duplicate());
    anchors.insert("b", Anchor::new("b"));
    assert_eq!(anchors.len(), 2);
    assert_eq!(anchors.get("a").unwrap().ref_sys, first.ref_sys);
    anchors.insert("a", Anchor::new("a"));
    assert_eq!(anchors.len(), 2);
    assert_eq!(anchors.get("a").unwrap().ref_sys, Matrix3D::identity());
    assert!(anchors.contains("b"));
    assert!(anchors.get("c").is_none());
    anchors.clear();
    assert_eq!(anchors.len(), 0);
    assert!(!anchors.contains("a"));
}

#[test]
fn node_starts_at_the_origin_without_marks() {
    let mut node = Object3D::new("part");
    assert_eq!(node.name, "part");
    assert_eq!(node.ref_sys, Matrix3D::identity());
    assert_eq!(node.anchors.len(), 0);
    assert_eq!(node.scad_modifier, ScadModifier::Unset);
    assert_eq!(node.custom_modifier, CustomModifier::Unset);
    assert!(!node.snap_parent);
    node.set_debug();
    assert_eq!(node.scad_modifier, ScadModifier::Debug);
    node.set_background();
    assert_eq!(node.scad_modifier, ScadModifier::Background);
    node.set_root();
    assert_eq!(node.scad_modifier, ScadModifier::Root);
    node.set_disable();
    assert_eq!(node.scad_modifier, ScadModifier::Disable);
    node.set_show_origin();
    assert_eq!(node.custom_modifier, CustomModifier::ShowOrigin);
    node.set_show_anchors();
    assert_eq!(node.custom_modifier, CustomModifier::ShowAnchors);
    assert_eq!(node.scad_modifier, ScadModifier::Disable);
    assert_eq!(node.name, "part");
}

#[test]
fn modifier_symbols() {
    assert_eq!(ScadModifier::Unset.symbol(), "");
    assert_eq!(ScadModifier::Debug.symbol(), "#");
    assert_eq!(ScadModifier::Background.symbol(), "%");
    assert_eq!(ScadModifier::Root.symbol(), "!");
    assert_eq!(ScadModifier::Disable.symbol(), "*");
    assert_ne!(BooleanOp::union, BooleanOp::hull);
}

#[test]
fn create_anchor_attaches_an_identity_anchor() {
    let mut node = Object3D::new("part");
    node.create_anchor("top");
    let top = node.anchors.get("top").unwrap();
    assert_eq!(top.name, "top");
    assert_eq!(top.ref_sys, Matrix3D::identity());
    let mut moved = Anchor::new("top");
    moved.translate_z(&s(2, 1)).unwrap();
    node.attach_anchor(moved);
    assert_eq!(node.anchors.len(), 1);
    assert_eq!(frame_of(&node, "top").get_translate_z(), s(2, 1));
    node.create_anchor("top");
    assert_eq!(frame_of(&node, "top"), Matrix3D::identity());
}

#[test]
fn owners_of_a_frame_share_the_vocabulary() {
    let mut node = Object3D::new("part");
    let mut frame = Matrix3D::identity();
    let r = Rotation::from_half_tangent(&s(1, 3)).unwrap();
    node.rotate_z(&r).unwrap();
    frame.rotate_z(&r).unwrap();
    node.rel_translate(&s(1, 1), &s(2, 1), &s(3, 1)).unwrap();
    frame.rel_translate(&s(1, 1), &s(2, 1), &s(3, 1)).unwrap();
    node.scale_x(&s(2, 1)).unwrap();
    frame.scale_x(&s(2, 1)).unwrap();
    assert_eq!(*node.ref_sys(), frame);
    assert_eq!(node.ref_sys, frame);
    assert_eq!(Is3DObject::get_translate(&node), (s(1, 1), s(2, 1), s(3, 1)));
    assert_eq!(Is3DObject::get_scale_x(&node), Ok(s(2, 1)));
    assert_eq!(Is3DObject::get_rotate_z(&node), Ok(r));
    node.set_ref_sys(Matrix3D::identity());
    assert_eq!(node.ref_sys, Matrix3D::identity());
    node.ref_sys_mut().translate_x(&s(4, 1)).unwrap();
    assert_eq!(node.ref_sys.get_translate_x(), s(4, 1));
    let mut anchor = Anchor::new("a");
    assert_eq!(anchor.scale(&s(1 << 20, 1), &s(1, 1), &s(1, 1)), Ok(()));
    assert_eq!(anchor.scale_x(&s(1 << 20, 1)), Err(TransformError::Overflow));
    assert_eq!(anchor.ref_sys.entry(0, 0), s(1 << 20, 1));
}

#[test]
fn snap_puts_the_childs_anchor_on_the_parents_anchor() {
    let mut parent = Object3D::new("parent");
    parent.translate(&s(5, 1), &s(-2, 1), &s(1, 2)).unwrap();
    parent.rotate_z(&Rotation::from_half_tangent(&s(1, 2)).unwrap()).unwrap();
    let mut b = Anchor::new("b");
    b.translate(&s(0, 1), &s(3, 1), &s(0, 1)).unwrap();
    b.rotate_x(&Rotation::quarter_turns(1)).unwrap();
    parent.attach_anchor(b);
    let mut child = Object3D::new("child");
    child.translate_x(&s(100, 1)).unwrap();
    let mut a = Anchor::new("a");
    a.scale(&s(2, 1), &s(2, 1), &s(2, 1)).unwrap();
    a.translate_z(&s(1, 3)).unwrap();
    child.attach_anchor(a);
    assert_eq!(child.anchor("a").snap_to(&mut parent.anchor("b")), Ok(()));
    let fa = frame_of(&child, "a");
    let fb = frame_of(&parent, "b");
    assert_eq!(fa.mul(&child.ref_sys), fb.mul(&parent.ref_sys));
    let expected = fa.invert().unwrap().mul(&fb).unwrap().mul(&parent.ref_sys).unwrap();
    assert_eq!(child.ref_sys, expected);
    assert_eq!(child.snap_frame("a", &parent, "b"), Ok(expected));
}

#[test]
fn snap_twice_gives_the_same_frame() {
    let mut parent = Object3D::new("parent");
    parent.translate(&s(1, 1), &s(2, 1), &s(3, 1)).unwrap();
    parent.create_anchor("b");
    let mut child = Object3D::new("child");
    let mut a = Anchor::new("a");
    a.translate_y(&s(7, 2)).unwrap();
    child.attach_anchor(a);
    child.anchor("a").snap_to(&mut parent.anchor("b")).unwrap();
    let once = child.ref_sys;
    child.anchor("a").snap_to(&mut parent.anchor("b")).unwrap();
    assert_eq!(child.ref_sys, once);
    assert_eq!(once.get_translate(), (s(1, 1), s(-3, 2), s(3, 1)));
}

#[test]
fn snap_with_a_missing_anchor_is_refused() {
    let mut parent = Object3D::new("parent");
    parent.create_anchor("b");
    let mut child = Object3D::new("child");
    child.create_anchor("a");
    child.translate_x(&s(1, 1)).unwrap();
    let before = child.ref_sys;
    assert_eq!(child.anchor("nope").snap_to(&mut parent.anchor("b")), Err(TransformError::AnchorNotFound));
    assert_eq!(child.anchor("a").snap_to(&mut parent.anchor("nope")), Err(TransformError::AnchorNotFound));
    assert_eq!(child.ref_sys, before);
}

#[test]
fn snap_with_a_degenerate_anchor_is_refused() {
    let mut parent = Object3D::new("parent");
    parent.create_anchor("b");
    let mut child = Object3D::new("child");
    let mut a = Anchor::new("a");
    a.scale_z(&s(0, 1)).unwrap();
    child.attach_anchor(a);
    child.translate_x(&s(1, 1)).unwrap();
    let before = child.ref_sys;
    assert_eq!(child.anchor("a").snap_to(&mut parent.anchor("b")), Err(TransformError::Singular));
    assert_eq!(child.ref_sys, before);
}

#[test]
fn snap_beyond_the_limit_is_refused() {
    let mut parent = Object3D::new("parent");
    parent.translate_x(&s(1, (1 << 20) + 1)).unwrap();
    parent.create_anchor("b");
    let mut child = Object3D::new("child");
    let mut a = Anchor::new("a");
    a.translate_x(&s(1, (1 << 20) + 3)).unwrap();
    child.attach_anchor(a);
    assert_eq!(child.anchor("a").snap_to(&mut parent.anchor("b")), Err(TransformError::Overflow));
    assert_eq!(child.ref_sys, Matrix3D::identity());
}

#[test]
fn two_capsules_snapped_end_to_end_are_collinear_and_touch() {
    let length = s(4, 1);
    let radius = s(1, 1);
    let mut a = capsule("a", length, radius);
    a.translate(&s(10, 1), &s(-3, 1), &s(2, 1)).unwrap();
    a.rotate_z(&Rotation::from_half_tangent(&s(1, 2)).unwrap()).unwrap();
    let mut b = capsule("b", length, radius);
    assert_eq!(b.anchor("front").snap_to(&mut a.anchor("rear")), Ok(()));
    let b_front = frame_of(&b, "front").mul(&b.ref_sys).unwrap();
    let a_rear = frame_of(&a, "rear").mul(&a.ref_sys).unwrap();
    assert_eq!(b_front, a_rear);
    assert_eq!(b_front.get_translate(), a_rear.get_translate());
    // b is a shifted along its own y axis by the distance between front and rear
    let mut expected = a.ref_sys;
    expected.rel_translate_y(&s(-6, 1)).unwrap();
    assert_eq!(b.ref_sys, expected);
    // the far ends keep their distance: b's rear anchor lies two lengths from a's front
    let b_rear = frame_of(&b, "rear").mul(&b.ref_sys).unwrap();
    let a_front = frame_of(&a, "front").mul(&a.ref_sys).unwrap();
    let mut far = a_front;
    far.rel_translate_y(&s(-12, 1)).unwrap();
    assert_eq!(b_rear, far);
}

#[test]
fn anchors_keep_the_order_in_which_names_were_attached() {
    let mut anchors: Anchors<Anchor> = Anchors::new();
    anchors.insert("b", Anchor::new("first"));
    anchors.insert("a", Anchor::new("second"));
    anchors.insert("b", Anchor::new("third"));
    assert_eq!(anchors.len(), 2);
    assert_eq!(anchors.at(0).key, "b");
    assert_eq!(anchors.at(0).anchor.name, "third");
    assert_eq!(anchors.at(1).key, "a");
    assert_eq!(anchors.at(1).anchor.name, "second");
}

#[test]
fn default_matrix_is_zero() {
    let zero = Matrix3D::default();
    for i in 0..4 {
        for j in 0..4 {
            assert_eq!(zero.entry(i, j), s(0, 1));
        }
    }
    assert_eq!(zero.invert(), Err(TransformError::Singular));
    assert_eq!(zero.mul(&Matrix3D::identity()), Ok(zero));
}

#[test]
fn snap_onto_reads_the_parent_only() {
    let mut parent = Object3D::new("parent");
    parent.translate_z(&s(9, 1)).unwrap();
    parent.create_anchor("b");
    let mut child = Object3D::new("child");
    let mut a = Anchor::new("a");
    a.translate_z(&s(2, 1)).unwrap();
    child.attach_anchor(a);
    let frame = child.snap_frame("a", &parent, "b").unwrap();
    assert_eq!(child.ref_sys, Matrix3D::identity());
    assert_eq!(child.snap_onto("a", &parent, "b"), Ok(()));
    assert_eq!(child.ref_sys, frame);
    assert_eq!(frame.get_translate_z(), s(7, 1));
    assert_eq!(child.snap_onto("a", &parent, "c"), Err(TransformError::AnchorNotFound));
    assert_eq!(child.ref_sys, frame);
}

#[test]
fn a_created_anchor_is_placed_in_the_node() {
    let mut node = Object3D::new("part");
    node.create_anchor("tip").translate_x(&s(3, 1)).unwrap();
    {
        let side = node.create_anchor("side");
        assert_eq!(side.name, "side");
        assert_eq!(side.ref_sys, Matrix3D::identity());
        side.rotate_z(&Rotation::quarter_turns(1)).unwrap();
        side.translate_y(&s(1, 2)).unwrap();
    }
    assert_eq!(node.anchors.len(), 2);
    assert_eq!(frame_of(&node, "tip").get_translate_x(), s(3, 1));
    assert_eq!(frame_of(&node, "side").get_translate(), (s(-1, 2), s(0, 1), s(0, 1)));
    let tip = node.anchors.get_mut("tip").unwrap();
    tip.translate_x(&s(1, 1)).unwrap();
    assert_eq!(frame_of(&node, "tip").get_translate_x(), s(4, 1));
    assert!(node.anchors.get_mut("nope").is_none());
}

#[test]
fn default_anchor_has_no_name_and_a_zero_frame() {
    let a = Anchor::default();
    assert_eq!(a.name, "");
    assert_eq!(a.ref_sys, Matrix3D::default());
    assert_eq!(a.constrain_scale, AnchorConstraint::default());
}
