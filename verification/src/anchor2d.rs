//! Anchors of the plane: named frames attached to a flat node.

use crate::anchor::{AnchorConstraint, Replicate};
use crate::linear3::identity3;
use crate::matrix2d::Matrix2D;
use vstd::prelude::*;

verus! {

/// A named frame, given in the axes of the node that owns it.
#[derive(Debug, Clone)]
pub struct Anchor {
    pub name: String,
    pub ref_sys: Matrix2D,
    pub constrain_rotation: AnchorConstraint,
    pub constrain_translation: AnchorConstraint,
    pub constrain_scale: AnchorConstraint,
    pub constrain_shear: AnchorConstraint,
}

impl Anchor {
    /// The anchor of that name at the origin of its node: its frame is the identity and it
    /// constrains nothing.
    pub fn new(name: &str) -> (a: Anchor)
        ensures
            a.name@ == name@,
            a.ref_sys@ == identity3(),
            a.constrain_rotation == AnchorConstraint::none(),
            a.constrain_translation == AnchorConstraint::none(),
            a.constrain_scale == AnchorConstraint::none(),
            a.constrain_shear == AnchorConstraint::none(),
    {
        Anchor {
            name: name.to_owned(),
            ref_sys: Matrix2D::identity(),
            constrain_rotation: AnchorConstraint::default(),
            constrain_translation: AnchorConstraint::default(),
            constrain_scale: AnchorConstraint::default(),
            constrain_shear: AnchorConstraint::default(),
        }
    }

}

impl Default for Anchor {
    /// The anchor without a name whose frame has only zeros and which constrains nothing.
    fn default() -> (a: Anchor)
        ensures
            a.name@ == Seq::<char>::empty(),
            a.ref_sys@.num == Seq::new(9, |t: int| 0int),
            a.ref_sys@.den == 1,
            a.constrain_rotation == AnchorConstraint::none(),
            a.constrain_translation == AnchorConstraint::none(),
            a.constrain_scale == AnchorConstraint::none(),
            a.constrain_shear == AnchorConstraint::none(),
    {
        Anchor {
            name: String::new(),
            ref_sys: Default::default(),
            constrain_rotation: AnchorConstraint::default(),
            constrain_translation: AnchorConstraint::default(),
            constrain_scale: AnchorConstraint::default(),
            constrain_shear: AnchorConstraint::default(),
        }
    }
}

impl Replicate for Anchor {
    fn duplicate(&self) -> (a: Anchor) {
        Anchor {
            name: self.name.clone(),
            ref_sys: self.ref_sys,
            constrain_rotation: self.constrain_rotation,
            constrain_translation: self.constrain_translation,
            constrain_scale: self.constrain_scale,
            constrain_shear: self.constrain_shear,
        }
    }
}

} // verus!
