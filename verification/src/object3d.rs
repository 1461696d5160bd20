//! The node of a scene graph as the transform algebra sees it: a name, a frame, the anchors
//! attached to it, and the snapping of one node's anchor onto another's.

use crate::anchor::{
    absorbed, inserted, lemma_find_after_insert, lemma_insert_then_update, Anchor,
    AnchorConstraint, Anchors,
};
use crate::error::TransformError;
use crate::exact::LIMIT;
use crate::fraction::Fractions;
use crate::linear4::{identity4, inverse4, invertible4, mul4};
use crate::matrix3d::Matrix3D;
use vstd::prelude::*;

verus! {

/// The marks of the modelling language that single a node out when the scene is drawn.
#[derive(Debug, Clone, Copy, PartialEq, Eq, Structural)]
pub enum ScadModifier {
    Unset,
    Debug,
    Background,
    Root,
    Disable,
}

impl ScadModifier {
    /// The character that the modelling language writes for the mark; none for `Unset`.
    pub fn symbol(&self) -> (s: &'static str)
        ensures
            s@ == (match *self {
                ScadModifier::Unset => ""@,
                ScadModifier::Debug => "#"@,
                ScadModifier::Background => "%"@,
                ScadModifier::Root => "!"@,
                ScadModifier::Disable => "*"@,
            }),
    {
        match self {
            ScadModifier::Unset => "",
            ScadModifier::Debug => "#",
            ScadModifier::Background => "%",
            ScadModifier::Root => "!",
            ScadModifier::Disable => "*",
        }
    }
}

/// What is drawn beside a node to show where it stands.
#[derive(Debug, Clone, Copy, PartialEq, Eq, Structural)]
pub enum CustomModifier {
    Unset,
    ShowOrigin,
    ShowAnchors,
}

/// The operations that make one solid out of several. The names are those of the modelling
/// language.
#[derive(Debug, Clone, Copy, PartialEq, Eq, Structural)]
#[allow(non_camel_case_types)]
pub enum BooleanOp {
    union,
    difference,
    intersection,
    hull,
    minkowski,
}

/// The frame that a node takes when its anchor with the frame `child_anchor` is snapped onto
/// an anchor with the frame `parent_anchor` of a node with the frame `parent_frame`.
pub open spec fn snapped_frame(
    child_anchor: Fractions,
    parent_anchor: Fractions,
    parent_frame: Fractions,
) -> Fractions {
    mul4(mul4(inverse4(child_anchor), parent_anchor), parent_frame)
}

/// What snapping is answered with: `AnchorNotFound` if either anchor is missing, `Singular`
/// if the frame of the child's anchor has no inverse, `Overflow` if the inverse or one of
/// the two products is beyond `LIMIT`, and else the new frame of the child.
pub open spec fn snap_outcome(
    child_anchor: Option<Anchor>,
    parent_anchor: Option<Anchor>,
    parent_frame: Fractions,
) -> Result<Fractions, TransformError> {
    if child_anchor is None || parent_anchor is None {
        Err(TransformError::AnchorNotFound)
    } else {
        let a = child_anchor->Some_0.ref_sys@;
        let b = parent_anchor->Some_0.ref_sys@;
        if !invertible4(a) {
            Err(TransformError::Singular)
        } else if !inverse4(a).within(LIMIT as int) || !mul4(inverse4(a), b).within(LIMIT as int)
            || !snapped_frame(a, b, parent_frame).within(LIMIT as int) {
            Err(TransformError::Overflow)
        } else {
            Ok(snapped_frame(a, b, parent_frame))
        }
    }
}

/// What snapping the anchor `anchor_name` of a node does to the node: with an outcome that
/// is a frame the node takes that frame and keeps everything else; with an outcome that is
/// an error the node stays as it was.
pub open spec fn snap_step(
    before: Object3D,
    after: Object3D,
    anchor_name: Seq<char>,
    parent_anchor: Option<Anchor>,
    parent_frame: Fractions,
    r: Result<(), TransformError>,
) -> bool {
    match (r, snap_outcome(before.anchors.lookup(anchor_name), parent_anchor, parent_frame)) {
        (Ok(_), Ok(f)) => after.ref_sys@ == f && after.same_but_frame(&before),
        (Err(e), Err(f)) => e == f && after == before,
        _ => false,
    }
}

/// The anchors that a composite of `children` knows: the anchors of every child are
/// attached in turn, each under its name rekeyed with the name of the child.
pub open spec fn composite_anchors(children: Seq<Object3D>) -> Seq<(Seq<char>, Anchor)>
    decreases children.len(),
{
    if children.len() == 0 {
        Seq::empty()
    } else {
        absorbed(
            composite_anchors(children.drop_last()),
            children.last().name@,
            children.last().anchors@,
        )
    }
}

/// The anchor is one that was just made under `name`: at the origin, constraining nothing.
pub open spec fn fresh_anchor(anchor: Anchor, name: Seq<char>) -> bool {
    &&& anchor.name@ == name
    &&& anchor.ref_sys@ == identity4()
    &&& anchor.constrain_rotation == AnchorConstraint::none()
    &&& anchor.constrain_translation == AnchorConstraint::none()
    &&& anchor.constrain_scale == AnchorConstraint::none()
    &&& anchor.constrain_shear == AnchorConstraint::none()
}

/// A node of the scene: it owns one frame, which places it in its parent, and its anchors.
#[derive(Debug, Clone)]
pub struct Object3D {
    pub name: String,
    pub ref_sys: Matrix3D,
    pub anchors: Anchors<Anchor>,
    pub scad_modifier: ScadModifier,
    pub custom_modifier: CustomModifier,
    pub snap_parent: bool,
}

/// A node together with the name of one of its anchors: what one side of a snap is given by.
pub struct Object3DIndexHelper<'a> {
    pub anchor_name: &'a str,
    pub object: &'a mut Object3D,
}

impl<'a> Object3DIndexHelper<'a> {
    /// Snaps the anchor of `self` onto the anchor `other`: the node of `self` takes the frame
    /// in which its anchor lies where the other anchor lies. Whatever frame the node had is
    /// overwritten; when the snap fails the node is left as it was. The other node is only
    /// read.
    pub fn snap_to(&mut self, other: &mut Object3DIndexHelper) -> (r: Result<(), TransformError>)
        ensures
            snap_step(
                *old(self).object,
                *final(self).object,
                old(self).anchor_name@,
                old(other).object.anchors.lookup(old(other).anchor_name@),
                old(other).object.ref_sys@,
                r,
            ),
            final(self).anchor_name == old(self).anchor_name,
            *final(final(self).object) == *final(old(self).object),
            final(other).anchor_name == old(other).anchor_name,
            *final(other).object == *old(other).object,
            *final(final(other).object) == *final(old(other).object),
    {
        self.object.snap_onto(self.anchor_name, &*other.object, other.anchor_name)
    }
}

impl Object3D {
    /// The node of that name at the origin, with no anchors and no marks.
    pub fn new(name: &str) -> (o: Object3D)
        ensures
            o.name@ == name@,
            o.ref_sys@ == identity4(),
            o.anchors@ == Seq::<(Seq<char>, Anchor)>::empty(),
            o.scad_modifier == ScadModifier::Unset,
            o.custom_modifier == CustomModifier::Unset,
            !o.snap_parent,
    {
        Object3D {
            name: name.to_owned(),
            ref_sys: Matrix3D::identity(),
            anchors: Anchors::new(),
            scad_modifier: ScadModifier::Unset,
            custom_modifier: CustomModifier::Unset,
            snap_parent: false,
        }
    }

    /// The node of a composite of `children`, at the origin and with no marks: it knows the
    /// anchors of its children, each under its name rekeyed with the name of the child.
    pub fn composite(name: &str, children: &Vec<Object3D>) -> (o: Object3D)
        ensures
            o.name@ == name@,
            o.ref_sys@ == identity4(),
            o.anchors@ == composite_anchors(children@),
            o.scad_modifier == ScadModifier::Unset,
            o.custom_modifier == CustomModifier::Unset,
            !o.snap_parent,
    {
        let mut node = Object3D::new(name);
        let mut i: usize = 0;
        while i < children.len()
            invariant
                0 <= i <= children.len(),
                node.name@ == name@,
                node.ref_sys@ == identity4(),
                node.scad_modifier == ScadModifier::Unset,
                node.custom_modifier == CustomModifier::Unset,
                !node.snap_parent,
                node.anchors@ == composite_anchors(children@.take(i as int)),
            decreases children.len() - i,
        {
            proof {
                let next = children@.take(i as int + 1);
                assert(next.drop_last() =~= children@.take(i as int));
                assert(next.last() == children@[i as int]);
            }
            node.adopt_anchors(&children[i]);
            i = i + 1;
        }
        proof {
            assert(children@.take(children@.len() as int) =~= children@);
        }
        node
    }

    /// Attaches a copy of every anchor of `child`, each under its name rekeyed with the
    /// name of the child, in place of the anchor that was there, if any.
    pub fn adopt_anchors(&mut self, child: &Object3D)
        ensures
            final(self).same_but_anchors(old(self)),
            final(self).anchors@ == absorbed(old(self).anchors@, child.name@, child.anchors@),
    {
        self.anchors.absorb(child.name.as_str(), &child.anchors);
    }

    /// Everything but the marks is the same in both nodes.
    pub open spec fn same_but_marks(&self, other: &Object3D) -> bool {
        &&& self.name == other.name
        &&& self.ref_sys == other.ref_sys
        &&& self.anchors == other.anchors
        &&& self.snap_parent == other.snap_parent
    }

    /// Everything but the frame is the same in both nodes.
    pub open spec fn same_but_frame(&self, other: &Object3D) -> bool {
        &&& self.name == other.name
        &&& self.anchors == other.anchors
        &&& self.scad_modifier == other.scad_modifier
        &&& self.custom_modifier == other.custom_modifier
        &&& self.snap_parent == other.snap_parent
    }

    /// Everything but the anchors is the same in both nodes.
    pub open spec fn same_but_anchors(&self, other: &Object3D) -> bool {
        &&& self.name == other.name
        &&& self.ref_sys == other.ref_sys
        &&& self.scad_modifier == other.scad_modifier
        &&& self.custom_modifier == other.custom_modifier
        &&& self.snap_parent == other.snap_parent
    }

    /// Marks the node for debugging.
    pub fn set_debug(&mut self)
        ensures
            final(self).scad_modifier == ScadModifier::Debug,
            final(self).custom_modifier == old(self).custom_modifier,
            final(self).same_but_marks(old(self)),
    {
        self.scad_modifier = ScadModifier::Debug;
    }

    /// Marks the node as background.
    pub fn set_background(&mut self)
        ensures
            final(self).scad_modifier == ScadModifier::Background,
            final(self).custom_modifier == old(self).custom_modifier,
            final(self).same_but_marks(old(self)),
    {
        self.scad_modifier = ScadModifier::Background;
    }

    /// Marks the node as the root of what is drawn.
    pub fn set_root(&mut self)
        ensures
            final(self).scad_modifier == ScadModifier::Root,
            final(self).custom_modifier == old(self).custom_modifier,
            final(self).same_but_marks(old(self)),
    {
        self.scad_modifier = ScadModifier::Root;
    }

    /// Marks the node as disabled.
    pub fn set_disable(&mut self)
        ensures
            final(self).scad_modifier == ScadModifier::Disable,
            final(self).custom_modifier == old(self).custom_modifier,
            final(self).same_but_marks(old(self)),
    {
        self.scad_modifier = ScadModifier::Disable;
    }

    /// Asks for the origin of the node to be drawn.
    pub fn set_show_origin(&mut self)
        ensures
            final(self).custom_modifier == CustomModifier::ShowOrigin,
            final(self).scad_modifier == old(self).scad_modifier,
            final(self).same_but_marks(old(self)),
    {
        self.custom_modifier = CustomModifier::ShowOrigin;
    }

    /// Asks for the anchors of the node to be drawn.
    pub fn set_show_anchors(&mut self)
        ensures
            final(self).custom_modifier == CustomModifier::ShowAnchors,
            final(self).scad_modifier == old(self).scad_modifier,
            final(self).same_but_marks(old(self)),
    {
        self.custom_modifier = CustomModifier::ShowAnchors;
    }

    /// Attaches a new anchor under `name`, at the origin of the node, in place of the anchor
    /// that was there, if any, and hands it out to be placed.
    pub fn create_anchor(&mut self, name: &str) -> (a: &mut Anchor)
        ensures
            fresh_anchor(*a, name@),
            final(self).same_but_anchors(old(self)),
            final(self).anchors@ == inserted(old(self).anchors@, name@, *final(a)),
    {
        let anchor = Anchor::new(name);
        proof {
            lemma_find_after_insert(self.anchors@, name@, anchor, name@);
        }
        self.anchors.insert(name, anchor);
        match self.anchors.get_mut(name) {
            Some(a) => {
                proof {
                    lemma_insert_then_update(old(self).anchors@, name@, anchor, *final(a));
                }
                a
            },
            None => vstd::pervasive::unreached(),
        }
    }

    /// Attaches `anchor` under its own name, in place of the anchor that was there, if any.
    pub fn attach_anchor(&mut self, anchor: Anchor)
        ensures
            final(self).same_but_anchors(old(self)),
            final(self).anchors@ == inserted(old(self).anchors@, anchor.name@, anchor),
    {
        let name = anchor.name.clone();
        self.anchors.insert(name.as_str(), anchor);
    }

    /// The node together with the name of one of its anchors, for a snap.
    pub fn anchor<'a>(&'a mut self, index: &'a str) -> (h: Object3DIndexHelper<'a>)
        ensures
            h.anchor_name@ == index@,
            *h.object == *old(self),
            *final(h.object) == *final(self),
    {
        Object3DIndexHelper { anchor_name: index, object: self }
    }

    /// The frame that the node must take for its anchor `anchor_name` to lie on the anchor
    /// `parent_anchor` of `parent`.
    pub fn snap_frame(&self, anchor_name: &str, parent: &Object3D, parent_anchor: &str) -> (r:
        Result<Matrix3D, TransformError>)
        ensures
            ({
                let outcome = snap_outcome(
                    self.anchors.lookup(anchor_name@),
                    parent.anchors.lookup(parent_anchor@),
                    parent.ref_sys@,
                );
                match (r, outcome) {
                    (Ok(m), Ok(f)) => m@ == f && m.wf(),
                    (Err(e), Err(f)) => e == f,
                    _ => false,
                }
            }),
    {
        let own = match self.anchors.get(anchor_name) {
            Some(a) => a,
            None => {
                return Err(TransformError::AnchorNotFound);
            },
        };
        let target = match parent.anchors.get(parent_anchor) {
            Some(a) => a,
            None => {
                return Err(TransformError::AnchorNotFound);
            },
        };
        let inverse = match own.ref_sys.invert() {
            Ok(m) => m,
            Err(e) => {
                return Err(e);
            },
        };
        let onto_target = match inverse.mul(&target.ref_sys) {
            Ok(m) => m,
            Err(e) => {
                return Err(e);
            },
        };
        onto_target.mul(&parent.ref_sys)
    }

    /// Snaps the node's anchor `anchor_name` onto the anchor `parent_anchor` of `parent`:
    /// the node takes the frame in which its anchor lies where the other anchor lies.
    /// Whatever frame the node had is overwritten; when the snap fails the node is left as
    /// it was.
    pub fn snap_onto(&mut self, anchor_name: &str, parent: &Object3D, parent_anchor: &str) -> (r:
        Result<(), TransformError>)
        ensures
            snap_step(
                *old(self),
                *final(self),
                anchor_name@,
                parent.anchors.lookup(parent_anchor@),
                parent.ref_sys@,
                r,
            ),
    {
        match self.snap_frame(anchor_name, parent, parent_anchor) {
            Ok(frame) => {
                self.ref_sys = frame;
                Ok(())
            },
            Err(e) => Err(e),
        }
    }
}

} // verus!
