//! Exact affine frames and anchor snapping for a constructive-solid-geometry scene graph.
//!
//! A frame is a homogeneous matrix, 4x4 for space and 3x3 for the plane, whose entries are
//! rational numbers held exactly: numerators over one common denominator, in lowest terms,
//! each within `LIMIT`. Frames are built from the identity by rotating, translating and
//! scaling, either in the frame's own axes (absolute, the frame is multiplied on the right)
//! or in the outer axes (relative, on the left). They can be taken apart again, and a node
//! can be snapped so that one of its anchors lies on an anchor of another node. What the
//! exact numbers cannot hold is answered with an error, never with a wrong frame.
//!
//! Every value is specified by its view, a tuple of `Fractions`; the laws of the algebra are
//! the public proof functions of `laws` and `laws2d`. The arithmetic is offered as methods
//! and as the operators `+`, `-`, `*` and `!`, which answer with a `Result`.

pub mod anchor;
pub mod anchor2d;
pub mod builder2d;
pub mod builder3d;
pub mod decompose2d;
pub mod decompose3d;
pub mod determinant;
pub mod determinant3;
pub mod divisor;
pub mod error;
pub mod exact;
pub mod fraction;
pub mod frame;
pub mod frame2d;
pub mod laws;
pub mod laws2d;
pub mod linear3;
pub mod linear4;
pub mod matrix2d;
pub mod matrix3d;
pub mod object2d;
pub mod object3d;
pub mod operators;
pub mod product;
pub mod root;
pub mod rotation;
pub mod scalar;
pub mod text;
pub mod transform3;
pub mod transform4;
pub mod vector;
pub mod vector2d;

pub use crate::anchor::{Anchor, AnchorConstraint, Anchors, NamedAnchor, Replicate};
pub use crate::error::TransformError;
pub use crate::exact::LIMIT;
pub use crate::fraction::Fractions;
pub use crate::frame::{HasRefSys3D, Is3DObject};
pub use crate::frame2d::{HasRefSys2D, Is2DObject};
pub use crate::matrix2d::Matrix2D;
pub use crate::matrix3d::Matrix3D;
pub use crate::object2d::{Object2D, ObjectIndexHelper};
pub use crate::object3d::{BooleanOp, CustomModifier, Object3D, Object3DIndexHelper, ScadModifier};
pub use crate::rotation::Rotation;
pub use crate::scalar::Scalar;
pub use crate::vector::{point3D, vector3D, Point3D, Vector3D};
pub use crate::vector2d::{point2D, vector2D, Point2D, Vector2D};
