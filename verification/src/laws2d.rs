//! The laws of the transform algebra of the plane, each proved of every frame.

use crate::anchor2d::Anchor;
use crate::decompose2d::{column3, lemma_column3_respects_value, lemma_entry3_respects_value};
use crate::decompose3d::lemma_reduces_to;
use crate::error::TransformError;
use crate::exact::LIMIT;
use crate::fraction::{
    lemma_reduced, lemma_reduced_respects_value, lemma_same_value_transitive, Fractions,
};
use crate::laws::{lemma_common_factor, lemma_scaled_fraction};
use crate::determinant3::{cofactor3, det9, lemma_cofactor_expansions3, row_expansion3};
use crate::linear3::{
    adjugate3, dot3, identity3, inverse3, invertible3, is_matrix3, lemma_mul3_associative,
    lemma_mul3_identity, lemma_mul3_inverse, lemma_raw_mul3_respects_value, mul3, raw_inverse3,
    raw_mul3,
};
use crate::linear4::{lemma_positive_product, lemma_unit_factor};
use crate::matrix2d::{entry3, Matrix2D};
use crate::object2d::{snap_outcome2d, snap_step2d, snapped_frame2d, Object2D};
use crate::product::{
    lemma_cancel, lemma_cross, lemma_negated_factor, lemma_pair, lemma_positive_factor,
    lemma_sparse, lemma_three,
};
use crate::root::{is_square, lemma_square_root_unique, square_root};
use crate::rotation::{raw_opposite, Rotation};
use crate::scalar::{raw_scalar, Scalar};
use crate::transform3::{
    raw_rotation3, raw_scaling3, raw_translation3, rotation3, scaling3, translation3,
};
use crate::vector2d::{
    norm_outcome3, raw_recovered3, raw_vector3, rotation_outcome3, sum_of_products3,
};
use vstd::prelude::*;

verus! {

/// A product of matrices is a matrix in lowest terms.
pub proof fn lemma_mul3_is_matrix(a: Fractions, b: Fractions)
    requires
        is_matrix3(a),
        is_matrix3(b),
    ensures
        is_matrix3(mul3(a, b)),
        mul3(a, b).lowest(),
{
    lemma_positive_product(a.den, b.den);
    lemma_reduced(raw_mul3(a, b));
}

/// The identity law in the plane: the identity matrix is neutral on both sides; so both
/// products are within `LIMIT` and `mul` computes them.
pub proof fn law_identity2d(m: Matrix2D)
    requires
        m.wf(),
    ensures
        mul3(identity3(), m@) == m@,
        mul3(m@, identity3()) == m@,
        mul3(identity3(), m@).within(LIMIT as int),
        mul3(m@, identity3()).within(LIMIT as int),
{
    lemma_mul3_identity(m@);
}

/// The inverse law in the plane: for a matrix whose determinant is not zero,
/// `inverse(m) * m` and `m * inverse(m)` are both the identity, exactly.
pub proof fn law_inverse2d(m: Matrix2D)
    requires
        m.wf(),
        invertible3(m@),
    ensures
        mul3(inverse3(m@), m@) == identity3(),
        mul3(m@, inverse3(m@)) == identity3(),
{
    lemma_mul3_inverse(m@);
}

/// Associativity in the plane: `(a * b) * c == a * (b * c)`.
pub proof fn law_associative2d(a: Matrix2D, b: Matrix2D, c: Matrix2D)
    requires
        a.wf(),
        b.wf(),
        c.wf(),
    ensures
        mul3(mul3(a@, b@), c@) == mul3(a@, mul3(b@, c@)),
{
    lemma_mul3_associative(a@, b@, c@);
}

/// Snapping aligns the anchors in the plane: with the frame that a snap gives to the child,
/// `child_anchor * child_frame == parent_anchor * parent_frame`.
pub proof fn law_snap_aligns2d(
    child_anchor: Matrix2D,
    parent_anchor: Matrix2D,
    parent_frame: Matrix2D,
)
    requires
        child_anchor.wf(),
        parent_anchor.wf(),
        parent_frame.wf(),
        invertible3(child_anchor@),
    ensures
        mul3(child_anchor@, snapped_frame2d(child_anchor@, parent_anchor@, parent_frame@))
            == mul3(parent_anchor@, parent_frame@),
{
    let a = child_anchor@;
    let b = parent_anchor@;
    let p = parent_frame@;
    let inv = inverse3(a);
    lemma_mul3_inverse(a);
    assert(is_matrix3(inv));
    lemma_mul3_is_matrix(inv, b);
    lemma_mul3_associative(a, mul3(inv, b), p);
    lemma_mul3_associative(a, inv, b);
    lemma_mul3_identity(b);
}

/// The same law of a snap that succeeded: the frame that the child was given puts its
/// anchor where the parent's anchor is.
pub proof fn law_snap_outcome_aligns2d(
    child_anchor: Anchor,
    parent_anchor: Anchor,
    parent_frame: Matrix2D,
    frame: Fractions,
)
    requires
        child_anchor.ref_sys.wf(),
        parent_anchor.ref_sys.wf(),
        parent_frame.wf(),
        snap_outcome2d(Some(child_anchor), Some(parent_anchor), parent_frame@) == Ok::<
            Fractions,
            TransformError,
        >(frame),
    ensures
        mul3(child_anchor.ref_sys@, frame) == mul3(parent_anchor.ref_sys@, parent_frame@),
{
    law_snap_aligns2d(child_anchor.ref_sys, parent_anchor.ref_sys, parent_frame);
}

/// Snapping does not accumulate in the plane: a second snap of the same anchor onto the
/// same anchor of an unchanged parent ends as the first did and leaves the child's frame as
/// the first left it, whatever the child's frame was before.
pub proof fn law_snap_idempotent2d(
    before: Object2D,
    once: Object2D,
    twice: Object2D,
    anchor_name: Seq<char>,
    parent_anchor: Option<Anchor>,
    parent_frame: Fractions,
    first: Result<(), TransformError>,
    second: Result<(), TransformError>,
)
    requires
        snap_step2d(before, once, anchor_name, parent_anchor, parent_frame, first),
        snap_step2d(once, twice, anchor_name, parent_anchor, parent_frame, second),
    ensures
        first is Ok <==> second is Ok,
        first is Err ==> second == first,
        twice.ref_sys@ == once.ref_sys@,
        twice.same_but_frame(&once),
{
}

/// The product of an unreduced translation and an unreduced scaling, entry by entry.
proof fn lemma_translation_times_scaling3(t: Fractions, s: Fractions)
    requires
        t.num.len() == 9,
        s.num.len() == 9,
        t.num[1] == 0 && t.num[3] == 0 && t.num[6] == 0 && t.num[7] == 0,
        t.num[0] == t.den && t.num[4] == t.den && t.num[8] == t.den,
        s.num[1] == 0 && s.num[2] == 0 && s.num[3] == 0 && s.num[5] == 0 && s.num[6] == 0
            && s.num[7] == 0,
        s.num[8] == s.den,
    ensures
        ({
            let p = raw_mul3(t, s).num;
            &&& p[0] == t.den * s.num[0]
            &&& p[3] == 0
            &&& p[6] == 0
            &&& p[1] == 0
            &&& p[4] == t.den * s.num[4]
            &&& p[7] == 0
            &&& p[2] == t.num[2] * s.den
            &&& p[5] == t.num[5] * s.den
        }),
{
    let p = raw_mul3(t, s).num;
    assert forall|k: int| 0 <= k < 9 implies #[trigger] p[k] == dot3(t.num, s.num, k / 3, k % 3)
        && (t.num[3 * (k / 3)] == 0 || s.num[k % 3] == 0 ==> t.num[3 * (k / 3)] * s.num[k % 3]
        == 0) && (t.num[3 * (k / 3) + 1] == 0 || s.num[3 + k % 3] == 0 ==> t.num[3 * (k / 3) + 1]
        * s.num[3 + k % 3] == 0) && (t.num[3 * (k / 3) + 2] == 0 || s.num[6 + k % 3] == 0
        ==> t.num[3 * (k / 3) + 2] * s.num[6 + k % 3] == 0) by {
        let i = k / 3;
        let j = k % 3;
        lemma_sparse(t.num[3 * i], s.num[j]);
        lemma_sparse(t.num[3 * i + 1], s.num[3 + j]);
        lemma_sparse(t.num[3 * i + 2], s.num[6 + j]);
    }
    assert(p[0] == t.den * s.num[0]);
    assert(p[1] == 0);
    assert(p[2] == t.num[2] * s.den);
    assert(p[3] == 0);
    assert(p[4] == t.den * s.num[4]);
    assert(p[5] == t.num[5] * s.den);
    assert(p[6] == 0);
    assert(p[7] == 0);
}

/// The frame that is built from the identity by a translation and then a scaling denotes
/// the unreduced product of the two.
proof fn lemma_translate_then_scale3(tx: Fractions, ty: Fractions, sx: Fractions, sy: Fractions)
    requires
        tx.den > 0 && ty.den > 0,
        sx.den > 0 && sy.den > 0,
    ensures
        ({
            let m = mul3(mul3(identity3(), translation3(tx, ty)), scaling3(sx, sy));
            let p = raw_mul3(raw_translation3(tx, ty), raw_scaling3(sx, sy));
            m.same_value(p) && m.num.len() == 9 && m.den > 0 && p.den > 0 && m.lowest()
        }),
{
    let t = raw_translation3(tx, ty);
    let s = raw_scaling3(sx, sy);
    lemma_positive_product(tx.den, ty.den);
    lemma_positive_product(sx.den, sy.den);
    lemma_reduced(t);
    lemma_reduced(s);
    lemma_mul3_identity(t.reduced());
    lemma_raw_mul3_respects_value(t.reduced(), s.reduced(), t, s);
    lemma_positive_product(t.reduced().den, s.reduced().den);
    lemma_positive_product(t.den, s.den);
    lemma_reduced(raw_mul3(t.reduced(), s.reduced()));
    lemma_same_value_transitive(
        mul3(t.reduced(), s.reduced()),
        raw_mul3(t.reduced(), s.reduced()),
        raw_mul3(t, s),
    );
}

/// One numerator over the common denominator of two, times the other denominator, denotes
/// the rational it was made from.
proof fn lemma_over_common_denominator2(x: Fractions, y: Fractions, w: int)
    requires
        x.den > 0 && y.den > 0,
    ensures
        ({
            let v = raw_vector3(x, y, w);
            &&& v.den > 0
            &&& v.num[0] * x.den == x.num[0] * v.den
            &&& v.num[1] * y.den == y.num[0] * v.den
            &&& x.num[0] > 0 ==> v.num[0] > 0
            &&& y.num[0] > 0 ==> v.num[1] > 0
        }),
{
    let xn = x.num[0];
    let yn = y.num[0];
    let xd = x.den;
    let yd = y.den;
    lemma_positive_product(xd, yd);
    lemma_three(xn, yd, xd);
    lemma_three(xn, xd, yd);
    lemma_three(yn, xd, yd);
    lemma_positive_factor(yd, xn);
    lemma_positive_factor(xd, yn);
    lemma_pair(xn, yd);
    lemma_pair(yn, xd);
}

/// A column whose only entry that is not zero is a positive one: its length is that entry.
proof fn lemma_axis_column_length3(column: Fractions, k: int, scale: Fractions)
    requires
        column.num.len() == 3,
        column.den > 0,
        0 <= k < 3,
        forall|i: int| 0 <= i < 3 && i != k ==> #[trigger] column.num[i] == 0,
        column.num[k] > 0,
        scale.lowest(),
        scale.num.len() == 1,
        column.num[k] * scale.den == scale.num[0] * column.den,
    ensures
        ({
            let c = column.reduced();
            let q = sum_of_products3(c.num, c.num);
            is_square(q) && raw_scalar(square_root(q), c.den).reduced() == scale
        }),
{
    let c = column.reduced();
    lemma_reduced(column);
    let g = column.content() as int;
    assert forall|i: int| 0 <= i < 3 && i != k implies #[trigger] c.num[i] == 0 by {
        assert(column.num[i] == g * c.num[i]);
        lemma_positive_factor(g, c.num[i]);
    }
    assert(column.num[k] == g * c.num[k]);
    lemma_positive_factor(g, c.num[k]);
    let n = c.num[k];
    lemma_sparse(c.num[0], c.num[0]);
    lemma_sparse(c.num[1], c.num[1]);
    lemma_sparse(c.num[2], c.num[2]);
    let q = sum_of_products3(c.num, c.num);
    assert(q == n * n);
    lemma_square_root_unique(n, q);
    let found = raw_scalar(n, c.den);
    assert(found.num[0] * scale.den == scale.num[0] * found.den) by {
        lemma_three(g, n, scale.den);
        lemma_three(scale.num[0], g, c.den);
        lemma_three(g, scale.num[0], c.den);
        lemma_cancel(g, n * scale.den, scale.num[0] * c.den);
    }
    assert(found.same_value(scale));
    lemma_reduces_to(found, scale);
}

/// The decomposition round trip in the plane: a frame that is built from the identity by
/// `translate(tx, ty)` and then `scale(sx, sy)` with positive factors gives back exactly
/// these offsets as its translation and exactly these factors as its scale.
pub proof fn law_translate_scale_round_trip2d(tx: Scalar, ty: Scalar, sx: Scalar, sy: Scalar)
    requires
        tx.wf() && ty.wf(),
        sx.wf() && sy.wf(),
        sx@.num[0] > 0 && sy@.num[0] > 0,
    ensures
        ({
            let m = mul3(mul3(identity3(), translation3(tx@, ty@)), scaling3(sx@, sy@));
            &&& entry3(m, 0, 2) == tx@
            &&& entry3(m, 1, 2) == ty@
            &&& norm_outcome3(column3(m, 0), Ok(sx))
            &&& norm_outcome3(column3(m, 1), Ok(sy))
        }),
{
    let t = raw_translation3(tx@, ty@);
    let s = raw_scaling3(sx@, sy@);
    let p = raw_mul3(t, s);
    let m = mul3(mul3(identity3(), translation3(tx@, ty@)), scaling3(sx@, sy@));
    lemma_translate_then_scale3(tx@, ty@, sx@, sy@);
    lemma_translation_times_scaling3(t, s);
    lemma_over_common_denominator2(tx@, ty@, 1);
    lemma_over_common_denominator2(sx@, sy@, 1);
    lemma_entry3_respects_value(m, p, 0, 2);
    lemma_entry3_respects_value(m, p, 1, 2);
    lemma_scaled_fraction(t.num[2], tx@.num[0], t.den, tx@.den, s.den);
    lemma_scaled_fraction(t.num[5], ty@.num[0], t.den, ty@.den, s.den);
    assert(raw_scalar(p.num[2], p.den).same_value(tx@));
    assert(raw_scalar(p.num[5], p.den).same_value(ty@));
    lemma_reduces_to(raw_scalar(p.num[2], p.den), tx@);
    lemma_reduces_to(raw_scalar(p.num[5], p.den), ty@);
    lemma_column3_respects_value(m, p, 0);
    lemma_column3_respects_value(m, p, 1);
    let c0 = Fractions { num: seq![p.num[0], p.num[3], p.num[6]], den: p.den };
    let c1 = Fractions { num: seq![p.num[1], p.num[4], p.num[7]], den: p.den };
    lemma_positive_factor(t.den, s.num[0]);
    lemma_positive_factor(t.den, s.num[4]);
    lemma_common_factor(t.den, s.num[0], sx@.num[0], s.den, sx@.den);
    lemma_common_factor(t.den, s.num[4], sy@.num[0], s.den, sy@.den);
    lemma_axis_column_length3(c0, 0, sx@);
    lemma_axis_column_length3(c1, 1, sy@);
}

/// The domain of the rotation decomposition in the plane: a frame that is built from the
/// identity by `rotate` alone gives back the rotation if its sine is not negative, that is
/// up to a half turn counterclockwise; for a clockwise rotation it gives back the opposite
/// rotation, which is another.
pub proof fn law_rotate_round_trip2d(r: Rotation)
    requires
        r.wf(),
    ensures
        ({
            let m = mul3(identity3(), rotation3(r@));
            &&& r@.num[1] >= 0 ==> rotation_outcome3(column3(m, 0), 0, Ok(r))
            &&& r@.num[1] < 0 ==> raw_recovered3(column3(m, 0), 0).reduced() == raw_opposite(
                r@,
            ).reduced() && !rotation_outcome3(column3(m, 0), 0, Ok(r))
        }),
{
    let raw = raw_rotation3(r@);
    lemma_reduced(raw);
    lemma_mul3_identity(raw.reduced());
    lemma_column3_respects_value(raw.reduced(), raw, 0);
    let column = Fractions { num: seq![raw.num[0], raw.num[3], raw.num[6]], den: raw.den };
    let v = column.reduced();
    lemma_reduced(column);
    let g = column.content() as int;
    let c = r@.num[0];
    let s = r@.num[1];
    let d = r@.den;
    let vc = v.num[0];
    let vs = v.num[1];
    let vd = v.den;
    assert(column.num[2] == g * v.num[2]);
    lemma_positive_factor(g, v.num[2]);
    assert(c == g * vc);
    assert(s == g * vs);
    assert(d == g * vd);
    lemma_cross(g, vc, g, vc);
    lemma_cross(g, vs, g, vs);
    lemma_cross(g, vd, g, vd);
    let gg = g * g;
    lemma_positive_product(g, g);
    assert(vc * vc + vs * vs == vd * vd) by (nonlinear_arith)
        requires
            gg * (vc * vc) + gg * (vs * vs) == gg * (vd * vd),
            gg > 0,
    ;
    lemma_sparse(v.num[2], v.num[2]);
    let q = sum_of_products3(v.num, v.num);
    assert(q == vc * vc + vs * vs);
    lemma_square_root_unique(vd, q);
    lemma_positive_product(vd, vd);
    let rest = q - vc * vc;
    assert(rest == vs * vs);
    lemma_positive_factor(g, vs);
    let found = raw_recovered3(v, 0);
    if s >= 0 {
        lemma_square_root_unique(vs, rest);
        assert(found.num =~= seq![vc, vs]);
        lemma_three(vc, g, vd);
        lemma_three(vs, g, vd);
        lemma_three(g, vc, vd);
        lemma_three(g, vs, vd);
        assert(found.same_value(r@));
        lemma_reduces_to(found, r@);
    } else {
        lemma_negated_factor(-vs, vs);
        lemma_negated_factor(vs, vs);
        lemma_pair(-vs, vs);
        assert((-vs) * (-vs) == vs * vs);
        lemma_square_root_unique(-vs, rest);
        assert(found.num =~= seq![vc, -vs]);
        let other = raw_opposite(r@);
        lemma_three(vc, g, vd);
        lemma_three(g, vc, vd);
        lemma_three(-vs, g, vd);
        assert(-s == g * (-vs)) by {
            lemma_negated_factor(g, vs);
        }
        lemma_three(g, -vs, vd);
        assert(found.same_value(other));
        lemma_reduced_respects_value(found, other);
        lemma_reduced(found);
        let w = found.reduced();
        assert(w.num[1] * found.den == found.num[1] * w.den);
        if w == r@ {
            lemma_positive_product(-vs, d);
            lemma_positive_product(-s, vd);
            lemma_negated_factor(vd, s);
            lemma_pair(s, vd);
            lemma_pair(-s, vd);
            lemma_negated_factor(vd, -s);
            assert(false);
        }
    }
}

/// The matrix is that of an affine transform of the plane: its last row is `(0, 0, 1)`.
pub open spec fn is_affine3(m: Fractions) -> bool {
    m.num[6] == 0 && m.num[7] == 0 && m.num[8] == m.den
}

/// Taking the common factor out keeps the last row.
pub proof fn lemma_reduced_is_affine3(f: Fractions)
    requires
        is_matrix3(f),
        is_affine3(f),
    ensures
        is_affine3(f.reduced()),
{
    lemma_reduced(f);
    let g = f.content() as int;
    let r = f.reduced();
    assert(f.num[6] == g * r.num[6]);
    assert(f.num[7] == g * r.num[7]);
    assert(f.num[8] == g * r.num[8]);
    lemma_positive_factor(g, r.num[6]);
    lemma_positive_factor(g, r.num[7]);
    lemma_cancel(g, r.num[8], r.den);
}

/// The product of two affine matrices is affine.
pub proof fn lemma_mul3_is_affine(a: Fractions, b: Fractions)
    requires
        is_matrix3(a),
        is_matrix3(b),
        is_affine3(a),
        is_affine3(b),
    ensures
        is_affine3(mul3(a, b)),
{
    let p = raw_mul3(a, b).num;
    assert forall|j: int| 0 <= j < 3 implies #[trigger] p[6 + j] == a.num[8] * b.num[6 + j] by {
        assert(p[6 + j] == dot3(a.num, b.num, 2, j));
        lemma_sparse(a.num[6], b.num[j]);
        lemma_sparse(a.num[7], b.num[3 + j]);
    }
    assert(p[6] == a.num[8] * b.num[6]);
    assert(p[7] == a.num[8] * b.num[7]);
    assert(p[8] == a.num[8] * b.num[8]);
    lemma_sparse(a.num[8], b.num[6]);
    lemma_sparse(a.num[8], b.num[7]);
    lemma_positive_product(a.den, b.den);
    lemma_reduced_is_affine3(raw_mul3(a, b));
}

/// The inverse of an affine matrix is affine.
pub proof fn lemma_inverse3_is_affine(a: Fractions)
    requires
        is_matrix3(a),
        is_affine3(a),
        invertible3(a),
    ensures
        is_affine3(inverse3(a)),
{
    let m = a.num;
    let raw = raw_inverse3(a);
    let adj = adjugate3(m);
    let k = if det9(m) > 0 {
        a.den
    } else {
        -a.den
    };
    assert(adj[6] == cofactor3(m, 0, 2));
    assert(adj[7] == cofactor3(m, 1, 2));
    assert(adj[8] == cofactor3(m, 2, 2));
    lemma_sparse(m[3], 0);
    lemma_sparse(m[4], 0);
    lemma_sparse(m[0], 0);
    lemma_sparse(m[1], 0);
    assert(adj[6] == 0 && adj[7] == 0);
    lemma_sparse(k, adj[6]);
    lemma_sparse(k, adj[7]);
    lemma_cofactor_expansions3(m);
    assert(row_expansion3(m, 2, 2) == det9(m));
    lemma_sparse(m[6], cofactor3(m, 2, 0));
    lemma_sparse(m[7], cofactor3(m, 2, 1));
    assert(det9(m) == a.den * adj[8]);
    assert((-a.den) * adj[8] == -(a.den * adj[8])) by (nonlinear_arith);
    assert(raw.num[8] == k * adj[8]);
    assert(raw.num[8] == raw.den);
    assert(raw.den > 0);
    assert(raw.num.len() == 9);
    lemma_reduced_is_affine3(raw);
}

/// The identity and the elementary transforms of the plane are affine.
pub proof fn law_elementary_frames_are_affine2d(x: Scalar, y: Scalar, r: Rotation)
    requires
        x.wf() && y.wf() && r.wf(),
    ensures
        is_affine3(identity3()),
        is_affine3(translation3(x@, y@)),
        is_affine3(scaling3(x@, y@)),
        is_affine3(rotation3(r@)),
{
    lemma_positive_product(x@.den, y@.den);
    lemma_unit_factor(x@.den * y@.den);
    lemma_reduced_is_affine3(raw_translation3(x@, y@));
    lemma_reduced_is_affine3(raw_scaling3(x@, y@));
    lemma_reduced_is_affine3(raw_rotation3(r@));
}

/// Affine frames of the plane stay affine: the product of two affine matrices is affine,
/// the inverse of one is, and so is the frame that a snap of affine frames gives.
pub proof fn law_affine_frames_stay_affine2d(a: Matrix2D, b: Matrix2D, c: Matrix2D)
    requires
        a.wf() && b.wf() && c.wf(),
        is_affine3(a@) && is_affine3(b@) && is_affine3(c@),
    ensures
        is_affine3(mul3(a@, b@)),
        invertible3(a@) ==> is_affine3(inverse3(a@)),
        invertible3(a@) ==> is_affine3(snapped_frame2d(a@, b@, c@)),
{
    lemma_mul3_is_affine(a@, b@);
    if invertible3(a@) {
        lemma_inverse3_is_affine(a@);
        lemma_mul3_inverse(a@);
        lemma_mul3_is_affine(inverse3(a@), b@);
        lemma_mul3_is_matrix(inverse3(a@), b@);
        lemma_mul3_is_affine(mul3(inverse3(a@), b@), c@);
    }
}

} // verus!
