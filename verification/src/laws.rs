//! The laws of the transform algebra, each proved of every frame.

use crate::anchor::Anchor;
use crate::decompose3d::{
    column4, lemma_column4_respects_value, lemma_entry4_respects_value, lemma_reduces_to,
};
use crate::error::TransformError;
use crate::exact::LIMIT;
use crate::fraction::{
    lemma_reduced, lemma_reduced_respects_value, lemma_same_value_transitive, Fractions,
};
use crate::determinant::{cofactor4, det3, det4, lemma_cofactor_expansions, row_expansion};
use crate::linear4::{
    adjugate4, dot4, identity4, inverse4, invertible4, is_matrix4, lemma_mul4_associative,
    lemma_mul4_identity, lemma_mul4_inverse, lemma_positive_product,
    lemma_raw_mul4_respects_value, lemma_unit_factor, mul4, raw_inverse4, raw_mul4,
};
use crate::matrix3d::{entry4, Matrix3D};
use crate::product::{
    lemma_cancel, lemma_cross, lemma_negated_factor, lemma_pair, lemma_positive_factor,
    lemma_sparse, lemma_three,
};
use crate::rotation::{on_unit_circle, Rotation};
use crate::root::{is_square, lemma_square_root_unique, square_root};
use crate::scalar::{raw_scalar, Scalar};
use crate::transform4::{
    one, raw_rotation_x4, raw_rotation_y4, raw_rotation_z4, raw_scaling4, raw_translation4,
    rotation_x4, rotation_y4, rotation_z4, scaling4, translation4, zero,
};
use crate::vector::{
    norm_outcome, raw_recovered, raw_vector4, rotation_outcome, sum_of_products4,
};
use crate::object3d::{snap_outcome, snap_step, snapped_frame, Object3D};
use vstd::prelude::*;

verus! {

/// A product of matrices is a matrix in lowest terms.
pub proof fn lemma_mul4_is_matrix(a: Fractions, b: Fractions)
    requires
        is_matrix4(a),
        is_matrix4(b),
    ensures
        is_matrix4(mul4(a, b)),
        mul4(a, b).lowest(),
{
    lemma_positive_product(a.den, b.den);
    lemma_reduced(raw_mul4(a, b));
}

/// The identity law: the identity matrix is neutral on both sides, `identity * m == m` and
/// `m * identity == m`; so both products are within `LIMIT` and `mul` computes them.
pub proof fn law_identity(m: Matrix3D)
    requires
        m.wf(),
    ensures
        mul4(identity4(), m@) == m@,
        mul4(m@, identity4()) == m@,
        mul4(identity4(), m@).within(LIMIT as int),
        mul4(m@, identity4()).within(LIMIT as int),
{
    lemma_mul4_identity(m@);
}

/// The inverse law: for a matrix whose determinant is not zero, `inverse(m) * m` and
/// `m * inverse(m)` are both the identity, exactly.
pub proof fn law_inverse(m: Matrix3D)
    requires
        m.wf(),
        invertible4(m@),
    ensures
        mul4(inverse4(m@), m@) == identity4(),
        mul4(m@, inverse4(m@)) == identity4(),
{
    lemma_mul4_inverse(m@);
}

/// Associativity: `(a * b) * c == a * (b * c)`.
pub proof fn law_associative(a: Matrix3D, b: Matrix3D, c: Matrix3D)
    requires
        a.wf(),
        b.wf(),
        c.wf(),
    ensures
        mul4(mul4(a@, b@), c@) == mul4(a@, mul4(b@, c@)),
{
    lemma_mul4_associative(a@, b@, c@);
}

/// Snapping aligns the anchors: with the frame that a snap gives to the child, the child's
/// anchor lies in the world where the parent's anchor lies,
/// `child_anchor * child_frame == parent_anchor * parent_frame`.
pub proof fn law_snap_aligns(child_anchor: Matrix3D, parent_anchor: Matrix3D, parent_frame: Matrix3D)
    requires
        child_anchor.wf(),
        parent_anchor.wf(),
        parent_frame.wf(),
        invertible4(child_anchor@),
    ensures
        mul4(child_anchor@, snapped_frame(child_anchor@, parent_anchor@, parent_frame@)) == mul4(
            parent_anchor@,
            parent_frame@,
        ),
{
    let a = child_anchor@;
    let b = parent_anchor@;
    let p = parent_frame@;
    let inv = inverse4(a);
    lemma_mul4_inverse(a);
    assert(is_matrix4(inv));
    lemma_mul4_is_matrix(inv, b);
    lemma_mul4_associative(a, mul4(inv, b), p);
    lemma_mul4_associative(a, inv, b);
    lemma_mul4_identity(b);
}

/// The same law of a snap that succeeded: the frame that the child was given puts its
/// anchor where the parent's anchor is.
pub proof fn law_snap_outcome_aligns(
    child_anchor: Anchor,
    parent_anchor: Anchor,
    parent_frame: Matrix3D,
    frame: Fractions,
)
    requires
        child_anchor.ref_sys.wf(),
        parent_anchor.ref_sys.wf(),
        parent_frame.wf(),
        snap_outcome(Some(child_anchor), Some(parent_anchor), parent_frame@) == Ok::<
            Fractions,
            TransformError,
        >(frame),
    ensures
        mul4(child_anchor.ref_sys@, frame) == mul4(parent_anchor.ref_sys@, parent_frame@),
{
    law_snap_aligns(child_anchor.ref_sys, parent_anchor.ref_sys, parent_frame);
}

/// Snapping does not accumulate: a second snap of the same anchor onto the same anchor of
/// an unchanged parent ends as the first did and leaves the child's frame as the first left
/// it, whatever the child's frame was before.
pub proof fn law_snap_idempotent(
    before: Object3D,
    once: Object3D,
    twice: Object3D,
    anchor_name: Seq<char>,
    parent_anchor: Option<Anchor>,
    parent_frame: Fractions,
    first: Result<(), TransformError>,
    second: Result<(), TransformError>,
)
    requires
        snap_step(before, once, anchor_name, parent_anchor, parent_frame, first),
        snap_step(once, twice, anchor_name, parent_anchor, parent_frame, second),
    ensures
        first is Ok <==> second is Ok,
        first is Err ==> second == first,
        twice.ref_sys@ == once.ref_sys@,
        twice.same_but_frame(&once),
{
}

/// The product of an unreduced translation and an unreduced scaling, entry by entry.
proof fn lemma_translation_times_scaling(t: Fractions, s: Fractions)
    requires
        t.num.len() == 16,
        s.num.len() == 16,
        t.num[1] == 0 && t.num[2] == 0 && t.num[4] == 0 && t.num[6] == 0 && t.num[8] == 0
            && t.num[9] == 0 && t.num[12] == 0 && t.num[13] == 0 && t.num[14] == 0,
        t.num[0] == t.den && t.num[5] == t.den && t.num[10] == t.den && t.num[15] == t.den,
        s.num[1] == 0 && s.num[2] == 0 && s.num[3] == 0 && s.num[4] == 0 && s.num[6] == 0
            && s.num[7] == 0 && s.num[8] == 0 && s.num[9] == 0 && s.num[11] == 0 && s.num[12]
            == 0 && s.num[13] == 0 && s.num[14] == 0,
        s.num[15] == s.den,
    ensures
        ({
            let p = raw_mul4(t, s).num;
            &&& p[0] == t.den * s.num[0]
            &&& p[4] == 0
            &&& p[8] == 0
            &&& p[12] == 0
            &&& p[1] == 0
            &&& p[5] == t.den * s.num[5]
            &&& p[9] == 0
            &&& p[13] == 0
            &&& p[2] == 0
            &&& p[6] == 0
            &&& p[10] == t.den * s.num[10]
            &&& p[14] == 0
            &&& p[3] == t.num[3] * s.den
            &&& p[7] == t.num[7] * s.den
            &&& p[11] == t.num[11] * s.den
        }),
{
    let p = raw_mul4(t, s).num;
    assert forall|k: int| 0 <= k < 16 implies #[trigger] p[k] == dot4(t.num, s.num, k / 4, k % 4)
        && (t.num[4 * (k / 4)] == 0 || s.num[k % 4] == 0 ==> t.num[4 * (k / 4)] * s.num[k % 4]
        == 0) && (t.num[4 * (k / 4) + 1] == 0 || s.num[4 + k % 4] == 0 ==> t.num[4 * (k / 4) + 1]
        * s.num[4 + k % 4] == 0) && (t.num[4 * (k / 4) + 2] == 0 || s.num[8 + k % 4] == 0
        ==> t.num[4 * (k / 4) + 2] * s.num[8 + k % 4] == 0) && (t.num[4 * (k / 4) + 3] == 0
        || s.num[12 + k % 4] == 0 ==> t.num[4 * (k / 4) + 3] * s.num[12 + k % 4] == 0) by {
        let i = k / 4;
        let j = k % 4;
        lemma_sparse(t.num[4 * i], s.num[j]);
        lemma_sparse(t.num[4 * i + 1], s.num[4 + j]);
        lemma_sparse(t.num[4 * i + 2], s.num[8 + j]);
        lemma_sparse(t.num[4 * i + 3], s.num[12 + j]);
    }
    assert(p[0] == t.den * s.num[0]);
    assert(p[1] == 0);
    assert(p[2] == 0);
    assert(p[3] == t.num[3] * s.den);
    assert(p[4] == 0);
    assert(p[5] == t.den * s.num[5]);
    assert(p[6] == 0);
    assert(p[7] == t.num[7] * s.den);
    assert(p[8] == 0);
    assert(p[9] == 0);
    assert(p[10] == t.den * s.num[10]);
    assert(p[11] == t.num[11] * s.den);
    assert(p[12] == 0);
    assert(p[13] == 0);
    assert(p[14] == 0);
}

/// The unreduced translation and the unreduced scaling are matrices.
proof fn lemma_elementary_are_matrices(x: Fractions, y: Fractions, z: Fractions)
    requires
        x.den > 0 && y.den > 0 && z.den > 0,
    ensures
        is_matrix4(raw_translation4(x, y, z)),
        is_matrix4(raw_scaling4(x, y, z)),
{
    lemma_positive_product(y.den, z.den);
    lemma_positive_product(x.den, y.den * z.den);
}

/// The product of two matrices, each reduced, denotes what the unreduced product of the
/// unreduced two denotes.
proof fn lemma_product_of_two(a: Fractions, b: Fractions)
    requires
        is_matrix4(a),
        is_matrix4(b),
    ensures
        mul4(a.reduced(), b.reduced()).same_value(raw_mul4(a, b)),
        is_matrix4(mul4(a.reduced(), b.reduced())),
        is_matrix4(raw_mul4(a, b)),
        mul4(a.reduced(), b.reduced()).lowest(),
{
    lemma_reduced(a);
    lemma_reduced(b);
    let ab = raw_mul4(a.reduced(), b.reduced());
    lemma_positive_product(a.reduced().den, b.reduced().den);
    lemma_positive_product(a.den, b.den);
    lemma_reduced(ab);
    lemma_raw_mul4_respects_value(a.reduced(), b.reduced(), a, b);
    lemma_same_value_transitive(ab.reduced(), ab, raw_mul4(a, b));
}

/// The frame that is built from the identity by a translation and then a scaling denotes
/// the unreduced product of the two.
proof fn lemma_translate_then_scale(
    tx: Fractions,
    ty: Fractions,
    tz: Fractions,
    sx: Fractions,
    sy: Fractions,
    sz: Fractions,
)
    requires
        tx.den > 0 && ty.den > 0 && tz.den > 0,
        sx.den > 0 && sy.den > 0 && sz.den > 0,
    ensures
        ({
            let m = mul4(
                mul4(identity4(), translation4(tx, ty, tz)),
                scaling4(sx, sy, sz),
            );
            let p = raw_mul4(raw_translation4(tx, ty, tz), raw_scaling4(sx, sy, sz));
            m.same_value(p) && m.num.len() == 16 && m.den > 0 && p.den > 0 && m.lowest()
        }),
{
    let t = raw_translation4(tx, ty, tz);
    let s = raw_scaling4(sx, sy, sz);
    lemma_elementary_are_matrices(tx, ty, tz);
    lemma_elementary_are_matrices(sx, sy, sz);
    lemma_reduced(t);
    lemma_mul4_identity(t.reduced());
    lemma_product_of_two(t, s);
}

/// One numerator over the common denominator of three, times the two other denominators,
/// denotes the rational it was made from.
proof fn lemma_over_common_denominator(x: Fractions, y: Fractions, z: Fractions, w: int)
    requires
        x.den > 0 && y.den > 0 && z.den > 0,
    ensures
        ({
            let v = raw_vector4(x, y, z, w);
            &&& v.den > 0
            &&& v.num[0] * x.den == x.num[0] * v.den
            &&& v.num[1] * y.den == y.num[0] * v.den
            &&& v.num[2] * z.den == z.num[0] * v.den
            &&& x.num[0] > 0 ==> v.num[0] > 0
            &&& y.num[0] > 0 ==> v.num[1] > 0
            &&& z.num[0] > 0 ==> v.num[2] > 0
        }),
{
    let xn = x.num[0];
    let yn = y.num[0];
    let zn = z.num[0];
    let xd = x.den;
    let yd = y.den;
    let zd = z.den;
    lemma_positive_product(yd, zd);
    lemma_positive_product(xd, zd);
    lemma_positive_product(xd, yd);
    lemma_positive_product(xd, yd * zd);
    lemma_three(xn, yd * zd, xd);
    lemma_three(xn, xd, yd * zd);
    assert((yn * (xd * zd)) * yd == yn * (xd * (yd * zd))) by (nonlinear_arith);
    assert((zn * (xd * yd)) * zd == zn * (xd * (yd * zd))) by (nonlinear_arith);
    lemma_positive_factor(yd * zd, xn);
    lemma_positive_factor(xd * zd, yn);
    lemma_positive_factor(xd * yd, zn);
    lemma_pair(xn, yd * zd);
    lemma_pair(yn, xd * zd);
    lemma_pair(zn, xd * yd);
}

/// A column whose only entry that is not zero is a positive first one: its length is that
/// entry.
proof fn lemma_axis_column_length(column: Fractions, k: int, scale: Fractions)
    requires
        column.num.len() == 4,
        column.den > 0,
        0 <= k < 4,
        forall|i: int| 0 <= i < 4 && i != k ==> #[trigger] column.num[i] == 0,
        column.num[k] > 0,
        scale.lowest(),
        scale.num.len() == 1,
        column.num[k] * scale.den == scale.num[0] * column.den,
    ensures
        ({
            let c = column.reduced();
            let q = sum_of_products4(c.num, c.num);
            is_square(q) && raw_scalar(square_root(q), c.den).reduced() == scale
        }),
{
    let c = column.reduced();
    lemma_reduced(column);
    let g = column.content() as int;
    assert forall|i: int| 0 <= i < 4 && i != k implies #[trigger] c.num[i] == 0 by {
        assert(column.num[i] == g * c.num[i]);
        lemma_positive_factor(g, c.num[i]);
    }
    assert(column.num[k] == g * c.num[k]);
    lemma_positive_factor(g, c.num[k]);
    let n = c.num[k];
    lemma_sparse(c.num[0], c.num[0]);
    lemma_sparse(c.num[1], c.num[1]);
    lemma_sparse(c.num[2], c.num[2]);
    lemma_sparse(c.num[3], c.num[3]);
    let q = sum_of_products4(c.num, c.num);
    assert(q == n * n);
    lemma_square_root_unique(n, q);
    let found = raw_scalar(n, c.den);
    assert(found.num[0] * scale.den == scale.num[0] * found.den) by {
        // g * (n * scale.den) == (g * n) * scale.den == scale.num * (g * c.den)
        lemma_three(g, n, scale.den);
        lemma_three(scale.num[0], g, c.den);
        lemma_three(g, scale.num[0], c.den);
        lemma_cancel(g, n * scale.den, scale.num[0] * c.den);
    }
    assert(found.same_value(scale));
    lemma_reduces_to(found, scale);
}

/// The decomposition round trip: a frame that is built from the identity by
/// `translate(tx, ty, tz)` and then `scale(sx, sy, sz)` with positive factors gives back
/// exactly these offsets as its translation and exactly these factors as its scale.
pub proof fn law_translate_scale_round_trip(
    tx: Scalar,
    ty: Scalar,
    tz: Scalar,
    sx: Scalar,
    sy: Scalar,
    sz: Scalar,
)
    requires
        tx.wf() && ty.wf() && tz.wf(),
        sx.wf() && sy.wf() && sz.wf(),
        sx@.num[0] > 0 && sy@.num[0] > 0 && sz@.num[0] > 0,
    ensures
        ({
            let m = mul4(
                mul4(identity4(), translation4(tx@, ty@, tz@)),
                scaling4(sx@, sy@, sz@),
            );
            &&& entry4(m, 0, 3) == tx@
            &&& entry4(m, 1, 3) == ty@
            &&& entry4(m, 2, 3) == tz@
            &&& norm_outcome(column4(m, 0), Ok(sx))
            &&& norm_outcome(column4(m, 1), Ok(sy))
            &&& norm_outcome(column4(m, 2), Ok(sz))
        }),
{
    let t = raw_translation4(tx@, ty@, tz@);
    let s = raw_scaling4(sx@, sy@, sz@);
    let p = raw_mul4(t, s);
    let m = mul4(mul4(identity4(), translation4(tx@, ty@, tz@)), scaling4(sx@, sy@, sz@));
    lemma_translate_then_scale(tx@, ty@, tz@, sx@, sy@, sz@);
    lemma_translation_times_scaling(t, s);
    lemma_over_common_denominator(tx@, ty@, tz@, 1);
    lemma_over_common_denominator(sx@, sy@, sz@, 1);
    // the translation
    lemma_entry4_respects_value(m, p, 0, 3);
    lemma_entry4_respects_value(m, p, 1, 3);
    lemma_entry4_respects_value(m, p, 2, 3);
    lemma_scaled_fraction(t.num[3], tx@.num[0], t.den, tx@.den, s.den);
    lemma_scaled_fraction(t.num[7], ty@.num[0], t.den, ty@.den, s.den);
    lemma_scaled_fraction(t.num[11], tz@.num[0], t.den, tz@.den, s.den);
    assert(raw_scalar(p.num[3], p.den).same_value(tx@));
    assert(raw_scalar(p.num[7], p.den).same_value(ty@));
    assert(raw_scalar(p.num[11], p.den).same_value(tz@));
    lemma_reduces_to(raw_scalar(p.num[3], p.den), tx@);
    lemma_reduces_to(raw_scalar(p.num[7], p.den), ty@);
    lemma_reduces_to(raw_scalar(p.num[11], p.den), tz@);
    // the scale
    lemma_column4_respects_value(m, p, 0);
    lemma_column4_respects_value(m, p, 1);
    lemma_column4_respects_value(m, p, 2);
    let c0 = Fractions { num: seq![p.num[0], p.num[4], p.num[8], p.num[12]], den: p.den };
    let c1 = Fractions { num: seq![p.num[1], p.num[5], p.num[9], p.num[13]], den: p.den };
    let c2 = Fractions { num: seq![p.num[2], p.num[6], p.num[10], p.num[14]], den: p.den };
    lemma_positive_factor(t.den, s.num[0]);
    lemma_positive_factor(t.den, s.num[5]);
    lemma_positive_factor(t.den, s.num[10]);
    lemma_common_factor(t.den, s.num[0], sx@.num[0], s.den, sx@.den);
    lemma_common_factor(t.den, s.num[5], sy@.num[0], s.den, sy@.den);
    lemma_common_factor(t.den, s.num[10], sz@.num[0], s.den, sz@.den);
    lemma_axis_column_length(c0, 0, sx@);
    lemma_axis_column_length(c1, 1, sy@);
    lemma_axis_column_length(c2, 2, sz@);
}

/// A fraction whose numerator and denominator are both multiplied by `k` on the right.
pub proof fn lemma_scaled_fraction(a: int, n: int, d: int, nd: int, k: int)
    requires
        a * nd == n * d,
    ensures
        (a * k) * nd == n * (d * k),
{
    lemma_three(a, k, nd);
    lemma_three(a, nd, k);
    lemma_three(n, d, k);
}

/// A fraction whose numerator and denominator are both multiplied by `k` on the left.
pub proof fn lemma_common_factor(k: int, a: int, n: int, d: int, nd: int)
    requires
        a * nd == n * d,
    ensures
        (k * a) * nd == n * (k * d),
{
    lemma_three(k, a, nd);
    lemma_three(n, k, d);
    lemma_three(k, n, d);
}

/// The rotation with the cosine negated: the angle mirrored at the quarter turn.
pub open spec fn mirrored(r: Fractions) -> Fractions {
    Fractions { num: seq![-r.num[0], r.num[1]], den: r.den }
}

/// What is recovered from a column that holds the cosine of a rotation at place `kc`, its
/// sine at place `k` and zero elsewhere: the rotation itself if its cosine is not negative,
/// and else the mirrored rotation, which is another.
proof fn lemma_recovered_from_column(column: Fractions, kc: int, k: int, r: Fractions)
    requires
        column.num.len() == 4,
        0 <= kc < 4,
        0 <= k < 4,
        kc != k,
        forall|i: int| 0 <= i < 4 && i != k && i != kc ==> #[trigger] column.num[i] == 0,
        column.num[kc] == r.num[0],
        column.num[k] == r.num[1],
        column.den == r.den,
        r.num.len() == 2,
        r.lowest(),
        on_unit_circle(r),
    ensures
        ({
            let v = column.reduced();
            let q = sum_of_products4(v.num, v.num);
            let rest = q - v.num[k] * v.num[k];
            &&& is_square(q)
            &&& is_square(rest)
            &&& q != 0
            &&& r.num[0] >= 0 ==> raw_recovered(v, k).reduced() == r
            &&& r.num[0] < 0 ==> raw_recovered(v, k).reduced() == mirrored(r).reduced()
                && raw_recovered(v, k).reduced() != r
        }),
{
    let v = column.reduced();
    lemma_reduced(column);
    let g = column.content() as int;
    let c = r.num[0];
    let s = r.num[1];
    let d = r.den;
    let vc = v.num[kc];
    let vs = v.num[k];
    let vd = v.den;
    assert forall|i: int| 0 <= i < 4 && i != k && i != kc implies #[trigger] v.num[i] == 0 by {
        assert(column.num[i] == g * v.num[i]);
        lemma_positive_factor(g, v.num[i]);
    }
    assert(c == g * vc);
    assert(s == g * vs);
    assert(d == g * vd);
    lemma_cross(g, vc, g, vc);
    lemma_cross(g, vs, g, vs);
    lemma_cross(g, vd, g, vd);
    let gg = g * g;
    lemma_positive_product(g, g);
    assert(vc * vc + vs * vs == vd * vd) by (nonlinear_arith)
        requires
            gg * (vc * vc) + gg * (vs * vs) == gg * (vd * vd),
            gg > 0,
    ;
    lemma_sparse(v.num[0], v.num[0]);
    lemma_sparse(v.num[1], v.num[1]);
    lemma_sparse(v.num[2], v.num[2]);
    lemma_sparse(v.num[3], v.num[3]);
    let q = sum_of_products4(v.num, v.num);
    assert(q == vc * vc + vs * vs);
    lemma_square_root_unique(vd, q);
    lemma_positive_product(vd, vd);
    let rest = q - vs * vs;
    assert(rest == vc * vc);
    lemma_positive_factor(g, vc);
    let found = raw_recovered(v, k);
    if c >= 0 {
        lemma_square_root_unique(vc, rest);
        assert(found.num =~= seq![vc, vs]);
        lemma_three(vc, g, vd);
        lemma_three(vs, g, vd);
        lemma_three(g, vc, vd);
        lemma_three(g, vs, vd);
        assert(found.same_value(r));
        lemma_reduces_to(found, r);
    } else {
        lemma_negated_factor(-vc, vc);
        lemma_negated_factor(vc, vc);
        lemma_pair(-vc, vc);
        assert((-vc) * (-vc) == vc * vc);
        lemma_square_root_unique(-vc, rest);
        assert(found.num =~= seq![-vc, vs]);
        let other = mirrored(r);
        lemma_three(-vc, g, vd);
        lemma_three(vs, g, vd);
        lemma_three(g, vs, vd);
        assert(-c == g * (-vc)) by {
            lemma_negated_factor(g, vc);
        }
        lemma_three(g, -vc, vd);
        assert(found.same_value(other));
        lemma_reduced_respects_value(found, other);
        // what was found has a positive cosine, the rotation a negative one
        lemma_reduced(found);
        let w = found.reduced();
        assert(w.num[0] * found.den == found.num[0] * w.den);
        if w == r {
            lemma_positive_product(-vc, d);
            lemma_positive_product(-c, vd);
            lemma_negated_factor(vd, c);
            lemma_pair(c, vd);
            lemma_pair(-c, vd);
            lemma_negated_factor(vd, -c);
            assert(false);
        }
    }
}

/// The frame that is made of one rotation denotes the unreduced matrix of the rotation.
proof fn lemma_rotation_alone(raw: Fractions, j: int)
    requires
        raw.num.len() == 16,
        raw.den > 0,
        0 <= j < 4,
    ensures
        column4(mul4(identity4(), raw.reduced()), j) == (Fractions {
            num: seq![raw.num[j], raw.num[4 + j], raw.num[8 + j], raw.num[12 + j]],
            den: raw.den,
        }).reduced(),
{
    lemma_reduced(raw);
    lemma_mul4_identity(raw.reduced());
    lemma_column4_respects_value(raw.reduced(), raw, j);
}

/// The domain of the rotation decomposition, about x: a frame that is built from the
/// identity by `rotate_x` alone gives back the rotation if its cosine is not negative, that
/// is from a quarter turn to one side to a quarter turn to the other; for any rotation
/// beyond that it gives back the mirrored rotation, which is another.
pub proof fn law_rotate_x_round_trip(r: Rotation)
    requires
        r.wf(),
    ensures
        ({
            let m = mul4(identity4(), rotation_x4(r@));
            &&& r@.num[0] >= 0 ==> rotation_outcome(column4(m, 1), 2, Ok(r))
            &&& r@.num[0] < 0 ==> raw_recovered(column4(m, 1), 2).reduced() == mirrored(
                r@,
            ).reduced() && !rotation_outcome(column4(m, 1), 2, Ok(r))
        }),
{
    let raw = raw_rotation_x4(r@);
    lemma_rotation_alone(raw, 1);
    let column = Fractions { num: seq![raw.num[1], raw.num[5], raw.num[9], raw.num[13]], den: raw.den };
    lemma_recovered_from_column(column, 1, 2, r@);
}

/// The domain of the rotation decomposition, about y.
pub proof fn law_rotate_y_round_trip(r: Rotation)
    requires
        r.wf(),
    ensures
        ({
            let m = mul4(identity4(), rotation_y4(r@));
            &&& r@.num[0] >= 0 ==> rotation_outcome(column4(m, 2), 0, Ok(r))
            &&& r@.num[0] < 0 ==> raw_recovered(column4(m, 2), 0).reduced() == mirrored(
                r@,
            ).reduced() && !rotation_outcome(column4(m, 2), 0, Ok(r))
        }),
{
    let raw = raw_rotation_y4(r@);
    lemma_rotation_alone(raw, 2);
    let column = Fractions { num: seq![raw.num[2], raw.num[6], raw.num[10], raw.num[14]], den: raw.den };
    lemma_recovered_from_column(column, 2, 0, r@);
}

/// The domain of the rotation decomposition, about z.
pub proof fn law_rotate_z_round_trip(r: Rotation)
    requires
        r.wf(),
    ensures
        ({
            let m = mul4(identity4(), rotation_z4(r@));
            &&& r@.num[0] >= 0 ==> rotation_outcome(column4(m, 0), 1, Ok(r))
            &&& r@.num[0] < 0 ==> raw_recovered(column4(m, 0), 1).reduced() == mirrored(
                r@,
            ).reduced() && !rotation_outcome(column4(m, 0), 1, Ok(r))
        }),
{
    let raw = raw_rotation_z4(r@);
    lemma_rotation_alone(raw, 0);
    let column = Fractions { num: seq![raw.num[0], raw.num[4], raw.num[8], raw.num[12]], den: raw.den };
    lemma_recovered_from_column(column, 0, 1, r@);
}

/// The matrix is that of an affine transform: its last row is `(0, 0, 0, 1)`.
pub open spec fn is_affine4(m: Fractions) -> bool {
    m.num[12] == 0 && m.num[13] == 0 && m.num[14] == 0 && m.num[15] == m.den
}

/// Taking the common factor out keeps the last row.
pub proof fn lemma_reduced_is_affine4(f: Fractions)
    requires
        is_matrix4(f),
        is_affine4(f),
    ensures
        is_affine4(f.reduced()),
{
    lemma_reduced(f);
    let g = f.content() as int;
    let r = f.reduced();
    assert(f.num[12] == g * r.num[12]);
    assert(f.num[13] == g * r.num[13]);
    assert(f.num[14] == g * r.num[14]);
    assert(f.num[15] == g * r.num[15]);
    lemma_positive_factor(g, r.num[12]);
    lemma_positive_factor(g, r.num[13]);
    lemma_positive_factor(g, r.num[14]);
    lemma_cancel(g, r.num[15], r.den);
}

/// The last row of the unreduced product of two affine matrices.
proof fn lemma_raw_mul4_is_affine(a: Fractions, b: Fractions)
    requires
        is_matrix4(a),
        is_matrix4(b),
        is_affine4(a),
        is_affine4(b),
    ensures
        is_affine4(raw_mul4(a, b)),
{
    let p = raw_mul4(a, b).num;
    assert forall|j: int| 0 <= j < 4 implies #[trigger] p[12 + j] == a.num[15] * b.num[12 + j] by {
        assert(p[12 + j] == dot4(a.num, b.num, 3, j));
        lemma_sparse(a.num[12], b.num[j]);
        lemma_sparse(a.num[13], b.num[4 + j]);
        lemma_sparse(a.num[14], b.num[8 + j]);
    }
    assert(p[12] == a.num[15] * b.num[12]);
    assert(p[13] == a.num[15] * b.num[13]);
    assert(p[14] == a.num[15] * b.num[14]);
    assert(p[15] == a.num[15] * b.num[15]);
    lemma_sparse(a.num[15], b.num[12]);
    lemma_sparse(a.num[15], b.num[13]);
    lemma_sparse(a.num[15], b.num[14]);
}

/// The identity and the elementary transforms are affine.
pub proof fn law_elementary_frames_are_affine(x: Scalar, y: Scalar, z: Scalar, r: Rotation)
    requires
        x.wf() && y.wf() && z.wf() && r.wf(),
    ensures
        is_affine4(identity4()),
        is_affine4(translation4(x@, y@, z@)),
        is_affine4(scaling4(x@, y@, z@)),
        is_affine4(rotation_x4(r@)),
        is_affine4(rotation_y4(r@)),
        is_affine4(rotation_z4(r@)),
{
    lemma_positive_product(y@.den, z@.den);
    lemma_positive_product(x@.den, y@.den * z@.den);
    lemma_unit_factor(x@.den * (y@.den * z@.den));
    lemma_reduced_is_affine4(raw_translation4(x@, y@, z@));
    lemma_reduced_is_affine4(raw_scaling4(x@, y@, z@));
    lemma_reduced_is_affine4(raw_rotation_x4(r@));
    lemma_reduced_is_affine4(raw_rotation_y4(r@));
    lemma_reduced_is_affine4(raw_rotation_z4(r@));
}

/// Affine frames stay affine: the product of two affine matrices is affine, the inverse of
/// one is, and so is the frame that a snap of affine frames gives. So every frame that is
/// built from the identity by rotating, translating, scaling and snapping has the last row
/// `(0, 0, 0, 1)`.
pub proof fn law_affine_frames_stay_affine(a: Matrix3D, b: Matrix3D, c: Matrix3D)
    requires
        a.wf() && b.wf() && c.wf(),
        is_affine4(a@) && is_affine4(b@) && is_affine4(c@),
    ensures
        is_affine4(mul4(a@, b@)),
        invertible4(a@) ==> is_affine4(inverse4(a@)),
        invertible4(a@) ==> is_affine4(snapped_frame(a@, b@, c@)),
{
    lemma_mul4_is_affine(a@, b@);
    if invertible4(a@) {
        lemma_inverse4_is_affine(a@);
        lemma_mul4_inverse(a@);
        lemma_mul4_is_affine(inverse4(a@), b@);
        lemma_mul4_is_matrix(inverse4(a@), b@);
        lemma_mul4_is_affine(mul4(inverse4(a@), b@), c@);
    }
}

/// The product of two affine matrices is affine.
pub proof fn lemma_mul4_is_affine(a: Fractions, b: Fractions)
    requires
        is_matrix4(a),
        is_matrix4(b),
        is_affine4(a),
        is_affine4(b),
    ensures
        is_affine4(mul4(a, b)),
{
    lemma_raw_mul4_is_affine(a, b);
    lemma_positive_product(a.den, b.den);
    lemma_reduced_is_affine4(raw_mul4(a, b));
}

/// The inverse of an affine matrix is affine.
pub proof fn lemma_inverse4_is_affine(a: Fractions)
    requires
        is_matrix4(a),
        is_affine4(a),
        invertible4(a),
    ensures
        is_affine4(inverse4(a)),
{
    let m = a.num;
    let raw = raw_inverse4(a);
    let adj = adjugate4(m);
    let k = if det4(m) > 0 {
        a.den
    } else {
        -a.den
    };
    // the cofactors of column 3 in rows 0 to 2 are determinants with a row of zeros
    assert(adj[12] == cofactor4(m, 0, 3));
    assert(adj[13] == cofactor4(m, 1, 3));
    assert(adj[14] == cofactor4(m, 2, 3));
    assert(adj[15] == cofactor4(m, 3, 3));
    lemma_det3_with_last_row_zero(m[4], m[5], m[6], m[8], m[9], m[10]);
    lemma_det3_with_last_row_zero(m[0], m[1], m[2], m[8], m[9], m[10]);
    lemma_det3_with_last_row_zero(m[0], m[1], m[2], m[4], m[5], m[6]);
    assert(adj[12] == 0 && adj[13] == 0 && adj[14] == 0);
    lemma_sparse(k, adj[12]);
    lemma_sparse(k, adj[13]);
    lemma_sparse(k, adj[14]);
    // the determinant, expanded along the last row
    lemma_cofactor_expansions(m);
    assert(row_expansion(m, 3, 3) == det4(m));
    lemma_sparse(m[12], cofactor4(m, 3, 0));
    lemma_sparse(m[13], cofactor4(m, 3, 1));
    lemma_sparse(m[14], cofactor4(m, 3, 2));
    assert(det4(m) == a.den * adj[15]);
    lemma_negated_factor(a.den, adj[15]);
    assert((-a.den) * adj[15] == -(a.den * adj[15])) by (nonlinear_arith);
    assert(raw.num[15] == k * adj[15]);
    assert(raw.num[15] == raw.den);
    assert(raw.den > 0);
    assert(raw.num.len() == 16);
    lemma_reduced_is_affine4(raw);
}

/// A 3x3 determinant whose last row is zero is zero.
proof fn lemma_det3_with_last_row_zero(a: int, b: int, c: int, d: int, e: int, f: int)
    ensures
        det3(a, b, c, d, e, f, 0, 0, 0) == 0,
{
    lemma_sparse(e, 0);
    lemma_sparse(f, 0);
    lemma_sparse(d, 0);
    lemma_sparse(a, 0);
    lemma_sparse(b, 0);
    lemma_sparse(c, 0);
}

/// The matrix has the shape of a translation: the denominator on the diagonal, offsets in
/// column 3, zero elsewhere.
pub open spec fn translation_shaped(m: Fractions) -> bool {
    &&& m.num.len() == 16
    &&& m.den > 0
    &&& m.num[0] == m.den && m.num[5] == m.den && m.num[10] == m.den && m.num[15] == m.den
    &&& m.num[1] == 0 && m.num[2] == 0 && m.num[4] == 0 && m.num[6] == 0 && m.num[8] == 0
    &&& m.num[9] == 0 && m.num[12] == 0 && m.num[13] == 0 && m.num[14] == 0
}

/// The matrix has the shape of a scaling: factors on the diagonal, the denominator in the
/// last place, zero elsewhere.
pub open spec fn scaling_shaped(m: Fractions) -> bool {
    &&& m.num.len() == 16
    &&& m.den > 0
    &&& m.num[15] == m.den
    &&& m.num[1] == 0 && m.num[2] == 0 && m.num[3] == 0 && m.num[4] == 0 && m.num[6] == 0
    &&& m.num[7] == 0 && m.num[8] == 0 && m.num[9] == 0 && m.num[11] == 0 && m.num[12] == 0
    &&& m.num[13] == 0 && m.num[14] == 0
}

/// The terms of every entry of a product in which a factor is zero are zero.
proof fn lemma_sparse_product(a: Fractions, b: Fractions)
    requires
        a.num.len() == 16,
        b.num.len() == 16,
    ensures
        forall|k: int|
            0 <= k < 16 ==> #[trigger] raw_mul4(a, b).num[k] == dot4(a.num, b.num, k / 4, k % 4),
        forall|i: int, j: int|
            0 <= i < 16 && 0 <= j < 16 && (a.num[i] == 0 || b.num[j] == 0) ==> #[trigger] (a.num[i]
                * b.num[j]) == 0,
{
    assert forall|i: int, j: int|
        0 <= i < 16 && 0 <= j < 16 && (a.num[i] == 0 || b.num[j] == 0) implies #[trigger] (a.num[i]
        * b.num[j]) == 0 by {
        lemma_sparse(a.num[i], b.num[j]);
    }
}

/// The product of two matrices of the shape of a translation has that shape, and the sums
/// of the offsets as its offsets.
proof fn lemma_translation_shaped_product(a: Fractions, b: Fractions)
    requires
        translation_shaped(a),
        translation_shaped(b),
    ensures
        translation_shaped(raw_mul4(a, b)),
        raw_mul4(a, b).num[3] == a.den * b.num[3] + a.num[3] * b.den,
        raw_mul4(a, b).num[7] == a.den * b.num[7] + a.num[7] * b.den,
        raw_mul4(a, b).num[11] == a.den * b.num[11] + a.num[11] * b.den,
{
    let p = raw_mul4(a, b).num;
    lemma_sparse_product(a, b);
    lemma_positive_product(a.den, b.den);
    assert(p[0] == dot4(a.num, b.num, 0, 0));
    assert(p[1] == dot4(a.num, b.num, 0, 1));
    assert(p[2] == dot4(a.num, b.num, 0, 2));
    assert(p[3] == dot4(a.num, b.num, 0, 3));
    assert(p[4] == dot4(a.num, b.num, 1, 0));
    assert(p[5] == dot4(a.num, b.num, 1, 1));
    assert(p[6] == dot4(a.num, b.num, 1, 2));
    assert(p[7] == dot4(a.num, b.num, 1, 3));
    assert(p[8] == dot4(a.num, b.num, 2, 0));
    assert(p[9] == dot4(a.num, b.num, 2, 1));
    assert(p[10] == dot4(a.num, b.num, 2, 2));
    assert(p[11] == dot4(a.num, b.num, 2, 3));
    assert(p[12] == dot4(a.num, b.num, 3, 0));
    assert(p[13] == dot4(a.num, b.num, 3, 1));
    assert(p[14] == dot4(a.num, b.num, 3, 2));
    assert(p[15] == dot4(a.num, b.num, 3, 3));
}

/// The product of two matrices of the shape of a scaling has that shape, and the products
/// of the factors as its factors.
proof fn lemma_scaling_shaped_product(a: Fractions, b: Fractions)
    requires
        scaling_shaped(a),
        scaling_shaped(b),
    ensures
        scaling_shaped(raw_mul4(a, b)),
        raw_mul4(a, b).num[0] == a.num[0] * b.num[0],
        raw_mul4(a, b).num[5] == a.num[5] * b.num[5],
        raw_mul4(a, b).num[10] == a.num[10] * b.num[10],
{
    let p = raw_mul4(a, b).num;
    lemma_sparse_product(a, b);
    lemma_positive_product(a.den, b.den);
    assert(p[0] == dot4(a.num, b.num, 0, 0));
    assert(p[1] == dot4(a.num, b.num, 0, 1));
    assert(p[2] == dot4(a.num, b.num, 0, 2));
    assert(p[3] == dot4(a.num, b.num, 0, 3));
    assert(p[4] == dot4(a.num, b.num, 1, 0));
    assert(p[5] == dot4(a.num, b.num, 1, 1));
    assert(p[6] == dot4(a.num, b.num, 1, 2));
    assert(p[7] == dot4(a.num, b.num, 1, 3));
    assert(p[8] == dot4(a.num, b.num, 2, 0));
    assert(p[9] == dot4(a.num, b.num, 2, 1));
    assert(p[10] == dot4(a.num, b.num, 2, 2));
    assert(p[11] == dot4(a.num, b.num, 2, 3));
    assert(p[12] == dot4(a.num, b.num, 3, 0));
    assert(p[13] == dot4(a.num, b.num, 3, 1));
    assert(p[14] == dot4(a.num, b.num, 3, 2));
    assert(p[15] == dot4(a.num, b.num, 3, 3));
}

/// The product of three matrices, each reduced, is the reduced product of the unreduced
/// three.
proof fn lemma_product_of_three(a: Fractions, b: Fractions, c: Fractions)
    requires
        is_matrix4(a),
        is_matrix4(b),
        is_matrix4(c),
    ensures
        mul4(mul4(a.reduced(), b.reduced()), c.reduced()) == raw_mul4(raw_mul4(a, b), c).reduced(),
{
    lemma_product_of_two(a, b);
    lemma_reduced(c);
    let ab = mul4(a.reduced(), b.reduced());
    assert(c.reduced().same_value(c));
    lemma_raw_mul4_respects_value(ab, c.reduced(), raw_mul4(a, b), c);
    lemma_positive_product(ab.den, c.reduced().den);
    lemma_positive_product(raw_mul4(a, b).den, c.den);
    lemma_reduced_respects_value(raw_mul4(ab, c.reduced()), raw_mul4(raw_mul4(a, b), c));
}

/// Translations along the three axes commute into one: a frame that is translated along
/// x, then along y, then along z is the frame that is translated by `(x, y, z)` at once.
pub proof fn law_translate_axis_by_axis(m: Matrix3D, x: Scalar, y: Scalar, z: Scalar)
    requires
        m.wf(),
        x.wf() && y.wf() && z.wf(),
    ensures
        mul4(
            mul4(mul4(m@, translation4(x@, zero(), zero())), translation4(zero(), y@, zero())),
            translation4(zero(), zero(), z@),
        ) == mul4(m@, translation4(x@, y@, z@)),
{
    let a = raw_translation4(x@, zero(), zero());
    let b = raw_translation4(zero(), y@, zero());
    let c = raw_translation4(zero(), zero(), z@);
    let t = raw_translation4(x@, y@, z@);
    let xn = x@.num[0];
    let yn = y@.num[0];
    let zn = z@.num[0];
    let xd = x@.den;
    let yd = y@.den;
    let zd = z@.den;
    lemma_unit_factor(xd);
    lemma_unit_factor(yd);
    lemma_unit_factor(zd);
    lemma_unit_factor(xn);
    lemma_unit_factor(yn);
    lemma_unit_factor(zn);
    lemma_unit_factor(1);
    assert(a.den == xd && a.num[3] == xn && a.num[7] == 0 && a.num[11] == 0);
    assert(b.den == yd && b.num[3] == 0 && b.num[7] == yn && b.num[11] == 0);
    assert(c.den == zd && c.num[3] == 0 && c.num[7] == 0 && c.num[11] == zn);
    lemma_positive_product(yd, zd);
    lemma_positive_product(xd, yd * zd);
    lemma_translation_shaped_product(a, b);
    let ab = raw_mul4(a, b);
    lemma_translation_shaped_product(ab, c);
    let p = raw_mul4(ab, c);
    lemma_sparse(xd, 0);
    lemma_sparse(0, yd);
    lemma_sparse(0, zd);
    lemma_sparse(xd * yd, 0);
    assert(ab.num[3] == xn * yd && ab.num[7] == xd * yn && ab.num[11] == 0);
    assert(p.num[3] == (xn * yd) * zd && p.num[7] == (xd * yn) * zd && p.num[11] == (xd * yd)
        * zn);
    assert(p.den == (xd * yd) * zd);
    lemma_three(xd, yd, zd);
    lemma_three(xn, yd, zd);
    assert((xd * yn) * zd == yn * (xd * zd)) by (nonlinear_arith);
    assert((xd * yd) * zn == zn * (xd * yd)) by (nonlinear_arith);
    assert(p.den == t.den);
    assert(p.num =~= t.num);
    assert(p == t);
    lemma_product_of_three(a, b, c);
    // and the frame in front
    let ta = translation4(x@, zero(), zero());
    let tb = translation4(zero(), y@, zero());
    let tc = translation4(zero(), zero(), z@);
    lemma_reduced(a);
    lemma_reduced(b);
    lemma_reduced(c);
    lemma_mul4_is_matrix(m@, ta);
    lemma_mul4_is_matrix(ta, tb);
    lemma_mul4_associative(m@, ta, tb);
    lemma_mul4_associative(m@, mul4(ta, tb), tc);
}

/// Scalings along the three axes commute into one: a frame that is scaled along x, then
/// along y, then along z is the frame that is scaled by `(x, y, z)` at once.
pub proof fn law_scale_axis_by_axis(m: Matrix3D, x: Scalar, y: Scalar, z: Scalar)
    requires
        m.wf(),
        x.wf() && y.wf() && z.wf(),
    ensures
        mul4(
            mul4(mul4(m@, scaling4(x@, one(), one())), scaling4(one(), y@, one())),
            scaling4(one(), one(), z@),
        ) == mul4(m@, scaling4(x@, y@, z@)),
{
    let a = raw_scaling4(x@, one(), one());
    let b = raw_scaling4(one(), y@, one());
    let c = raw_scaling4(one(), one(), z@);
    let t = raw_scaling4(x@, y@, z@);
    let xn = x@.num[0];
    let yn = y@.num[0];
    let zn = z@.num[0];
    let xd = x@.den;
    let yd = y@.den;
    let zd = z@.den;
    lemma_unit_factor(xd);
    lemma_unit_factor(yd);
    lemma_unit_factor(zd);
    lemma_unit_factor(xn);
    lemma_unit_factor(yn);
    lemma_unit_factor(zn);
    lemma_unit_factor(1);
    assert(a.den == xd && a.num[0] == xn && a.num[5] == xd && a.num[10] == xd);
    assert(b.den == yd && b.num[0] == yd && b.num[5] == yn && b.num[10] == yd);
    assert(c.den == zd && c.num[0] == zd && c.num[5] == zd && c.num[10] == zn);
    lemma_positive_product(yd, zd);
    lemma_positive_product(xd, yd * zd);
    lemma_scaling_shaped_product(a, b);
    let ab = raw_mul4(a, b);
    lemma_scaling_shaped_product(ab, c);
    let p = raw_mul4(ab, c);
    assert(p.num[0] == (xn * yd) * zd && p.num[5] == (xd * yn) * zd && p.num[10] == (xd * yd)
        * zn);
    assert(p.den == (xd * yd) * zd);
    lemma_three(xd, yd, zd);
    lemma_three(xn, yd, zd);
    assert((xd * yn) * zd == yn * (xd * zd)) by (nonlinear_arith);
    assert((xd * yd) * zn == zn * (xd * yd)) by (nonlinear_arith);
    assert(p.den == t.den);
    assert(p.num =~= t.num);
    assert(p == t);
    lemma_product_of_three(a, b, c);
    let ta = scaling4(x@, one(), one());
    let tb = scaling4(one(), y@, one());
    let tc = scaling4(one(), one(), z@);
    lemma_reduced(a);
    lemma_reduced(b);
    lemma_reduced(c);
    lemma_mul4_is_matrix(m@, ta);
    lemma_mul4_is_matrix(ta, tb);
    lemma_mul4_associative(m@, ta, tb);
    lemma_mul4_associative(m@, mul4(ta, tb), tc);
}

} // verus!
