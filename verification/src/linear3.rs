//! The algebra of 3x3 matrices of rationals, the transforms of the plane: nine numerators,
//! stored row by row, over one denominator.
//!
//! The functions on sequences work on the numerators alone; those on `Fractions` carry the
//! denominator along and do not reduce. `mul3`, `inverse3` and `identity3` are the reduced
//! operations that the matrix type is specified with, and the laws at the end of the file
//! are stated of them.

use crate::determinant3::{
    cofactor3, column_expansion3, det9, lemma_cofactor_expansions3, row_expansion3,
};
use crate::divisor::scaled;
use crate::fraction::{
    lemma_lowest_is_reduced, lemma_reduced, lemma_reduced_respects_value,
    lemma_same_value_transitive, Fractions,
};
use crate::linear4::{
    lemma_gcd_fold_of_one, lemma_positive_product, lemma_term_respects_value, lemma_unit_factor,
};
use crate::product::{lemma_distribute3, lemma_pair, lemma_three};
use vstd::prelude::*;

verus! {

/// Row `i` of `a` times column `j` of `b`.
pub open spec fn dot3(a: Seq<int>, b: Seq<int>, i: int, j: int) -> int {
    a[3 * i] * b[j] + a[3 * i + 1] * b[3 + j] + a[3 * i + 2] * b[6 + j]
}

/// The numerators of the matrix product: rows of `a` times columns of `b`.
pub open spec fn product3(a: Seq<int>, b: Seq<int>) -> Seq<int> {
    Seq::new(9, |t: int| dot3(a, b, t / 3, t % 3))
}

/// The numerators of the identity matrix.
pub open spec fn unit3() -> Seq<int> {
    Seq::new(
        9,
        |t: int|
            if t / 3 == t % 3 {
                1int
            } else {
                0int
            },
    )
}

/// The transposed matrix of cofactors.
pub open spec fn adjugate3(m: Seq<int>) -> Seq<int> {
    Seq::new(9, |t: int| cofactor3(m, t % 3, t / 3))
}

/// The matrix is a 3x3 matrix of rationals: nine numerators over a positive denominator.
pub open spec fn is_matrix3(a: Fractions) -> bool {
    a.num.len() == 9 && a.den > 0
}

/// The matrix product, not reduced.
pub open spec fn raw_mul3(a: Fractions, b: Fractions) -> Fractions {
    Fractions { num: product3(a.num, b.num), den: a.den * b.den }
}

/// The inverse of a matrix whose determinant is not zero, not reduced.
pub open spec fn raw_inverse3(a: Fractions) -> Fractions {
    let det = det9(a.num);
    if det > 0 {
        Fractions { num: scaled(adjugate3(a.num), a.den), den: det }
    } else {
        Fractions { num: scaled(adjugate3(a.num), -a.den), den: -det }
    }
}

/// The identity matrix.
pub open spec fn identity3() -> Fractions {
    Fractions { num: unit3(), den: 1 }
}

/// The matrix product `a * b`, rows of `a` times columns of `b`, in lowest terms.
pub open spec fn mul3(a: Fractions, b: Fractions) -> Fractions {
    raw_mul3(a, b).reduced()
}

/// The inverse of a matrix whose determinant is not zero, in lowest terms.
pub open spec fn inverse3(a: Fractions) -> Fractions {
    raw_inverse3(a).reduced()
}

/// The matrix has an inverse: its determinant is not zero.
pub open spec fn invertible3(a: Fractions) -> bool {
    det9(a.num) != 0
}

/// The entry of a product at row `i` and column `j`.
pub proof fn lemma_product3_entry(a: Seq<int>, b: Seq<int>, i: int, j: int)
    requires
        0 <= i < 3,
        0 <= j < 3,
    ensures
        product3(a, b)[3 * i + j] == dot3(a, b, i, j),
        product3(a, b).len() == 9,
{
    assert((3 * i + j) / 3 == i);
    assert((3 * i + j) % 3 == j);
}

/// Grouping does not matter in a product of a row, a matrix and a column.
proof fn lemma_dot_associative(a: Seq<int>, b: Seq<int>, c: Seq<int>, i: int, j: int)
    requires
        a.len() == 9,
        b.len() == 9,
        c.len() == 9,
        0 <= i < 3,
        0 <= j < 3,
    ensures
        dot3(product3(a, b), c, i, j) == dot3(a, product3(b, c), i, j),
{
    let a0 = a[3 * i];
    let a1 = a[3 * i + 1];
    let a2 = a[3 * i + 2];
    let c0 = c[j];
    let c1 = c[3 + j];
    let c2 = c[6 + j];
    lemma_product3_entry(a, b, i, 0);
    lemma_product3_entry(a, b, i, 1);
    lemma_product3_entry(a, b, i, 2);
    lemma_product3_entry(b, c, 0, j);
    lemma_product3_entry(b, c, 1, j);
    lemma_product3_entry(b, c, 2, j);
    lemma_distribute3(c0, a0 * b[0], a1 * b[3], a2 * b[6]);
    lemma_distribute3(c1, a0 * b[1], a1 * b[4], a2 * b[7]);
    lemma_distribute3(c2, a0 * b[2], a1 * b[5], a2 * b[8]);
    lemma_distribute3(a0, b[0] * c0, b[1] * c1, b[2] * c2);
    lemma_distribute3(a1, b[3] * c0, b[4] * c1, b[5] * c2);
    lemma_distribute3(a2, b[6] * c0, b[7] * c1, b[8] * c2);
    lemma_three(a0, b[0], c0);
    lemma_three(a0, b[1], c1);
    lemma_three(a0, b[2], c2);
    lemma_three(a1, b[3], c0);
    lemma_three(a1, b[4], c1);
    lemma_three(a1, b[5], c2);
    lemma_three(a2, b[6], c0);
    lemma_three(a2, b[7], c1);
    lemma_three(a2, b[8], c2);
}

/// The product of numerators is associative.
pub proof fn lemma_product3_associative(a: Seq<int>, b: Seq<int>, c: Seq<int>)
    requires
        a.len() == 9,
        b.len() == 9,
        c.len() == 9,
    ensures
        product3(product3(a, b), c) == product3(a, product3(b, c)),
{
    let left = product3(product3(a, b), c);
    let right = product3(a, product3(b, c));
    assert forall|t: int| 0 <= t < 9 implies left[t] == right[t] by {
        lemma_dot_associative(a, b, c, t / 3, t % 3);
    }
    assert(left =~= right);
}

/// The unit matrix is neutral on both sides.
pub proof fn lemma_product3_unit(a: Seq<int>)
    requires
        a.len() == 9,
    ensures
        product3(unit3(), a) == a,
        product3(a, unit3()) == a,
{
    let u = unit3();
    assert forall|t: int| 0 <= t < 9 implies product3(u, a)[t] == a[t] && product3(a, u)[t]
        == a[t] by {
        let i = t / 3;
        let j = t % 3;
        assert(t == 3 * i + j);
        lemma_unit_factor(a[j]);
        lemma_unit_factor(a[3 + j]);
        lemma_unit_factor(a[6 + j]);
        lemma_unit_factor(a[3 * i]);
        lemma_unit_factor(a[3 * i + 1]);
        lemma_unit_factor(a[3 * i + 2]);
        assert(u[3 * i] == (if i == 0 { 1int } else { 0int }));
        assert(u[3 * i + 1] == (if i == 1 { 1int } else { 0int }));
        assert(u[3 * i + 2] == (if i == 2 { 1int } else { 0int }));
        assert(u[j] == (if j == 0 { 1int } else { 0int }));
        assert(u[3 + j] == (if j == 1 { 1int } else { 0int }));
        assert(u[6 + j] == (if j == 2 { 1int } else { 0int }));
    }
    assert(product3(u, a) =~= a);
    assert(product3(a, u) =~= a);
}

/// A matrix times its adjugate, on either side, is the determinant times the unit matrix.
pub proof fn lemma_product3_adjugate(m: Seq<int>)
    requires
        m.len() == 9,
    ensures
        product3(m, adjugate3(m)) == scaled(unit3(), det9(m)),
        product3(adjugate3(m), m) == scaled(unit3(), det9(m)),
{
    let adj = adjugate3(m);
    let target = scaled(unit3(), det9(m));
    lemma_cofactor_expansions3(m);
    assert forall|t: int| 0 <= t < 9 implies product3(m, adj)[t] == target[t] && product3(
        adj,
        m,
    )[t] == target[t] by {
        let i = t / 3;
        let j = t % 3;
        assert(t == 3 * i + j);
        lemma_unit_factor(det9(m));
        assert(adj[j] == cofactor3(m, j, 0));
        assert(adj[3 + j] == cofactor3(m, j, 1));
        assert(adj[6 + j] == cofactor3(m, j, 2));
        assert(dot3(m, adj, i, j) == row_expansion3(m, i, j));
        assert(adj[3 * i] == cofactor3(m, 0, i));
        assert(adj[3 * i + 1] == cofactor3(m, 1, i));
        assert(adj[3 * i + 2] == cofactor3(m, 2, i));
        lemma_pair(adj[3 * i], m[j]);
        lemma_pair(adj[3 * i + 1], m[3 + j]);
        lemma_pair(adj[3 * i + 2], m[6 + j]);
        assert(dot3(adj, m, i, j) == column_expansion3(m, i, j));
    }
    assert(product3(m, adj) =~= target);
    assert(product3(adj, m) =~= target);
}

/// A common factor of one matrix is a common factor of the product.
pub proof fn lemma_product3_scaled(a: Seq<int>, b: Seq<int>, k: int)
    requires
        a.len() == 9,
        b.len() == 9,
    ensures
        product3(scaled(a, k), b) == scaled(product3(a, b), k),
        product3(a, scaled(b, k)) == scaled(product3(a, b), k),
{
    let ka = scaled(a, k);
    let kb = scaled(b, k);
    let target = scaled(product3(a, b), k);
    assert forall|t: int| 0 <= t < 9 implies product3(ka, b)[t] == target[t] && product3(a, kb)[t]
        == target[t] by {
        let i = t / 3;
        let j = t % 3;
        assert(t == 3 * i + j);
        let a0 = a[3 * i];
        let a1 = a[3 * i + 1];
        let a2 = a[3 * i + 2];
        let b0 = b[j];
        let b1 = b[3 + j];
        let b2 = b[6 + j];
        lemma_distribute3(k, a0 * b0, a1 * b1, a2 * b2);
        lemma_three(k, a0, b0);
        lemma_three(k, a1, b1);
        lemma_three(k, a2, b2);
        lemma_three(a0, k, b0);
        lemma_three(a1, k, b1);
        lemma_three(a2, k, b2);
    }
    assert(product3(ka, b) =~= target);
    assert(product3(a, kb) =~= target);
}

/// Matrices that denote the same rationals have products that denote the same rationals.
pub proof fn lemma_raw_mul3_respects_value(a: Fractions, b: Fractions, p: Fractions, q: Fractions)
    requires
        a.num.len() == 9,
        b.num.len() == 9,
        a.same_value(p),
        b.same_value(q),
    ensures
        raw_mul3(a, b).same_value(raw_mul3(p, q)),
{
    let left = raw_mul3(a, b);
    let right = raw_mul3(p, q);
    assert forall|t: int| 0 <= t < 9 implies #[trigger] left.num[t] * right.den
        == #[trigger] right.num[t] * left.den by {
        let i = t / 3;
        let j = t % 3;
        assert(t == 3 * i + j);
        lemma_term_respects_value(
            a.num[3 * i],
            b.num[j],
            p.num[3 * i],
            q.num[j],
            a.den,
            b.den,
            p.den,
            q.den,
        );
        lemma_term_respects_value(
            a.num[3 * i + 1],
            b.num[3 + j],
            p.num[3 * i + 1],
            q.num[3 + j],
            a.den,
            b.den,
            p.den,
            q.den,
        );
        lemma_term_respects_value(
            a.num[3 * i + 2],
            b.num[6 + j],
            p.num[3 * i + 2],
            q.num[6 + j],
            a.den,
            b.den,
            p.den,
            q.den,
        );
        lemma_distribute3(
            p.den * q.den,
            a.num[3 * i] * b.num[j],
            a.num[3 * i + 1] * b.num[3 + j],
            a.num[3 * i + 2] * b.num[6 + j],
        );
        lemma_distribute3(
            a.den * b.den,
            p.num[3 * i] * q.num[j],
            p.num[3 * i + 1] * q.num[3 + j],
            p.num[3 * i + 2] * q.num[6 + j],
        );
    }
}

/// The identity matrix is in lowest terms.
pub proof fn lemma_identity3_lowest()
    ensures
        identity3().lowest(),
        identity3().num.len() == 9,
{
    lemma_gcd_fold_of_one(unit3());
}

/// Associativity: `(a * b) * c == a * (b * c)`.
pub proof fn lemma_mul3_associative(a: Fractions, b: Fractions, c: Fractions)
    requires
        is_matrix3(a),
        is_matrix3(b),
        is_matrix3(c),
    ensures
        mul3(mul3(a, b), c) == mul3(a, mul3(b, c)),
{
    let ab = raw_mul3(a, b);
    let bc = raw_mul3(b, c);
    lemma_positive_product(a.den, b.den);
    lemma_positive_product(b.den, c.den);
    lemma_reduced(ab);
    lemma_reduced(bc);
    // (ab reduced) * c denotes what (ab) * c denotes
    assert(c.same_value(c));
    assert(a.same_value(a));
    lemma_raw_mul3_respects_value(ab.reduced(), c, ab, c);
    lemma_raw_mul3_respects_value(a, bc.reduced(), a, bc);
    lemma_product3_associative(a.num, b.num, c.num);
    lemma_three(a.den, b.den, c.den);
    assert(raw_mul3(ab, c) == raw_mul3(a, bc));
    lemma_positive_product(ab.reduced().den, c.den);
    lemma_positive_product(a.den, bc.reduced().den);
    lemma_positive_product(ab.den, c.den);
    lemma_reduced_respects_value(raw_mul3(ab.reduced(), c), raw_mul3(ab, c));
    lemma_reduced_respects_value(raw_mul3(a, bc.reduced()), raw_mul3(a, bc));
}

/// The identity law: `identity * a == a` and `a * identity == a`.
pub proof fn lemma_mul3_identity(a: Fractions)
    requires
        a.num.len() == 9,
        a.lowest(),
    ensures
        mul3(identity3(), a) == a,
        mul3(a, identity3()) == a,
{
    lemma_product3_unit(a.num);
    lemma_unit_factor(a.den);
    assert(raw_mul3(identity3(), a) == a);
    assert(raw_mul3(a, identity3()) == a);
    lemma_lowest_is_reduced(a);
}

/// The inverse law: `inverse(a) * a == identity` and `a * inverse(a) == identity`.
pub proof fn lemma_mul3_inverse(a: Fractions)
    requires
        is_matrix3(a),
        invertible3(a),
    ensures
        inverse3(a).lowest(),
        inverse3(a).num.len() == 9,
        mul3(inverse3(a), a) == identity3(),
        mul3(a, inverse3(a)) == identity3(),
{
    let det = det9(a.num);
    let adj = adjugate3(a.num);
    let raw = raw_inverse3(a);
    let k = if det > 0 {
        a.den
    } else {
        -a.den
    };
    assert(raw.num == scaled(adj, k));
    assert(raw.den > 0);
    lemma_reduced(raw);
    let inv = inverse3(a);
    assert(a.same_value(a));
    lemma_raw_mul3_respects_value(inv, a, raw, a);
    lemma_raw_mul3_respects_value(a, inv, a, raw);
    lemma_product3_adjugate(a.num);
    lemma_product3_scaled(adj, a.num, k);
    lemma_product3_scaled(a.num, adj, k);
    let one = identity3();
    let left = raw_mul3(raw, a);
    let right = raw_mul3(a, raw);
    lemma_pair(raw.den, a.den);
    assert forall|t: int| 0 <= t < 9 implies #[trigger] left.num[t] * one.den
        == #[trigger] one.num[t] * left.den && #[trigger] right.num[t] * one.den == one.num[t]
        * right.den by {
        let u = unit3()[t];
        assert(left.num[t] == k * (det * u));
        assert(right.num[t] == k * (det * u));
        lemma_unit_factor(left.num[t]);
        lemma_unit_factor(left.den);
        lemma_unit_factor(k * det);
        lemma_three(k, det, u);
        if det > 0 {
        } else {
            assert(k * det == (-det) * a.den) by (nonlinear_arith)
                requires
                    k == -a.den,
            ;
        }
        lemma_pair(det, a.den);
    }
    assert(left.same_value(one));
    assert(right.same_value(one));
    lemma_positive_product(raw.den, a.den);
    lemma_positive_product(inv.den, a.den);
    lemma_positive_product(a.den, inv.den);
    lemma_same_value_transitive(raw_mul3(inv, a), left, one);
    lemma_same_value_transitive(raw_mul3(a, inv), right, one);
    lemma_identity3_lowest();
    lemma_lowest_is_reduced(one);
    lemma_reduced_respects_value(raw_mul3(inv, a), one);
    lemma_reduced_respects_value(raw_mul3(a, inv), one);
}

} // verus!
