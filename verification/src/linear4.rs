//! The algebra of 4x4 matrices of rationals: sixteen numerators, stored row by row, over one
//! denominator.
//!
//! The functions on sequences work on the numerators alone; those on `Fractions` carry the
//! denominator along and do not reduce. `mul4`, `inverse4` and `identity4` are the reduced
//! operations that the matrix type is specified with, and the laws at the end of the file
//! are stated of them.

use crate::determinant::{
    cofactor4, column_expansion, det4, lemma_cofactor_expansions, row_expansion,
};
use crate::divisor::{gcd_fold, lemma_gcd_one_right, scaled};
use crate::fraction::{
    lemma_lowest_is_reduced, lemma_reduced, lemma_reduced_respects_value,
    lemma_same_value_transitive, Fractions,
};
use crate::product::{lemma_cross, lemma_distribute4, lemma_pair, lemma_three};
use vstd::prelude::*;

verus! {

/// Row `i` of `a` times column `j` of `b`.
pub open spec fn dot4(a: Seq<int>, b: Seq<int>, i: int, j: int) -> int {
    a[4 * i] * b[j] + a[4 * i + 1] * b[4 + j] + a[4 * i + 2] * b[8 + j] + a[4 * i + 3] * b[12 + j]
}

/// The numerators of the matrix product: rows of `a` times columns of `b`.
pub open spec fn product4(a: Seq<int>, b: Seq<int>) -> Seq<int> {
    Seq::new(16, |t: int| dot4(a, b, t / 4, t % 4))
}

/// The numerators of the identity matrix.
pub open spec fn unit4() -> Seq<int> {
    Seq::new(
        16,
        |t: int|
            if t / 4 == t % 4 {
                1int
            } else {
                0int
            },
    )
}

/// The transposed matrix of cofactors.
pub open spec fn adjugate4(m: Seq<int>) -> Seq<int> {
    Seq::new(16, |t: int| cofactor4(m, t % 4, t / 4))
}

/// The matrix is a 4x4 matrix of rationals: sixteen numerators over a positive denominator.
pub open spec fn is_matrix4(a: Fractions) -> bool {
    a.num.len() == 16 && a.den > 0
}

/// The matrix product, not reduced.
pub open spec fn raw_mul4(a: Fractions, b: Fractions) -> Fractions {
    Fractions { num: product4(a.num, b.num), den: a.den * b.den }
}

/// The inverse of a matrix whose determinant is not zero, not reduced.
pub open spec fn raw_inverse4(a: Fractions) -> Fractions {
    let det = det4(a.num);
    if det > 0 {
        Fractions { num: scaled(adjugate4(a.num), a.den), den: det }
    } else {
        Fractions { num: scaled(adjugate4(a.num), -a.den), den: -det }
    }
}

/// The identity matrix.
pub open spec fn identity4() -> Fractions {
    Fractions { num: unit4(), den: 1 }
}

/// The matrix product `a * b`, rows of `a` times columns of `b`, in lowest terms.
pub open spec fn mul4(a: Fractions, b: Fractions) -> Fractions {
    raw_mul4(a, b).reduced()
}

/// The inverse of a matrix whose determinant is not zero, in lowest terms.
pub open spec fn inverse4(a: Fractions) -> Fractions {
    raw_inverse4(a).reduced()
}

/// The matrix has an inverse: its determinant is not zero.
pub open spec fn invertible4(a: Fractions) -> bool {
    det4(a.num) != 0
}

/// The entry of a product at row `i` and column `j`.
pub proof fn lemma_product4_entry(a: Seq<int>, b: Seq<int>, i: int, j: int)
    requires
        0 <= i < 4,
        0 <= j < 4,
    ensures
        product4(a, b)[4 * i + j] == dot4(a, b, i, j),
        product4(a, b).len() == 16,
{
    assert((4 * i + j) / 4 == i);
    assert((4 * i + j) % 4 == j);
}

/// Grouping does not matter in a product of a row, a matrix and a column.
proof fn lemma_dot_associative(a: Seq<int>, b: Seq<int>, c: Seq<int>, i: int, j: int)
    requires
        a.len() == 16,
        b.len() == 16,
        c.len() == 16,
        0 <= i < 4,
        0 <= j < 4,
    ensures
        dot4(product4(a, b), c, i, j) == dot4(a, product4(b, c), i, j),
{
    let a0 = a[4 * i];
    let a1 = a[4 * i + 1];
    let a2 = a[4 * i + 2];
    let a3 = a[4 * i + 3];
    let c0 = c[j];
    let c1 = c[4 + j];
    let c2 = c[8 + j];
    let c3 = c[12 + j];
    lemma_product4_entry(a, b, i, 0);
    lemma_product4_entry(a, b, i, 1);
    lemma_product4_entry(a, b, i, 2);
    lemma_product4_entry(a, b, i, 3);
    lemma_product4_entry(b, c, 0, j);
    lemma_product4_entry(b, c, 1, j);
    lemma_product4_entry(b, c, 2, j);
    lemma_product4_entry(b, c, 3, j);
    lemma_distribute4(c0, a0 * b[0], a1 * b[4], a2 * b[8], a3 * b[12]);
    lemma_distribute4(c1, a0 * b[1], a1 * b[5], a2 * b[9], a3 * b[13]);
    lemma_distribute4(c2, a0 * b[2], a1 * b[6], a2 * b[10], a3 * b[14]);
    lemma_distribute4(c3, a0 * b[3], a1 * b[7], a2 * b[11], a3 * b[15]);
    lemma_distribute4(a0, b[0] * c0, b[1] * c1, b[2] * c2, b[3] * c3);
    lemma_distribute4(a1, b[4] * c0, b[5] * c1, b[6] * c2, b[7] * c3);
    lemma_distribute4(a2, b[8] * c0, b[9] * c1, b[10] * c2, b[11] * c3);
    lemma_distribute4(a3, b[12] * c0, b[13] * c1, b[14] * c2, b[15] * c3);
    lemma_three(a0, b[0], c0);
    lemma_three(a0, b[1], c1);
    lemma_three(a0, b[2], c2);
    lemma_three(a0, b[3], c3);
    lemma_three(a1, b[4], c0);
    lemma_three(a1, b[5], c1);
    lemma_three(a1, b[6], c2);
    lemma_three(a1, b[7], c3);
    lemma_three(a2, b[8], c0);
    lemma_three(a2, b[9], c1);
    lemma_three(a2, b[10], c2);
    lemma_three(a2, b[11], c3);
    lemma_three(a3, b[12], c0);
    lemma_three(a3, b[13], c1);
    lemma_three(a3, b[14], c2);
    lemma_three(a3, b[15], c3);
}

/// The product of numerators is associative.
pub proof fn lemma_product4_associative(a: Seq<int>, b: Seq<int>, c: Seq<int>)
    requires
        a.len() == 16,
        b.len() == 16,
        c.len() == 16,
    ensures
        product4(product4(a, b), c) == product4(a, product4(b, c)),
{
    let left = product4(product4(a, b), c);
    let right = product4(a, product4(b, c));
    assert forall|t: int| 0 <= t < 16 implies left[t] == right[t] by {
        lemma_dot_associative(a, b, c, t / 4, t % 4);
    }
    assert(left =~= right);
}

/// The unit matrix is neutral on both sides.
pub proof fn lemma_product4_unit(a: Seq<int>)
    requires
        a.len() == 16,
    ensures
        product4(unit4(), a) == a,
        product4(a, unit4()) == a,
{
    let u = unit4();
    assert forall|t: int| 0 <= t < 16 implies product4(u, a)[t] == a[t] && product4(a, u)[t]
        == a[t] by {
        let i = t / 4;
        let j = t % 4;
        assert(t == 4 * i + j);
        lemma_unit_factor(a[j]);
        lemma_unit_factor(a[4 + j]);
        lemma_unit_factor(a[8 + j]);
        lemma_unit_factor(a[12 + j]);
        lemma_unit_factor(a[4 * i]);
        lemma_unit_factor(a[4 * i + 1]);
        lemma_unit_factor(a[4 * i + 2]);
        lemma_unit_factor(a[4 * i + 3]);
        assert(u[4 * i] == (if i == 0 { 1int } else { 0int }));
        assert(u[4 * i + 1] == (if i == 1 { 1int } else { 0int }));
        assert(u[4 * i + 2] == (if i == 2 { 1int } else { 0int }));
        assert(u[4 * i + 3] == (if i == 3 { 1int } else { 0int }));
        assert(u[j] == (if j == 0 { 1int } else { 0int }));
        assert(u[4 + j] == (if j == 1 { 1int } else { 0int }));
        assert(u[8 + j] == (if j == 2 { 1int } else { 0int }));
        assert(u[12 + j] == (if j == 3 { 1int } else { 0int }));
    }
    assert(product4(u, a) =~= a);
    assert(product4(a, u) =~= a);
}

/// Products with zero and one.
pub proof fn lemma_unit_factor(x: int)
    ensures
        1 * x == x,
        x * 1 == x,
        0 * x == 0,
        x * 0 == 0,
{
}

/// A matrix times its adjugate, on either side, is the determinant times the unit matrix.
pub proof fn lemma_product4_adjugate(m: Seq<int>)
    requires
        m.len() == 16,
    ensures
        product4(m, adjugate4(m)) == scaled(unit4(), det4(m)),
        product4(adjugate4(m), m) == scaled(unit4(), det4(m)),
{
    let adj = adjugate4(m);
    let target = scaled(unit4(), det4(m));
    lemma_cofactor_expansions(m);
    assert forall|t: int| 0 <= t < 16 implies product4(m, adj)[t] == target[t] && product4(
        adj,
        m,
    )[t] == target[t] by {
        let i = t / 4;
        let j = t % 4;
        assert(t == 4 * i + j);
        lemma_unit_factor(det4(m));
        assert(adj[j] == cofactor4(m, j, 0));
        assert(adj[4 + j] == cofactor4(m, j, 1));
        assert(adj[8 + j] == cofactor4(m, j, 2));
        assert(adj[12 + j] == cofactor4(m, j, 3));
        assert(dot4(m, adj, i, j) == row_expansion(m, i, j));
        assert(adj[4 * i] == cofactor4(m, 0, i));
        assert(adj[4 * i + 1] == cofactor4(m, 1, i));
        assert(adj[4 * i + 2] == cofactor4(m, 2, i));
        assert(adj[4 * i + 3] == cofactor4(m, 3, i));
        lemma_pair(adj[4 * i], m[j]);
        lemma_pair(adj[4 * i + 1], m[4 + j]);
        lemma_pair(adj[4 * i + 2], m[8 + j]);
        lemma_pair(adj[4 * i + 3], m[12 + j]);
        assert(dot4(adj, m, i, j) == column_expansion(m, i, j));
    }
    assert(product4(m, adj) =~= target);
    assert(product4(adj, m) =~= target);
}

/// A common factor of one matrix is a common factor of the product.
pub proof fn lemma_product4_scaled(a: Seq<int>, b: Seq<int>, k: int)
    requires
        a.len() == 16,
        b.len() == 16,
    ensures
        product4(scaled(a, k), b) == scaled(product4(a, b), k),
        product4(a, scaled(b, k)) == scaled(product4(a, b), k),
{
    let ka = scaled(a, k);
    let kb = scaled(b, k);
    let target = scaled(product4(a, b), k);
    assert forall|t: int| 0 <= t < 16 implies product4(ka, b)[t] == target[t] && product4(a, kb)[t]
        == target[t] by {
        let i = t / 4;
        let j = t % 4;
        assert(t == 4 * i + j);
        let a0 = a[4 * i];
        let a1 = a[4 * i + 1];
        let a2 = a[4 * i + 2];
        let a3 = a[4 * i + 3];
        let b0 = b[j];
        let b1 = b[4 + j];
        let b2 = b[8 + j];
        let b3 = b[12 + j];
        lemma_distribute4(k, a0 * b0, a1 * b1, a2 * b2, a3 * b3);
        lemma_three(k, a0, b0);
        lemma_three(k, a1, b1);
        lemma_three(k, a2, b2);
        lemma_three(k, a3, b3);
        lemma_three(a0, k, b0);
        lemma_three(a1, k, b1);
        lemma_three(a2, k, b2);
        lemma_three(a3, k, b3);
    }
    assert(product4(ka, b) =~= target);
    assert(product4(a, kb) =~= target);
}

/// Matrices that denote the same rationals have products that denote the same rationals.
pub proof fn lemma_raw_mul4_respects_value(a: Fractions, b: Fractions, p: Fractions, q: Fractions)
    requires
        a.num.len() == 16,
        b.num.len() == 16,
        a.same_value(p),
        b.same_value(q),
    ensures
        raw_mul4(a, b).same_value(raw_mul4(p, q)),
{
    let left = raw_mul4(a, b);
    let right = raw_mul4(p, q);
    assert forall|t: int| 0 <= t < 16 implies #[trigger] left.num[t] * right.den
        == #[trigger] right.num[t] * left.den by {
        let i = t / 4;
        let j = t % 4;
        assert(t == 4 * i + j);
        lemma_term_respects_value(a.num[4 * i], b.num[j], p.num[4 * i], q.num[j], a.den, b.den, p.den, q.den);
        lemma_term_respects_value(
            a.num[4 * i + 1],
            b.num[4 + j],
            p.num[4 * i + 1],
            q.num[4 + j],
            a.den,
            b.den,
            p.den,
            q.den,
        );
        lemma_term_respects_value(
            a.num[4 * i + 2],
            b.num[8 + j],
            p.num[4 * i + 2],
            q.num[8 + j],
            a.den,
            b.den,
            p.den,
            q.den,
        );
        lemma_term_respects_value(
            a.num[4 * i + 3],
            b.num[12 + j],
            p.num[4 * i + 3],
            q.num[12 + j],
            a.den,
            b.den,
            p.den,
            q.den,
        );
        lemma_distribute4(
            p.den * q.den,
            a.num[4 * i] * b.num[j],
            a.num[4 * i + 1] * b.num[4 + j],
            a.num[4 * i + 2] * b.num[8 + j],
            a.num[4 * i + 3] * b.num[12 + j],
        );
        lemma_distribute4(
            a.den * b.den,
            p.num[4 * i] * q.num[j],
            p.num[4 * i + 1] * q.num[4 + j],
            p.num[4 * i + 2] * q.num[8 + j],
            p.num[4 * i + 3] * q.num[12 + j],
        );
    }
}

/// One term of a product, over the denominators of the other pair.
pub proof fn lemma_term_respects_value(
    x: int,
    y: int,
    u: int,
    v: int,
    dx: int,
    dy: int,
    du: int,
    dv: int,
)
    requires
        x * du == u * dx,
        y * dv == v * dy,
    ensures
        (x * y) * (du * dv) == (u * v) * (dx * dy),
{
    lemma_cross(x, y, du, dv);
    lemma_cross(u, v, dx, dy);
}

/// The denominators of a product of positive denominators are positive.
pub proof fn lemma_positive_product(x: int, y: int)
    requires
        x > 0,
        y > 0,
    ensures
        x * y > 0,
{
    assert(x * y > 0) by (nonlinear_arith)
        requires
            x > 0,
            y > 0,
    ;
}

/// The identity matrix is in lowest terms.
pub proof fn lemma_identity4_lowest()
    ensures
        identity4().lowest(),
        identity4().num.len() == 16,
{
    lemma_gcd_fold_of_one(unit4());
}

/// With a start of one, the folded divisor is one.
pub proof fn lemma_gcd_fold_of_one(s: Seq<int>)
    ensures
        gcd_fold(1, s) == 1,
    decreases s.len(),
{
    if s.len() > 0 {
        lemma_gcd_fold_of_one(s.drop_last());
        lemma_gcd_one_right(crate::divisor::abs(s.last()));
    }
}

/// Associativity: `(a * b) * c == a * (b * c)`.
pub proof fn lemma_mul4_associative(a: Fractions, b: Fractions, c: Fractions)
    requires
        is_matrix4(a),
        is_matrix4(b),
        is_matrix4(c),
    ensures
        mul4(mul4(a, b), c) == mul4(a, mul4(b, c)),
{
    let ab = raw_mul4(a, b);
    let bc = raw_mul4(b, c);
    lemma_positive_product(a.den, b.den);
    lemma_positive_product(b.den, c.den);
    lemma_reduced(ab);
    lemma_reduced(bc);
    // (ab reduced) * c denotes what (ab) * c denotes
    assert(c.same_value(c));
    assert(a.same_value(a));
    lemma_raw_mul4_respects_value(ab.reduced(), c, ab, c);
    lemma_raw_mul4_respects_value(a, bc.reduced(), a, bc);
    lemma_product4_associative(a.num, b.num, c.num);
    lemma_three(a.den, b.den, c.den);
    assert(raw_mul4(ab, c) == raw_mul4(a, bc));
    lemma_positive_product(ab.reduced().den, c.den);
    lemma_positive_product(a.den, bc.reduced().den);
    lemma_positive_product(ab.den, c.den);
    lemma_reduced_respects_value(raw_mul4(ab.reduced(), c), raw_mul4(ab, c));
    lemma_reduced_respects_value(raw_mul4(a, bc.reduced()), raw_mul4(a, bc));
}

/// The identity law: `identity * a == a` and `a * identity == a`.
pub proof fn lemma_mul4_identity(a: Fractions)
    requires
        a.num.len() == 16,
        a.lowest(),
    ensures
        mul4(identity4(), a) == a,
        mul4(a, identity4()) == a,
{
    lemma_product4_unit(a.num);
    lemma_unit_factor(a.den);
    assert(raw_mul4(identity4(), a) == a);
    assert(raw_mul4(a, identity4()) == a);
    lemma_lowest_is_reduced(a);
}

/// The inverse law: `inverse(a) * a == identity` and `a * inverse(a) == identity`.
pub proof fn lemma_mul4_inverse(a: Fractions)
    requires
        is_matrix4(a),
        invertible4(a),
    ensures
        inverse4(a).lowest(),
        inverse4(a).num.len() == 16,
        mul4(inverse4(a), a) == identity4(),
        mul4(a, inverse4(a)) == identity4(),
{
    let det = det4(a.num);
    let adj = adjugate4(a.num);
    let raw = raw_inverse4(a);
    let k = if det > 0 {
        a.den
    } else {
        -a.den
    };
    assert(raw.num == scaled(adj, k));
    assert(raw.den > 0);
    lemma_reduced(raw);
    let inv = inverse4(a);
    assert(a.same_value(a));
    lemma_raw_mul4_respects_value(inv, a, raw, a);
    lemma_raw_mul4_respects_value(a, inv, a, raw);
    lemma_product4_adjugate(a.num);
    lemma_product4_scaled(adj, a.num, k);
    lemma_product4_scaled(a.num, adj, k);
    let one = identity4();
    let left = raw_mul4(raw, a);
    let right = raw_mul4(a, raw);
    lemma_pair(raw.den, a.den);
    assert forall|t: int| 0 <= t < 16 implies #[trigger] left.num[t] * one.den
        == #[trigger] one.num[t] * left.den && #[trigger] right.num[t] * one.den == one.num[t]
        * right.den by {
        let u = unit4()[t];
        assert(left.num[t] == k * (det * u));
        assert(right.num[t] == k * (det * u));
        lemma_unit_factor(left.num[t]);
        lemma_unit_factor(left.den);
        lemma_unit_factor(k * det);
        lemma_three(k, det, u);
        if det > 0 {
        } else {
            assert(k * det == (-det) * a.den) by (nonlinear_arith)
                requires
                    k == -a.den,
            ;
        }
        lemma_pair(det, a.den);
    }
    assert(left.same_value(one));
    assert(right.same_value(one));
    lemma_positive_product(raw.den, a.den);
    lemma_positive_product(inv.den, a.den);
    lemma_positive_product(a.den, inv.den);
    lemma_same_value_transitive(raw_mul4(inv, a), left, one);
    lemma_same_value_transitive(raw_mul4(a, inv), right, one);
    lemma_identity4_lowest();
    lemma_lowest_is_reduced(one);
    lemma_reduced_respects_value(raw_mul4(inv, a), one);
    lemma_reduced_respects_value(raw_mul4(a, inv), one);
}

} // verus!
