//! Small facts about products of integers, the steps of which the larger proofs are made.

use vstd::prelude::*;

verus! {

/// A product of four factors does not depend on their order.
pub proof fn lemma_arrangements(a: int, b: int, c: int, d: int)
    ensures
        a * (b * (d * c)) == a * (b * (c * d)),
        a * (c * (b * d)) == a * (b * (c * d)),
        a * (c * (d * b)) == a * (b * (c * d)),
        a * (d * (b * c)) == a * (b * (c * d)),
        a * (d * (c * b)) == a * (b * (c * d)),
        b * (a * (c * d)) == a * (b * (c * d)),
        b * (a * (d * c)) == a * (b * (c * d)),
        b * (c * (a * d)) == a * (b * (c * d)),
        b * (c * (d * a)) == a * (b * (c * d)),
        b * (d * (a * c)) == a * (b * (c * d)),
        b * (d * (c * a)) == a * (b * (c * d)),
        c * (a * (b * d)) == a * (b * (c * d)),
        c * (a * (d * b)) == a * (b * (c * d)),
        c * (b * (a * d)) == a * (b * (c * d)),
        c * (b * (d * a)) == a * (b * (c * d)),
        c * (d * (a * b)) == a * (b * (c * d)),
        c * (d * (b * a)) == a * (b * (c * d)),
        d * (a * (b * c)) == a * (b * (c * d)),
        d * (a * (c * b)) == a * (b * (c * d)),
        d * (b * (a * c)) == a * (b * (c * d)),
        d * (b * (c * a)) == a * (b * (c * d)),
        d * (c * (a * b)) == a * (b * (c * d)),
        d * (c * (b * a)) == a * (b * (c * d)),
{
    lemma_three(b, c, d);
    lemma_three(c, b, d);
    lemma_three(d, b, c);
    lemma_three(a, c, d);
    lemma_three(c, a, d);
    lemma_three(d, a, c);
    lemma_three(a, b, d);
    lemma_three(b, a, d);
    lemma_three(d, a, b);
    lemma_three(a, b, c);
    lemma_three(b, a, c);
    lemma_three(c, a, b);
    lemma_three(a, b, c * d);
    lemma_three(a, c, b * d);
    lemma_three(a, d, b * c);
}

/// A product of three factors does not depend on their order.
pub proof fn lemma_arrangements3(a: int, b: int, c: int)
    ensures
        a * (c * b) == a * (b * c),
        b * (a * c) == a * (b * c),
        b * (c * a) == a * (b * c),
        c * (a * b) == a * (b * c),
        c * (b * a) == a * (b * c),
{
    lemma_three(a, b, c);
    lemma_three(b, a, c);
    lemma_three(c, a, b);
}

/// The order of two factors does not matter.
pub proof fn lemma_pair(a: int, b: int)
    ensures
        a * b == b * a,
{
    assert(a * b == b * a) by (nonlinear_arith);
}

/// A product of three factors, the third of which is any number, in all groupings.
pub proof fn lemma_three(a: int, b: int, t: int)
    ensures
        a * (b * t) == b * (a * t),
        a * (b * t) == t * (a * b),
        a * (b * t) == (a * b) * t,
        a * (b * t) == a * (t * b),
{
    assert(a * (b * t) == b * (a * t)) by (nonlinear_arith);
    assert(a * (b * t) == t * (a * b)) by (nonlinear_arith);
    assert(a * (b * t) == (a * b) * t) by (nonlinear_arith);
    assert(a * (b * t) == a * (t * b)) by (nonlinear_arith);
}

/// A factor times a negated number.
pub proof fn lemma_negated_factor(x: int, y: int)
    ensures
        x * (-y) == -(x * y),
{
    assert(x * (-y) == -(x * y)) by (nonlinear_arith);
}

/// A product of two pairs, regrouped crosswise.
pub proof fn lemma_cross(p: int, q: int, r: int, s: int)
    ensures
        (p * q) * (r * s) == (p * r) * (q * s),
{
    lemma_three(p, q, r * s);
    lemma_three(p, r, q * s);
    lemma_arrangements(p, q, r, s);
}

/// A product with a factor that is zero is zero.
pub proof fn lemma_sparse(x: int, y: int)
    ensures
        (x == 0 || y == 0) ==> x * y == 0,
{
    assert((x == 0 || y == 0) ==> x * y == 0) by (nonlinear_arith);
}

/// A product of a positive number and another is zero only if the other is, and has its sign.
pub proof fn lemma_positive_factor(g: int, x: int)
    requires
        g > 0,
    ensures
        g * x == 0 ==> x == 0,
        g * x > 0 ==> x > 0,
        g * x < 0 ==> x < 0,
        x > 0 ==> g * x > 0,
{
    assert(g * x == 0 ==> x == 0) by (nonlinear_arith)
        requires
            g > 0,
    ;
    assert(g * x > 0 ==> x > 0) by (nonlinear_arith)
        requires
            g > 0,
    ;
    assert(g * x < 0 ==> x < 0) by (nonlinear_arith)
        requires
            g > 0,
    ;
    assert(x > 0 ==> g * x > 0) by (nonlinear_arith)
        requires
            g > 0,
    ;
}

/// A common factor that is not zero can be taken out of both sides of an equation.
pub proof fn lemma_cancel(g: int, x: int, y: int)
    requires
        g != 0,
        g * x == g * y,
    ensures
        x == y,
{
    assert(x == y) by (nonlinear_arith)
        requires
            g != 0,
            g * x == g * y,
    ;
}

/// A factor times a sum of three.
pub proof fn lemma_distribute3(x: int, a: int, b: int, c: int)
    ensures
        x * (a + b + c) == x * a + x * b + x * c,
        (a + b + c) * x == a * x + b * x + c * x,
{
    assert(x * (a + b + c) == x * a + x * b + x * c) by (nonlinear_arith);
    assert((a + b + c) * x == a * x + b * x + c * x) by (nonlinear_arith);
}

/// A factor times a sum of four.
pub proof fn lemma_distribute4(x: int, a: int, b: int, c: int, d: int)
    ensures
        x * (a + b + c + d) == x * a + x * b + x * c + x * d,
        (a + b + c + d) * x == a * x + b * x + c * x + d * x,
{
    assert(x * (a + b + c + d) == x * a + x * b + x * c + x * d) by (nonlinear_arith);
    assert((a + b + c + d) * x == a * x + b * x + c * x + d * x) by (nonlinear_arith);
}

} // verus!
