//! Determinants and cofactors of 4x4 integer matrices, stored row by row in a sequence of
//! sixteen.

use crate::product::{lemma_arrangements, lemma_negated_factor};
use vstd::prelude::*;

verus! {

/// The determinant of the 3x3 matrix with rows `(a, b, c)`, `(d, e, f)`, `(g, h, i)`.
pub open spec fn det3(a: int, b: int, c: int, d: int, e: int, f: int, g: int, h: int, i: int) -> int {
    a * (e * i - f * h) - b * (d * i - f * g) + c * (d * h - e * g)
}

/// A factor times a 3x3 determinant, written as six products of four.
pub proof fn lemma_expand_det3(
    x: int,
    a: int,
    b: int,
    c: int,
    d: int,
    e: int,
    f: int,
    g: int,
    h: int,
    i: int,
)
    ensures
        x * det3(a, b, c, d, e, f, g, h, i) == x * (a * (e * i)) - x * (a * (f * h)) - x * (b * (d
            * i)) + x * (b * (f * g)) + x * (c * (d * h)) - x * (c * (e * g)),
{
    let ei = e * i;
    let fh = f * h;
    let di = d * i;
    let fg = f * g;
    let dh = d * h;
    let eg = e * g;
    assert(a * (ei - fh) == a * ei - a * fh) by (nonlinear_arith);
    assert(b * (di - fg) == b * di - b * fg) by (nonlinear_arith);
    assert(c * (dh - eg) == c * dh - c * eg) by (nonlinear_arith);
    let p1 = a * ei;
    let p2 = a * fh;
    let p3 = b * di;
    let p4 = b * fg;
    let p5 = c * dh;
    let p6 = c * eg;
    assert(x * (p1 - p2 - (p3 - p4) + (p5 - p6)) == x * p1 - x * p2 - x * p3 + x * p4 + x * p5 - x
        * p6) by (nonlinear_arith);
}

/// The `k`-th index that is left when index `i` is struck out.
pub open spec fn skip(k: int, i: int) -> int {
    if k < i {
        k
    } else {
        k + 1
    }
}

/// The determinant of what is left of `m` when row `i` and column `j` are struck out.
pub open spec fn minor4(m: Seq<int>, i: int, j: int) -> int {
    det3(
        m[4 * skip(0, i) + skip(0, j)],
        m[4 * skip(0, i) + skip(1, j)],
        m[4 * skip(0, i) + skip(2, j)],
        m[4 * skip(1, i) + skip(0, j)],
        m[4 * skip(1, i) + skip(1, j)],
        m[4 * skip(1, i) + skip(2, j)],
        m[4 * skip(2, i) + skip(0, j)],
        m[4 * skip(2, i) + skip(1, j)],
        m[4 * skip(2, i) + skip(2, j)],
    )
}

/// The minor with the sign of its place.
pub open spec fn cofactor4(m: Seq<int>, i: int, j: int) -> int {
    if (i + j) % 2 == 0 {
        minor4(m, i, j)
    } else {
        -minor4(m, i, j)
    }
}

/// The determinant, expanded along the first row.
pub open spec fn det4(m: Seq<int>) -> int {
    m[0] * cofactor4(m, 0, 0) + m[1] * cofactor4(m, 0, 1) + m[2] * cofactor4(m, 0, 2) + m[3]
        * cofactor4(m, 0, 3)
}

/// Row `i` of `m` against the cofactors of row `j`.
pub open spec fn row_expansion(m: Seq<int>, i: int, j: int) -> int {
    m[4 * i] * cofactor4(m, j, 0) + m[4 * i + 1] * cofactor4(m, j, 1) + m[4 * i + 2] * cofactor4(
        m,
        j,
        2,
    ) + m[4 * i + 3] * cofactor4(m, j, 3)
}

/// Column `j` of `m` against the cofactors of column `i`.
pub open spec fn column_expansion(m: Seq<int>, i: int, j: int) -> int {
    m[j] * cofactor4(m, 0, i) + m[4 + j] * cofactor4(m, 1, i) + m[8 + j] * cofactor4(m, 2, i) + m[12
        + j] * cofactor4(m, 3, i)
}

/// Row 0 against its own cofactors.
proof fn lemma_row_expansion_00(m: Seq<int>)
    requires
        m.len() == 16,
    ensures
        row_expansion(m, 0, 0) == det4(m),
{
}

/// Row 0 against the cofactors of row 1.
proof fn lemma_row_expansion_01(m: Seq<int>)
    requires
        m.len() == 16,
    ensures
        row_expansion(m, 0, 1) == 0,
{
    lemma_expand_det3(m[0], m[1], m[2], m[3], m[9], m[10], m[11], m[13], m[14], m[15]);
    lemma_negated_factor(m[0], det3(m[1], m[2], m[3], m[9], m[10], m[11], m[13], m[14], m[15]));
    lemma_expand_det3(m[1], m[0], m[2], m[3], m[8], m[10], m[11], m[12], m[14], m[15]);
    lemma_expand_det3(m[2], m[0], m[1], m[3], m[8], m[9], m[11], m[12], m[13], m[15]);
    lemma_negated_factor(m[2], det3(m[0], m[1], m[3], m[8], m[9], m[11], m[12], m[13], m[15]));
    lemma_expand_det3(m[3], m[0], m[1], m[2], m[8], m[9], m[10], m[12], m[13], m[14]);
    lemma_arrangements(m[0], m[1], m[10], m[15]);
    lemma_arrangements(m[0], m[1], m[11], m[14]);
    lemma_arrangements(m[0], m[2], m[9], m[15]);
    lemma_arrangements(m[0], m[2], m[11], m[13]);
    lemma_arrangements(m[0], m[3], m[9], m[14]);
    lemma_arrangements(m[0], m[3], m[10], m[13]);
    lemma_arrangements(m[1], m[2], m[8], m[15]);
    lemma_arrangements(m[1], m[2], m[11], m[12]);
    lemma_arrangements(m[1], m[3], m[8], m[14]);
    lemma_arrangements(m[1], m[3], m[10], m[12]);
    lemma_arrangements(m[2], m[3], m[8], m[13]);
    lemma_arrangements(m[2], m[3], m[9], m[12]);
}

/// Row 0 against the cofactors of row 2.
proof fn lemma_row_expansion_02(m: Seq<int>)
    requires
        m.len() == 16,
    ensures
        row_expansion(m, 0, 2) == 0,
{
    lemma_expand_det3(m[0], m[1], m[2], m[3], m[5], m[6], m[7], m[13], m[14], m[15]);
    lemma_expand_det3(m[1], m[0], m[2], m[3], m[4], m[6], m[7], m[12], m[14], m[15]);
    lemma_negated_factor(m[1], det3(m[0], m[2], m[3], m[4], m[6], m[7], m[12], m[14], m[15]));
    lemma_expand_det3(m[2], m[0], m[1], m[3], m[4], m[5], m[7], m[12], m[13], m[15]);
    lemma_expand_det3(m[3], m[0], m[1], m[2], m[4], m[5], m[6], m[12], m[13], m[14]);
    lemma_negated_factor(m[3], det3(m[0], m[1], m[2], m[4], m[5], m[6], m[12], m[13], m[14]));
    lemma_arrangements(m[0], m[1], m[6], m[15]);
    lemma_arrangements(m[0], m[1], m[7], m[14]);
    lemma_arrangements(m[0], m[2], m[5], m[15]);
    lemma_arrangements(m[0], m[2], m[7], m[13]);
    lemma_arrangements(m[0], m[3], m[5], m[14]);
    lemma_arrangements(m[0], m[3], m[6], m[13]);
    lemma_arrangements(m[1], m[2], m[4], m[15]);
    lemma_arrangements(m[1], m[2], m[7], m[12]);
    lemma_arrangements(m[1], m[3], m[4], m[14]);
    lemma_arrangements(m[1], m[3], m[6], m[12]);
    lemma_arrangements(m[2], m[3], m[4], m[13]);
    lemma_arrangements(m[2], m[3], m[5], m[12]);
}

/// Row 0 against the cofactors of row 3.
proof fn lemma_row_expansion_03(m: Seq<int>)
    requires
        m.len() == 16,
    ensures
        row_expansion(m, 0, 3) == 0,
{
    lemma_expand_det3(m[0], m[1], m[2], m[3], m[5], m[6], m[7], m[9], m[10], m[11]);
    lemma_negated_factor(m[0], det3(m[1], m[2], m[3], m[5], m[6], m[7], m[9], m[10], m[11]));
    lemma_expand_det3(m[1], m[0], m[2], m[3], m[4], m[6], m[7], m[8], m[10], m[11]);
    lemma_expand_det3(m[2], m[0], m[1], m[3], m[4], m[5], m[7], m[8], m[9], m[11]);
    lemma_negated_factor(m[2], det3(m[0], m[1], m[3], m[4], m[5], m[7], m[8], m[9], m[11]));
    lemma_expand_det3(m[3], m[0], m[1], m[2], m[4], m[5], m[6], m[8], m[9], m[10]);
    lemma_arrangements(m[0], m[1], m[6], m[11]);
    lemma_arrangements(m[0], m[1], m[7], m[10]);
    lemma_arrangements(m[0], m[2], m[5], m[11]);
    lemma_arrangements(m[0], m[2], m[7], m[9]);
    lemma_arrangements(m[0], m[3], m[5], m[10]);
    lemma_arrangements(m[0], m[3], m[6], m[9]);
    lemma_arrangements(m[1], m[2], m[4], m[11]);
    lemma_arrangements(m[1], m[2], m[7], m[8]);
    lemma_arrangements(m[1], m[3], m[4], m[10]);
    lemma_arrangements(m[1], m[3], m[6], m[8]);
    lemma_arrangements(m[2], m[3], m[4], m[9]);
    lemma_arrangements(m[2], m[3], m[5], m[8]);
}

/// Row 1 against the cofactors of row 0.
proof fn lemma_row_expansion_10(m: Seq<int>)
    requires
        m.len() == 16,
    ensures
        row_expansion(m, 1, 0) == 0,
{
    lemma_expand_det3(m[4], m[5], m[6], m[7], m[9], m[10], m[11], m[13], m[14], m[15]);
    lemma_expand_det3(m[5], m[4], m[6], m[7], m[8], m[10], m[11], m[12], m[14], m[15]);
    lemma_negated_factor(m[5], det3(m[4], m[6], m[7], m[8], m[10], m[11], m[12], m[14], m[15]));
    lemma_expand_det3(m[6], m[4], m[5], m[7], m[8], m[9], m[11], m[12], m[13], m[15]);
    lemma_expand_det3(m[7], m[4], m[5], m[6], m[8], m[9], m[10], m[12], m[13], m[14]);
    lemma_negated_factor(m[7], det3(m[4], m[5], m[6], m[8], m[9], m[10], m[12], m[13], m[14]));
    lemma_arrangements(m[4], m[5], m[10], m[15]);
    lemma_arrangements(m[4], m[5], m[11], m[14]);
    lemma_arrangements(m[4], m[6], m[9], m[15]);
    lemma_arrangements(m[4], m[6], m[11], m[13]);
    lemma_arrangements(m[4], m[7], m[9], m[14]);
    lemma_arrangements(m[4], m[7], m[10], m[13]);
    lemma_arrangements(m[5], m[6], m[8], m[15]);
    lemma_arrangements(m[5], m[6], m[11], m[12]);
    lemma_arrangements(m[5], m[7], m[8], m[14]);
    lemma_arrangements(m[5], m[7], m[10], m[12]);
    lemma_arrangements(m[6], m[7], m[8], m[13]);
    lemma_arrangements(m[6], m[7], m[9], m[12]);
}

/// Row 1 against its own cofactors.
proof fn lemma_row_expansion_11(m: Seq<int>)
    requires
        m.len() == 16,
    ensures
        row_expansion(m, 1, 1) == det4(m),
{
    lemma_expand_det3(m[4], m[1], m[2], m[3], m[9], m[10], m[11], m[13], m[14], m[15]);
    lemma_negated_factor(m[4], det3(m[1], m[2], m[3], m[9], m[10], m[11], m[13], m[14], m[15]));
    lemma_expand_det3(m[5], m[0], m[2], m[3], m[8], m[10], m[11], m[12], m[14], m[15]);
    lemma_expand_det3(m[6], m[0], m[1], m[3], m[8], m[9], m[11], m[12], m[13], m[15]);
    lemma_negated_factor(m[6], det3(m[0], m[1], m[3], m[8], m[9], m[11], m[12], m[13], m[15]));
    lemma_expand_det3(m[7], m[0], m[1], m[2], m[8], m[9], m[10], m[12], m[13], m[14]);
    lemma_expand_det3(m[0], m[5], m[6], m[7], m[9], m[10], m[11], m[13], m[14], m[15]);
    lemma_expand_det3(m[1], m[4], m[6], m[7], m[8], m[10], m[11], m[12], m[14], m[15]);
    lemma_negated_factor(m[1], det3(m[4], m[6], m[7], m[8], m[10], m[11], m[12], m[14], m[15]));
    lemma_expand_det3(m[2], m[4], m[5], m[7], m[8], m[9], m[11], m[12], m[13], m[15]);
    lemma_expand_det3(m[3], m[4], m[5], m[6], m[8], m[9], m[10], m[12], m[13], m[14]);
    lemma_negated_factor(m[3], det3(m[4], m[5], m[6], m[8], m[9], m[10], m[12], m[13], m[14]));
    lemma_arrangements(m[0], m[5], m[10], m[15]);
    lemma_arrangements(m[0], m[5], m[11], m[14]);
    lemma_arrangements(m[0], m[6], m[9], m[15]);
    lemma_arrangements(m[0], m[6], m[11], m[13]);
    lemma_arrangements(m[0], m[7], m[9], m[14]);
    lemma_arrangements(m[0], m[7], m[10], m[13]);
    lemma_arrangements(m[1], m[4], m[10], m[15]);
    lemma_arrangements(m[1], m[4], m[11], m[14]);
    lemma_arrangements(m[1], m[6], m[8], m[15]);
    lemma_arrangements(m[1], m[6], m[11], m[12]);
    lemma_arrangements(m[1], m[7], m[8], m[14]);
    lemma_arrangements(m[1], m[7], m[10], m[12]);
    lemma_arrangements(m[2], m[4], m[9], m[15]);
    lemma_arrangements(m[2], m[4], m[11], m[13]);
    lemma_arrangements(m[2], m[5], m[8], m[15]);
    lemma_arrangements(m[2], m[5], m[11], m[12]);
    lemma_arrangements(m[2], m[7], m[8], m[13]);
    lemma_arrangements(m[2], m[7], m[9], m[12]);
    lemma_arrangements(m[3], m[4], m[9], m[14]);
    lemma_arrangements(m[3], m[4], m[10], m[13]);
    lemma_arrangements(m[3], m[5], m[8], m[14]);
    lemma_arrangements(m[3], m[5], m[10], m[12]);
    lemma_arrangements(m[3], m[6], m[8], m[13]);
    lemma_arrangements(m[3], m[6], m[9], m[12]);
}

/// Row 1 against the cofactors of row 2.
proof fn lemma_row_expansion_12(m: Seq<int>)
    requires
        m.len() == 16,
    ensures
        row_expansion(m, 1, 2) == 0,
{
    lemma_expand_det3(m[4], m[1], m[2], m[3], m[5], m[6], m[7], m[13], m[14], m[15]);
    lemma_expand_det3(m[5], m[0], m[2], m[3], m[4], m[6], m[7], m[12], m[14], m[15]);
    lemma_negated_factor(m[5], det3(m[0], m[2], m[3], m[4], m[6], m[7], m[12], m[14], m[15]));
    lemma_expand_det3(m[6], m[0], m[1], m[3], m[4], m[5], m[7], m[12], m[13], m[15]);
    lemma_expand_det3(m[7], m[0], m[1], m[2], m[4], m[5], m[6], m[12], m[13], m[14]);
    lemma_negated_factor(m[7], det3(m[0], m[1], m[2], m[4], m[5], m[6], m[12], m[13], m[14]));
    lemma_arrangements(m[0], m[5], m[6], m[15]);
    lemma_arrangements(m[0], m[5], m[7], m[14]);
    lemma_arrangements(m[0], m[6], m[7], m[13]);
    lemma_arrangements(m[1], m[4], m[6], m[15]);
    lemma_arrangements(m[1], m[4], m[7], m[14]);
    lemma_arrangements(m[1], m[6], m[7], m[12]);
    lemma_arrangements(m[2], m[4], m[5], m[15]);
    lemma_arrangements(m[2], m[4], m[7], m[13]);
    lemma_arrangements(m[2], m[5], m[7], m[12]);
    lemma_arrangements(m[3], m[4], m[5], m[14]);
    lemma_arrangements(m[3], m[4], m[6], m[13]);
    lemma_arrangements(m[3], m[5], m[6], m[12]);
}

/// Row 1 against the cofactors of row 3.
proof fn lemma_row_expansion_13(m: Seq<int>)
    requires
        m.len() == 16,
    ensures
        row_expansion(m, 1, 3) == 0,
{
    lemma_expand_det3(m[4], m[1], m[2], m[3], m[5], m[6], m[7], m[9], m[10], m[11]);
    lemma_negated_factor(m[4], det3(m[1], m[2], m[3], m[5], m[6], m[7], m[9], m[10], m[11]));
    lemma_expand_det3(m[5], m[0], m[2], m[3], m[4], m[6], m[7], m[8], m[10], m[11]);
    lemma_expand_det3(m[6], m[0], m[1], m[3], m[4], m[5], m[7], m[8], m[9], m[11]);
    lemma_negated_factor(m[6], det3(m[0], m[1], m[3], m[4], m[5], m[7], m[8], m[9], m[11]));
    lemma_expand_det3(m[7], m[0], m[1], m[2], m[4], m[5], m[6], m[8], m[9], m[10]);
    lemma_arrangements(m[0], m[5], m[6], m[11]);
    lemma_arrangements(m[0], m[5], m[7], m[10]);
    lemma_arrangements(m[0], m[6], m[7], m[9]);
    lemma_arrangements(m[1], m[4], m[6], m[11]);
    lemma_arrangements(m[1], m[4], m[7], m[10]);
    lemma_arrangements(m[1], m[6], m[7], m[8]);
    lemma_arrangements(m[2], m[4], m[5], m[11]);
    lemma_arrangements(m[2], m[4], m[7], m[9]);
    lemma_arrangements(m[2], m[5], m[7], m[8]);
    lemma_arrangements(m[3], m[4], m[5], m[10]);
    lemma_arrangements(m[3], m[4], m[6], m[9]);
    lemma_arrangements(m[3], m[5], m[6], m[8]);
}

/// Row 2 against the cofactors of row 0.
proof fn lemma_row_expansion_20(m: Seq<int>)
    requires
        m.len() == 16,
    ensures
        row_expansion(m, 2, 0) == 0,
{
    lemma_expand_det3(m[8], m[5], m[6], m[7], m[9], m[10], m[11], m[13], m[14], m[15]);
    lemma_expand_det3(m[9], m[4], m[6], m[7], m[8], m[10], m[11], m[12], m[14], m[15]);
    lemma_negated_factor(m[9], det3(m[4], m[6], m[7], m[8], m[10], m[11], m[12], m[14], m[15]));
    lemma_expand_det3(m[10], m[4], m[5], m[7], m[8], m[9], m[11], m[12], m[13], m[15]);
    lemma_expand_det3(m[11], m[4], m[5], m[6], m[8], m[9], m[10], m[12], m[13], m[14]);
    lemma_negated_factor(m[11], det3(m[4], m[5], m[6], m[8], m[9], m[10], m[12], m[13], m[14]));
    lemma_arrangements(m[4], m[9], m[10], m[15]);
    lemma_arrangements(m[4], m[9], m[11], m[14]);
    lemma_arrangements(m[4], m[10], m[11], m[13]);
    lemma_arrangements(m[5], m[8], m[10], m[15]);
    lemma_arrangements(m[5], m[8], m[11], m[14]);
    lemma_arrangements(m[5], m[10], m[11], m[12]);
    lemma_arrangements(m[6], m[8], m[9], m[15]);
    lemma_arrangements(m[6], m[8], m[11], m[13]);
    lemma_arrangements(m[6], m[9], m[11], m[12]);
    lemma_arrangements(m[7], m[8], m[9], m[14]);
    lemma_arrangements(m[7], m[8], m[10], m[13]);
    lemma_arrangements(m[7], m[9], m[10], m[12]);
}

/// Row 2 against the cofactors of row 1.
proof fn lemma_row_expansion_21(m: Seq<int>)
    requires
        m.len() == 16,
    ensures
        row_expansion(m, 2, 1) == 0,
{
    lemma_expand_det3(m[8], m[1], m[2], m[3], m[9], m[10], m[11], m[13], m[14], m[15]);
    lemma_negated_factor(m[8], det3(m[1], m[2], m[3], m[9], m[10], m[11], m[13], m[14], m[15]));
    lemma_expand_det3(m[9], m[0], m[2], m[3], m[8], m[10], m[11], m[12], m[14], m[15]);
    lemma_expand_det3(m[10], m[0], m[1], m[3], m[8], m[9], m[11], m[12], m[13], m[15]);
    lemma_negated_factor(m[10], det3(m[0], m[1], m[3], m[8], m[9], m[11], m[12], m[13], m[15]));
    lemma_expand_det3(m[11], m[0], m[1], m[2], m[8], m[9], m[10], m[12], m[13], m[14]);
    lemma_arrangements(m[0], m[9], m[10], m[15]);
    lemma_arrangements(m[0], m[9], m[11], m[14]);
    lemma_arrangements(m[0], m[10], m[11], m[13]);
    lemma_arrangements(m[1], m[8], m[10], m[15]);
    lemma_arrangements(m[1], m[8], m[11], m[14]);
    lemma_arrangements(m[1], m[10], m[11], m[12]);
    lemma_arrangements(m[2], m[8], m[9], m[15]);
    lemma_arrangements(m[2], m[8], m[11], m[13]);
    lemma_arrangements(m[2], m[9], m[11], m[12]);
    lemma_arrangements(m[3], m[8], m[9], m[14]);
    lemma_arrangements(m[3], m[8], m[10], m[13]);
    lemma_arrangements(m[3], m[9], m[10], m[12]);
}

/// Row 2 against its own cofactors.
proof fn lemma_row_expansion_22(m: Seq<int>)
    requires
        m.len() == 16,
    ensures
        row_expansion(m, 2, 2) == det4(m),
{
    lemma_expand_det3(m[8], m[1], m[2], m[3], m[5], m[6], m[7], m[13], m[14], m[15]);
    lemma_expand_det3(m[9], m[0], m[2], m[3], m[4], m[6], m[7], m[12], m[14], m[15]);
    lemma_negated_factor(m[9], det3(m[0], m[2], m[3], m[4], m[6], m[7], m[12], m[14], m[15]));
    lemma_expand_det3(m[10], m[0], m[1], m[3], m[4], m[5], m[7], m[12], m[13], m[15]);
    lemma_expand_det3(m[11], m[0], m[1], m[2], m[4], m[5], m[6], m[12], m[13], m[14]);
    lemma_negated_factor(m[11], det3(m[0], m[1], m[2], m[4], m[5], m[6], m[12], m[13], m[14]));
    lemma_expand_det3(m[0], m[5], m[6], m[7], m[9], m[10], m[11], m[13], m[14], m[15]);
    lemma_expand_det3(m[1], m[4], m[6], m[7], m[8], m[10], m[11], m[12], m[14], m[15]);
    lemma_negated_factor(m[1], det3(m[4], m[6], m[7], m[8], m[10], m[11], m[12], m[14], m[15]));
    lemma_expand_det3(m[2], m[4], m[5], m[7], m[8], m[9], m[11], m[12], m[13], m[15]);
    lemma_expand_det3(m[3], m[4], m[5], m[6], m[8], m[9], m[10], m[12], m[13], m[14]);
    lemma_negated_factor(m[3], det3(m[4], m[5], m[6], m[8], m[9], m[10], m[12], m[13], m[14]));
    lemma_arrangements(m[0], m[5], m[10], m[15]);
    lemma_arrangements(m[0], m[5], m[11], m[14]);
    lemma_arrangements(m[0], m[6], m[9], m[15]);
    lemma_arrangements(m[0], m[6], m[11], m[13]);
    lemma_arrangements(m[0], m[7], m[9], m[14]);
    lemma_arrangements(m[0], m[7], m[10], m[13]);
    lemma_arrangements(m[1], m[4], m[10], m[15]);
    lemma_arrangements(m[1], m[4], m[11], m[14]);
    lemma_arrangements(m[1], m[6], m[8], m[15]);
    lemma_arrangements(m[1], m[6], m[11], m[12]);
    lemma_arrangements(m[1], m[7], m[8], m[14]);
    lemma_arrangements(m[1], m[7], m[10], m[12]);
    lemma_arrangements(m[2], m[4], m[9], m[15]);
    lemma_arrangements(m[2], m[4], m[11], m[13]);
    lemma_arrangements(m[2], m[5], m[8], m[15]);
    lemma_arrangements(m[2], m[5], m[11], m[12]);
    lemma_arrangements(m[2], m[7], m[8], m[13]);
    lemma_arrangements(m[2], m[7], m[9], m[12]);
    lemma_arrangements(m[3], m[4], m[9], m[14]);
    lemma_arrangements(m[3], m[4], m[10], m[13]);
    lemma_arrangements(m[3], m[5], m[8], m[14]);
    lemma_arrangements(m[3], m[5], m[10], m[12]);
    lemma_arrangements(m[3], m[6], m[8], m[13]);
    lemma_arrangements(m[3], m[6], m[9], m[12]);
}

/// Row 2 against the cofactors of row 3.
proof fn lemma_row_expansion_23(m: Seq<int>)
    requires
        m.len() == 16,
    ensures
        row_expansion(m, 2, 3) == 0,
{
    lemma_expand_det3(m[8], m[1], m[2], m[3], m[5], m[6], m[7], m[9], m[10], m[11]);
    lemma_negated_factor(m[8], det3(m[1], m[2], m[3], m[5], m[6], m[7], m[9], m[10], m[11]));
    lemma_expand_det3(m[9], m[0], m[2], m[3], m[4], m[6], m[7], m[8], m[10], m[11]);
    lemma_expand_det3(m[10], m[0], m[1], m[3], m[4], m[5], m[7], m[8], m[9], m[11]);
    lemma_negated_factor(m[10], det3(m[0], m[1], m[3], m[4], m[5], m[7], m[8], m[9], m[11]));
    lemma_expand_det3(m[11], m[0], m[1], m[2], m[4], m[5], m[6], m[8], m[9], m[10]);
    lemma_arrangements(m[0], m[5], m[10], m[11]);
    lemma_arrangements(m[0], m[6], m[9], m[11]);
    lemma_arrangements(m[0], m[7], m[9], m[10]);
    lemma_arrangements(m[1], m[4], m[10], m[11]);
    lemma_arrangements(m[1], m[6], m[8], m[11]);
    lemma_arrangements(m[1], m[7], m[8], m[10]);
    lemma_arrangements(m[2], m[4], m[9], m[11]);
    lemma_arrangements(m[2], m[5], m[8], m[11]);
    lemma_arrangements(m[2], m[7], m[8], m[9]);
    lemma_arrangements(m[3], m[4], m[9], m[10]);
    lemma_arrangements(m[3], m[5], m[8], m[10]);
    lemma_arrangements(m[3], m[6], m[8], m[9]);
}

/// Row 3 against the cofactors of row 0.
proof fn lemma_row_expansion_30(m: Seq<int>)
    requires
        m.len() == 16,
    ensures
        row_expansion(m, 3, 0) == 0,
{
    lemma_expand_det3(m[12], m[5], m[6], m[7], m[9], m[10], m[11], m[13], m[14], m[15]);
    lemma_expand_det3(m[13], m[4], m[6], m[7], m[8], m[10], m[11], m[12], m[14], m[15]);
    lemma_negated_factor(m[13], det3(m[4], m[6], m[7], m[8], m[10], m[11], m[12], m[14], m[15]));
    lemma_expand_det3(m[14], m[4], m[5], m[7], m[8], m[9], m[11], m[12], m[13], m[15]);
    lemma_expand_det3(m[15], m[4], m[5], m[6], m[8], m[9], m[10], m[12], m[13], m[14]);
    lemma_negated_factor(m[15], det3(m[4], m[5], m[6], m[8], m[9], m[10], m[12], m[13], m[14]));
    lemma_arrangements(m[4], m[9], m[14], m[15]);
    lemma_arrangements(m[4], m[10], m[13], m[15]);
    lemma_arrangements(m[4], m[11], m[13], m[14]);
    lemma_arrangements(m[5], m[8], m[14], m[15]);
    lemma_arrangements(m[5], m[10], m[12], m[15]);
    lemma_arrangements(m[5], m[11], m[12], m[14]);
    lemma_arrangements(m[6], m[8], m[13], m[15]);
    lemma_arrangements(m[6], m[9], m[12], m[15]);
    lemma_arrangements(m[6], m[11], m[12], m[13]);
    lemma_arrangements(m[7], m[8], m[13], m[14]);
    lemma_arrangements(m[7], m[9], m[12], m[14]);
    lemma_arrangements(m[7], m[10], m[12], m[13]);
}

/// Row 3 against the cofactors of row 1.
proof fn lemma_row_expansion_31(m: Seq<int>)
    requires
        m.len() == 16,
    ensures
        row_expansion(m, 3, 1) == 0,
{
    lemma_expand_det3(m[12], m[1], m[2], m[3], m[9], m[10], m[11], m[13], m[14], m[15]);
    lemma_negated_factor(m[12], det3(m[1], m[2], m[3], m[9], m[10], m[11], m[13], m[14], m[15]));
    lemma_expand_det3(m[13], m[0], m[2], m[3], m[8], m[10], m[11], m[12], m[14], m[15]);
    lemma_expand_det3(m[14], m[0], m[1], m[3], m[8], m[9], m[11], m[12], m[13], m[15]);
    lemma_negated_factor(m[14], det3(m[0], m[1], m[3], m[8], m[9], m[11], m[12], m[13], m[15]));
    lemma_expand_det3(m[15], m[0], m[1], m[2], m[8], m[9], m[10], m[12], m[13], m[14]);
    lemma_arrangements(m[0], m[9], m[14], m[15]);
    lemma_arrangements(m[0], m[10], m[13], m[15]);
    lemma_arrangements(m[0], m[11], m[13], m[14]);
    lemma_arrangements(m[1], m[8], m[14], m[15]);
    lemma_arrangements(m[1], m[10], m[12], m[15]);
    lemma_arrangements(m[1], m[11], m[12], m[14]);
    lemma_arrangements(m[2], m[8], m[13], m[15]);
    lemma_arrangements(m[2], m[9], m[12], m[15]);
    lemma_arrangements(m[2], m[11], m[12], m[13]);
    lemma_arrangements(m[3], m[8], m[13], m[14]);
    lemma_arrangements(m[3], m[9], m[12], m[14]);
    lemma_arrangements(m[3], m[10], m[12], m[13]);
}

/// Row 3 against the cofactors of row 2.
proof fn lemma_row_expansion_32(m: Seq<int>)
    requires
        m.len() == 16,
    ensures
        row_expansion(m, 3, 2) == 0,
{
    lemma_expand_det3(m[12], m[1], m[2], m[3], m[5], m[6], m[7], m[13], m[14], m[15]);
    lemma_expand_det3(m[13], m[0], m[2], m[3], m[4], m[6], m[7], m[12], m[14], m[15]);
    lemma_negated_factor(m[13], det3(m[0], m[2], m[3], m[4], m[6], m[7], m[12], m[14], m[15]));
    lemma_expand_det3(m[14], m[0], m[1], m[3], m[4], m[5], m[7], m[12], m[13], m[15]);
    lemma_expand_det3(m[15], m[0], m[1], m[2], m[4], m[5], m[6], m[12], m[13], m[14]);
    lemma_negated_factor(m[15], det3(m[0], m[1], m[2], m[4], m[5], m[6], m[12], m[13], m[14]));
    lemma_arrangements(m[0], m[5], m[14], m[15]);
    lemma_arrangements(m[0], m[6], m[13], m[15]);
    lemma_arrangements(m[0], m[7], m[13], m[14]);
    lemma_arrangements(m[1], m[4], m[14], m[15]);
    lemma_arrangements(m[1], m[6], m[12], m[15]);
    lemma_arrangements(m[1], m[7], m[12], m[14]);
    lemma_arrangements(m[2], m[4], m[13], m[15]);
    lemma_arrangements(m[2], m[5], m[12], m[15]);
    lemma_arrangements(m[2], m[7], m[12], m[13]);
    lemma_arrangements(m[3], m[4], m[13], m[14]);
    lemma_arrangements(m[3], m[5], m[12], m[14]);
    lemma_arrangements(m[3], m[6], m[12], m[13]);
}

/// Row 3 against its own cofactors.
proof fn lemma_row_expansion_33(m: Seq<int>)
    requires
        m.len() == 16,
    ensures
        row_expansion(m, 3, 3) == det4(m),
{
    lemma_expand_det3(m[12], m[1], m[2], m[3], m[5], m[6], m[7], m[9], m[10], m[11]);
    lemma_negated_factor(m[12], det3(m[1], m[2], m[3], m[5], m[6], m[7], m[9], m[10], m[11]));
    lemma_expand_det3(m[13], m[0], m[2], m[3], m[4], m[6], m[7], m[8], m[10], m[11]);
    lemma_expand_det3(m[14], m[0], m[1], m[3], m[4], m[5], m[7], m[8], m[9], m[11]);
    lemma_negated_factor(m[14], det3(m[0], m[1], m[3], m[4], m[5], m[7], m[8], m[9], m[11]));
    lemma_expand_det3(m[15], m[0], m[1], m[2], m[4], m[5], m[6], m[8], m[9], m[10]);
    lemma_expand_det3(m[0], m[5], m[6], m[7], m[9], m[10], m[11], m[13], m[14], m[15]);
    lemma_expand_det3(m[1], m[4], m[6], m[7], m[8], m[10], m[11], m[12], m[14], m[15]);
    lemma_negated_factor(m[1], det3(m[4], m[6], m[7], m[8], m[10], m[11], m[12], m[14], m[15]));
    lemma_expand_det3(m[2], m[4], m[5], m[7], m[8], m[9], m[11], m[12], m[13], m[15]);
    lemma_expand_det3(m[3], m[4], m[5], m[6], m[8], m[9], m[10], m[12], m[13], m[14]);
    lemma_negated_factor(m[3], det3(m[4], m[5], m[6], m[8], m[9], m[10], m[12], m[13], m[14]));
    lemma_arrangements(m[0], m[5], m[10], m[15]);
    lemma_arrangements(m[0], m[5], m[11], m[14]);
    lemma_arrangements(m[0], m[6], m[9], m[15]);
    lemma_arrangements(m[0], m[6], m[11], m[13]);
    lemma_arrangements(m[0], m[7], m[9], m[14]);
    lemma_arrangements(m[0], m[7], m[10], m[13]);
    lemma_arrangements(m[1], m[4], m[10], m[15]);
    lemma_arrangements(m[1], m[4], m[11], m[14]);
    lemma_arrangements(m[1], m[6], m[8], m[15]);
    lemma_arrangements(m[1], m[6], m[11], m[12]);
    lemma_arrangements(m[1], m[7], m[8], m[14]);
    lemma_arrangements(m[1], m[7], m[10], m[12]);
    lemma_arrangements(m[2], m[4], m[9], m[15]);
    lemma_arrangements(m[2], m[4], m[11], m[13]);
    lemma_arrangements(m[2], m[5], m[8], m[15]);
    lemma_arrangements(m[2], m[5], m[11], m[12]);
    lemma_arrangements(m[2], m[7], m[8], m[13]);
    lemma_arrangements(m[2], m[7], m[9], m[12]);
    lemma_arrangements(m[3], m[4], m[9], m[14]);
    lemma_arrangements(m[3], m[4], m[10], m[13]);
    lemma_arrangements(m[3], m[5], m[8], m[14]);
    lemma_arrangements(m[3], m[5], m[10], m[12]);
    lemma_arrangements(m[3], m[6], m[8], m[13]);
    lemma_arrangements(m[3], m[6], m[9], m[12]);
}

/// Column 0 against its own cofactors.
proof fn lemma_column_expansion_00(m: Seq<int>)
    requires
        m.len() == 16,
    ensures
        column_expansion(m, 0, 0) == det4(m),
{
    lemma_expand_det3(m[0], m[5], m[6], m[7], m[9], m[10], m[11], m[13], m[14], m[15]);
    lemma_expand_det3(m[4], m[1], m[2], m[3], m[9], m[10], m[11], m[13], m[14], m[15]);
    lemma_negated_factor(m[4], det3(m[1], m[2], m[3], m[9], m[10], m[11], m[13], m[14], m[15]));
    lemma_expand_det3(m[8], m[1], m[2], m[3], m[5], m[6], m[7], m[13], m[14], m[15]);
    lemma_expand_det3(m[12], m[1], m[2], m[3], m[5], m[6], m[7], m[9], m[10], m[11]);
    lemma_negated_factor(m[12], det3(m[1], m[2], m[3], m[5], m[6], m[7], m[9], m[10], m[11]));
    lemma_expand_det3(m[1], m[4], m[6], m[7], m[8], m[10], m[11], m[12], m[14], m[15]);
    lemma_negated_factor(m[1], det3(m[4], m[6], m[7], m[8], m[10], m[11], m[12], m[14], m[15]));
    lemma_expand_det3(m[2], m[4], m[5], m[7], m[8], m[9], m[11], m[12], m[13], m[15]);
    lemma_expand_det3(m[3], m[4], m[5], m[6], m[8], m[9], m[10], m[12], m[13], m[14]);
    lemma_negated_factor(m[3], det3(m[4], m[5], m[6], m[8], m[9], m[10], m[12], m[13], m[14]));
    lemma_arrangements(m[0], m[5], m[10], m[15]);
    lemma_arrangements(m[0], m[5], m[11], m[14]);
    lemma_arrangements(m[0], m[6], m[9], m[15]);
    lemma_arrangements(m[0], m[6], m[11], m[13]);
    lemma_arrangements(m[0], m[7], m[9], m[14]);
    lemma_arrangements(m[0], m[7], m[10], m[13]);
    lemma_arrangements(m[1], m[4], m[10], m[15]);
    lemma_arrangements(m[1], m[4], m[11], m[14]);
    lemma_arrangements(m[1], m[6], m[8], m[15]);
    lemma_arrangements(m[1], m[6], m[11], m[12]);
    lemma_arrangements(m[1], m[7], m[8], m[14]);
    lemma_arrangements(m[1], m[7], m[10], m[12]);
    lemma_arrangements(m[2], m[4], m[9], m[15]);
    lemma_arrangements(m[2], m[4], m[11], m[13]);
    lemma_arrangements(m[2], m[5], m[8], m[15]);
    lemma_arrangements(m[2], m[5], m[11], m[12]);
    lemma_arrangements(m[2], m[7], m[8], m[13]);
    lemma_arrangements(m[2], m[7], m[9], m[12]);
    lemma_arrangements(m[3], m[4], m[9], m[14]);
    lemma_arrangements(m[3], m[4], m[10], m[13]);
    lemma_arrangements(m[3], m[5], m[8], m[14]);
    lemma_arrangements(m[3], m[5], m[10], m[12]);
    lemma_arrangements(m[3], m[6], m[8], m[13]);
    lemma_arrangements(m[3], m[6], m[9], m[12]);
}

/// Column 1 against the cofactors of column 0.
proof fn lemma_column_expansion_01(m: Seq<int>)
    requires
        m.len() == 16,
    ensures
        column_expansion(m, 0, 1) == 0,
{
    lemma_expand_det3(m[1], m[5], m[6], m[7], m[9], m[10], m[11], m[13], m[14], m[15]);
    lemma_expand_det3(m[5], m[1], m[2], m[3], m[9], m[10], m[11], m[13], m[14], m[15]);
    lemma_negated_factor(m[5], det3(m[1], m[2], m[3], m[9], m[10], m[11], m[13], m[14], m[15]));
    lemma_expand_det3(m[9], m[1], m[2], m[3], m[5], m[6], m[7], m[13], m[14], m[15]);
    lemma_expand_det3(m[13], m[1], m[2], m[3], m[5], m[6], m[7], m[9], m[10], m[11]);
    lemma_negated_factor(m[13], det3(m[1], m[2], m[3], m[5], m[6], m[7], m[9], m[10], m[11]));
    lemma_arrangements(m[1], m[5], m[10], m[15]);
    lemma_arrangements(m[1], m[5], m[11], m[14]);
    lemma_arrangements(m[1], m[6], m[9], m[15]);
    lemma_arrangements(m[1], m[6], m[11], m[13]);
    lemma_arrangements(m[1], m[7], m[9], m[14]);
    lemma_arrangements(m[1], m[7], m[10], m[13]);
    lemma_arrangements(m[2], m[5], m[9], m[15]);
    lemma_arrangements(m[2], m[5], m[11], m[13]);
    lemma_arrangements(m[2], m[7], m[9], m[13]);
    lemma_arrangements(m[3], m[5], m[9], m[14]);
    lemma_arrangements(m[3], m[5], m[10], m[13]);
    lemma_arrangements(m[3], m[6], m[9], m[13]);
}

/// Column 2 against the cofactors of column 0.
proof fn lemma_column_expansion_02(m: Seq<int>)
    requires
        m.len() == 16,
    ensures
        column_expansion(m, 0, 2) == 0,
{
    lemma_expand_det3(m[2], m[5], m[6], m[7], m[9], m[10], m[11], m[13], m[14], m[15]);
    lemma_expand_det3(m[6], m[1], m[2], m[3], m[9], m[10], m[11], m[13], m[14], m[15]);
    lemma_negated_factor(m[6], det3(m[1], m[2], m[3], m[9], m[10], m[11], m[13], m[14], m[15]));
    lemma_expand_det3(m[10], m[1], m[2], m[3], m[5], m[6], m[7], m[13], m[14], m[15]);
    lemma_expand_det3(m[14], m[1], m[2], m[3], m[5], m[6], m[7], m[9], m[10], m[11]);
    lemma_negated_factor(m[14], det3(m[1], m[2], m[3], m[5], m[6], m[7], m[9], m[10], m[11]));
    lemma_arrangements(m[1], m[6], m[10], m[15]);
    lemma_arrangements(m[1], m[6], m[11], m[14]);
    lemma_arrangements(m[1], m[7], m[10], m[14]);
    lemma_arrangements(m[2], m[5], m[10], m[15]);
    lemma_arrangements(m[2], m[5], m[11], m[14]);
    lemma_arrangements(m[2], m[6], m[9], m[15]);
    lemma_arrangements(m[2], m[6], m[11], m[13]);
    lemma_arrangements(m[2], m[7], m[9], m[14]);
    lemma_arrangements(m[2], m[7], m[10], m[13]);
    lemma_arrangements(m[3], m[5], m[10], m[14]);
    lemma_arrangements(m[3], m[6], m[9], m[14]);
    lemma_arrangements(m[3], m[6], m[10], m[13]);
}

/// Column 3 against the cofactors of column 0.
proof fn lemma_column_expansion_03(m: Seq<int>)
    requires
        m.len() == 16,
    ensures
        column_expansion(m, 0, 3) == 0,
{
    lemma_expand_det3(m[3], m[5], m[6], m[7], m[9], m[10], m[11], m[13], m[14], m[15]);
    lemma_expand_det3(m[7], m[1], m[2], m[3], m[9], m[10], m[11], m[13], m[14], m[15]);
    lemma_negated_factor(m[7], det3(m[1], m[2], m[3], m[9], m[10], m[11], m[13], m[14], m[15]));
    lemma_expand_det3(m[11], m[1], m[2], m[3], m[5], m[6], m[7], m[13], m[14], m[15]);
    lemma_expand_det3(m[15], m[1], m[2], m[3], m[5], m[6], m[7], m[9], m[10], m[11]);
    lemma_negated_factor(m[15], det3(m[1], m[2], m[3], m[5], m[6], m[7], m[9], m[10], m[11]));
    lemma_arrangements(m[1], m[6], m[11], m[15]);
    lemma_arrangements(m[1], m[7], m[10], m[15]);
    lemma_arrangements(m[1], m[7], m[11], m[14]);
    lemma_arrangements(m[2], m[5], m[11], m[15]);
    lemma_arrangements(m[2], m[7], m[9], m[15]);
    lemma_arrangements(m[2], m[7], m[11], m[13]);
    lemma_arrangements(m[3], m[5], m[10], m[15]);
    lemma_arrangements(m[3], m[5], m[11], m[14]);
    lemma_arrangements(m[3], m[6], m[9], m[15]);
    lemma_arrangements(m[3], m[6], m[11], m[13]);
    lemma_arrangements(m[3], m[7], m[9], m[14]);
    lemma_arrangements(m[3], m[7], m[10], m[13]);
}

/// Column 0 against the cofactors of column 1.
proof fn lemma_column_expansion_10(m: Seq<int>)
    requires
        m.len() == 16,
    ensures
        column_expansion(m, 1, 0) == 0,
{
    lemma_expand_det3(m[0], m[4], m[6], m[7], m[8], m[10], m[11], m[12], m[14], m[15]);
    lemma_negated_factor(m[0], det3(m[4], m[6], m[7], m[8], m[10], m[11], m[12], m[14], m[15]));
    lemma_expand_det3(m[4], m[0], m[2], m[3], m[8], m[10], m[11], m[12], m[14], m[15]);
    lemma_expand_det3(m[8], m[0], m[2], m[3], m[4], m[6], m[7], m[12], m[14], m[15]);
    lemma_negated_factor(m[8], det3(m[0], m[2], m[3], m[4], m[6], m[7], m[12], m[14], m[15]));
    lemma_expand_det3(m[12], m[0], m[2], m[3], m[4], m[6], m[7], m[8], m[10], m[11]);
    lemma_arrangements(m[0], m[4], m[10], m[15]);
    lemma_arrangements(m[0], m[4], m[11], m[14]);
    lemma_arrangements(m[0], m[6], m[8], m[15]);
    lemma_arrangements(m[0], m[6], m[11], m[12]);
    lemma_arrangements(m[0], m[7], m[8], m[14]);
    lemma_arrangements(m[0], m[7], m[10], m[12]);
    lemma_arrangements(m[2], m[4], m[8], m[15]);
    lemma_arrangements(m[2], m[4], m[11], m[12]);
    lemma_arrangements(m[2], m[7], m[8], m[12]);
    lemma_arrangements(m[3], m[4], m[8], m[14]);
    lemma_arrangements(m[3], m[4], m[10], m[12]);
    lemma_arrangements(m[3], m[6], m[8], m[12]);
}

/// Column 1 against its own cofactors.
proof fn lemma_column_expansion_11(m: Seq<int>)
    requires
        m.len() == 16,
    ensures
        column_expansion(m, 1, 1) == det4(m),
{
    lemma_expand_det3(m[1], m[4], m[6], m[7], m[8], m[10], m[11], m[12], m[14], m[15]);
    lemma_negated_factor(m[1], det3(m[4], m[6], m[7], m[8], m[10], m[11], m[12], m[14], m[15]));
    lemma_expand_det3(m[5], m[0], m[2], m[3], m[8], m[10], m[11], m[12], m[14], m[15]);
    lemma_expand_det3(m[9], m[0], m[2], m[3], m[4], m[6], m[7], m[12], m[14], m[15]);
    lemma_negated_factor(m[9], det3(m[0], m[2], m[3], m[4], m[6], m[7], m[12], m[14], m[15]));
    lemma_expand_det3(m[13], m[0], m[2], m[3], m[4], m[6], m[7], m[8], m[10], m[11]);
    lemma_expand_det3(m[0], m[5], m[6], m[7], m[9], m[10], m[11], m[13], m[14], m[15]);
    lemma_expand_det3(m[2], m[4], m[5], m[7], m[8], m[9], m[11], m[12], m[13], m[15]);
    lemma_expand_det3(m[3], m[4], m[5], m[6], m[8], m[9], m[10], m[12], m[13], m[14]);
    lemma_negated_factor(m[3], det3(m[4], m[5], m[6], m[8], m[9], m[10], m[12], m[13], m[14]));
    lemma_arrangements(m[0], m[5], m[10], m[15]);
    lemma_arrangements(m[0], m[5], m[11], m[14]);
    lemma_arrangements(m[0], m[6], m[9], m[15]);
    lemma_arrangements(m[0], m[6], m[11], m[13]);
    lemma_arrangements(m[0], m[7], m[9], m[14]);
    lemma_arrangements(m[0], m[7], m[10], m[13]);
    lemma_arrangements(m[1], m[4], m[10], m[15]);
    lemma_arrangements(m[1], m[4], m[11], m[14]);
    lemma_arrangements(m[1], m[6], m[8], m[15]);
    lemma_arrangements(m[1], m[6], m[11], m[12]);
    lemma_arrangements(m[1], m[7], m[8], m[14]);
    lemma_arrangements(m[1], m[7], m[10], m[12]);
    lemma_arrangements(m[2], m[4], m[9], m[15]);
    lemma_arrangements(m[2], m[4], m[11], m[13]);
    lemma_arrangements(m[2], m[5], m[8], m[15]);
    lemma_arrangements(m[2], m[5], m[11], m[12]);
    lemma_arrangements(m[2], m[7], m[8], m[13]);
    lemma_arrangements(m[2], m[7], m[9], m[12]);
    lemma_arrangements(m[3], m[4], m[9], m[14]);
    lemma_arrangements(m[3], m[4], m[10], m[13]);
    lemma_arrangements(m[3], m[5], m[8], m[14]);
    lemma_arrangements(m[3], m[5], m[10], m[12]);
    lemma_arrangements(m[3], m[6], m[8], m[13]);
    lemma_arrangements(m[3], m[6], m[9], m[12]);
}

/// Column 2 against the cofactors of column 1.
proof fn lemma_column_expansion_12(m: Seq<int>)
    requires
        m.len() == 16,
    ensures
        column_expansion(m, 1, 2) == 0,
{
    lemma_expand_det3(m[2], m[4], m[6], m[7], m[8], m[10], m[11], m[12], m[14], m[15]);
    lemma_negated_factor(m[2], det3(m[4], m[6], m[7], m[8], m[10], m[11], m[12], m[14], m[15]));
    lemma_expand_det3(m[6], m[0], m[2], m[3], m[8], m[10], m[11], m[12], m[14], m[15]);
    lemma_expand_det3(m[10], m[0], m[2], m[3], m[4], m[6], m[7], m[12], m[14], m[15]);
    lemma_negated_factor(m[10], det3(m[0], m[2], m[3], m[4], m[6], m[7], m[12], m[14], m[15]));
    lemma_expand_det3(m[14], m[0], m[2], m[3], m[4], m[6], m[7], m[8], m[10], m[11]);
    lemma_arrangements(m[0], m[6], m[10], m[15]);
    lemma_arrangements(m[0], m[6], m[11], m[14]);
    lemma_arrangements(m[0], m[7], m[10], m[14]);
    lemma_arrangements(m[2], m[4], m[10], m[15]);
    lemma_arrangements(m[2], m[4], m[11], m[14]);
    lemma_arrangements(m[2], m[6], m[8], m[15]);
    lemma_arrangements(m[2], m[6], m[11], m[12]);
    lemma_arrangements(m[2], m[7], m[8], m[14]);
    lemma_arrangements(m[2], m[7], m[10], m[12]);
    lemma_arrangements(m[3], m[4], m[10], m[14]);
    lemma_arrangements(m[3], m[6], m[8], m[14]);
    lemma_arrangements(m[3], m[6], m[10], m[12]);
}

/// Column 3 against the cofactors of column 1.
proof fn lemma_column_expansion_13(m: Seq<int>)
    requires
        m.len() == 16,
    ensures
        column_expansion(m, 1, 3) == 0,
{
    lemma_expand_det3(m[3], m[4], m[6], m[7], m[8], m[10], m[11], m[12], m[14], m[15]);
    lemma_negated_factor(m[3], det3(m[4], m[6], m[7], m[8], m[10], m[11], m[12], m[14], m[15]));
    lemma_expand_det3(m[7], m[0], m[2], m[3], m[8], m[10], m[11], m[12], m[14], m[15]);
    lemma_expand_det3(m[11], m[0], m[2], m[3], m[4], m[6], m[7], m[12], m[14], m[15]);
    lemma_negated_factor(m[11], det3(m[0], m[2], m[3], m[4], m[6], m[7], m[12], m[14], m[15]));
    lemma_expand_det3(m[15], m[0], m[2], m[3], m[4], m[6], m[7], m[8], m[10], m[11]);
    lemma_arrangements(m[0], m[6], m[11], m[15]);
    lemma_arrangements(m[0], m[7], m[10], m[15]);
    lemma_arrangements(m[0], m[7], m[11], m[14]);
    lemma_arrangements(m[2], m[4], m[11], m[15]);
    lemma_arrangements(m[2], m[7], m[8], m[15]);
    lemma_arrangements(m[2], m[7], m[11], m[12]);
    lemma_arrangements(m[3], m[4], m[10], m[15]);
    lemma_arrangements(m[3], m[4], m[11], m[14]);
    lemma_arrangements(m[3], m[6], m[8], m[15]);
    lemma_arrangements(m[3], m[6], m[11], m[12]);
    lemma_arrangements(m[3], m[7], m[8], m[14]);
    lemma_arrangements(m[3], m[7], m[10], m[12]);
}

/// Column 0 against the cofactors of column 2.
proof fn lemma_column_expansion_20(m: Seq<int>)
    requires
        m.len() == 16,
    ensures
        column_expansion(m, 2, 0) == 0,
{
    lemma_expand_det3(m[0], m[4], m[5], m[7], m[8], m[9], m[11], m[12], m[13], m[15]);
    lemma_expand_det3(m[4], m[0], m[1], m[3], m[8], m[9], m[11], m[12], m[13], m[15]);
    lemma_negated_factor(m[4], det3(m[0], m[1], m[3], m[8], m[9], m[11], m[12], m[13], m[15]));
    lemma_expand_det3(m[8], m[0], m[1], m[3], m[4], m[5], m[7], m[12], m[13], m[15]);
    lemma_expand_det3(m[12], m[0], m[1], m[3], m[4], m[5], m[7], m[8], m[9], m[11]);
    lemma_negated_factor(m[12], det3(m[0], m[1], m[3], m[4], m[5], m[7], m[8], m[9], m[11]));
    lemma_arrangements(m[0], m[4], m[9], m[15]);
    lemma_arrangements(m[0], m[4], m[11], m[13]);
    lemma_arrangements(m[0], m[5], m[8], m[15]);
    lemma_arrangements(m[0], m[5], m[11], m[12]);
    lemma_arrangements(m[0], m[7], m[8], m[13]);
    lemma_arrangements(m[0], m[7], m[9], m[12]);
    lemma_arrangements(m[1], m[4], m[8], m[15]);
    lemma_arrangements(m[1], m[4], m[11], m[12]);
    lemma_arrangements(m[1], m[7], m[8], m[12]);
    lemma_arrangements(m[3], m[4], m[8], m[13]);
    lemma_arrangements(m[3], m[4], m[9], m[12]);
    lemma_arrangements(m[3], m[5], m[8], m[12]);
}

/// Column 1 against the cofactors of column 2.
proof fn lemma_column_expansion_21(m: Seq<int>)
    requires
        m.len() == 16,
    ensures
        column_expansion(m, 2, 1) == 0,
{
    lemma_expand_det3(m[1], m[4], m[5], m[7], m[8], m[9], m[11], m[12], m[13], m[15]);
    lemma_expand_det3(m[5], m[0], m[1], m[3], m[8], m[9], m[11], m[12], m[13], m[15]);
    lemma_negated_factor(m[5], det3(m[0], m[1], m[3], m[8], m[9], m[11], m[12], m[13], m[15]));
    lemma_expand_det3(m[9], m[0], m[1], m[3], m[4], m[5], m[7], m[12], m[13], m[15]);
    lemma_expand_det3(m[13], m[0], m[1], m[3], m[4], m[5], m[7], m[8], m[9], m[11]);
    lemma_negated_factor(m[13], det3(m[0], m[1], m[3], m[4], m[5], m[7], m[8], m[9], m[11]));
    lemma_arrangements(m[0], m[5], m[9], m[15]);
    lemma_arrangements(m[0], m[5], m[11], m[13]);
    lemma_arrangements(m[0], m[7], m[9], m[13]);
    lemma_arrangements(m[1], m[4], m[9], m[15]);
    lemma_arrangements(m[1], m[4], m[11], m[13]);
    lemma_arrangements(m[1], m[5], m[8], m[15]);
    lemma_arrangements(m[1], m[5], m[11], m[12]);
    lemma_arrangements(m[1], m[7], m[8], m[13]);
    lemma_arrangements(m[1], m[7], m[9], m[12]);
    lemma_arrangements(m[3], m[4], m[9], m[13]);
    lemma_arrangements(m[3], m[5], m[8], m[13]);
    lemma_arrangements(m[3], m[5], m[9], m[12]);
}

/// Column 2 against its own cofactors.
proof fn lemma_column_expansion_22(m: Seq<int>)
    requires
        m.len() == 16,
    ensures
        column_expansion(m, 2, 2) == det4(m),
{
    lemma_expand_det3(m[2], m[4], m[5], m[7], m[8], m[9], m[11], m[12], m[13], m[15]);
    lemma_expand_det3(m[6], m[0], m[1], m[3], m[8], m[9], m[11], m[12], m[13], m[15]);
    lemma_negated_factor(m[6], det3(m[0], m[1], m[3], m[8], m[9], m[11], m[12], m[13], m[15]));
    lemma_expand_det3(m[10], m[0], m[1], m[3], m[4], m[5], m[7], m[12], m[13], m[15]);
    lemma_expand_det3(m[14], m[0], m[1], m[3], m[4], m[5], m[7], m[8], m[9], m[11]);
    lemma_negated_factor(m[14], det3(m[0], m[1], m[3], m[4], m[5], m[7], m[8], m[9], m[11]));
    lemma_expand_det3(m[0], m[5], m[6], m[7], m[9], m[10], m[11], m[13], m[14], m[15]);
    lemma_expand_det3(m[1], m[4], m[6], m[7], m[8], m[10], m[11], m[12], m[14], m[15]);
    lemma_negated_factor(m[1], det3(m[4], m[6], m[7], m[8], m[10], m[11], m[12], m[14], m[15]));
    lemma_expand_det3(m[3], m[4], m[5], m[6], m[8], m[9], m[10], m[12], m[13], m[14]);
    lemma_negated_factor(m[3], det3(m[4], m[5], m[6], m[8], m[9], m[10], m[12], m[13], m[14]));
    lemma_arrangements(m[0], m[5], m[10], m[15]);
    lemma_arrangements(m[0], m[5], m[11], m[14]);
    lemma_arrangements(m[0], m[6], m[9], m[15]);
    lemma_arrangements(m[0], m[6], m[11], m[13]);
    lemma_arrangements(m[0], m[7], m[9], m[14]);
    lemma_arrangements(m[0], m[7], m[10], m[13]);
    lemma_arrangements(m[1], m[4], m[10], m[15]);
    lemma_arrangements(m[1], m[4], m[11], m[14]);
    lemma_arrangements(m[1], m[6], m[8], m[15]);
    lemma_arrangements(m[1], m[6], m[11], m[12]);
    lemma_arrangements(m[1], m[7], m[8], m[14]);
    lemma_arrangements(m[1], m[7], m[10], m[12]);
    lemma_arrangements(m[2], m[4], m[9], m[15]);
    lemma_arrangements(m[2], m[4], m[11], m[13]);
    lemma_arrangements(m[2], m[5], m[8], m[15]);
    lemma_arrangements(m[2], m[5], m[11], m[12]);
    lemma_arrangements(m[2], m[7], m[8], m[13]);
    lemma_arrangements(m[2], m[7], m[9], m[12]);
    lemma_arrangements(m[3], m[4], m[9], m[14]);
    lemma_arrangements(m[3], m[4], m[10], m[13]);
    lemma_arrangements(m[3], m[5], m[8], m[14]);
    lemma_arrangements(m[3], m[5], m[10], m[12]);
    lemma_arrangements(m[3], m[6], m[8], m[13]);
    lemma_arrangements(m[3], m[6], m[9], m[12]);
}

/// Column 3 against the cofactors of column 2.
proof fn lemma_column_expansion_23(m: Seq<int>)
    requires
        m.len() == 16,
    ensures
        column_expansion(m, 2, 3) == 0,
{
    lemma_expand_det3(m[3], m[4], m[5], m[7], m[8], m[9], m[11], m[12], m[13], m[15]);
    lemma_expand_det3(m[7], m[0], m[1], m[3], m[8], m[9], m[11], m[12], m[13], m[15]);
    lemma_negated_factor(m[7], det3(m[0], m[1], m[3], m[8], m[9], m[11], m[12], m[13], m[15]));
    lemma_expand_det3(m[11], m[0], m[1], m[3], m[4], m[5], m[7], m[12], m[13], m[15]);
    lemma_expand_det3(m[15], m[0], m[1], m[3], m[4], m[5], m[7], m[8], m[9], m[11]);
    lemma_negated_factor(m[15], det3(m[0], m[1], m[3], m[4], m[5], m[7], m[8], m[9], m[11]));
    lemma_arrangements(m[0], m[5], m[11], m[15]);
    lemma_arrangements(m[0], m[7], m[9], m[15]);
    lemma_arrangements(m[0], m[7], m[11], m[13]);
    lemma_arrangements(m[1], m[4], m[11], m[15]);
    lemma_arrangements(m[1], m[7], m[8], m[15]);
    lemma_arrangements(m[1], m[7], m[11], m[12]);
    lemma_arrangements(m[3], m[4], m[9], m[15]);
    lemma_arrangements(m[3], m[4], m[11], m[13]);
    lemma_arrangements(m[3], m[5], m[8], m[15]);
    lemma_arrangements(m[3], m[5], m[11], m[12]);
    lemma_arrangements(m[3], m[7], m[8], m[13]);
    lemma_arrangements(m[3], m[7], m[9], m[12]);
}

/// Column 0 against the cofactors of column 3.
proof fn lemma_column_expansion_30(m: Seq<int>)
    requires
        m.len() == 16,
    ensures
        column_expansion(m, 3, 0) == 0,
{
    lemma_expand_det3(m[0], m[4], m[5], m[6], m[8], m[9], m[10], m[12], m[13], m[14]);
    lemma_negated_factor(m[0], det3(m[4], m[5], m[6], m[8], m[9], m[10], m[12], m[13], m[14]));
    lemma_expand_det3(m[4], m[0], m[1], m[2], m[8], m[9], m[10], m[12], m[13], m[14]);
    lemma_expand_det3(m[8], m[0], m[1], m[2], m[4], m[5], m[6], m[12], m[13], m[14]);
    lemma_negated_factor(m[8], det3(m[0], m[1], m[2], m[4], m[5], m[6], m[12], m[13], m[14]));
    lemma_expand_det3(m[12], m[0], m[1], m[2], m[4], m[5], m[6], m[8], m[9], m[10]);
    lemma_arrangements(m[0], m[4], m[9], m[14]);
    lemma_arrangements(m[0], m[4], m[10], m[13]);
    lemma_arrangements(m[0], m[5], m[8], m[14]);
    lemma_arrangements(m[0], m[5], m[10], m[12]);
    lemma_arrangements(m[0], m[6], m[8], m[13]);
    lemma_arrangements(m[0], m[6], m[9], m[12]);
    lemma_arrangements(m[1], m[4], m[8], m[14]);
    lemma_arrangements(m[1], m[4], m[10], m[12]);
    lemma_arrangements(m[1], m[6], m[8], m[12]);
    lemma_arrangements(m[2], m[4], m[8], m[13]);
    lemma_arrangements(m[2], m[4], m[9], m[12]);
    lemma_arrangements(m[2], m[5], m[8], m[12]);
}

/// Column 1 against the cofactors of column 3.
proof fn lemma_column_expansion_31(m: Seq<int>)
    requires
        m.len() == 16,
    ensures
        column_expansion(m, 3, 1) == 0,
{
    lemma_expand_det3(m[1], m[4], m[5], m[6], m[8], m[9], m[10], m[12], m[13], m[14]);
    lemma_negated_factor(m[1], det3(m[4], m[5], m[6], m[8], m[9], m[10], m[12], m[13], m[14]));
    lemma_expand_det3(m[5], m[0], m[1], m[2], m[8], m[9], m[10], m[12], m[13], m[14]);
    lemma_expand_det3(m[9], m[0], m[1], m[2], m[4], m[5], m[6], m[12], m[13], m[14]);
    lemma_negated_factor(m[9], det3(m[0], m[1], m[2], m[4], m[5], m[6], m[12], m[13], m[14]));
    lemma_expand_det3(m[13], m[0], m[1], m[2], m[4], m[5], m[6], m[8], m[9], m[10]);
    lemma_arrangements(m[0], m[5], m[9], m[14]);
    lemma_arrangements(m[0], m[5], m[10], m[13]);
    lemma_arrangements(m[0], m[6], m[9], m[13]);
    lemma_arrangements(m[1], m[4], m[9], m[14]);
    lemma_arrangements(m[1], m[4], m[10], m[13]);
    lemma_arrangements(m[1], m[5], m[8], m[14]);
    lemma_arrangements(m[1], m[5], m[10], m[12]);
    lemma_arrangements(m[1], m[6], m[8], m[13]);
    lemma_arrangements(m[1], m[6], m[9], m[12]);
    lemma_arrangements(m[2], m[4], m[9], m[13]);
    lemma_arrangements(m[2], m[5], m[8], m[13]);
    lemma_arrangements(m[2], m[5], m[9], m[12]);
}

/// Column 2 against the cofactors of column 3.
proof fn lemma_column_expansion_32(m: Seq<int>)
    requires
        m.len() == 16,
    ensures
        column_expansion(m, 3, 2) == 0,
{
    lemma_expand_det3(m[2], m[4], m[5], m[6], m[8], m[9], m[10], m[12], m[13], m[14]);
    lemma_negated_factor(m[2], det3(m[4], m[5], m[6], m[8], m[9], m[10], m[12], m[13], m[14]));
    lemma_expand_det3(m[6], m[0], m[1], m[2], m[8], m[9], m[10], m[12], m[13], m[14]);
    lemma_expand_det3(m[10], m[0], m[1], m[2], m[4], m[5], m[6], m[12], m[13], m[14]);
    lemma_negated_factor(m[10], det3(m[0], m[1], m[2], m[4], m[5], m[6], m[12], m[13], m[14]));
    lemma_expand_det3(m[14], m[0], m[1], m[2], m[4], m[5], m[6], m[8], m[9], m[10]);
    lemma_arrangements(m[0], m[5], m[10], m[14]);
    lemma_arrangements(m[0], m[6], m[9], m[14]);
    lemma_arrangements(m[0], m[6], m[10], m[13]);
    lemma_arrangements(m[1], m[4], m[10], m[14]);
    lemma_arrangements(m[1], m[6], m[8], m[14]);
    lemma_arrangements(m[1], m[6], m[10], m[12]);
    lemma_arrangements(m[2], m[4], m[9], m[14]);
    lemma_arrangements(m[2], m[4], m[10], m[13]);
    lemma_arrangements(m[2], m[5], m[8], m[14]);
    lemma_arrangements(m[2], m[5], m[10], m[12]);
    lemma_arrangements(m[2], m[6], m[8], m[13]);
    lemma_arrangements(m[2], m[6], m[9], m[12]);
}

/// Column 3 against its own cofactors.
proof fn lemma_column_expansion_33(m: Seq<int>)
    requires
        m.len() == 16,
    ensures
        column_expansion(m, 3, 3) == det4(m),
{
    lemma_expand_det3(m[3], m[4], m[5], m[6], m[8], m[9], m[10], m[12], m[13], m[14]);
    lemma_negated_factor(m[3], det3(m[4], m[5], m[6], m[8], m[9], m[10], m[12], m[13], m[14]));
    lemma_expand_det3(m[7], m[0], m[1], m[2], m[8], m[9], m[10], m[12], m[13], m[14]);
    lemma_expand_det3(m[11], m[0], m[1], m[2], m[4], m[5], m[6], m[12], m[13], m[14]);
    lemma_negated_factor(m[11], det3(m[0], m[1], m[2], m[4], m[5], m[6], m[12], m[13], m[14]));
    lemma_expand_det3(m[15], m[0], m[1], m[2], m[4], m[5], m[6], m[8], m[9], m[10]);
    lemma_expand_det3(m[0], m[5], m[6], m[7], m[9], m[10], m[11], m[13], m[14], m[15]);
    lemma_expand_det3(m[1], m[4], m[6], m[7], m[8], m[10], m[11], m[12], m[14], m[15]);
    lemma_negated_factor(m[1], det3(m[4], m[6], m[7], m[8], m[10], m[11], m[12], m[14], m[15]));
    lemma_expand_det3(m[2], m[4], m[5], m[7], m[8], m[9], m[11], m[12], m[13], m[15]);
    lemma_arrangements(m[0], m[5], m[10], m[15]);
    lemma_arrangements(m[0], m[5], m[11], m[14]);
    lemma_arrangements(m[0], m[6], m[9], m[15]);
    lemma_arrangements(m[0], m[6], m[11], m[13]);
    lemma_arrangements(m[0], m[7], m[9], m[14]);
    lemma_arrangements(m[0], m[7], m[10], m[13]);
    lemma_arrangements(m[1], m[4], m[10], m[15]);
    lemma_arrangements(m[1], m[4], m[11], m[14]);
    lemma_arrangements(m[1], m[6], m[8], m[15]);
    lemma_arrangements(m[1], m[6], m[11], m[12]);
    lemma_arrangements(m[1], m[7], m[8], m[14]);
    lemma_arrangements(m[1], m[7], m[10], m[12]);
    lemma_arrangements(m[2], m[4], m[9], m[15]);
    lemma_arrangements(m[2], m[4], m[11], m[13]);
    lemma_arrangements(m[2], m[5], m[8], m[15]);
    lemma_arrangements(m[2], m[5], m[11], m[12]);
    lemma_arrangements(m[2], m[7], m[8], m[13]);
    lemma_arrangements(m[2], m[7], m[9], m[12]);
    lemma_arrangements(m[3], m[4], m[9], m[14]);
    lemma_arrangements(m[3], m[4], m[10], m[13]);
    lemma_arrangements(m[3], m[5], m[8], m[14]);
    lemma_arrangements(m[3], m[5], m[10], m[12]);
    lemma_arrangements(m[3], m[6], m[8], m[13]);
    lemma_arrangements(m[3], m[6], m[9], m[12]);
}

/// The cofactor expansions of a 4x4 matrix: a row against its own cofactors gives the
/// determinant, against those of another row zero; and likewise for columns.
pub proof fn lemma_cofactor_expansions(m: Seq<int>)
    requires
        m.len() == 16,
    ensures
        forall|i: int, j: int|
            0 <= i < 4 && 0 <= j < 4 ==> #[trigger] row_expansion(m, i, j) == (if i == j {
                det4(m)
            } else {
                0
            }),
        forall|i: int, j: int|
            0 <= i < 4 && 0 <= j < 4 ==> #[trigger] column_expansion(m, i, j) == (if i == j {
                det4(m)
            } else {
                0
            }),
{
    lemma_row_expansion_00(m);
    lemma_row_expansion_01(m);
    lemma_row_expansion_02(m);
    lemma_row_expansion_03(m);
    lemma_row_expansion_10(m);
    lemma_row_expansion_11(m);
    lemma_row_expansion_12(m);
    lemma_row_expansion_13(m);
    lemma_row_expansion_20(m);
    lemma_row_expansion_21(m);
    lemma_row_expansion_22(m);
    lemma_row_expansion_23(m);
    lemma_row_expansion_30(m);
    lemma_row_expansion_31(m);
    lemma_row_expansion_32(m);
    lemma_row_expansion_33(m);
    lemma_column_expansion_00(m);
    lemma_column_expansion_01(m);
    lemma_column_expansion_02(m);
    lemma_column_expansion_03(m);
    lemma_column_expansion_10(m);
    lemma_column_expansion_11(m);
    lemma_column_expansion_12(m);
    lemma_column_expansion_13(m);
    lemma_column_expansion_20(m);
    lemma_column_expansion_21(m);
    lemma_column_expansion_22(m);
    lemma_column_expansion_23(m);
    lemma_column_expansion_30(m);
    lemma_column_expansion_31(m);
    lemma_column_expansion_32(m);
    lemma_column_expansion_33(m);
}

} // verus!
