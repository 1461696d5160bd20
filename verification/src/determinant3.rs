//! Determinants and cofactors of 3x3 integer matrices, stored row by row in a sequence of
//! nine.

use crate::determinant::skip;
use crate::product::{lemma_arrangements3, lemma_negated_factor};
use vstd::prelude::*;

verus! {

/// The determinant of the 2x2 matrix with rows `(a, b)` and `(c, d)`.
pub open spec fn det2(a: int, b: int, c: int, d: int) -> int {
    a * d - b * c
}

/// A factor times a 2x2 determinant, written as two products of three.
pub proof fn lemma_expand_det2(x: int, a: int, b: int, c: int, d: int)
    ensures
        x * det2(a, b, c, d) == x * (a * d) - x * (b * c),
{
    let ad = a * d;
    let bc = b * c;
    assert(x * (ad - bc) == x * ad - x * bc) by (nonlinear_arith);
}

/// The determinant of what is left of `m` when row `i` and column `j` are struck out.
pub open spec fn minor3(m: Seq<int>, i: int, j: int) -> int {
    det2(
        m[3 * skip(0, i) + skip(0, j)],
        m[3 * skip(0, i) + skip(1, j)],
        m[3 * skip(1, i) + skip(0, j)],
        m[3 * skip(1, i) + skip(1, j)],
    )
}

/// The minor with the sign of its place.
pub open spec fn cofactor3(m: Seq<int>, i: int, j: int) -> int {
    if (i + j) % 2 == 0 {
        minor3(m, i, j)
    } else {
        -minor3(m, i, j)
    }
}

/// The determinant, expanded along the first row.
pub open spec fn det9(m: Seq<int>) -> int {
    m[0] * cofactor3(m, 0, 0) + m[1] * cofactor3(m, 0, 1) + m[2] * cofactor3(m, 0, 2)
}

/// Row `i` of `m` against the cofactors of row `j`.
pub open spec fn row_expansion3(m: Seq<int>, i: int, j: int) -> int {
    m[3 * i] * cofactor3(m, j, 0) + m[3 * i + 1] * cofactor3(m, j, 1) + m[3 * i + 2] * cofactor3(
        m,
        j,
        2,
    )
}

/// Column `j` of `m` against the cofactors of column `i`.
pub open spec fn column_expansion3(m: Seq<int>, i: int, j: int) -> int {
    m[j] * cofactor3(m, 0, i) + m[3 + j] * cofactor3(m, 1, i) + m[6 + j] * cofactor3(m, 2, i)
}

/// Row 0 against its own cofactors.
proof fn lemma_row_expansion_00(m: Seq<int>)
    requires
        m.len() == 9,
    ensures
        row_expansion3(m, 0, 0) == det9(m),
{
}

/// Row 0 against the cofactors of row 1.
proof fn lemma_row_expansion_01(m: Seq<int>)
    requires
        m.len() == 9,
    ensures
        row_expansion3(m, 0, 1) == 0,
{
    lemma_expand_det2(m[0], m[1], m[2], m[7], m[8]);
    lemma_negated_factor(m[0], det2(m[1], m[2], m[7], m[8]));
    lemma_expand_det2(m[1], m[0], m[2], m[6], m[8]);
    lemma_expand_det2(m[2], m[0], m[1], m[6], m[7]);
    lemma_negated_factor(m[2], det2(m[0], m[1], m[6], m[7]));
    lemma_arrangements3(m[0], m[1], m[8]);
    lemma_arrangements3(m[0], m[2], m[7]);
    lemma_arrangements3(m[1], m[2], m[6]);
}

/// Row 0 against the cofactors of row 2.
proof fn lemma_row_expansion_02(m: Seq<int>)
    requires
        m.len() == 9,
    ensures
        row_expansion3(m, 0, 2) == 0,
{
    lemma_expand_det2(m[0], m[1], m[2], m[4], m[5]);
    lemma_expand_det2(m[1], m[0], m[2], m[3], m[5]);
    lemma_negated_factor(m[1], det2(m[0], m[2], m[3], m[5]));
    lemma_expand_det2(m[2], m[0], m[1], m[3], m[4]);
    lemma_arrangements3(m[0], m[1], m[5]);
    lemma_arrangements3(m[0], m[2], m[4]);
    lemma_arrangements3(m[1], m[2], m[3]);
}

/// Row 1 against the cofactors of row 0.
proof fn lemma_row_expansion_10(m: Seq<int>)
    requires
        m.len() == 9,
    ensures
        row_expansion3(m, 1, 0) == 0,
{
    lemma_expand_det2(m[3], m[4], m[5], m[7], m[8]);
    lemma_expand_det2(m[4], m[3], m[5], m[6], m[8]);
    lemma_negated_factor(m[4], det2(m[3], m[5], m[6], m[8]));
    lemma_expand_det2(m[5], m[3], m[4], m[6], m[7]);
    lemma_arrangements3(m[3], m[4], m[8]);
    lemma_arrangements3(m[3], m[5], m[7]);
    lemma_arrangements3(m[4], m[5], m[6]);
}

/// Row 1 against its own cofactors.
proof fn lemma_row_expansion_11(m: Seq<int>)
    requires
        m.len() == 9,
    ensures
        row_expansion3(m, 1, 1) == det9(m),
{
    lemma_expand_det2(m[3], m[1], m[2], m[7], m[8]);
    lemma_negated_factor(m[3], det2(m[1], m[2], m[7], m[8]));
    lemma_expand_det2(m[4], m[0], m[2], m[6], m[8]);
    lemma_expand_det2(m[5], m[0], m[1], m[6], m[7]);
    lemma_negated_factor(m[5], det2(m[0], m[1], m[6], m[7]));
    lemma_expand_det2(m[0], m[4], m[5], m[7], m[8]);
    lemma_expand_det2(m[1], m[3], m[5], m[6], m[8]);
    lemma_negated_factor(m[1], det2(m[3], m[5], m[6], m[8]));
    lemma_expand_det2(m[2], m[3], m[4], m[6], m[7]);
    lemma_arrangements3(m[0], m[4], m[8]);
    lemma_arrangements3(m[0], m[5], m[7]);
    lemma_arrangements3(m[1], m[3], m[8]);
    lemma_arrangements3(m[1], m[5], m[6]);
    lemma_arrangements3(m[2], m[3], m[7]);
    lemma_arrangements3(m[2], m[4], m[6]);
}

/// Row 1 against the cofactors of row 2.
proof fn lemma_row_expansion_12(m: Seq<int>)
    requires
        m.len() == 9,
    ensures
        row_expansion3(m, 1, 2) == 0,
{
    lemma_expand_det2(m[3], m[1], m[2], m[4], m[5]);
    lemma_expand_det2(m[4], m[0], m[2], m[3], m[5]);
    lemma_negated_factor(m[4], det2(m[0], m[2], m[3], m[5]));
    lemma_expand_det2(m[5], m[0], m[1], m[3], m[4]);
    lemma_arrangements3(m[0], m[4], m[5]);
    lemma_arrangements3(m[1], m[3], m[5]);
    lemma_arrangements3(m[2], m[3], m[4]);
}

/// Row 2 against the cofactors of row 0.
proof fn lemma_row_expansion_20(m: Seq<int>)
    requires
        m.len() == 9,
    ensures
        row_expansion3(m, 2, 0) == 0,
{
    lemma_expand_det2(m[6], m[4], m[5], m[7], m[8]);
    lemma_expand_det2(m[7], m[3], m[5], m[6], m[8]);
    lemma_negated_factor(m[7], det2(m[3], m[5], m[6], m[8]));
    lemma_expand_det2(m[8], m[3], m[4], m[6], m[7]);
    lemma_arrangements3(m[3], m[7], m[8]);
    lemma_arrangements3(m[4], m[6], m[8]);
    lemma_arrangements3(m[5], m[6], m[7]);
}

/// Row 2 against the cofactors of row 1.
proof fn lemma_row_expansion_21(m: Seq<int>)
    requires
        m.len() == 9,
    ensures
        row_expansion3(m, 2, 1) == 0,
{
    lemma_expand_det2(m[6], m[1], m[2], m[7], m[8]);
    lemma_negated_factor(m[6], det2(m[1], m[2], m[7], m[8]));
    lemma_expand_det2(m[7], m[0], m[2], m[6], m[8]);
    lemma_expand_det2(m[8], m[0], m[1], m[6], m[7]);
    lemma_negated_factor(m[8], det2(m[0], m[1], m[6], m[7]));
    lemma_arrangements3(m[0], m[7], m[8]);
    lemma_arrangements3(m[1], m[6], m[8]);
    lemma_arrangements3(m[2], m[6], m[7]);
}

/// Row 2 against its own cofactors.
proof fn lemma_row_expansion_22(m: Seq<int>)
    requires
        m.len() == 9,
    ensures
        row_expansion3(m, 2, 2) == det9(m),
{
    lemma_expand_det2(m[6], m[1], m[2], m[4], m[5]);
    lemma_expand_det2(m[7], m[0], m[2], m[3], m[5]);
    lemma_negated_factor(m[7], det2(m[0], m[2], m[3], m[5]));
    lemma_expand_det2(m[8], m[0], m[1], m[3], m[4]);
    lemma_expand_det2(m[0], m[4], m[5], m[7], m[8]);
    lemma_expand_det2(m[1], m[3], m[5], m[6], m[8]);
    lemma_negated_factor(m[1], det2(m[3], m[5], m[6], m[8]));
    lemma_expand_det2(m[2], m[3], m[4], m[6], m[7]);
    lemma_arrangements3(m[0], m[4], m[8]);
    lemma_arrangements3(m[0], m[5], m[7]);
    lemma_arrangements3(m[1], m[3], m[8]);
    lemma_arrangements3(m[1], m[5], m[6]);
    lemma_arrangements3(m[2], m[3], m[7]);
    lemma_arrangements3(m[2], m[4], m[6]);
}

/// Column 0 against its own cofactors.
proof fn lemma_column_expansion_00(m: Seq<int>)
    requires
        m.len() == 9,
    ensures
        column_expansion3(m, 0, 0) == det9(m),
{
    lemma_expand_det2(m[0], m[4], m[5], m[7], m[8]);
    lemma_expand_det2(m[3], m[1], m[2], m[7], m[8]);
    lemma_negated_factor(m[3], det2(m[1], m[2], m[7], m[8]));
    lemma_expand_det2(m[6], m[1], m[2], m[4], m[5]);
    lemma_expand_det2(m[1], m[3], m[5], m[6], m[8]);
    lemma_negated_factor(m[1], det2(m[3], m[5], m[6], m[8]));
    lemma_expand_det2(m[2], m[3], m[4], m[6], m[7]);
    lemma_arrangements3(m[0], m[4], m[8]);
    lemma_arrangements3(m[0], m[5], m[7]);
    lemma_arrangements3(m[1], m[3], m[8]);
    lemma_arrangements3(m[1], m[5], m[6]);
    lemma_arrangements3(m[2], m[3], m[7]);
    lemma_arrangements3(m[2], m[4], m[6]);
}

/// Column 1 against the cofactors of column 0.
proof fn lemma_column_expansion_01(m: Seq<int>)
    requires
        m.len() == 9,
    ensures
        column_expansion3(m, 0, 1) == 0,
{
    lemma_expand_det2(m[1], m[4], m[5], m[7], m[8]);
    lemma_expand_det2(m[4], m[1], m[2], m[7], m[8]);
    lemma_negated_factor(m[4], det2(m[1], m[2], m[7], m[8]));
    lemma_expand_det2(m[7], m[1], m[2], m[4], m[5]);
    lemma_arrangements3(m[1], m[4], m[8]);
    lemma_arrangements3(m[1], m[5], m[7]);
    lemma_arrangements3(m[2], m[4], m[7]);
}

/// Column 2 against the cofactors of column 0.
proof fn lemma_column_expansion_02(m: Seq<int>)
    requires
        m.len() == 9,
    ensures
        column_expansion3(m, 0, 2) == 0,
{
    lemma_expand_det2(m[2], m[4], m[5], m[7], m[8]);
    lemma_expand_det2(m[5], m[1], m[2], m[7], m[8]);
    lemma_negated_factor(m[5], det2(m[1], m[2], m[7], m[8]));
    lemma_expand_det2(m[8], m[1], m[2], m[4], m[5]);
    lemma_arrangements3(m[1], m[5], m[8]);
    lemma_arrangements3(m[2], m[4], m[8]);
    lemma_arrangements3(m[2], m[5], m[7]);
}

/// Column 0 against the cofactors of column 1.
proof fn lemma_column_expansion_10(m: Seq<int>)
    requires
        m.len() == 9,
    ensures
        column_expansion3(m, 1, 0) == 0,
{
    lemma_expand_det2(m[0], m[3], m[5], m[6], m[8]);
    lemma_negated_factor(m[0], det2(m[3], m[5], m[6], m[8]));
    lemma_expand_det2(m[3], m[0], m[2], m[6], m[8]);
    lemma_expand_det2(m[6], m[0], m[2], m[3], m[5]);
    lemma_negated_factor(m[6], det2(m[0], m[2], m[3], m[5]));
    lemma_arrangements3(m[0], m[3], m[8]);
    lemma_arrangements3(m[0], m[5], m[6]);
    lemma_arrangements3(m[2], m[3], m[6]);
}

/// Column 1 against its own cofactors.
proof fn lemma_column_expansion_11(m: Seq<int>)
    requires
        m.len() == 9,
    ensures
        column_expansion3(m, 1, 1) == det9(m),
{
    lemma_expand_det2(m[1], m[3], m[5], m[6], m[8]);
    lemma_negated_factor(m[1], det2(m[3], m[5], m[6], m[8]));
    lemma_expand_det2(m[4], m[0], m[2], m[6], m[8]);
    lemma_expand_det2(m[7], m[0], m[2], m[3], m[5]);
    lemma_negated_factor(m[7], det2(m[0], m[2], m[3], m[5]));
    lemma_expand_det2(m[0], m[4], m[5], m[7], m[8]);
    lemma_expand_det2(m[2], m[3], m[4], m[6], m[7]);
    lemma_arrangements3(m[0], m[4], m[8]);
    lemma_arrangements3(m[0], m[5], m[7]);
    lemma_arrangements3(m[1], m[3], m[8]);
    lemma_arrangements3(m[1], m[5], m[6]);
    lemma_arrangements3(m[2], m[3], m[7]);
    lemma_arrangements3(m[2], m[4], m[6]);
}

/// Column 2 against the cofactors of column 1.
proof fn lemma_column_expansion_12(m: Seq<int>)
    requires
        m.len() == 9,
    ensures
        column_expansion3(m, 1, 2) == 0,
{
    lemma_expand_det2(m[2], m[3], m[5], m[6], m[8]);
    lemma_negated_factor(m[2], det2(m[3], m[5], m[6], m[8]));
    lemma_expand_det2(m[5], m[0], m[2], m[6], m[8]);
    lemma_expand_det2(m[8], m[0], m[2], m[3], m[5]);
    lemma_negated_factor(m[8], det2(m[0], m[2], m[3], m[5]));
    lemma_arrangements3(m[0], m[5], m[8]);
    lemma_arrangements3(m[2], m[3], m[8]);
    lemma_arrangements3(m[2], m[5], m[6]);
}

/// Column 0 against the cofactors of column 2.
proof fn lemma_column_expansion_20(m: Seq<int>)
    requires
        m.len() == 9,
    ensures
        column_expansion3(m, 2, 0) == 0,
{
    lemma_expand_det2(m[0], m[3], m[4], m[6], m[7]);
    lemma_expand_det2(m[3], m[0], m[1], m[6], m[7]);
    lemma_negated_factor(m[3], det2(m[0], m[1], m[6], m[7]));
    lemma_expand_det2(m[6], m[0], m[1], m[3], m[4]);
    lemma_arrangements3(m[0], m[3], m[7]);
    lemma_arrangements3(m[0], m[4], m[6]);
    lemma_arrangements3(m[1], m[3], m[6]);
}

/// Column 1 against the cofactors of column 2.
proof fn lemma_column_expansion_21(m: Seq<int>)
    requires
        m.len() == 9,
    ensures
        column_expansion3(m, 2, 1) == 0,
{
    lemma_expand_det2(m[1], m[3], m[4], m[6], m[7]);
    lemma_expand_det2(m[4], m[0], m[1], m[6], m[7]);
    lemma_negated_factor(m[4], det2(m[0], m[1], m[6], m[7]));
    lemma_expand_det2(m[7], m[0], m[1], m[3], m[4]);
    lemma_arrangements3(m[0], m[4], m[7]);
    lemma_arrangements3(m[1], m[3], m[7]);
    lemma_arrangements3(m[1], m[4], m[6]);
}

/// Column 2 against its own cofactors.
proof fn lemma_column_expansion_22(m: Seq<int>)
    requires
        m.len() == 9,
    ensures
        column_expansion3(m, 2, 2) == det9(m),
{
    lemma_expand_det2(m[2], m[3], m[4], m[6], m[7]);
    lemma_expand_det2(m[5], m[0], m[1], m[6], m[7]);
    lemma_negated_factor(m[5], det2(m[0], m[1], m[6], m[7]));
    lemma_expand_det2(m[8], m[0], m[1], m[3], m[4]);
    lemma_expand_det2(m[0], m[4], m[5], m[7], m[8]);
    lemma_expand_det2(m[1], m[3], m[5], m[6], m[8]);
    lemma_negated_factor(m[1], det2(m[3], m[5], m[6], m[8]));
    lemma_arrangements3(m[0], m[4], m[8]);
    lemma_arrangements3(m[0], m[5], m[7]);
    lemma_arrangements3(m[1], m[3], m[8]);
    lemma_arrangements3(m[1], m[5], m[6]);
    lemma_arrangements3(m[2], m[3], m[7]);
    lemma_arrangements3(m[2], m[4], m[6]);
}

/// The cofactor expansions of a 3x3 matrix: a row against its own cofactors gives the
/// determinant, against those of another row zero; and likewise for columns.
pub proof fn lemma_cofactor_expansions3(m: Seq<int>)
    requires
        m.len() == 9,
    ensures
        forall|i: int, j: int|
            0 <= i < 3 && 0 <= j < 3 ==> #[trigger] row_expansion3(m, i, j) == (if i == j {
                det9(m)
            } else {
                0
            }),
        forall|i: int, j: int|
            0 <= i < 3 && 0 <= j < 3 ==> #[trigger] column_expansion3(m, i, j) == (if i == j {
                det9(m)
            } else {
                0
            }),
{
    lemma_row_expansion_00(m);
    lemma_row_expansion_01(m);
    lemma_row_expansion_02(m);
    lemma_row_expansion_10(m);
    lemma_row_expansion_11(m);
    lemma_row_expansion_12(m);
    lemma_row_expansion_20(m);
    lemma_row_expansion_21(m);
    lemma_row_expansion_22(m);
    lemma_column_expansion_00(m);
    lemma_column_expansion_01(m);
    lemma_column_expansion_02(m);
    lemma_column_expansion_10(m);
    lemma_column_expansion_11(m);
    lemma_column_expansion_12(m);
    lemma_column_expansion_20(m);
    lemma_column_expansion_21(m);
    lemma_column_expansion_22(m);
}

} // verus!
