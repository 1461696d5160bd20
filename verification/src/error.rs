//! The ways in which an operation on frames can fail.

use vstd::prelude::*;

verus! {

/// Why an operation on frames or anchors did not produce a result.
#[derive(Clone, Copy, Debug, PartialEq, Eq, Structural)]
pub enum TransformError {
    /// The exact result, in lowest terms, has a numerator or denominator beyond `LIMIT`.
    Overflow,
    /// The matrix has determinant zero and cannot be inverted, or the column that a rotation
    /// is to be recovered from has length zero.
    Singular,
    /// The exact result is not a rational number: a square root of a number that is not the
    /// square of a rational.
    Irrational,
    /// A denominator that is not positive was given.
    BadDenominator,
    /// No anchor of the given name is attached to the node.
    AnchorNotFound,
}

} // verus!
