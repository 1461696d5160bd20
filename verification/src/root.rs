//! Exact square roots of integers.

use vstd::prelude::*;

verus! {

/// `n` is the square of an integer.
pub open spec fn is_square(n: int) -> bool {
    exists|r: int| r >= 0 && #[trigger] (r * r) == n
}

/// The root of a square that is not negative.
pub open spec fn square_root(n: int) -> int {
    choose|r: int| r >= 0 && #[trigger] (r * r) == n
}

/// Squaring keeps the order of numbers that are not negative.
pub proof fn lemma_square_monotonic(a: int, b: int)
    requires
        0 <= a,
        a < b,
    ensures
        a * a < b * b,
{
    assert(a * a < b * b) by (nonlinear_arith)
        requires
            0 <= a,
            a < b,
    ;
}

/// A number has at most one root that is not negative.
pub proof fn lemma_square_root_unique(r: int, n: int)
    requires
        r >= 0,
        r * r == n,
    ensures
        is_square(n),
        square_root(n) == r,
{
    let s = square_root(n);
    assert(s >= 0 && s * s == n);
    if s < r {
        lemma_square_monotonic(s, r);
    }
    if r < s {
        lemma_square_monotonic(r, s);
    }
}

/// A number that lies strictly between two neighbouring squares is no square.
pub proof fn lemma_between_squares(r: int, n: int)
    requires
        r >= 0,
        r * r < n < (r + 1) * (r + 1),
    ensures
        !is_square(n),
{
    if is_square(n) {
        let s = square_root(n);
        assert(s >= 0 && s * s == n);
        if s <= r {
            if s < r {
                lemma_square_monotonic(s, r);
            }
        } else {
            if r + 1 < s {
                lemma_square_monotonic(r + 1, s);
            }
        }
    }
}

/// The largest bound of `exact_root`: 2^63.
pub const ROOT_LIMIT: u128 = 0x8000_0000_0000_0000;

/// The root of `n` if `n` is a square, `None` if it is not.
pub fn exact_root(n: u128) -> (r: Option<u128>)
    requires
        n < ROOT_LIMIT,
    ensures
        match r {
            Some(s) => is_square(n as int) && s == square_root(n as int) && s * s == n,
            None => !is_square(n as int),
        },
{
    let mut low: u128 = 0;
    let mut high: u128 = 0x1_0000_0000;
    assert(0x1_0000_0000 * 0x1_0000_0000 > n) by (nonlinear_arith)
        requires
            n < 0x8000_0000_0000_0000,
    ;
    while high - low > 1
        invariant
            0 <= low < high <= 0x1_0000_0000,
            low * low <= n,
            n < high * high,
        decreases high - low,
    {
        let mid: u128 = low + (high - low) / 2;
        assert(mid * mid <= 0x1_0000_0000 * 0x1_0000_0000) by (nonlinear_arith)
            requires
                0 <= mid <= 0x1_0000_0000,
        ;
        if mid * mid <= n {
            low = mid;
        } else {
            high = mid;
        }
    }
    assert(low * low <= 0x1_0000_0000 * 0x1_0000_0000) by (nonlinear_arith)
        requires
            0 <= low <= 0x1_0000_0000,
    ;
    if low * low == n {
        proof {
            lemma_square_root_unique(low as int, n as int);
        }
        Some(low)
    } else {
        proof {
            assert(high == low + 1);
            lemma_between_squares(low as int, n as int);
        }
        None
    }
}

} // verus!
