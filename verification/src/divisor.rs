//! Greatest common divisors: the number theory behind fractions in lowest terms.

use vstd::arithmetic::div_mod::{
    lemma_fundamental_div_mod, lemma_fundamental_div_mod_converse, lemma_small_mod,
    lemma_truncate_middle,
};
use vstd::prelude::*;

verus! {

/// The absolute value of an integer.
pub open spec fn abs(x: int) -> nat {
    if x < 0 {
        (-x) as nat
    } else {
        x as nat
    }
}

/// The greatest common divisor of two naturals, by Euclid's recursion; `gcd(0, 0)` is 0.
pub open spec fn gcd(a: nat, b: nat) -> nat
    decreases b,
{
    if b == 0 {
        a
    } else {
        gcd(b, a % b)
    }
}

/// The greatest common divisor of `start` and the absolute values of all members of `s`.
pub open spec fn gcd_fold(start: nat, s: Seq<int>) -> nat
    decreases s.len(),
{
    if s.len() == 0 {
        start
    } else {
        gcd(gcd_fold(start, s.drop_last()), abs(s.last()))
    }
}

/// Every member of `s` multiplied by `k`.
pub open spec fn scaled(s: Seq<int>, k: int) -> Seq<int> {
    Seq::new(s.len(), |i: int| k * s[i])
}

/// Every member of `s` divided by `g`.
pub open spec fn divided(s: Seq<int>, g: int) -> Seq<int> {
    Seq::new(s.len(), |i: int| s[i] / g)
}

/// A multiple of a positive number leaves no remainder.
pub proof fn lemma_multiple_has_no_remainder(g: int, q: int)
    requires
        g > 0,
    ensures
        (g * q) % g == 0,
        (g * q) / g == q,
{
    assert(g * q == q * g + 0) by (nonlinear_arith);
    lemma_fundamental_div_mod_converse(g * q, g, q, 0);
}

/// A number that leaves no remainder is the divisor times the quotient; so is its negation.
pub proof fn lemma_exact_division(x: int, g: int)
    requires
        g > 0,
        abs(x) % (g as nat) == 0,
    ensures
        x % g == 0,
        x == g * (x / g),
        abs(x / g) == abs(x) / (g as nat),
        abs(x) == g * abs(x / g),
        x < 0 ==> x / g < 0,
        x >= 0 ==> x / g >= 0,
{
    let a = abs(x) as int;
    lemma_fundamental_div_mod(a, g);
    let q = a / g;
    assert(a == g * q);
    assert(q >= 0) by (nonlinear_arith)
        requires
            a == g * q,
            a >= 0,
            g > 0,
    ;
    if x < 0 {
        assert(x == g * (-q)) by (nonlinear_arith)
            requires
                -x == g * q,
        ;
        lemma_multiple_has_no_remainder(g, -q);
    } else {
        lemma_multiple_has_no_remainder(g, q);
    }
}

/// The greatest common divisor divides both numbers, and is positive unless both are zero.
pub proof fn lemma_gcd_divides(a: nat, b: nat)
    ensures
        (a > 0 || b > 0) ==> gcd(a, b) > 0,
        gcd(a, b) > 0 ==> a % gcd(a, b) == 0 && b % gcd(a, b) == 0,
        a == 0 && b == 0 ==> gcd(a, b) == 0,
    decreases b,
{
    if b == 0 {
        if a > 0 {
            lemma_multiple_has_no_remainder(a as int, 1);
            lemma_multiple_has_no_remainder(a as int, 0);
        }
    } else {
        let r = a % b;
        lemma_gcd_divides(b, r);
        let g = gcd(b, r) as int;
        lemma_fundamental_div_mod(a as int, b as int);
        lemma_fundamental_div_mod(b as int, g);
        lemma_fundamental_div_mod(r as int, g);
        let q = (a as int) / (b as int);
        let kb = (b as int) / g;
        let kr = (r as int) / g;
        assert(a as int == g * (kb * q + kr)) by (nonlinear_arith)
            requires
                a as int == (b as int) * q + (r as int),
                b as int == g * kb,
                r as int == g * kr,
        ;
        lemma_multiple_has_no_remainder(g, kb * q + kr);
    }
}

/// A common positive factor of both numbers is a factor of their greatest common divisor.
pub proof fn lemma_gcd_scales(k: nat, a: nat, b: nat)
    requires
        k > 0,
    ensures
        gcd(k * a, k * b) == k * gcd(a, b),
    decreases b,
{
    if b == 0 {
        assert(k * b == 0) by (nonlinear_arith)
            requires
                b == 0,
        ;
    } else {
        let r = a % b;
        lemma_gcd_scales(k, b, r);
        lemma_truncate_middle(a as int, k as int, b as int);
        assert(k * b > 0) by (nonlinear_arith)
            requires
                k > 0,
                b > 0,
        ;
        assert((k * a) % (k * b) == k * r);
    }
}

/// The greatest common divisor with one is one, and with zero the other number.
pub proof fn lemma_gcd_one_right(a: nat)
    ensures
        gcd(a, 1) == 1,
        gcd(1, a) == 1,
        gcd(a, 0) == a,
        gcd(0, a) == a,
{
    assert(a % 1 == 0);
    assert(gcd(1, 0) == 1);
    assert(gcd(a, 1) == gcd(1, a % 1));
    if a > 0 {
        assert(0nat % a == 0);
        assert(gcd(0, a) == gcd(a, 0nat % a));
        if a == 1 {
        } else {
            lemma_small_mod(1, a);
            assert(gcd(1, a) == gcd(a, 1nat % a));
        }
    }
}

/// The folded divisor divides the start and every member, and is positive when the start is.
pub proof fn lemma_gcd_fold_divides(start: nat, s: Seq<int>)
    ensures
        start > 0 ==> gcd_fold(start, s) > 0,
        gcd_fold(start, s) > 0 ==> start % gcd_fold(start, s) == 0,
        gcd_fold(start, s) > 0 ==> forall|i: int|
            0 <= i < s.len() ==> abs(#[trigger] s[i]) % gcd_fold(start, s) == 0,
    decreases s.len(),
{
    if s.len() > 0 {
        let rest = s.drop_last();
        let h = gcd_fold(start, rest);
        let g = gcd_fold(start, s);
        lemma_gcd_fold_divides(start, rest);
        lemma_gcd_divides(h, abs(s.last()));
        if g > 0 {
            if h > 0 {
                lemma_divides_transitive(start, h, g);
                assert forall|i: int| 0 <= i < s.len() implies abs(#[trigger] s[i]) % g == 0 by {
                    if i < s.len() - 1 {
                        assert(rest[i] == s[i]);
                        lemma_divides_transitive(abs(s[i]), h, g);
                    }
                }
            } else {
                // h == 0 forces start == 0 and every earlier member to be 0
                lemma_gcd_fold_zero(start, rest);
                assert forall|i: int| 0 <= i < s.len() implies abs(#[trigger] s[i]) % g == 0 by {
                    if i < s.len() - 1 {
                        assert(rest[i] == s[i]);
                        assert(0nat % g == 0);
                    }
                }
                assert(0nat % g == 0);
            }
        }
    } else if start > 0 {
        lemma_multiple_has_no_remainder(start as int, 1);
    }
}

/// A folded divisor of zero means that the start and every member are zero.
pub proof fn lemma_gcd_fold_zero(start: nat, s: Seq<int>)
    requires
        gcd_fold(start, s) == 0,
    ensures
        start == 0,
        forall|i: int| 0 <= i < s.len() ==> #[trigger] s[i] == 0,
    decreases s.len(),
{
    if s.len() > 0 {
        let rest = s.drop_last();
        lemma_gcd_divides(gcd_fold(start, rest), abs(s.last()));
        lemma_gcd_fold_zero(start, rest);
        assert forall|i: int| 0 <= i < s.len() implies #[trigger] s[i] == 0 by {
            if i < s.len() - 1 {
                assert(rest[i] == s[i]);
            }
        }
    }
}

/// If `g` divides `h` and `h` divides `x`, then `g` divides `x`.
pub proof fn lemma_divides_transitive(x: nat, h: nat, g: nat)
    requires
        g > 0,
        h > 0,
        x % h == 0,
        h % g == 0,
    ensures
        x % g == 0,
{
    lemma_fundamental_div_mod(x as int, h as int);
    lemma_fundamental_div_mod(h as int, g as int);
    let q1 = (x as int) / (h as int);
    let q2 = (h as int) / (g as int);
    assert(x as int == (g as int) * (q2 * q1)) by (nonlinear_arith)
        requires
            x as int == (h as int) * q1,
            h as int == (g as int) * q2,
    ;
    lemma_multiple_has_no_remainder(g as int, q2 * q1);
}

/// Scaling the start and every member by `k` scales the folded divisor by `k`.
pub proof fn lemma_gcd_fold_scales(k: nat, start: nat, s: Seq<int>)
    requires
        k > 0,
    ensures
        gcd_fold(k * start, scaled(s, k as int)) == k * gcd_fold(start, s),
    decreases s.len(),
{
    let t = scaled(s, k as int);
    if s.len() > 0 {
        lemma_gcd_fold_scales(k, start, s.drop_last());
        assert(t.drop_last() =~= scaled(s.drop_last(), k as int));
        assert(t.last() == k * s.last());
        assert(abs(k * s.last()) == k * abs(s.last())) by (nonlinear_arith)
            requires
                k > 0,
        ;
        lemma_gcd_scales(k, gcd_fold(start, s.drop_last()), abs(s.last()));
    }
}

/// Euclid's algorithm.
pub fn gcd_exec(a: u128, b: u128) -> (g: u128)
    ensures
        g == gcd(a as nat, b as nat),
{
    let mut x: u128 = a;
    let mut y: u128 = b;
    while y != 0
        invariant
            gcd(x as nat, y as nat) == gcd(a as nat, b as nat),
        decreases y,
    {
        let r: u128 = x % y;
        x = y;
        y = r;
    }
    x
}

} // verus!
