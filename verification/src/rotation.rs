//! Exact rotations: an angle held as its cosine and sine, a rational point of the unit circle.

use crate::error::TransformError;
use crate::exact::{product, wide_ints, Rationals, LIMIT};
use crate::fraction::{lemma_reduced, Fractions};
use crate::product::{lemma_cross, lemma_negated_factor};
use crate::scalar::Scalar;
use crate::scalar::raw_scalar;
use vstd::prelude::*;

verus! {

/// The pair is a point of the unit circle: its squares add up to one.
pub open spec fn on_unit_circle(r: Fractions) -> bool {
    r.num[0] * r.num[0] + r.num[1] * r.num[1] == r.den * r.den
}

/// Cosine and sine of the angle whose half has the tangent `t`, not reduced: with `t = p / q`
/// they are `(q^2 - p^2) / (q^2 + p^2)` and `2 p q / (q^2 + p^2)`.
pub open spec fn raw_half_tangent(t: Fractions) -> Fractions {
    let p = t.num[0];
    let q = t.den;
    Fractions { num: seq![q * q - p * p, 2 * (p * q)], den: q * q + p * p }
}

/// Cosine and sine of `k` quarter turns.
pub open spec fn quarter(k: int) -> Fractions {
    let m = k % 4;
    Fractions {
        num: if m == 0 {
            seq![1int, 0int]
        } else if m == 1 {
            seq![0int, 1int]
        } else if m == 2 {
            seq![-1int, 0int]
        } else {
            seq![0int, -1int]
        },
        den: 1,
    }
}

/// Cosine and sine of the opposite angle, not reduced.
pub open spec fn raw_opposite(r: Fractions) -> Fractions {
    Fractions { num: seq![r.num[0], -r.num[1]], den: r.den }
}

/// Taking a common factor out of a point of the unit circle leaves it on the circle.
pub proof fn lemma_reduced_on_unit_circle(f: Fractions)
    requires
        f.num.len() == 2,
        f.den > 0,
        on_unit_circle(f),
    ensures
        on_unit_circle(f.reduced()),
{
    lemma_reduced(f);
    let g = f.content() as int;
    let r = f.reduced();
    let c = r.num[0];
    let s = r.num[1];
    let d = r.den;
    assert(f.num[0] == g * c);
    assert(f.num[1] == g * s);
    lemma_cross(g, c, g, c);
    lemma_cross(g, s, g, s);
    lemma_cross(g, d, g, d);
    let gg = g * g;
    let cc = c * c;
    let ss = s * s;
    let dd = d * d;
    assert(gg > 0) by (nonlinear_arith)
        requires
            gg == g * g,
            g > 0,
    ;
    assert(cc + ss == dd) by (nonlinear_arith)
        requires
            gg * cc + gg * ss == gg * dd,
            gg > 0,
    ;
}

/// The pair that `raw_half_tangent` gives is a point of the unit circle.
pub proof fn lemma_half_tangent_on_unit_circle(t: Fractions)
    requires
        t.den > 0,
    ensures
        on_unit_circle(raw_half_tangent(t)),
        raw_half_tangent(t).den > 0,
{
    let p = t.num[0];
    let q = t.den;
    let pp = p * p;
    let qq = q * q;
    let pq = p * q;
    lemma_cross(p, q, p, q);
    assert(pq * pq == pp * qq);
    assert((qq - pp) * (qq - pp) + (2 * pq) * (2 * pq) == (qq + pp) * (qq + pp))
        by (nonlinear_arith)
        requires
            pq * pq == pp * qq,
    ;
    assert(qq > 0 && pp >= 0) by (nonlinear_arith)
        requires
            qq == q * q,
            pp == p * p,
            q > 0,
    ;
}

/// A rotation by an angle, held as cosine and sine over one denominator, in lowest terms.
#[derive(Clone, Copy, Debug, PartialEq, Eq)]
pub struct Rotation {
    pair: Rationals<2>,
}

impl View for Rotation {
    type V = Fractions;

    closed spec fn view(&self) -> Fractions {
        self.pair@
    }
}

impl Rotation {
    /// Cosine and sine in lowest terms over one denominator, within `LIMIT`, on the unit
    /// circle.
    #[verifier::type_invariant]
    pub open spec fn wf(self) -> bool {
        &&& self@.num.len() == 2
        &&& self@.lowest()
        &&& self@.within(LIMIT as int)
        &&& on_unit_circle(self@)
    }

    /// The tuple that holds cosine and sine.
    pub(crate) fn cells(&self) -> (r: &Rationals<2>)
        ensures
            r@ == self@,
            r.wf(),
            self.wf(),
    {
        proof {
            use_type_invariant(self);
        }
        &self.pair
    }

    /// The rotation that holds the given tuple, or the error that came in its place.
    pub(crate) fn from_cells(cells: Result<Rationals<2>, TransformError>) -> (r: Result<
        Rotation,
        TransformError,
    >)
        requires
            cells is Ok ==> on_unit_circle(cells->Ok_0@),
        ensures
            match (cells, r) {
                (Ok(c), Ok(v)) => v@ == c@ && v.wf(),
                (Err(e), Err(f)) => e == f,
                _ => false,
            },
    {
        match cells {
            Ok(c) => {
                proof {
                    use_type_invariant(&c);
                }
                Ok(Rotation { pair: c })
            },
            Err(e) => Err(e),
        }
    }

    /// The rotation by `k` quarter turns: 90 degrees each, counterclockwise.
    pub fn quarter_turns(k: u32) -> (r: Rotation)
        ensures
            r@ == quarter(k as int),
            r.wf(),
    {
        let m: u32 = k % 4;
        let wide: [i128; 2] = if m == 0 {
            [1, 0]
        } else if m == 1 {
            [0, 1]
        } else if m == 2 {
            [-1, 0]
        } else {
            [0, -1]
        };
        proof {
            let f = quarter(k as int);
            assert(wide_ints(wide) =~= f.num);
            crate::linear4::lemma_gcd_fold_of_one(f.num);
            crate::fraction::lemma_lowest_is_reduced(f);
        }
        let pair = Rationals::reduce(&wide, 1);
        Rotation { pair }
    }

    /// The rotation by the angle whose half has the tangent `t`: every rotation but the
    /// half turn is of this form. One whose lowest terms are beyond `LIMIT` is refused with
    /// `Overflow`.
    pub fn from_half_tangent(t: &Scalar) -> (r: Result<Rotation, TransformError>)
        ensures
            match r {
                Ok(rot) => rot@ == raw_half_tangent(t@).reduced() && rot.wf(),
                Err(e) => e == TransformError::Overflow && !raw_half_tangent(
                    t@,
                ).reduced().within(LIMIT as int),
            },
    {
        let p: i64 = t.numerator();
        let q: i64 = t.denominator();
        let pp: i128 = product(p, p);
        let qq: i128 = product(q, q);
        let pq: i128 = product(p, q);
        let wide: [i128; 2] = [qq - pp, 2 * pq];
        proof {
            let f = raw_half_tangent(t@);
            lemma_half_tangent_on_unit_circle(t@);
            assert(wide_ints(wide) =~= f.num);
            lemma_reduced_on_unit_circle(f);
            lemma_reduced(f);
        }
        match Rationals::checked(&wide, qq + pp) {
            Ok(pair) => Ok(Rotation { pair }),
            Err(e) => Err(e),
        }
    }

    /// The cosine of the angle.
    pub fn cos(&self) -> (s: Scalar)
        ensures
            s@ == raw_scalar(self@.num[0], self@.den).reduced(),
            s.wf(),
    {
        let cells = self.cells();
        let wide: [i128; 1] = [cells.numerator(0) as i128];
        proof {
            assert(wide_ints(wide) =~= seq![self@.num[0]]);
        }
        Scalar::from_cells(Rationals::reduce(&wide, cells.denominator() as i128))
    }

    /// The sine of the angle.
    pub fn sin(&self) -> (s: Scalar)
        ensures
            s@ == raw_scalar(self@.num[1], self@.den).reduced(),
            s.wf(),
    {
        let cells = self.cells();
        let wide: [i128; 1] = [cells.numerator(1) as i128];
        proof {
            assert(wide_ints(wide) =~= seq![self@.num[1]]);
        }
        Scalar::from_cells(Rationals::reduce(&wide, cells.denominator() as i128))
    }

    /// The rotation by the opposite angle.
    pub fn opposite(&self) -> (r: Rotation)
        ensures
            r@ == raw_opposite(self@).reduced(),
            r.wf(),
    {
        let cells = self.cells();
        let wide: [i128; 2] = [cells.numerator(0) as i128, -(cells.numerator(1) as i128)];
        proof {
            let f = raw_opposite(self@);
            assert(wide_ints(wide) =~= f.num);
            lemma_negated_factor(self@.num[1], self@.num[1]);
            lemma_negated_factor(-self@.num[1], self@.num[1]);
            crate::product::lemma_pair(-self@.num[1], self@.num[1]);
            lemma_reduced_on_unit_circle(f);
            lemma_reduced(f);
        }
        let pair = Rationals::reduce(&wide, cells.denominator() as i128);
        Rotation { pair }
    }
}

} // verus!
