//! Homogeneous vectors of the plane in exact rationals: `(x, y, w)`, where `w` is 1 for a point
//! and 0 for a free direction.

use crate::error::TransformError;
use crate::exact::{product, times, wide_ints, Rationals, LIMIT, LIMIT2};
use crate::fraction::Fractions;
use crate::root::{exact_root, is_square, square_root};
use crate::rotation::Rotation;
use crate::scalar::{raw_scalar, Scalar};
use crate::vector::component;
use vstd::prelude::*;

verus! {

/// The vector `(x, y, w)` over the product of the two denominators, not reduced.
pub open spec fn raw_vector3(x: Fractions, y: Fractions, w: int) -> Fractions {
    let d = x.den * y.den;
    Fractions { num: seq![x.num[0] * y.den, y.num[0] * x.den, w * d], den: d }
}

/// The sum of the products of the members of `a` and `b`, place by place.
pub open spec fn sum_of_products3(a: Seq<int>, b: Seq<int>) -> int {
    a[0] * b[0] + a[1] * b[1] + a[2] * b[2]
}

/// The dot product over all three components, not reduced.
pub open spec fn raw_dot3(a: Fractions, b: Fractions) -> Fractions {
    raw_scalar(sum_of_products3(a.num, b.num), a.den * b.den)
}

/// What the Euclidean length of `v` is answered with: the root of the sum of the squared
/// numerators over the denominator; `Irrational` if that sum is no square, `Overflow` if the
/// length in lowest terms is beyond `LIMIT`.
pub open spec fn norm_outcome3(v: Fractions, r: Result<Scalar, TransformError>) -> bool {
    let q = sum_of_products3(v.num, v.num);
    match r {
        Ok(s) => is_square(q) && s@ == raw_scalar(square_root(q), v.den).reduced() && s.wf(),
        Err(e) => if is_square(q) {
            e == TransformError::Overflow && !raw_scalar(square_root(q), v.den).reduced().within(
                LIMIT as int,
            )
        } else {
            e == TransformError::Irrational
        },
    }
}

/// The error that the Euclidean length of `v` is answered with, if any.
pub open spec fn norm_error3(v: Fractions) -> Option<TransformError> {
    let q = sum_of_products3(v.num, v.num);
    if !is_square(q) {
        Some(TransformError::Irrational)
    } else if !raw_scalar(square_root(q), v.den).reduced().within(LIMIT as int) {
        Some(TransformError::Overflow)
    } else {
        None
    }
}

/// The rotation in the half turn from zero on whose cosine is the component `k` of `v` over
/// the length of `v`, not reduced: its sine is the root of what is left of the squared
/// length.
pub open spec fn raw_recovered3(v: Fractions, k: int) -> Fractions {
    let q = sum_of_products3(v.num, v.num);
    let rest = q - v.num[k] * v.num[k];
    Fractions { num: seq![v.num[k], square_root(rest)], den: square_root(q) }
}

/// What recovering a rotation from the column `v` is answered with: `Irrational` if the
/// length or the sine is no rational number, `Singular` if the length is zero, `Overflow`
/// if the rotation in lowest terms is beyond `LIMIT`.
pub open spec fn rotation_outcome3(v: Fractions, k: int, r: Result<Rotation, TransformError>) -> bool {
    let q = sum_of_products3(v.num, v.num);
    let rest = q - v.num[k] * v.num[k];
    match r {
        Ok(rot) => is_square(q) && is_square(rest) && q != 0 && rot@ == raw_recovered3(
            v,
            k,
        ).reduced() && rot.wf(),
        Err(e) => if !is_square(q) || !is_square(rest) {
            e == TransformError::Irrational
        } else if q == 0 {
            e == TransformError::Singular
        } else {
            e == TransformError::Overflow && !raw_recovered3(v, k).reduced().within(LIMIT as int)
        },
    }
}

/// A homogeneous vector of three rationals in lowest terms over one denominator.
#[derive(Clone, Copy, Debug, PartialEq, Eq)]
pub struct Vector2D {
    parts: Rationals<3>,
}

/// A vector that stands for a position: its `w` is 1.
pub type Point2D = Vector2D;

impl View for Vector2D {
    type V = Fractions;

    closed spec fn view(&self) -> Fractions {
        self.parts@
    }
}

/// The numerators of `(x, y, w)` over the product of the two denominators, and that product.
pub(crate) fn over_common_denominator2(x: &Scalar, y: &Scalar, w: i64) -> (r: ([i128; 3], i128))
    requires
        -1 <= w <= 1,
    ensures
        wide_ints(r.0) == raw_vector3(x@, y@, w as int).num,
        r.1 == raw_vector3(x@, y@, w as int).den,
        0 < r.1 <= LIMIT2,
        forall|i: int| 0 <= i < 3 ==> -LIMIT2 <= #[trigger] r.0[i] <= LIMIT2,
{
    let xn: i64 = x.numerator();
    let yn: i64 = y.numerator();
    let xd: i64 = x.denominator();
    let yd: i64 = y.denominator();
    let d: i128 = product(xd, yd);
    proof {
        crate::linear4::lemma_positive_product(xd as int, yd as int);
    }
    let wide: [i128; 3] = [
        product(xn, yd),
        product(yn, xd),
        times(w as i128, d, Ghost(1), Ghost(LIMIT2 as int)),
    ];
    proof {
        assert(wide_ints(wide) =~= raw_vector3(x@, y@, w as int).num);
    }
    (wide, d)
}

impl Vector2D {
    /// Three rationals in lowest terms over one denominator, within `LIMIT`.
    #[verifier::type_invariant]
    pub open spec fn wf(self) -> bool {
        &&& self@.num.len() == 3
        &&& self@.lowest()
        &&& self@.within(LIMIT as int)
    }

    /// The tuple that holds the components.
    pub(crate) fn cells(&self) -> (r: &Rationals<3>)
        ensures
            r@ == self@,
            r.wf(),
            self.wf(),
    {
        proof {
            use_type_invariant(self);
        }
        &self.parts
    }

    /// The vector that holds the given tuple, or the error that came in its place.
    pub(crate) fn from_cells(cells: Result<Rationals<3>, TransformError>) -> (r: Result<
        Vector2D,
        TransformError,
    >)
        ensures
            match (cells, r) {
                (Ok(c), Ok(v)) => v@ == c@ && v.wf(),
                (Err(e), Err(f)) => e == f,
                _ => false,
            },
    {
        match cells {
            Ok(c) => {
                proof {
                    use_type_invariant(&c);
                }
                Ok(Vector2D { parts: c })
            },
            Err(e) => Err(e),
        }
    }

    /// The vector that holds the given tuple.
    pub(crate) fn from_tuple(cells: Rationals<3>) -> (v: Vector2D)
        ensures
            v@ == cells@,
            v.wf(),
    {
        proof {
            use_type_invariant(&cells);
        }
        Vector2D { parts: cells }
    }

    /// The vector `(x, y, w)` where `w` is 1 for a point and 0 for a direction.
    pub fn new(x: &Scalar, y: &Scalar, point: bool) -> (r: Result<Vector2D, TransformError>)
        ensures
            ({
                let w = if point {
                    1int
                } else {
                    0int
                };
                match r {
                    Ok(v) => v@ == raw_vector3(x@, y@, w).reduced() && v.wf(),
                    Err(e) => e == TransformError::Overflow && !raw_vector3(
                        x@,
                        y@,
                        w,
                    ).reduced().within(LIMIT as int),
                }
            }),
    {
        let w: i64 = if point {
            1
        } else {
            0
        };
        let (wide, den) = over_common_denominator2(x, y, w);
        Self::from_cells(Rationals::checked(&wide, den))
    }

    /// The component at place `i`: 0 for x, 1 for y, 2 for w.
    pub fn get(&self, i: usize) -> (s: Scalar)
        requires
            i < 3,
        ensures
            s@ == component(self@, i as int),
            s.wf(),
    {
        let cells = self.cells();
        let wide: [i128; 1] = [cells.numerator(i) as i128];
        proof {
            assert(wide_ints(wide) =~= seq![self@.num[i as int]]);
        }
        Scalar::from_cells(Rationals::reduce(&wide, cells.denominator() as i128))
    }

    /// The component-wise sum.
    pub fn add(&self, other: &Vector2D) -> (r: Result<Vector2D, TransformError>)
        ensures
            match r {
                Ok(v) => v@ == self@.sum(other@).reduced() && v.wf(),
                Err(e) => e == TransformError::Overflow && !self@.sum(other@).reduced().within(
                    LIMIT as int,
                ),
            },
    {
        Self::from_cells(self.cells().add(other.cells()))
    }

    /// The component-wise difference.
    pub fn sub(&self, other: &Vector2D) -> (r: Result<Vector2D, TransformError>)
        ensures
            match r {
                Ok(v) => v@ == self@.difference(other@).reduced() && v.wf(),
                Err(e) => e == TransformError::Overflow && !self@.difference(
                    other@,
                ).reduced().within(LIMIT as int),
            },
    {
        Self::from_cells(self.cells().sub(other.cells()))
    }

    /// Every component multiplied by `factor`.
    pub fn scale(&self, factor: &Scalar) -> (r: Result<Vector2D, TransformError>)
        ensures
            match r {
                Ok(v) => v@ == self@.scaled_by(factor@).reduced() && v.wf(),
                Err(e) => e == TransformError::Overflow && !self@.scaled_by(
                    factor@,
                ).reduced().within(LIMIT as int),
            },
    {
        Self::from_cells(self.cells().scale_by(factor.cells()))
    }

    /// The sum of the products of the numerators, place by place.
    fn numerator_products(&self, other: &Vector2D) -> (s: i128)
        ensures
            s == sum_of_products3(self@.num, other@.num),
            -3 * LIMIT2 <= s <= 3 * LIMIT2,
    {
        let a = self.cells();
        let b = other.cells();
        let p0: i128 = product(a.numerator(0), b.numerator(0));
        let p1: i128 = product(a.numerator(1), b.numerator(1));
        let p2: i128 = product(a.numerator(2), b.numerator(2));
        p0 + p1 + p2
    }

    /// The dot product over all three components.
    pub fn dot(&self, other: &Vector2D) -> (r: Result<Scalar, TransformError>)
        ensures
            match r {
                Ok(s) => s@ == raw_dot3(self@, other@).reduced() && s.wf(),
                Err(e) => e == TransformError::Overflow && !raw_dot3(
                    self@,
                    other@,
                ).reduced().within(LIMIT as int),
            },
    {
        let wide: [i128; 1] = [self.numerator_products(other)];
        let den: i128 = product(self.cells().denominator(), other.cells().denominator());
        proof {
            crate::linear4::lemma_positive_product(self@.den, other@.den);
            assert(wide_ints(wide) =~= raw_dot3(self@, other@).num);
        }
        match Rationals::checked(&wide, den) {
            Ok(value) => Ok(Scalar::from_cells(value)),
            Err(e) => Err(e),
        }
    }

    /// The squared length: the dot product of the vector with itself.
    pub fn squared_length(&self) -> (r: Result<Scalar, TransformError>)
        ensures
            match r {
                Ok(s) => s@ == raw_dot3(self@, self@).reduced() && s.wf(),
                Err(e) => e == TransformError::Overflow && !raw_dot3(self@, self@).reduced().within(
                    LIMIT as int,
                ),
            },
    {
        self.dot(self)
    }

    /// The Euclidean length: the root of the squared length. It is `Irrational` unless the
    /// sum of the squared numerators is a square.
    pub fn l2_norm(&self) -> (r: Result<Scalar, TransformError>)
        ensures
            norm_outcome3(self@, r),
    {
        let q: i128 = self.numerator_products(self);
        proof {
            let n = self@.num;
            assert(n[0] * n[0] >= 0 && n[1] * n[1] >= 0 && n[2] * n[2] >= 0) by (nonlinear_arith);
        }
        match exact_root(q as u128) {
            None => Err(TransformError::Irrational),
            Some(root) => {
                assert(root <= 0x1_0000_0000) by (nonlinear_arith)
                    requires
                        root * root == q,
                        q <= 0x4000_0000_0000_0000,
                        root >= 0,
                ;
                let wide: [i128; 1] = [root as i128];
                proof {
                    assert(wide_ints(wide) =~= seq![root as int]);
                }
                match Rationals::checked(&wide, self.cells().denominator() as i128) {
                    Ok(value) => Ok(Scalar::from_cells(value)),
                    Err(e) => Err(e),
                }
            },
        }
    }

    /// The rotation, in the half turn from zero on, whose cosine is the component `k` over
    /// the length of the vector.
    pub fn recover_rotation(&self, k: usize) -> (r: Result<Rotation, TransformError>)
        requires
            k < 3,
        ensures
            rotation_outcome3(self@, k as int, r),
    {
        let q: i128 = self.numerator_products(self);
        let n: i64 = self.cells().numerator(k);
        let nn: i128 = product(n, n);
        proof {
            let v = self@.num;
            assert(v[0] * v[0] >= 0 && v[1] * v[1] >= 0 && v[2] * v[2] >= 0) by (nonlinear_arith);
        }
        let rest: i128 = q - nn;
        match (exact_root(q as u128), exact_root(rest as u128)) {
            (Some(length), Some(sine)) => {
                if length == 0 {
                    assert(q == 0) by (nonlinear_arith)
                        requires
                            length * length == q,
                            length == 0,
                    ;
                    return Err(TransformError::Singular);
                }
                assert(q != 0) by (nonlinear_arith)
                    requires
                        length * length == q,
                        length > 0,
                ;
                assert(length <= 0x1_0000_0000) by (nonlinear_arith)
                    requires
                        length * length == q,
                        q <= 0x4000_0000_0000_0000,
                        length >= 0,
                ;
                assert(sine <= 0x1_0000_0000) by (nonlinear_arith)
                    requires
                        sine * sine == rest,
                        rest <= 0x4000_0000_0000_0000,
                        sine >= 0,
                ;
                let wide: [i128; 2] = [n as i128, sine as i128];
                proof {
                    let raw = raw_recovered3(self@, k as int);
                    assert(wide_ints(wide) =~= raw.num);
                    assert(crate::rotation::on_unit_circle(raw));
                    crate::rotation::lemma_reduced_on_unit_circle(raw);
                    crate::fraction::lemma_reduced(raw);
                }
                Rotation::from_cells(Rationals::checked(&wide, length as i128))
            },
            _ => Err(TransformError::Irrational),
        }
    }
}

/// The point `(x, y)`: the homogeneous vector `(x, y, 1)`.
#[allow(non_snake_case)]
pub fn point2D(x: &Scalar, y: &Scalar) -> (r: Result<Point2D, TransformError>)
    ensures
        match r {
            Ok(v) => v@ == raw_vector3(x@, y@, 1).reduced() && v.wf(),
            Err(e) => e == TransformError::Overflow && !raw_vector3(x@, y@, 1).reduced().within(
                LIMIT as int,
            ),
        },
{
    Vector2D::new(x, y, true)
}

/// The free direction `(x, y)`: the homogeneous vector `(x, y, 0)`.
#[allow(non_snake_case)]
pub fn vector2D(x: &Scalar, y: &Scalar) -> (r: Result<Point2D, TransformError>)
    ensures
        match r {
            Ok(v) => v@ == raw_vector3(x@, y@, 0).reduced() && v.wf(),
            Err(e) => e == TransformError::Overflow && !raw_vector3(x@, y@, 0).reduced().within(
                LIMIT as int,
            ),
        },
{
    Vector2D::new(x, y, false)
}

} // verus!
