//! Exact rational numbers.

use crate::error::TransformError;
use crate::exact::{wide_ints, Rationals, LIMIT};
use crate::fraction::Fractions;
use vstd::prelude::*;

verus! {

/// The one rational `num / den`, not reduced.
pub open spec fn raw_scalar(num: int, den: int) -> Fractions {
    Fractions { num: seq![num], den: den }
}

/// A rational number in lowest terms, whose numerator and denominator are within `LIMIT`.
#[derive(Clone, Copy, Debug, PartialEq, Eq)]
pub struct Scalar {
    value: Rationals<1>,
}

impl View for Scalar {
    type V = Fractions;

    closed spec fn view(&self) -> Fractions {
        self.value@
    }
}

impl Scalar {
    /// One rational in lowest terms, within `LIMIT`.
    #[verifier::type_invariant]
    pub open spec fn wf(self) -> bool {
        &&& self@.num.len() == 1
        &&& self@.lowest()
        &&& self@.within(LIMIT as int)
    }

    /// The tuple that holds the rational.
    pub(crate) fn cells(&self) -> (r: &Rationals<1>)
        ensures
            r@ == self@,
            r.wf(),
            self.wf(),
    {
        proof {
            use_type_invariant(self);
        }
        &self.value
    }

    /// The scalar that holds the given tuple.
    pub(crate) fn from_cells(value: Rationals<1>) -> (r: Scalar)
        ensures
            r@ == value@,
            r.wf(),
    {
        proof {
            use_type_invariant(&value);
        }
        Scalar { value }
    }

    /// The rational `num / den` in lowest terms. A denominator that is not positive is
    /// refused with `BadDenominator`, a value whose lowest terms are beyond `LIMIT` with
    /// `Overflow`.
    pub fn new(num: i64, den: i64) -> (r: Result<Scalar, TransformError>)
        ensures
            match r {
                Ok(s) => den > 0 && s@ == raw_scalar(num as int, den as int).reduced() && s.wf(),
                Err(e) => if den <= 0 {
                    e == TransformError::BadDenominator
                } else {
                    e == TransformError::Overflow && !raw_scalar(
                        num as int,
                        den as int,
                    ).reduced().within(LIMIT as int)
                },
            },
    {
        if den <= 0 {
            return Err(TransformError::BadDenominator);
        }
        let wide: [i128; 1] = [num as i128];
        proof {
            assert(wide_ints(wide) =~= seq![num as int]);
        }
        match Rationals::checked(&wide, den as i128) {
            Ok(value) => Ok(Scalar { value }),
            Err(e) => Err(e),
        }
    }

    /// The number zero.
    pub fn zero() -> (s: Scalar)
        ensures
            s@ == raw_scalar(0, 1),
            s.wf(),
    {
        let wide: [i128; 1] = [0i128];
        proof {
            assert(wide_ints(wide) =~= seq![0int]);
            crate::linear4::lemma_gcd_fold_of_one(seq![0int]);
            crate::fraction::lemma_lowest_is_reduced(raw_scalar(0, 1));
        }
        let value = Rationals::reduce(&wide, 1);
        Scalar { value }
    }

    /// The number one.
    pub fn one() -> (s: Scalar)
        ensures
            s@ == raw_scalar(1, 1),
            s.wf(),
    {
        let wide: [i128; 1] = [1i128];
        proof {
            assert(wide_ints(wide) =~= seq![1int]);
            crate::linear4::lemma_gcd_fold_of_one(seq![1int]);
            crate::fraction::lemma_lowest_is_reduced(raw_scalar(1, 1));
        }
        let value = Rationals::reduce(&wide, 1);
        Scalar { value }
    }

    /// The numerator of the rational in lowest terms.
    pub fn numerator(&self) -> (n: i64)
        ensures
            n == self@.num[0],
            -LIMIT <= n <= LIMIT,
    {
        self.cells().numerator(0)
    }

    /// The denominator of the rational in lowest terms.
    pub fn denominator(&self) -> (d: i64)
        ensures
            d == self@.den,
            0 < d <= LIMIT,
    {
        self.cells().denominator()
    }

    /// The sum of two numbers.
    pub fn add(&self, other: &Scalar) -> (r: Result<Scalar, TransformError>)
        ensures
            match r {
                Ok(s) => s@ == self@.sum(other@).reduced() && s.wf(),
                Err(e) => e == TransformError::Overflow && !self@.sum(other@).reduced().within(
                    LIMIT as int,
                ),
            },
    {
        match self.cells().add(other.cells()) {
            Ok(value) => Ok(Scalar { value }),
            Err(e) => Err(e),
        }
    }

    /// The difference of two numbers.
    pub fn sub(&self, other: &Scalar) -> (r: Result<Scalar, TransformError>)
        ensures
            match r {
                Ok(s) => s@ == self@.difference(other@).reduced() && s.wf(),
                Err(e) => e == TransformError::Overflow && !self@.difference(
                    other@,
                ).reduced().within(LIMIT as int),
            },
    {
        match self.cells().sub(other.cells()) {
            Ok(value) => Ok(Scalar { value }),
            Err(e) => Err(e),
        }
    }

    /// The product of two numbers.
    pub fn mul(&self, other: &Scalar) -> (r: Result<Scalar, TransformError>)
        ensures
            match r {
                Ok(s) => s@ == self@.scaled_by(other@).reduced() && s.wf(),
                Err(e) => e == TransformError::Overflow && !self@.scaled_by(
                    other@,
                ).reduced().within(LIMIT as int),
            },
    {
        match self.cells().scale_by(other.cells()) {
            Ok(value) => Ok(Scalar { value }),
            Err(e) => Err(e),
        }
    }
}

} // verus!
