//! The derivative stack: a quantity and its successive time derivatives.

use crate::scalar::{FloatMath, Scalar};
use core::ops::{Add, Sub};
use vstd::prelude::*;
use vstd::std_specs::ops::{AddSpec, AddSpecImpl, SubSpec, SubSpecImpl};

verus! {

/// State vector for tracking position and derivatives.
///
/// Index 0 holds the position, 1 the velocity, 2 the acceleration, 3 the
/// jolt; the stack has exactly `D` entries.
pub struct StateVector<T, const D: usize>(pub [T; D]);

/// The component-wise sum of two sequences of equal length.
pub open spec fn sum_spec(a: Seq<real>, b: Seq<real>) -> Seq<real> {
    Seq::new(a.len(), |i: int| a[i] + b[i])
}

/// The component-wise difference of two sequences of equal length.
pub open spec fn difference_spec(a: Seq<real>, b: Seq<real>) -> Seq<real> {
    Seq::new(a.len(), |i: int| a[i] - b[i])
}

impl<T: FloatMath, const D: usize> StateVector<T, D> {
    /// The reals that the entries stand for, in order.
    pub open spec fn view(&self) -> Seq<real> {
        Seq::new(D as nat, |i: int| self.0[i]@)
    }
}

impl<T: Copy, const D: usize> StateVector<T, D> {
    /// The derivative of order `n`, where the stack holds one.
    pub open spec fn spec_derivative(&self, n: int) -> Option<T> {
        if 0 <= n < D {
            Some(self.0[n])
        } else {
            None
        }
    }

    /// The position: the derivative of order 0.
    pub fn position(&self) -> (r: Option<T>)
        ensures
            r == self.spec_derivative(0),
    {
        self.derivative(0)
    }

    /// The velocity: the derivative of order 1.
    pub fn velocity(&self) -> (r: Option<T>)
        ensures
            r == self.spec_derivative(1),
    {
        self.derivative(1)
    }

    /// The acceleration: the derivative of order 2.
    pub fn acceleration(&self) -> (r: Option<T>)
        ensures
            r == self.spec_derivative(2),
    {
        self.derivative(2)
    }

    /// The jolt: the derivative of order 3.
    pub fn jolt(&self) -> (r: Option<T>)
        ensures
            r == self.spec_derivative(3),
    {
        self.derivative(3)
    }

    /// The derivative of order `n`; `None` beyond the end of the stack.
    pub fn derivative(&self, n: usize) -> (r: Option<T>)
        ensures
            r == self.spec_derivative(n as int),
    {
        if n < D {
            Some(self.0[n])
        } else {
            None
        }
    }
}

/// Whether `sum` holds, entry by entry, the sums of the entries of `a` and `b`.
pub open spec fn is_sum_of<T: Scalar, const D: usize>(sum: [T; D], a: [T; D], b: [T; D]) -> bool {
    forall|i: int| 0 <= i < D ==> sum[i] == #[trigger] a[i].add_spec(b[i])
}

/// Whether `difference` holds, entry by entry, the differences of the entries
/// of `a` and `b`.
pub open spec fn is_difference_of<T: Scalar, const D: usize>(
    difference: [T; D],
    a: [T; D],
    b: [T; D],
) -> bool {
    forall|i: int| 0 <= i < D ==> difference[i] == #[trigger] a[i].sub_spec(b[i])
}

impl<T: Scalar, const D: usize> AddSpecImpl for StateVector<T, D> {
    open spec fn obeys_add_spec() -> bool {
        true
    }

    open spec fn add_req(self, rhs: Self) -> bool {
        true
    }

    open spec fn add_spec(self, rhs: Self) -> Self {
        StateVector(choose|sum: [T; D]| is_sum_of(sum, self.0, rhs.0))
    }
}

impl<T: Scalar, const D: usize> Add for StateVector<T, D> {
    type Output = Self;

    /// The component-wise sum.
    #[verifier::loop_isolation(false)]
    fn add(self, rhs: Self) -> (r: Self)
        ensures
            r@ == sum_spec(self@, rhs@),
    {
        proof {
            T::arithmetic_laws();
        }
        let mut result = [T::zero();D];
        let mut i: usize = 0;
        while i < D
            invariant
                i <= D,
                forall|j: int| 0 <= j < i ==> result[j] == #[trigger] self.0[j].add_spec(rhs.0[j]),
            decreases D - i,
        {
            result[i] = self.0[i] + rhs.0[i];
            i += 1;
        }
        proof {
            assert(is_sum_of(result, self.0, rhs.0));
            let chosen = choose|sum: [T; D]| is_sum_of(sum, self.0, rhs.0);
            assert forall|i: int| 0 <= i < D implies result[i] == chosen[i] && result[i]@
                == self.0[i]@ + rhs.0[i]@ by {
                let entry = self.0[i].add_spec(rhs.0[i]);
                assert(result[i] == entry && chosen[i] == entry);
            }
            assert(result =~= chosen);
        }
        let r = StateVector(result);
        assert(r@ =~= sum_spec(self@, rhs@));
        r
    }
}

impl<T: Scalar, const D: usize> SubSpecImpl for StateVector<T, D> {
    open spec fn obeys_sub_spec() -> bool {
        true
    }

    open spec fn sub_req(self, rhs: Self) -> bool {
        true
    }

    open spec fn sub_spec(self, rhs: Self) -> Self {
        StateVector(choose|difference: [T; D]| is_difference_of(difference, self.0, rhs.0))
    }
}

impl<T: Scalar, const D: usize> Sub for StateVector<T, D> {
    type Output = Self;

    /// The component-wise difference.
    #[verifier::loop_isolation(false)]
    fn sub(self, rhs: Self) -> (r: Self)
        ensures
            r@ == difference_spec(self@, rhs@),
    {
        proof {
            T::arithmetic_laws();
        }
        let mut result = [T::zero();D];
        let mut i: usize = 0;
        while i < D
            invariant
                i <= D,
                forall|j: int| 0 <= j < i ==> result[j] == #[trigger] self.0[j].sub_spec(rhs.0[j]),
            decreases D - i,
        {
            result[i] = self.0[i] - rhs.0[i];
            i += 1;
        }
        proof {
            assert(is_difference_of(result, self.0, rhs.0));
            let chosen = choose|difference: [T; D]| is_difference_of(difference, self.0, rhs.0);
            assert forall|i: int| 0 <= i < D implies result[i] == chosen[i] && result[i]@
                == self.0[i]@ - rhs.0[i]@ by {
                let entry = self.0[i].sub_spec(rhs.0[i]);
                assert(result[i] == entry && chosen[i] == entry);
            }
            assert(result =~= chosen);
        }
        let r = StateVector(result);
        assert(r@ =~= difference_spec(self@, rhs@));
        r
    }
}

} // verus!
