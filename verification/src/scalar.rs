//! The numeric capability set: what a scalar type must offer, and the
//! mathematical model that its operations are held to.

use core::cmp::Ordering;
use core::ops::{Add, Div, Mul, Sub};
use vstd::prelude::*;
use vstd::std_specs::cmp::PartialOrdSpec;
use vstd::std_specs::ops::{AddSpec, DivSpec, MulSpec, SubSpec};

verus! {

/// The mathematical value that a scalar stands for: a real number.
///
/// An implementation of the scalar traits that is compiled without the
/// verifier names the type of the specification members by this alias.
pub type Value = real;

/// The larger of two reals.
pub open spec fn max_spec(a: real, b: real) -> real {
    if a >= b {
        a
    } else {
        b
    }
}

/// The smaller of two reals.
pub open spec fn min_spec(a: real, b: real) -> real {
    if a <= b {
        a
    } else {
        b
    }
}

/// The magnitude of a real.
pub open spec fn abs_spec(a: real) -> real {
    if a >= 0real {
        a
    } else {
        -a
    }
}

/// The Euclidean remainder of `x` by a non-zero `d`: the one `r` with
/// `0 <= r < |d|` for which `x - r` is a whole multiple of `d`.
pub open spec fn rem_euclid_spec(x: real, d: real) -> real {
    x - abs_spec(d) * (x / abs_spec(d)).floor() as real
}

/// The nearest integer to `x`, with a tie going away from zero.
pub open spec fn round_spec(x: real) -> int {
    if x >= 0real {
        (x + 1real / 2real).floor()
    } else {
        -((1real / 2real - x).floor())
    }
}

/// How two reals compare, in the shape that comparison operators report.
pub open spec fn order_of(a: real, b: real) -> Option<Ordering> {
    if a < b {
        Some(Ordering::Less)
    } else if a == b {
        Some(Ordering::Equal)
    } else {
        Some(Ordering::Greater)
    }
}

/// Trigonometry and extrema on a scalar type.
///
/// Each value stands for a real number, its view. Sine and cosine are given
/// by a pair of functions on the reals that the implementation chooses,
/// together with its half-turn constant; the three laws hold them to what the
/// toolkit relies on.
pub trait FloatMath: Copy {
    /// The real number that this value stands for.
    spec fn view(self) -> real;

    /// The sine function that `sin` and `sin_cos` compute.
    spec fn sin_spec(x: real) -> real;

    /// The cosine function that `cos` and `sin_cos` compute.
    spec fn cos_spec(x: real) -> real;

    /// The half turn, the angle that `pi` returns.
    spec fn pi_spec() -> real;

    /// The half turn is positive; sine and cosine take their exact values at
    /// the zero angle, the quarter turn, the half turn and the full turn.
    proof fn trig_laws()
        ensures
            Self::pi_spec() > 0real,
            Self::sin_spec(0real) == 0real,
            Self::cos_spec(0real) == 1real,
            Self::sin_spec(Self::pi_spec() / 2real) == 1real,
            Self::cos_spec(Self::pi_spec() / 2real) == 0real,
            Self::sin_spec(Self::pi_spec()) == 0real,
            Self::cos_spec(Self::pi_spec()) == -1real,
            Self::sin_spec(2real * Self::pi_spec()) == 0real,
            Self::cos_spec(2real * Self::pi_spec()) == 1real,
    ;

    /// Sine and cosine stay between minus one and one.
    proof fn trig_range(x: real)
        ensures
            -1real <= Self::sin_spec(x) <= 1real,
            -1real <= Self::cos_spec(x) <= 1real,
    ;

    /// Sine and cosine change no faster than the angle does.
    proof fn trig_lipschitz(x: real, y: real)
        ensures
            abs_spec(Self::sin_spec(x) - Self::sin_spec(y)) <= abs_spec(x - y),
            abs_spec(Self::cos_spec(x) - Self::cos_spec(y)) <= abs_spec(x - y),
    ;

    /// The cosine of the angle.
    fn cos(self) -> (r: Self)
        ensures
            r@ == Self::cos_spec(self@),
    ;

    /// The quarter turn.
    fn frac_pi_2() -> (r: Self)
        ensures
            r@ == Self::pi_spec() / 2real,
    ;

    /// The larger of the two values.
    fn max(self, other: Self) -> (r: Self)
        ensures
            r@ == max_spec(self@, other@),
    ;

    /// The smaller of the two values.
    fn min(self, other: Self) -> (r: Self)
        ensures
            r@ == min_spec(self@, other@),
    ;

    /// The half turn.
    fn pi() -> (r: Self)
        ensures
            r@ == Self::pi_spec(),
    ;

    /// The sine of the angle.
    fn sin(self) -> (r: Self)
        ensures
            r@ == Self::sin_spec(self@),
    ;

    /// The sine and the cosine of the angle, in that order.
    fn sin_cos(self) -> (r: (Self, Self))
        ensures
            r.0@ == Self::sin_spec(self@),
            r.1@ == Self::cos_spec(self@),
    ;

    /// The full turn.
    fn tau() -> (r: Self)
        ensures
            r@ == 2real * Self::pi_spec(),
    ;
}

/// A scalar: a value of an ordered field with trigonometry and a Euclidean
/// remainder.
///
/// The operators `+ - * /` and the comparisons act on the views as they act
/// on real numbers. Division by zero is allowed and yields a value of which
/// nothing is known.
///
/// These are the laws of exact arithmetic, and what is proved of the toolkit
/// is proved of exact scalars. A type whose arithmetic rounds, such as a
/// floating-point type, does not meet them, and nothing is claimed of it: a
/// rounding error may change the region that a phase falls in, or the turn at
/// which a remainder wraps.
pub trait Scalar: FloatMath + Add<Output = Self> + Sub<Output = Self> + Mul<Output = Self> + Div<
    Output = Self,
> + PartialOrd {
    /// The four operators accept every pair of operands and compute on the
    /// views.
    proof fn arithmetic_laws()
        ensures
            Self::obeys_add_spec(),
            Self::obeys_sub_spec(),
            Self::obeys_mul_spec(),
            Self::obeys_div_spec(),
            forall|a: Self, b: Self| #[trigger] a.add_req(b),
            forall|a: Self, b: Self| #[trigger] a.sub_req(b),
            forall|a: Self, b: Self| #[trigger] a.mul_req(b),
            forall|a: Self, b: Self| #[trigger] a.div_req(b),
            forall|a: Self, b: Self| (#[trigger] a.add_spec(b))@ == a@ + b@,
            forall|a: Self, b: Self| (#[trigger] a.sub_spec(b))@ == a@ - b@,
            forall|a: Self, b: Self| (#[trigger] a.mul_spec(b))@ == a@ * b@,
            forall|a: Self, b: Self| b@ != 0real ==> (#[trigger] a.div_spec(b))@ == a@ / b@,
    ;

    /// Values compare as their views do.
    proof fn order_laws()
        ensures
            Self::obeys_partial_cmp_spec(),
            forall|a: Self, b: Self| #[trigger] a.partial_cmp_spec(&b) == order_of(a@, b@),
    ;

    /// The additive identity.
    fn zero() -> (r: Self)
        ensures
            r@ == 0real,
    ;

    /// The multiplicative identity.
    fn one() -> (r: Self)
        ensures
            r@ == 1real,
    ;

    /// The magnitude of the value.
    fn abs(&self) -> (r: Self)
        ensures
            r@ == abs_spec(self@),
    ;

    /// The Euclidean remainder by a non-zero divisor. With a zero divisor
    /// nothing is known of the result.
    fn rem_euclid(&self, v: &Self) -> (r: Self)
        ensures
            v@ != 0real ==> r@ == rem_euclid_spec(self@, v@),
    ;
}

/// The integer that `to_i32` gives for a real: the nearest one, where it is
/// an `i32`.
pub open spec fn to_i32_spec(x: real) -> Option<i32> {
    let k = round_spec(x);
    if i32::MIN <= k <= i32::MAX {
        Some(k as i32)
    } else {
        None
    }
}

/// Conversions between scalars and integers, the logarithm and the power.
///
/// The natural logarithm and the power are given by functions on the reals
/// that the implementation chooses.
pub trait ScalarExt: Scalar {
    /// Whether the type has a value for the integer `n`.
    spec fn holds_i32(n: i32) -> bool;

    /// The logarithm that `ln` computes.
    spec fn ln_spec(x: real) -> real;

    /// The power that `powf` computes, of base `x` and exponent `n`.
    spec fn powf_spec(x: real, n: real) -> real;

    /// The logarithm is positive above one.
    proof fn ln_positive(x: real)
        requires
            x > 1real,
        ensures
            Self::ln_spec(x) > 0real,
    ;

    /// The scalar that stands for `n`, where the type has one.
    fn from_i32(n: i32) -> (r: Option<Self>)
        ensures
            r is Some <==> Self::holds_i32(n),
            r matches Some(v) ==> v@ == n as real,
    ;

    /// The nearest integer, a tie going away from zero; `None` where that
    /// integer is no `i32`. A conversion that cuts the fraction off does not
    /// meet this: an implementation on top of one rounds first.
    fn to_i32(self) -> (r: Option<i32>)
        ensures
            r == to_i32_spec(self@),
    ;

    /// The natural logarithm.
    fn ln(self) -> (r: Self)
        ensures
            r@ == Self::ln_spec(self@),
    ;

    /// The value raised to the power `n`.
    fn powf(self, n: Self) -> (r: Self)
        ensures
            r@ == Self::powf_spec(self@, n@),
    ;
}

/// The Euclidean remainder by a positive divisor lies in `[0, d)`.
pub proof fn lemma_rem_euclid_range(x: real, d: real)
    requires
        d > 0real,
    ensures
        0real <= rem_euclid_spec(x, d) < d,
{
    let q = (x / d).floor();
    assert(q as real <= x / d < q as real + 1real);
    assert(d * (q as real) <= x < d * (q as real) + d) by (nonlinear_arith)
        requires
            d > 0real,
            q as real <= x / d < q as real + 1real,
    ;
}

/// The remainder does not change by a whole number of divisors.
pub proof fn lemma_rem_euclid_periodic(x: real, turns: int, d: real)
    requires
        d > 0real,
    ensures
        rem_euclid_spec(x + turns as real * d, d) == rem_euclid_spec(x, d),
{
    let t = turns as real;
    assert((x + t * d) / d == x / d + t) by (nonlinear_arith)
        requires
            d > 0real,
    ;
    let q = (x / d).floor();
    assert((x / d + t).floor() == q + turns);
    assert(d * (q + turns) as real == d * q as real + t * d) by (nonlinear_arith)
        requires
            t == turns as real,
    ;
}

/// A remainder inside a sum may be taken or left: the remainder of the sum is
/// the same.
pub proof fn lemma_rem_euclid_absorb(x: real, y: real, d: real)
    requires
        d > 0real,
    ensures
        rem_euclid_spec(rem_euclid_spec(x, d) + y, d) == rem_euclid_spec(x + y, d),
        rem_euclid_spec(y - rem_euclid_spec(x, d), d) == rem_euclid_spec(y - x, d),
{
    let turns = (x / d).floor();
    lemma_rem_euclid_periodic(x + y, -turns, d);
    assert(x + y + (-turns) as real * d == rem_euclid_spec(x, d) + y) by (nonlinear_arith)
        requires
            rem_euclid_spec(x, d) == x - d * turns as real,
    ;
    lemma_rem_euclid_periodic(y - x, turns, d);
    assert(y - x + turns as real * d == y - rem_euclid_spec(x, d)) by (nonlinear_arith)
        requires
            rem_euclid_spec(x, d) == x - d * turns as real,
    ;
}

/// The remainder moves with the value, as long as it stays inside `[0, d)`.
pub proof fn lemma_rem_euclid_shift(x: real, delta: real, d: real)
    requires
        d > 0real,
        0real <= rem_euclid_spec(x, d) + delta < d,
    ensures
        rem_euclid_spec(x + delta, d) == rem_euclid_spec(x, d) + delta,
{
    let turns = (x / d).floor();
    let rest = rem_euclid_spec(x, d) + delta;
    lemma_rem_euclid_small(rest, d);
    lemma_rem_euclid_periodic(rest, turns, d);
    assert(rest + turns as real * d == x + delta) by (nonlinear_arith)
        requires
            rest == x - d * turns as real + delta,
    ;
}

/// A value in `[-d, 0)` has the remainder `x + d`.
pub proof fn lemma_rem_euclid_negative(x: real, d: real)
    requires
        -d <= x < 0real,
    ensures
        rem_euclid_spec(x, d) == x + d,
{
    assert(-1real <= x / d < 0real) by (nonlinear_arith)
        requires
            -d <= x < 0real,
    ;
    let q = (x / d).floor();
    assert(q == -1);
    assert(d * (q as real) == -d) by (nonlinear_arith)
        requires
            q == -1,
    ;
}

/// A value already in `[0, d)` is its own remainder.
pub proof fn lemma_rem_euclid_small(x: real, d: real)
    requires
        0real <= x < d,
    ensures
        rem_euclid_spec(x, d) == x,
{
    assert(0real <= x / d < 1real) by (nonlinear_arith)
        requires
            0real <= x < d,
    ;
    let q = (x / d).floor();
    assert(q == 0);
    assert(d * (q as real) == 0real) by (nonlinear_arith)
        requires
            q == 0,
    ;
}

} // verus!
